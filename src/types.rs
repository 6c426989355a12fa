use vstd::prelude::*;

verus! {

broadcast use vstd::seq_lib::lemma_seq_contains_after_push;

/// The elemental types of the first-generation ruleset.
///
/// There are fifteen real types; `NoType` fills the second slot of a
/// single-typed combatant and is never the type of a move.
#[derive(Debug, Clone, Copy, PartialEq, Eq, Structural)]
pub enum TypeGen1 {
    Normal,
    Fire,
    Water,
    Electric,
    Grass,
    Ice,
    Fighting,
    Poison,
    Ground,
    Flying,
    Psychic,
    Bug,
    Rock,
    GhostType,
    Dragon,
    NoType,
}

/// Position of a type in the declaration: 0 for `Normal` up to 15 for `NoType`.
pub open spec fn type_index(t: TypeGen1) -> nat {
    match t {
        TypeGen1::Normal => 0,
        TypeGen1::Fire => 1,
        TypeGen1::Water => 2,
        TypeGen1::Electric => 3,
        TypeGen1::Grass => 4,
        TypeGen1::Ice => 5,
        TypeGen1::Fighting => 6,
        TypeGen1::Poison => 7,
        TypeGen1::Ground => 8,
        TypeGen1::Flying => 9,
        TypeGen1::Psychic => 10,
        TypeGen1::Bug => 11,
        TypeGen1::Rock => 12,
        TypeGen1::GhostType => 13,
        TypeGen1::Dragon => 14,
        TypeGen1::NoType => 15,
    }
}

impl TypeGen1 {
    /// The ordinal of this type (see `type_index`).
    pub fn index(self) -> (r: usize)
        ensures
            r == type_index(self),
    {
        match self {
            TypeGen1::Normal => 0,
            TypeGen1::Fire => 1,
            TypeGen1::Water => 2,
            TypeGen1::Electric => 3,
            TypeGen1::Grass => 4,
            TypeGen1::Ice => 5,
            TypeGen1::Fighting => 6,
            TypeGen1::Poison => 7,
            TypeGen1::Ground => 8,
            TypeGen1::Flying => 9,
            TypeGen1::Psychic => 10,
            TypeGen1::Bug => 11,
            TypeGen1::Rock => 12,
            TypeGen1::GhostType => 13,
            TypeGen1::Dragon => 14,
            TypeGen1::NoType => 15,
        }
    }

    /// The fifteen real types in ordinal order, without `NoType`.
    pub fn iter() -> (r: Vec<TypeGen1>)
        ensures
            r@.len() == 15,
            forall|i: int| 0 <= i < 15 ==> type_index(#[trigger] r@[i]) == i,
    {
        vec![
            TypeGen1::Normal,
            TypeGen1::Fire,
            TypeGen1::Water,
            TypeGen1::Electric,
            TypeGen1::Grass,
            TypeGen1::Ice,
            TypeGen1::Fighting,
            TypeGen1::Poison,
            TypeGen1::Ground,
            TypeGen1::Flying,
            TypeGen1::Psychic,
            TypeGen1::Bug,
            TypeGen1::Rock,
            TypeGen1::GhostType,
            TypeGen1::Dragon,
        ]
    }
}

// ================= Pair lists =================

/// Super-effective matchups (x2), as `(attacking, defending)` pairs.
pub const SUPER_EFFECTIVE: [(TypeGen1, TypeGen1); 38] = [
    (TypeGen1::Fire, TypeGen1::Grass),
    (TypeGen1::Fire, TypeGen1::Ice),
    (TypeGen1::Fire, TypeGen1::Bug),
    (TypeGen1::Water, TypeGen1::Fire),
    (TypeGen1::Water, TypeGen1::Ground),
    (TypeGen1::Water, TypeGen1::Rock),
    (TypeGen1::Electric, TypeGen1::Water),
    (TypeGen1::Electric, TypeGen1::Flying),
    (TypeGen1::Grass, TypeGen1::Water),
    (TypeGen1::Grass, TypeGen1::Ground),
    (TypeGen1::Grass, TypeGen1::Rock),
    (TypeGen1::Ice, TypeGen1::Grass),
    (TypeGen1::Ice, TypeGen1::Ground),
    (TypeGen1::Ice, TypeGen1::Flying),
    (TypeGen1::Ice, TypeGen1::Dragon),
    (TypeGen1::Fighting, TypeGen1::Normal),
    (TypeGen1::Fighting, TypeGen1::Ice),
    (TypeGen1::Fighting, TypeGen1::Rock),
    (TypeGen1::Poison, TypeGen1::Grass),
    (TypeGen1::Poison, TypeGen1::Bug),
    (TypeGen1::Ground, TypeGen1::Fire),
    (TypeGen1::Ground, TypeGen1::Electric),
    (TypeGen1::Ground, TypeGen1::Poison),
    (TypeGen1::Ground, TypeGen1::Rock),
    (TypeGen1::Flying, TypeGen1::Grass),
    (TypeGen1::Flying, TypeGen1::Fighting),
    (TypeGen1::Flying, TypeGen1::Bug),
    (TypeGen1::Psychic, TypeGen1::Fighting),
    (TypeGen1::Psychic, TypeGen1::Poison),
    (TypeGen1::Bug, TypeGen1::Grass),
    (TypeGen1::Bug, TypeGen1::Poison),
    (TypeGen1::Bug, TypeGen1::Psychic),
    (TypeGen1::Rock, TypeGen1::Fire),
    (TypeGen1::Rock, TypeGen1::Ice),
    (TypeGen1::Rock, TypeGen1::Flying),
    (TypeGen1::Rock, TypeGen1::Bug),
    (TypeGen1::GhostType, TypeGen1::GhostType),
    (TypeGen1::Dragon, TypeGen1::Dragon),
];

/// Not-very-effective matchups (x0.5), as `(attacking, defending)` pairs.
pub const NOT_VERY_EFFECTIVE: [(TypeGen1, TypeGen1); 38] = [
    (TypeGen1::Normal, TypeGen1::Rock),
    (TypeGen1::Fire, TypeGen1::Fire),
    (TypeGen1::Fire, TypeGen1::Water),
    (TypeGen1::Fire, TypeGen1::Rock),
    (TypeGen1::Fire, TypeGen1::Dragon),
    (TypeGen1::Water, TypeGen1::Water),
    (TypeGen1::Water, TypeGen1::Grass),
    (TypeGen1::Water, TypeGen1::Dragon),
    (TypeGen1::Electric, TypeGen1::Electric),
    (TypeGen1::Electric, TypeGen1::Grass),
    (TypeGen1::Electric, TypeGen1::Dragon),
    (TypeGen1::Grass, TypeGen1::Fire),
    (TypeGen1::Grass, TypeGen1::Grass),
    (TypeGen1::Grass, TypeGen1::Poison),
    (TypeGen1::Grass, TypeGen1::Flying),
    (TypeGen1::Grass, TypeGen1::Bug),
    (TypeGen1::Grass, TypeGen1::Dragon),
    (TypeGen1::Ice, TypeGen1::Water),
    (TypeGen1::Ice, TypeGen1::Ice),
    (TypeGen1::Fighting, TypeGen1::Poison),
    (TypeGen1::Fighting, TypeGen1::Flying),
    (TypeGen1::Fighting, TypeGen1::Psychic),
    (TypeGen1::Fighting, TypeGen1::Bug),
    (TypeGen1::Poison, TypeGen1::Poison),
    (TypeGen1::Poison, TypeGen1::Ground),
    (TypeGen1::Poison, TypeGen1::Rock),
    (TypeGen1::Poison, TypeGen1::GhostType),
    (TypeGen1::Ground, TypeGen1::Grass),
    (TypeGen1::Ground, TypeGen1::Bug),
    (TypeGen1::Flying, TypeGen1::Electric),
    (TypeGen1::Flying, TypeGen1::Rock),
    (TypeGen1::Psychic, TypeGen1::Psychic),
    (TypeGen1::Bug, TypeGen1::Fire),
    (TypeGen1::Bug, TypeGen1::Fighting),
    (TypeGen1::Bug, TypeGen1::Flying),
    (TypeGen1::Bug, TypeGen1::GhostType),
    (TypeGen1::Rock, TypeGen1::Fighting),
    (TypeGen1::Rock, TypeGen1::Ground),
];

/// Immunities (x0), as `(attacking, defending)` pairs.
pub const IMMUNE: [(TypeGen1, TypeGen1); 6] = [
    (TypeGen1::Normal, TypeGen1::GhostType),
    (TypeGen1::Electric, TypeGen1::Ground),
    (TypeGen1::Fighting, TypeGen1::GhostType),
    (TypeGen1::Ground, TypeGen1::Flying),
    (TypeGen1::GhostType, TypeGen1::Normal),
    (TypeGen1::GhostType, TypeGen1::Psychic),
];


/// `a` deals double damage to `d`.
pub open spec fn super_effective(a: TypeGen1, d: TypeGen1) -> bool {
    SUPER_EFFECTIVE@.contains((a, d))
}

/// `a` deals half damage to `d`.
pub open spec fn not_very_effective(a: TypeGen1, d: TypeGen1) -> bool {
    NOT_VERY_EFFECTIVE@.contains((a, d))
}

/// `a` deals no damage to `d`.
pub open spec fn immune(a: TypeGen1, d: TypeGen1) -> bool {
    IMMUNE@.contains((a, d))
}

/// What one defending slot contributes to the multiplier, in halves:
/// 4 for x2, 1 for x0.5, 2 for a neutral matchup or the empty slot.
pub open spec fn slot_halves(a: TypeGen1, d: TypeGen1) -> nat {
    if d == TypeGen1::NoType {
        2
    } else if super_effective(a, d) {
        4
    } else if not_very_effective(a, d) {
        1
    } else {
        2
    }
}

/// The damage multiplier of attacking type `a` against the defending slots
/// `d1` and `d2`, in quarters (4 means x1): 0 when either slot is immune,
/// else the product of the two slot factors.
pub open spec fn type_multiplier(a: TypeGen1, d1: TypeGen1, d2: TypeGen1) -> nat {
    if immune(a, d1) || immune(a, d2) {
        0
    } else {
        slot_halves(a, d1) * slot_halves(a, d2)
    }
}

/// The multiplier of `a` against `d` alone, in quarters.
pub open spec fn single_type_multiplier(a: TypeGen1, d: TypeGen1) -> nat {
    if immune(a, d) {
        0
    } else if super_effective(a, d) {
        8
    } else if not_very_effective(a, d) {
        2
    } else {
        4
    }
}

/// Whether `table` lists the pair `(a, d)`, by a linear scan.
fn listed(table: &[(TypeGen1, TypeGen1)], a: TypeGen1, d: TypeGen1) -> (r: bool)
    ensures
        r == table@.contains((a, d)),
{
    let mut i: usize = 0;
    while i < table.len()
        invariant
            i <= table@.len(),
            forall|j: int| 0 <= j < i ==> table@[j] != (a, d),
        decreases table@.len() - i,
    {
        if table[i].0 == a && table[i].1 == d {
            assert(table@[i as int] == (a, d));
            return true;
        }
        i = i + 1;
    }
    false
}

fn slot_halves_by_lists(a: TypeGen1, d: TypeGen1) -> (r: u8)
    ensures
        r == slot_halves(a, d),
{
    if d == TypeGen1::NoType {
        2
    } else if listed(&SUPER_EFFECTIVE, a, d) {
        4
    } else if listed(&NOT_VERY_EFFECTIVE, a, d) {
        1
    } else {
        2
    }
}

/// Type effectiveness by scanning the pair lists.
///
/// The result is in quarters: 0, 1, 2, 4, 8 or 16 for x0, x0.25, x0.5, x1,
/// x2 and x4. An immunity against either slot gives 0; otherwise the factors
/// of the two slots multiply, the empty slot counting as neutral.
pub fn type_effectiveness_gen_1(move_type: TypeGen1, defender_types: &[TypeGen1; 2]) -> (r: u8)
    ensures
        r == type_multiplier(move_type, defender_types[0], defender_types[1]),
        r <= 16,
{
    if listed(&IMMUNE, move_type, defender_types[0]) || listed(&IMMUNE, move_type, defender_types[1]) {
        return 0;
    }
    let first = slot_halves_by_lists(move_type, defender_types[0]);
    let second = slot_halves_by_lists(move_type, defender_types[1]);
    assert(first * second <= 16) by (nonlinear_arith)
        requires
            first <= 4,
            second <= 4,
    ;
    first * second
}

// ================= Bit sets =================

/// Super-effective matchups as bit sets: entry `a` has bit `d` set when type
/// ordinal `a` is super effective against type ordinal `d`.
pub const SUPER_EFFECTIVE_MASK: [u16; 15] = [
    0b00000_00000_00000, // Normal
    0b00010_00001_10000, // Fire
    0b00100_01000_00010, // Water
    0b00000_10000_00100, // Electric
    0b00100_01000_00100, // Grass
    0b10000_11000_10000, // Ice
    0b00100_00001_00001, // Fighting
    0b00010_00000_10000, // Poison
    0b00100_00100_01010, // Ground
    0b00010_00010_10000, // Flying
    0b00000_00110_00000, // Psychic
    0b00001_00100_10000, // Bug
    0b00010_10001_00010, // Rock
    0b01000_00000_00000, // GhostType
    0b10000_00000_00000, // Dragon
];

/// Not-very-effective matchups as bit sets, laid out as `SUPER_EFFECTIVE_MASK`.
pub const NOT_VERY_EFFECTIVE_MASK: [u16; 15] = [
    0b00100_00000_00000, // Normal
    0b10100_00000_00110, // Fire
    0b10000_00000_10100, // Water
    0b10000_00000_11000, // Electric
    0b10010_10100_10010, // Grass
    0b00000_00001_00100, // Ice
    0b00011_10100_00000, // Fighting
    0b01100_01100_00000, // Poison
    0b00010_00000_10000, // Ground
    0b00100_00000_01000, // Flying
    0b00001_00000_00000, // Psychic
    0b01000_10010_00010, // Bug
    0b00000_01010_00000, // Rock
    0b00000_00000_00000, // GhostType
    0b00000_00000_00000, // Dragon
];

/// Immunities as bit sets, laid out as `SUPER_EFFECTIVE_MASK`.
pub const IMMUNE_MASK: [u16; 15] = [
    0b01000_00000_00000, // Normal
    0b00000_00000_00000, // Fire
    0b00000_00000_00000, // Water
    0b00000_01000_00000, // Electric
    0b00000_00000_00000, // Grass
    0b00000_00000_00000, // Ice
    0b01000_00000_00000, // Fighting
    0b00000_00000_00000, // Poison
    0b00000_10000_00000, // Ground
    0b00000_00000_00000, // Flying
    0b00000_00000_00000, // Psychic
    0b00000_00000_00000, // Bug
    0b00000_00000_00000, // Rock
    0b00001_00000_00001, // GhostType
    0b00000_00000_00000, // Dragon
];


/// Bit `i` of `mask` is set.
pub open spec fn has_bit(mask: u16, i: u16) -> bool {
    mask & (1u16 << i) != 0
}

/// `mask_table` marks `a` against `d`; the empty slot is never marked.
pub open spec fn marked(mask_table: [u16; 15], a: TypeGen1, d: TypeGen1) -> bool {
    d != TypeGen1::NoType && has_bit(mask_table[type_index(a) as int], type_index(d) as u16)
}

/// `slot_halves`, read from the bit sets.
pub open spec fn mask_slot_halves(a: TypeGen1, d: TypeGen1) -> nat {
    if marked(SUPER_EFFECTIVE_MASK, a, d) {
        4
    } else if marked(NOT_VERY_EFFECTIVE_MASK, a, d) {
        1
    } else {
        2
    }
}

/// `type_multiplier`, read from the bit sets.
pub open spec fn mask_type_multiplier(a: TypeGen1, d1: TypeGen1, d2: TypeGen1) -> nat {
    if marked(IMMUNE_MASK, a, d1) || marked(IMMUNE_MASK, a, d2) {
        0
    } else {
        mask_slot_halves(a, d1) * mask_slot_halves(a, d2)
    }
}

fn is_marked(mask_table: &[u16; 15], a: TypeGen1, d: TypeGen1) -> (r: bool)
    requires
        a != TypeGen1::NoType,
    ensures
        r == marked(*mask_table, a, d),
{
    if d == TypeGen1::NoType {
        return false;
    }
    let bit: u16 = 1u16 << (d.index() as u16);
    mask_table[a.index()] & bit != 0
}

fn slot_halves_by_masks(a: TypeGen1, d: TypeGen1) -> (r: u8)
    requires
        a != TypeGen1::NoType,
    ensures
        r == mask_slot_halves(a, d),
{
    if is_marked(&SUPER_EFFECTIVE_MASK, a, d) {
        4
    } else if is_marked(&NOT_VERY_EFFECTIVE_MASK, a, d) {
        1
    } else {
        2
    }
}

/// Type effectiveness by bit-set lookup: one mask per attacking type, one
/// bit per defending type. Same quarters as `type_effectiveness_gen_1`.
pub fn type_effectiveness_gen_1_fast(move_type: TypeGen1, defender_types: &[TypeGen1; 2]) -> (r: u8)
    requires
        move_type != TypeGen1::NoType,
    ensures
        r == mask_type_multiplier(move_type, defender_types[0], defender_types[1]),
        r <= 16,
{
    if is_marked(&IMMUNE_MASK, move_type, defender_types[0]) || is_marked(
        &IMMUNE_MASK,
        move_type,
        defender_types[1],
    ) {
        return 0;
    }
    let first = slot_halves_by_masks(move_type, defender_types[0]);
    let second = slot_halves_by_masks(move_type, defender_types[1]);
    assert(first * second <= 16) by (nonlinear_arith)
        requires
            first <= 4,
            second <= 4,
    ;
    first * second
}

// ================= Agreement of the two tables =================

/// Each bit set marks exactly the pairs of the matching list.
proof fn lemma_masks_match_lists(a: TypeGen1, d: TypeGen1)
    requires
        a != TypeGen1::NoType,
        d != TypeGen1::NoType,
    ensures
        marked(SUPER_EFFECTIVE_MASK, a, d) == super_effective(a, d),
        marked(NOT_VERY_EFFECTIVE_MASK, a, d) == not_very_effective(a, d),
        marked(IMMUNE_MASK, a, d) == immune(a, d),
{
    let x = type_index(d) as u16;
    match a {
        TypeGen1::Normal => {
            assert(((0b00000_00000_00000u16 & (1u16 << x)) != 0 <==> (false))
                && ((0b00100_00000_00000u16 & (1u16 << x)) != 0 <==> (x == 12))
                && ((0b01000_00000_00000u16 & (1u16 << x)) != 0 <==> (x == 13))) by (bit_vector)
                requires
                    x < 15,
            ;
        },
        TypeGen1::Fire => {
            assert(((0b00010_00001_10000u16 & (1u16 << x)) != 0 <==> (x == 4 || x == 5 || x == 11))
                && ((0b10100_00000_00110u16 & (1u16 << x)) != 0 <==> (x == 1 || x == 2 || x == 12 || x == 14))
                && ((0b00000_00000_00000u16 & (1u16 << x)) != 0 <==> (false))) by (bit_vector)
                requires
                    x < 15,
            ;
        },
        TypeGen1::Water => {
            assert(((0b00100_01000_00010u16 & (1u16 << x)) != 0 <==> (x == 1 || x == 8 || x == 12))
                && ((0b10000_00000_10100u16 & (1u16 << x)) != 0 <==> (x == 2 || x == 4 || x == 14))
                && ((0b00000_00000_00000u16 & (1u16 << x)) != 0 <==> (false))) by (bit_vector)
                requires
                    x < 15,
            ;
        },
        TypeGen1::Electric => {
            assert(((0b00000_10000_00100u16 & (1u16 << x)) != 0 <==> (x == 2 || x == 9))
                && ((0b10000_00000_11000u16 & (1u16 << x)) != 0 <==> (x == 3 || x == 4 || x == 14))
                && ((0b00000_01000_00000u16 & (1u16 << x)) != 0 <==> (x == 8))) by (bit_vector)
                requires
                    x < 15,
            ;
        },
        TypeGen1::Grass => {
            assert(((0b00100_01000_00100u16 & (1u16 << x)) != 0 <==> (x == 2 || x == 8 || x == 12))
                && ((0b10010_10100_10010u16 & (1u16 << x)) != 0 <==> (x == 1 || x == 4 || x == 7 || x == 9 || x == 11 || x == 14))
                && ((0b00000_00000_00000u16 & (1u16 << x)) != 0 <==> (false))) by (bit_vector)
                requires
                    x < 15,
            ;
        },
        TypeGen1::Ice => {
            assert(((0b10000_11000_10000u16 & (1u16 << x)) != 0 <==> (x == 4 || x == 8 || x == 9 || x == 14))
                && ((0b00000_00001_00100u16 & (1u16 << x)) != 0 <==> (x == 2 || x == 5))
                && ((0b00000_00000_00000u16 & (1u16 << x)) != 0 <==> (false))) by (bit_vector)
                requires
                    x < 15,
            ;
        },
        TypeGen1::Fighting => {
            assert(((0b00100_00001_00001u16 & (1u16 << x)) != 0 <==> (x == 0 || x == 5 || x == 12))
                && ((0b00011_10100_00000u16 & (1u16 << x)) != 0 <==> (x == 7 || x == 9 || x == 10 || x == 11))
                && ((0b01000_00000_00000u16 & (1u16 << x)) != 0 <==> (x == 13))) by (bit_vector)
                requires
                    x < 15,
            ;
        },
        TypeGen1::Poison => {
            assert(((0b00010_00000_10000u16 & (1u16 << x)) != 0 <==> (x == 4 || x == 11))
                && ((0b01100_01100_00000u16 & (1u16 << x)) != 0 <==> (x == 7 || x == 8 || x == 12 || x == 13))
                && ((0b00000_00000_00000u16 & (1u16 << x)) != 0 <==> (false))) by (bit_vector)
                requires
                    x < 15,
            ;
        },
        TypeGen1::Ground => {
            assert(((0b00100_00100_01010u16 & (1u16 << x)) != 0 <==> (x == 1 || x == 3 || x == 7 || x == 12))
                && ((0b00010_00000_10000u16 & (1u16 << x)) != 0 <==> (x == 4 || x == 11))
                && ((0b00000_10000_00000u16 & (1u16 << x)) != 0 <==> (x == 9))) by (bit_vector)
                requires
                    x < 15,
            ;
        },
        TypeGen1::Flying => {
            assert(((0b00010_00010_10000u16 & (1u16 << x)) != 0 <==> (x == 4 || x == 6 || x == 11))
                && ((0b00100_00000_01000u16 & (1u16 << x)) != 0 <==> (x == 3 || x == 12))
                && ((0b00000_00000_00000u16 & (1u16 << x)) != 0 <==> (false))) by (bit_vector)
                requires
                    x < 15,
            ;
        },
        TypeGen1::Psychic => {
            assert(((0b00000_00110_00000u16 & (1u16 << x)) != 0 <==> (x == 6 || x == 7))
                && ((0b00001_00000_00000u16 & (1u16 << x)) != 0 <==> (x == 10))
                && ((0b00000_00000_00000u16 & (1u16 << x)) != 0 <==> (false))) by (bit_vector)
                requires
                    x < 15,
            ;
        },
        TypeGen1::Bug => {
            assert(((0b00001_00100_10000u16 & (1u16 << x)) != 0 <==> (x == 4 || x == 7 || x == 10))
                && ((0b01000_10010_00010u16 & (1u16 << x)) != 0 <==> (x == 1 || x == 6 || x == 9 || x == 13))
                && ((0b00000_00000_00000u16 & (1u16 << x)) != 0 <==> (false))) by (bit_vector)
                requires
                    x < 15,
            ;
        },
        TypeGen1::Rock => {
            assert(((0b00010_10001_00010u16 & (1u16 << x)) != 0 <==> (x == 1 || x == 5 || x == 9 || x == 11))
                && ((0b00000_01010_00000u16 & (1u16 << x)) != 0 <==> (x == 6 || x == 8))
                && ((0b00000_00000_00000u16 & (1u16 << x)) != 0 <==> (false))) by (bit_vector)
                requires
                    x < 15,
            ;
        },
        TypeGen1::GhostType => {
            assert(((0b01000_00000_00000u16 & (1u16 << x)) != 0 <==> (x == 13))
                && ((0b00000_00000_00000u16 & (1u16 << x)) != 0 <==> (false))
                && ((0b00001_00000_00001u16 & (1u16 << x)) != 0 <==> (x == 0 || x == 10))) by (bit_vector)
                requires
                    x < 15,
            ;
        },
        TypeGen1::Dragon => {
            assert(((0b10000_00000_00000u16 & (1u16 << x)) != 0 <==> (x == 14))
                && ((0b00000_00000_00000u16 & (1u16 << x)) != 0 <==> (false))
                && ((0b00000_00000_00000u16 & (1u16 << x)) != 0 <==> (false))) by (bit_vector)
                requires
                    x < 15,
            ;
        },
        TypeGen1::NoType => {},
    }
}

/// The bit-set lookup and the list scan give the same multiplier for every
/// attacking type and every pair of defending slots.
pub proof fn lemma_fast_agrees_with_scan(a: TypeGen1, d1: TypeGen1, d2: TypeGen1)
    requires
        a != TypeGen1::NoType,
    ensures
        mask_type_multiplier(a, d1, d2) == type_multiplier(a, d1, d2),
{
    if d1 != TypeGen1::NoType {
        lemma_masks_match_lists(a, d1);
    }
    if d2 != TypeGen1::NoType {
        lemma_masks_match_lists(a, d2);
    }
}

/// An immunity against either defending slot makes the multiplier 0,
/// whatever the other slot is.
pub proof fn lemma_immunity_dominates(a: TypeGen1, d1: TypeGen1, d2: TypeGen1)
    requires
        immune(a, d1) || immune(a, d2),
    ensures
        type_multiplier(a, d1, d2) == 0,
{
}

/// With the second slot empty, the multiplier is that of the first type alone.
pub proof fn lemma_empty_slot_is_single_type(a: TypeGen1, d: TypeGen1)
    ensures
        type_multiplier(a, d, TypeGen1::NoType) == single_type_multiplier(a, d),
{
}

} // verus!
