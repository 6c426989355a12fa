use crate::poke_move::{MoveCategory, MoveGen1};
use crate::pokemon::{PokemonGen1, StatStagesGen1, StatusGen1};
use crate::types::{type_effectiveness_gen_1, type_multiplier};
use vstd::arithmetic::div_mod::{lemma_div_is_ordered, lemma_div_is_ordered_by_denominator};
use vstd::arithmetic::mul::{lemma_mul_inequality, lemma_mul_is_commutative};
use vstd::prelude::*;
use vstd::string::StringExecFns;

verus! {

/// Where in the 85%-100% damage range the final value falls:
/// x217/255, x236/255, x255/255, or x(217 + a random draw)/255.
#[derive(Debug, Clone, Copy, PartialEq, Eq, Structural)]
pub enum DamageRoll {
    Min,
    Average,
    Max,
    Random,
}

// ================= Stat stages =================

/// A stage clamped to -6..=6.
pub open spec fn clamp_stage(stage: int) -> int {
    if stage < -6 {
        -6
    } else if stage > 6 {
        6
    } else {
        stage
    }
}

/// A stat after its stage: `base * (2 + s) / 2` for a clamped stage `s >= 0`,
/// `base * 2 / (2 - s)` below, truncated and at least 1.
pub open spec fn staged_stat(base: int, stage: int) -> int {
    let s = clamp_stage(stage);
    let v = if s >= 0 {
        base * (2 + s) / 2
    } else {
        base * 2 / (2 - s)
    };
    if v < 1 {
        1
    } else {
        v
    }
}

/// Applies a stat stage to a stat (see `staged_stat`).
pub fn apply_stat_modifier(base_stat: u8, stage: i8) -> (r: u32)
    ensures
        r == staged_stat(base_stat as int, stage as int),
        1 <= r <= 1020,
        base_stat == 0 ==> r == 1,
{
    let s: i32 = if stage < -6 {
        -6
    } else if stage > 6 {
        6
    } else {
        stage as i32
    };
    let (numerator, denominator): (u32, u32) = if s >= 0 {
        ((2 + s) as u32, 2)
    } else {
        (2, (2 - s) as u32)
    };
    assert(base_stat as u32 * numerator <= 2040) by (nonlinear_arith)
        requires
            base_stat <= 255,
            numerator <= 8,
    ;
    let result: u32 = (base_stat as u32 * numerator) / denominator;
    assert(result <= 1020) by (nonlinear_arith)
        requires
            result == (base_stat as int * numerator) / denominator as int,
            base_stat <= 255,
            numerator <= 8,
            denominator >= 2,
    ;
    if result < 1 {
        1
    } else {
        result
    }
}

// ================= The damage formula =================

/// The moves that halve the target's defense.
pub open spec fn self_destructing(name: Seq<char>) -> bool {
    name == "Selfdestruct"@ || name == "Explosion"@
}

/// The attacker's stat that the move's category selects.
pub open spec fn attack_base(attacker: PokemonGen1, category: MoveCategory) -> int {
    if category == MoveCategory::Physical {
        attacker.stats.attack as int
    } else {
        attacker.stats.special as int
    }
}

/// The attacker's stage for that stat.
pub open spec fn attack_stage(attacker: PokemonGen1, category: MoveCategory) -> int {
    if category == MoveCategory::Physical {
        attacker.stat_stages.attack as int
    } else {
        attacker.stat_stages.special as int
    }
}

/// The defender's stat that the move's category selects.
pub open spec fn defense_base(defender: PokemonGen1, category: MoveCategory) -> int {
    if category == MoveCategory::Physical {
        defender.stats.defense as int
    } else {
        defender.stats.special as int
    }
}

/// The defender's stage for that stat.
pub open spec fn defense_stage(defender: PokemonGen1, category: MoveCategory) -> int {
    if category == MoveCategory::Physical {
        defender.stat_stages.defense as int
    } else {
        defender.stat_stages.special as int
    }
}

/// Half of `x`, truncated, and at least 1.
pub open spec fn halved(x: int) -> int {
    if x / 2 < 1 {
        1
    } else {
        x / 2
    }
}

/// The attacking stat that enters the formula: staged unless the hit is
/// critical, then halved for a burned attacker using a physical move.
pub open spec fn effective_attack(attacker: PokemonGen1, mov: MoveGen1, is_critical: bool) -> int {
    let raw = attack_base(attacker, mov.category);
    let staged = if is_critical {
        raw
    } else {
        staged_stat(raw, attack_stage(attacker, mov.category))
    };
    if attacker.status == StatusGen1::Burned && mov.category == MoveCategory::Physical {
        halved(staged)
    } else {
        staged
    }
}

/// The defending stat that enters the formula: staged unless the hit is
/// critical (then raw, at least 1), then halved against a self-destructing
/// move.
pub open spec fn effective_defense(defender: PokemonGen1, mov: MoveGen1, is_critical: bool) -> int {
    let raw = defense_base(defender, mov.category);
    let staged = if is_critical {
        if raw < 1 {
            1
        } else {
            raw
        }
    } else {
        staged_stat(raw, defense_stage(defender, mov.category))
    };
    if self_destructing(mov.name@) {
        halved(staged)
    } else {
        staged
    }
}

/// `((2 * level * crit / 5 + 2) * power * attack) / (defense * 50) + 2`, with
/// `crit` 2 on a critical hit and 1 otherwise; each division truncates.
pub open spec fn base_damage(level: int, power: int, attack: int, defense: int, is_critical: bool) -> int {
    let crit = if is_critical {
        2int
    } else {
        1int
    };
    (2 * level * crit / 5 + 2) * power * attack / (defense * 50) + 2
}

/// The same-type bonus in halves: 3 (x1.5) when the move's type is one of
/// the attacker's, else 2.
pub open spec fn stab_halves(attacker: PokemonGen1, mov: MoveGen1) -> int {
    if attacker.types[0] == mov.typ || attacker.types[1] == mov.typ {
        3
    } else {
        2
    }
}

/// `floor(base * stab * type multiplier)`, capped at `u16::MAX`.
pub open spec fn damage_before_roll(
    attacker: PokemonGen1,
    defender: PokemonGen1,
    mov: MoveGen1,
    is_critical: bool,
) -> int {
    let base = base_damage(
        attacker.stats.lvl as int,
        mov.power as int,
        effective_attack(attacker, mov, is_critical),
        effective_defense(defender, mov, is_critical),
        is_critical,
    );
    let d = base * stab_halves(attacker, mov) * type_multiplier(
        mov.typ,
        defender.types[0],
        defender.types[1],
    ) / 8;
    if d > 65535 {
        65535
    } else {
        d
    }
}

/// The numerator over 255 of the roll: 217, 236 or 255, or `217 + random_byte % 39`
/// for a random roll.
pub open spec fn roll_factor(roll: DamageRoll, random_byte: u8) -> int {
    match roll {
        DamageRoll::Min => 217,
        DamageRoll::Average => 236,
        DamageRoll::Max => 255,
        DamageRoll::Random => 217 + random_byte % 39,
    }
}

/// The damage of `mov` from `attacker` to `defender`: 0 for a move without
/// power, else `damage_before_roll * roll_factor / 255`.
pub open spec fn damage(
    attacker: PokemonGen1,
    defender: PokemonGen1,
    mov: MoveGen1,
    is_critical: bool,
    roll: DamageRoll,
    random_byte: u8,
) -> int {
    if mov.power == 0 {
        0
    } else {
        damage_before_roll(attacker, defender, mov, is_critical) * roll_factor(roll, random_byte) / 255
    }
}

fn is_self_destructing(name: &String) -> (r: bool)
    ensures
        r == self_destructing(name@),
{
    let selfdestruct = String::from_str("Selfdestruct");
    let explosion = String::from_str("Explosion");
    *name == selfdestruct || *name == explosion
}

fn halve_at_least_one(x: u32) -> (r: u32)
    ensures
        r == halved(x as int),
        1 <= r,
        x >= 1 ==> r <= x,
{
    if x / 2 < 1 {
        1
    } else {
        x / 2
    }
}

/// The attacking and defending stats that enter the formula.
fn effective_stats(attacker: &PokemonGen1, defender: &PokemonGen1, mov: &MoveGen1, is_critical: bool) -> (r: (
    u32,
    u32,
))
    ensures
        r.0 == effective_attack(*attacker, *mov, is_critical),
        r.1 == effective_defense(*defender, *mov, is_critical),
        r.0 <= 1020,
        1 <= r.1 <= 1020,
{
    let physical = mov.category == MoveCategory::Physical;
    let (raw_attack, attack_stage) = if physical {
        (attacker.stats.attack, attacker.stat_stages.attack)
    } else {
        (attacker.stats.special, attacker.stat_stages.special)
    };
    let (raw_defense, defense_stage) = if physical {
        (defender.stats.defense, defender.stat_stages.defense)
    } else {
        (defender.stats.special, defender.stat_stages.special)
    };
    let mut attack: u32;
    let mut defense: u32;
    if is_critical {
        attack = raw_attack as u32;
        defense = if raw_defense < 1 {
            1
        } else {
            raw_defense as u32
        };
    } else {
        attack = apply_stat_modifier(raw_attack, attack_stage);
        defense = apply_stat_modifier(raw_defense, defense_stage);
    }
    if attacker.status == StatusGen1::Burned && physical {
        attack = halve_at_least_one(attack);
    }
    if is_self_destructing(&mov.name) {
        defense = halve_at_least_one(defense);
    }
    (attack, defense)
}

fn compute_base_damage(lvl: u8, power: u8, attack: u32, defense: u32, is_critical: bool) -> (r: u32)
    requires
        attack <= 1020,
        1 <= defense <= 1020,
    ensures
        r == base_damage(lvl as int, power as int, attack as int, defense as int, is_critical),
        r <= 206 * 255 * 1020 + 2,
{
    let crit: u32 = if is_critical {
        2
    } else {
        1
    };
    let level_term: u32 = 2 * (lvl as u32) * crit / 5 + 2;
    let power = power as u32;
    assert(level_term * power <= 206 * 255) by (nonlinear_arith)
        requires
            level_term <= 206,
            power <= 255,
    ;
    let level_power: u32 = level_term * power;
    assert(level_power * attack <= 206 * 255 * 1020) by (nonlinear_arith)
        requires
            level_power <= 206 * 255,
            attack <= 1020,
    ;
    let numerator: u32 = level_power * attack;
    let base: u32 = numerator / (defense * 50) + 2;
    assert(base <= 206 * 255 * 1020 + 2) by (nonlinear_arith)
        requires
            base as int == numerator as int / (defense as int * 50) + 2,
            numerator <= 206 * 255 * 1020,
            defense >= 1,
    ;
    base
}

/// Damage with the draw of a random roll given: `random_byte` is used by
/// `DamageRoll::Random` and ignored by the other rolls.
///
/// A move with power must be physical or special.
pub fn calc_damage_gen_1_with_byte(
    attacker: &PokemonGen1,
    defender: &PokemonGen1,
    mov: &MoveGen1,
    is_critical: bool,
    roll: DamageRoll,
    random_byte: u8,
) -> (r: u16)
    requires
        mov.power == 0 || mov.category != MoveCategory::Status,
    ensures
        r == damage(*attacker, *defender, *mov, is_critical, roll, random_byte),
        mov.power == 0 ==> r == 0,
{
    if mov.power == 0 {
        return 0;
    }
    let stab: u64 = if attacker.types[0] == mov.typ || attacker.types[1] == mov.typ {
        3
    } else {
        2
    };
    let (attack, defense) = effective_stats(attacker, defender, mov, is_critical);
    let base = compute_base_damage(attacker.stats.lvl, mov.power, attack, defense, is_critical);
    let multiplier = type_effectiveness_gen_1(mov.typ, &defender.types) as u64;
    assert(base as u64 * stab * multiplier <= (206 * 255 * 1020 + 2) * 3 * 16) by (nonlinear_arith)
        requires
            base <= 206 * 255 * 1020 + 2,
            stab <= 3,
            multiplier <= 16,
    ;
    let scaled: u64 = base as u64 * stab * multiplier / 8;
    let before_roll: u32 = if scaled > 65535 {
        65535
    } else {
        scaled as u32
    };
    let factor: u32 = match roll {
        DamageRoll::Min => 217,
        DamageRoll::Average => 236,
        DamageRoll::Max => 255,
        DamageRoll::Random => 217 + (random_byte % 39) as u32,
    };
    assert(before_roll * factor / 255 <= 65535) by (nonlinear_arith)
        requires
            before_roll <= 65535,
            factor <= 255,
    ;
    (before_roll * factor / 255) as u16
}

/// Relies on `rand::random::<u8>`: a byte drawn from the thread-local
/// generator. Any value may come back, and two calls may differ.
#[verifier::external_body]
fn random_byte() -> (r: u8) {
    rand::random::<u8>()
}

/// Damage of `mov` from `attacker` to `defender`. A random roll draws a fresh
/// byte on each call; the result is then `damage` for some byte, and for the
/// other rolls it does not depend on one.
///
/// A move with power must be physical or special.
pub fn calc_damage_gen_1(
    attacker: &PokemonGen1,
    defender: &PokemonGen1,
    mov: &MoveGen1,
    is_critical: bool,
    roll: DamageRoll,
) -> (r: u16)
    requires
        mov.power == 0 || mov.category != MoveCategory::Status,
    ensures
        roll != DamageRoll::Random ==> r == damage(*attacker, *defender, *mov, is_critical, roll, 0),
        exists|b: u8| r == #[trigger] damage(*attacker, *defender, *mov, is_critical, roll, b),
        mov.power == 0 ==> r == 0,
{
    let b: u8 = if roll == DamageRoll::Random && mov.power != 0 {
        random_byte()
    } else {
        0
    };
    let r = calc_damage_gen_1_with_byte(attacker, defender, mov, is_critical, roll, b);
    assert(r == damage(*attacker, *defender, *mov, is_critical, roll, b));
    r
}

// ================= Laws =================

/// For a fixed stat, a higher stage never gives a lower staged stat.
pub proof fn lemma_stage_monotone(base: int, s1: int, s2: int)
    requires
        0 <= base,
        s1 <= s2,
    ensures
        staged_stat(base, s1) <= staged_stat(base, s2),
{
    let c1 = clamp_stage(s1);
    let c2 = clamp_stage(s2);
    assert(c1 <= c2);
    if c1 >= 0 {
        lemma_mul_inequality(2 + c1, 2 + c2, base);
        lemma_div_is_ordered(base * (2 + c1), base * (2 + c2), 2);
    } else if c2 < 0 {
        lemma_div_is_ordered_by_denominator(base * 2, 2 - c2, 2 - c1);
    } else {
        lemma_div_is_ordered_by_denominator(base * 2, 2, 2 - c1);
        lemma_mul_inequality(2, 2 + c2, base);
        lemma_div_is_ordered(base * 2, base * (2 + c2), 2);
    }
}

proof fn lemma_damage_before_roll_nonnegative(
    attacker: PokemonGen1,
    defender: PokemonGen1,
    mov: MoveGen1,
    is_critical: bool,
)
    ensures
        damage_before_roll(attacker, defender, mov, is_critical) >= 0,
{
    let level = attacker.stats.lvl as int;
    let attack = effective_attack(attacker, mov, is_critical);
    let defense = effective_defense(defender, mov, is_critical);
    let crit = if is_critical {
        2int
    } else {
        1int
    };
    let level_term = 2 * level * crit / 5 + 2;
    assert(attack >= 0);
    assert(defense >= 1);
    assert(level_term * mov.power * attack >= 0) by (nonlinear_arith)
        requires
            level_term >= 0,
            mov.power >= 0,
            attack >= 0,
    ;
    let base = base_damage(level, mov.power as int, attack, defense, is_critical);
    assert(base >= 0) by (nonlinear_arith)
        requires
            base == level_term * mov.power * attack / (defense * 50) + 2,
            level_term * mov.power * attack >= 0,
            defense >= 1,
    ;
    let m = type_multiplier(mov.typ, defender.types[0], defender.types[1]);
    let stab = stab_halves(attacker, mov);
    assert(base * stab * m / 8 >= 0) by (nonlinear_arith)
        requires
            base >= 0,
            stab >= 0,
            m >= 0,
    ;
}

/// The fixed rolls are ordered `Min <= Average <= Max`, and a random roll
/// lies between `Min` and `Max` whatever byte was drawn.
pub proof fn lemma_roll_order(
    attacker: PokemonGen1,
    defender: PokemonGen1,
    mov: MoveGen1,
    is_critical: bool,
    random_byte: u8,
)
    ensures
        damage(attacker, defender, mov, is_critical, DamageRoll::Min, random_byte) <= damage(
            attacker,
            defender,
            mov,
            is_critical,
            DamageRoll::Average,
            random_byte,
        ),
        damage(attacker, defender, mov, is_critical, DamageRoll::Average, random_byte) <= damage(
            attacker,
            defender,
            mov,
            is_critical,
            DamageRoll::Max,
            random_byte,
        ),
        damage(attacker, defender, mov, is_critical, DamageRoll::Min, random_byte) <= damage(
            attacker,
            defender,
            mov,
            is_critical,
            DamageRoll::Random,
            random_byte,
        ),
        damage(attacker, defender, mov, is_critical, DamageRoll::Random, random_byte) <= damage(
            attacker,
            defender,
            mov,
            is_critical,
            DamageRoll::Max,
            random_byte,
        ),
{
    let x = damage_before_roll(attacker, defender, mov, is_critical);
    lemma_damage_before_roll_nonnegative(attacker, defender, mov, is_critical);
    let f = roll_factor(DamageRoll::Random, random_byte);
    assert(217 <= f <= 255);
    lemma_mul_inequality(217, 236, x);
    lemma_div_is_ordered(217 * x, 236 * x, 255);
    lemma_mul_inequality(236, 255, x);
    lemma_div_is_ordered(236 * x, 255 * x, 255);
    lemma_mul_inequality(217, f, x);
    lemma_div_is_ordered(217 * x, f * x, 255);
    lemma_mul_inequality(f, 255, x);
    lemma_div_is_ordered(f * x, 255 * x, 255);
    lemma_mul_is_commutative(x, 217);
    lemma_mul_is_commutative(x, 236);
    lemma_mul_is_commutative(x, 255);
    lemma_mul_is_commutative(x, f);
}

/// A burned attacker's physical attacking stat is half the unburned one,
/// truncated and at least 1; a special move's is not affected.
pub proof fn lemma_burn_halves_physical_attack(attacker: PokemonGen1, mov: MoveGen1, is_critical: bool)
    requires
        attacker.status == StatusGen1::Burned,
    ensures
        mov.category == MoveCategory::Physical ==> effective_attack(attacker, mov, is_critical)
            == halved(
            effective_attack((PokemonGen1 { status: StatusGen1::Healthy, ..attacker }), mov, is_critical),
        ),
        mov.category != MoveCategory::Physical ==> effective_attack(attacker, mov, is_critical)
            == effective_attack(
            (PokemonGen1 { status: StatusGen1::Healthy, ..attacker }),
            mov,
            is_critical,
        ),
{
}

/// On a critical hit the stages of both combatants play no part.
pub proof fn lemma_critical_ignores_stages(
    attacker: PokemonGen1,
    defender: PokemonGen1,
    mov: MoveGen1,
    roll: DamageRoll,
    random_byte: u8,
    attacker_stages: StatStagesGen1,
    defender_stages: StatStagesGen1,
)
    ensures
        damage(
            (PokemonGen1 { stat_stages: attacker_stages, ..attacker }),
            (PokemonGen1 { stat_stages: defender_stages, ..defender }),
            mov,
            true,
            roll,
            random_byte,
        ) == damage(attacker, defender, mov, true, roll, random_byte),
{
}

/// A critical hit deals at least the damage of the same hit made when the
/// attacker's stage is not above 0 and the defender's not below 0, such as
/// -6 against +6, provided the attacking stat is not 0.
pub proof fn lemma_critical_beats_unfavourable_stages(
    attacker: PokemonGen1,
    defender: PokemonGen1,
    mov: MoveGen1,
    roll: DamageRoll,
    random_byte: u8,
)
    requires
        attack_stage(attacker, mov.category) <= 0,
        defense_stage(defender, mov.category) >= 0,
        attack_base(attacker, mov.category) >= 1,
    ensures
        damage(attacker, defender, mov, true, roll, random_byte) >= damage(
            attacker,
            defender,
            mov,
            false,
            roll,
            random_byte,
        ),
{
    if mov.power == 0 {
        return;
    }
    let raw_attack = attack_base(attacker, mov.category);
    let raw_defense = defense_base(defender, mov.category);
    lemma_stage_monotone(raw_attack, attack_stage(attacker, mov.category), 0);
    lemma_stage_monotone(raw_defense, 0, defense_stage(defender, mov.category));
    let staged_attack = staged_stat(raw_attack, attack_stage(attacker, mov.category));
    let staged_defense = staged_stat(raw_defense, defense_stage(defender, mov.category));
    assert(staged_attack <= raw_attack);
    assert(staged_defense >= 1);
    lemma_div_is_ordered(staged_attack, raw_attack, 2);
    let crit_defense = if raw_defense < 1 {
        1
    } else {
        raw_defense
    };
    assert(crit_defense <= staged_defense);
    lemma_div_is_ordered(crit_defense, staged_defense, 2);

    let a_c = effective_attack(attacker, mov, true);
    let a_n = effective_attack(attacker, mov, false);
    let d_c = effective_defense(defender, mov, true);
    let d_n = effective_defense(defender, mov, false);
    assert(0 <= a_n <= a_c);
    assert(1 <= d_c <= d_n);

    let level = attacker.stats.lvl as int;
    let power = mov.power as int;
    lemma_div_is_ordered(2 * level * 1, 2 * level * 2, 5);
    let l_c = 2 * level * 2 / 5 + 2;
    let l_n = 2 * level * 1 / 5 + 2;
    assert(0 <= l_n <= l_c);
    lemma_mul_inequality(l_n, l_c, power);
    lemma_mul_inequality(a_n, a_c, l_c * power);
    lemma_mul_is_commutative(a_n, l_c * power);
    lemma_mul_is_commutative(a_c, l_c * power);
    lemma_mul_inequality(l_n * power, l_c * power, a_n);
    let n_c = l_c * power * a_c;
    let n_n = l_n * power * a_n;
    assert(0 <= n_n <= n_c) by (nonlinear_arith)
        requires
            0 <= l_n <= l_c,
            0 <= power,
            0 <= a_n <= a_c,
            n_c == l_c * power * a_c,
            n_n == l_n * power * a_n,
    ;
    lemma_div_is_ordered(n_n, n_c, d_c * 50);
    lemma_div_is_ordered_by_denominator(n_n, d_c * 50, d_n * 50);
    let b_c = base_damage(level, power, a_c, d_c, true);
    let b_n = base_damage(level, power, a_n, d_n, false);
    assert(b_n <= b_c);

    let stab = stab_halves(attacker, mov);
    let m = type_multiplier(mov.typ, defender.types[0], defender.types[1]);
    assert(b_n * stab * m <= b_c * stab * m) by (nonlinear_arith)
        requires
            b_n <= b_c,
            stab >= 0,
            m >= 0,
    ;
    lemma_div_is_ordered(b_n * stab * m, b_c * stab * m, 8);
    let x_c = damage_before_roll(attacker, defender, mov, true);
    let x_n = damage_before_roll(attacker, defender, mov, false);
    assert(x_n <= x_c);
    let f = roll_factor(roll, random_byte);
    lemma_mul_inequality(x_n, x_c, f);
    lemma_div_is_ordered(x_n * f, x_c * f, 255);
}

} // verus!
