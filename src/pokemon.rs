use crate::types::TypeGen1;
use vstd::prelude::*;

verus! {

/// A combatant: its name, two type slots (the second `NoType` when it has one
/// type), battle stats, growth values, stat stages and status condition.
#[derive(Debug, Clone)]
pub struct PokemonGen1 {
    pub name: String,
    pub types: [TypeGen1; 2],
    pub stats: StatsGen1,
    pub ivs: IVsGen1,
    pub evs: EVsGen1,
    pub stat_stages: StatStagesGen1,
    pub status: StatusGen1,
}

/// Individual values, conventionally 0 to 15 each.
#[derive(Debug, Clone, Copy, PartialEq, Eq, Structural)]
pub struct IVsGen1 {
    pub hp: u8,
    pub attack: u8,
    pub defense: u8,
    pub special: u8,
    pub speed: u8,
}

/// Effort values, 0 to 65535 each; a stat grows with their square root.
#[derive(Debug, Clone, Copy, PartialEq, Eq, Structural)]
pub struct EVsGen1 {
    pub hp: u16,
    pub attack: u16,
    pub defense: u16,
    pub special: u16,
    pub speed: u16,
}

/// Level and battle stats. `special` serves both to attack and to defend.
#[derive(Debug, Clone, Copy, PartialEq, Eq, Structural)]
pub struct StatsGen1 {
    pub lvl: u8,
    pub hp: u8,
    pub attack: u8,
    pub defense: u8,
    pub special: u8,
    pub speed: u8,
}

/// In-battle stat stages, meant to lie in -6..=6; the damage formula clamps
/// them to that range.
#[derive(Debug, Clone, Copy, PartialEq, Eq, Structural)]
pub struct StatStagesGen1 {
    pub attack: i8,
    pub defense: i8,
    pub special: i8,
    pub speed: i8,
}

/// Status conditions. Only `Burned` affects damage; `Asleep` carries the
/// turns left.
#[derive(Debug, Clone, Copy, PartialEq, Eq, Structural)]
pub enum StatusGen1 {
    Healthy,
    Burned,
    Poisoned,
    Paralyzed,
    Asleep(u8),
    Frozen,
}

impl Default for PokemonGen1 {
    /// An unnamed single-typed Normal combatant at level 100, with every stat,
    /// growth value and stage at 0 and no status.
    fn default() -> (r: Self)
        ensures
            r.name@ == Seq::<char>::empty(),
            r.types[0] == TypeGen1::Normal,
            r.types[1] == TypeGen1::NoType,
            r.stats == (StatsGen1 { lvl: 100, hp: 0, attack: 0, defense: 0, special: 0, speed: 0 }),
            r.ivs == (IVsGen1 { hp: 0, attack: 0, defense: 0, special: 0, speed: 0 }),
            r.evs == (EVsGen1 { hp: 0, attack: 0, defense: 0, special: 0, speed: 0 }),
            r.stat_stages == (StatStagesGen1 { attack: 0, defense: 0, special: 0, speed: 0 }),
            r.status == StatusGen1::Healthy,
    {
        PokemonGen1 {
            name: String::new(),
            types: [TypeGen1::Normal, TypeGen1::NoType],
            stats: StatsGen1::default(),
            ivs: IVsGen1::default(),
            evs: EVsGen1::default(),
            stat_stages: StatStagesGen1::default(),
            status: StatusGen1::default(),
        }
    }
}

impl Default for IVsGen1 {
    /// All individual values at 0.
    fn default() -> (r: Self)
        ensures
            r == (IVsGen1 { hp: 0, attack: 0, defense: 0, special: 0, speed: 0 }),
    {
        IVsGen1 { hp: 0, attack: 0, defense: 0, special: 0, speed: 0 }
    }
}

impl Default for EVsGen1 {
    /// All effort values at 0.
    fn default() -> (r: Self)
        ensures
            r == (EVsGen1 { hp: 0, attack: 0, defense: 0, special: 0, speed: 0 }),
    {
        EVsGen1 { hp: 0, attack: 0, defense: 0, special: 0, speed: 0 }
    }
}

impl Default for StatsGen1 {
    /// Level 100 with every stat at 0.
    fn default() -> (r: Self)
        ensures
            r == (StatsGen1 { lvl: 100, hp: 0, attack: 0, defense: 0, special: 0, speed: 0 }),
    {
        StatsGen1 { lvl: 100, hp: 0, attack: 0, defense: 0, special: 0, speed: 0 }
    }
}

impl Default for StatStagesGen1 {
    /// Every stage neutral.
    fn default() -> (r: Self)
        ensures
            r == (StatStagesGen1 { attack: 0, defense: 0, special: 0, speed: 0 }),
    {
        StatStagesGen1 { attack: 0, defense: 0, special: 0, speed: 0 }
    }
}

impl Default for StatusGen1 {
    /// No status condition.
    fn default() -> (r: Self)
        ensures
            r == StatusGen1::Healthy,
    {
        StatusGen1::Healthy
    }
}

// ================= Stat growth =================

/// `r` is the integer square root of `n`: `r * r <= n < (r + 1) * (r + 1)`.
pub open spec fn is_floor_sqrt(r: int, n: int) -> bool {
    0 <= r && r * r <= n && n < (r + 1) * (r + 1)
}

/// The integer square root of `n`.
pub open spec fn floor_sqrt(n: int) -> int {
    choose|r: int| is_floor_sqrt(r, n)
}

proof fn lemma_floor_sqrt_unique(r: int, n: int)
    requires
        is_floor_sqrt(r, n),
    ensures
        floor_sqrt(n) == r,
{
    let c = floor_sqrt(n);
    assert(is_floor_sqrt(c, n));
    if c < r {
        assert((c + 1) * (c + 1) <= r * r) by (nonlinear_arith)
            requires
                0 <= c < r,
        ;
    } else if r < c {
        assert((r + 1) * (r + 1) <= c * c) by (nonlinear_arith)
            requires
                0 <= r < c,
        ;
    }
}

fn floor_sqrt_u16(n: u16) -> (r: u16)
    ensures
        r == floor_sqrt(n as int),
        r <= 255,
{
    let mut r: u32 = 0;
    while r < 255
        invariant
            r * r <= n,
            r <= 255,
        decreases 255 - r,
    {
        let next = r + 1;
        assert(next * next <= 65025) by (nonlinear_arith)
            requires
                next <= 255,
        ;
        if next * next > n as u32 {
            proof {
                lemma_floor_sqrt_unique(r as int, n as int);
            }
            return r as u16;
        }
        r = next;
    }
    proof {
        assert(r == 255);
        assert((r + 1) * (r + 1) == 256 * 256);
        lemma_floor_sqrt_unique(r as int, n as int);
    }
    r as u16
}

/// A stat at `level` from its base value, individual value and effort value:
/// `((base + iv) * 2 + floor_sqrt(ev)) * level / 100`, plus 10 for hit points
/// and 5 otherwise, capped at 255.
pub open spec fn stat_value(level: int, base: int, iv: int, ev: int, is_hp: bool) -> int {
    let v = ((base + iv) * 2 + floor_sqrt(ev)) * level / 100 + if is_hp {
        10int
    } else {
        5int
    };
    if v > 255 {
        255
    } else {
        v
    }
}

impl PokemonGen1 {
    /// Computes one stat at this combatant's level (see `stat_value`).
    pub fn calculate_stat(&self, base_stat: u8, iv: u8, ev: u16, is_hp: bool) -> (r: u8)
        ensures
            r == stat_value(self.stats.lvl as int, base_stat as int, iv as int, ev as int, is_hp),
    {
        let ev_factor = floor_sqrt_u16(ev) as u32;
        let growth: u32 = (base_stat as u32 + iv as u32) * 2 + ev_factor;
        let lvl = self.stats.lvl as u32;
        assert(growth * lvl <= 1275 * 255) by (nonlinear_arith)
            requires
                growth <= 1275,
                lvl <= 255,
        ;
        let bonus: u32 = if is_hp {
            10
        } else {
            5
        };
        let v: u32 = growth * lvl / 100 + bonus;
        if v > 255 {
            255
        } else {
            v as u8
        }
    }

    /// Replaces each battle stat by `calculate_stat` of it, with the matching
    /// individual and effort values; the level and every other field stay.
    pub fn recalculate_stats(&mut self)
        ensures
            final(self).stats.hp == stat_value(
                old(self).stats.lvl as int,
                old(self).stats.hp as int,
                old(self).ivs.hp as int,
                old(self).evs.hp as int,
                true,
            ),
            final(self).stats.attack == stat_value(
                old(self).stats.lvl as int,
                old(self).stats.attack as int,
                old(self).ivs.attack as int,
                old(self).evs.attack as int,
                false,
            ),
            final(self).stats.defense == stat_value(
                old(self).stats.lvl as int,
                old(self).stats.defense as int,
                old(self).ivs.defense as int,
                old(self).evs.defense as int,
                false,
            ),
            final(self).stats.special == stat_value(
                old(self).stats.lvl as int,
                old(self).stats.special as int,
                old(self).ivs.special as int,
                old(self).evs.special as int,
                false,
            ),
            final(self).stats.speed == stat_value(
                old(self).stats.lvl as int,
                old(self).stats.speed as int,
                old(self).ivs.speed as int,
                old(self).evs.speed as int,
                false,
            ),
            final(self).stats.lvl == old(self).stats.lvl,
            final(self).name == old(self).name,
            final(self).types == old(self).types,
            final(self).ivs == old(self).ivs,
            final(self).evs == old(self).evs,
            final(self).stat_stages == old(self).stat_stages,
            final(self).status == old(self).status,
    {
        self.stats.hp = self.calculate_stat(self.stats.hp, self.ivs.hp, self.evs.hp, true);
        self.stats.attack = self.calculate_stat(
            self.stats.attack,
            self.ivs.attack,
            self.evs.attack,
            false,
        );
        self.stats.defense = self.calculate_stat(
            self.stats.defense,
            self.ivs.defense,
            self.evs.defense,
            false,
        );
        self.stats.special = self.calculate_stat(
            self.stats.special,
            self.ivs.special,
            self.evs.special,
            false,
        );
        self.stats.speed = self.calculate_stat(
            self.stats.speed,
            self.ivs.speed,
            self.evs.speed,
            false,
        );
    }
}

} // verus!
