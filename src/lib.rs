//! Damage calculation for first-generation creature battles: the type chart
//! (as pair lists and as bit sets, proved to agree), stat stages, and the
//! damage formula with its critical-hit, burn, same-type and roll rules.

pub mod damage;
pub mod poke_move;
pub mod pokemon;
pub mod types;

pub use damage::{
    apply_stat_modifier, calc_damage_gen_1, calc_damage_gen_1_with_byte, DamageRoll,
};
pub use poke_move::{MoveCategory, MoveGen1};
pub use pokemon::{EVsGen1, IVsGen1, PokemonGen1, StatStagesGen1, StatsGen1, StatusGen1};
pub use types::{type_effectiveness_gen_1, type_effectiveness_gen_1_fast, TypeGen1};
