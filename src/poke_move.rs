use crate::types::TypeGen1;
use vstd::prelude::*;

verus! {

/// A move: its name, type, base power (0 for moves that deal no direct
/// damage) and category.
#[derive(Debug, Clone)]
pub struct MoveGen1 {
    /// The name of the move, e.g. "Tackle".
    pub name: String,
    /// The type of the move.
    pub typ: TypeGen1,
    /// The base power of the move, 0 for status moves.
    pub power: u8,
    /// Which stats the move uses.
    pub category: MoveCategory,
}

/// The category of a move.
#[derive(Debug, Clone, Copy, PartialEq, Eq, Structural)]
pub enum MoveCategory {
    /// Uses Attack against Defense.
    Physical,
    /// Uses Special against Special.
    Special,
    /// Deals no direct damage.
    Status,
}

impl Default for MoveGen1 {
    /// An unnamed Normal-type physical move of power 50.
    fn default() -> (r: Self)
        ensures
            r.name@ == Seq::<char>::empty(),
            r.typ == TypeGen1::Normal,
            r.power == 50,
            r.category == MoveCategory::Physical,
    {
        MoveGen1 {
            name: String::new(),
            typ: TypeGen1::Normal,
            power: 50,
            category: MoveCategory::Physical,
        }
    }
}

impl Default for MoveCategory {
    /// The default category is `Status`.
    fn default() -> (r: Self)
        ensures
            r == MoveCategory::Status,
    {
        MoveCategory::Status
    }
}

} // verus!
