//! Hit points of a player.

use vstd::prelude::*;

verus! {

/// Hit points a new player starts with, and the most it can have.
pub const STARTING_HEALTH: u32 = 100;

/// Current and maximal hit points of an entity.
#[derive(Clone, Copy, Debug, PartialEq, Eq, Structural)]
pub struct Health {
    pub health: u32,
    pub max_health: u32,
}

impl Default for Health {
    /// A player at full health.
    fn default() -> (out: Self)
        ensures
            out.health == STARTING_HEALTH,
            out.max_health == STARTING_HEALTH,
    {
        Health { health: STARTING_HEALTH, max_health: STARTING_HEALTH }
    }
}

} // verus!
