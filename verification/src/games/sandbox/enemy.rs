//! The enemies of the sandbox.

use vstd::prelude::*;

verus! {

#[derive(Debug, Clone, Copy, PartialEq, Eq, Structural)]
pub struct Enemy {
    pub threat_level: u8,
}

impl Enemy {
    /// An enemy of the given threat level.
    pub fn new(threat_level: u8) -> (enemy: Enemy)
        ensures
            enemy.threat_level == threat_level,
    {
        Enemy { threat_level }
    }
}

impl Default for Enemy {
    /// A harmless enemy.
    fn default() -> (enemy: Enemy)
        ensures
            enemy.threat_level == 0,
    {
        Enemy { threat_level: 0 }
    }
}

} // verus!
