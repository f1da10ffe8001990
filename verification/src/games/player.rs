//! The player.

use vstd::prelude::*;

verus! {

#[derive(Debug)]
pub struct Player {
    pub name: String,
}

impl Player {
    /// A player called `name`.
    pub fn new(name: &str) -> (player: Player)
        ensures
            player.name@ == name@,
    {
        Player { name: name.to_owned() }
    }
}

impl Default for Player {
    /// A player without a name.
    fn default() -> (player: Player)
        ensures
            player.name@ == Seq::<char>::empty(),
    {
        Player { name: String::new() }
    }
}

} // verus!
