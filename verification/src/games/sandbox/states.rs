//! The states of a game.

use vstd::prelude::*;

verus! {

#[derive(Debug, Clone, Copy, PartialEq, Eq, Structural)]
pub enum GameState {
    Title,
    Playing,
    Paused,
    GameOver,
}

} // verus!
