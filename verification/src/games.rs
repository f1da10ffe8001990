//! The games that the engine can host.

use vstd::prelude::*;
use crate::games::sandbox::states::GameState;

pub mod player;
pub mod sandbox;

verus! {

/// What a game asks of its window. A field that is `None` leaves the choice
/// to the engine.
#[derive(Debug, Clone)]
pub struct GameWindowDescriptor {
    pub title: Option<String>,
    pub width: Option<u32>,
    pub height: Option<u32>,
    pub resizable: bool,
}

impl Default for GameWindowDescriptor {
    /// A resizable window with nothing else asked for.
    fn default() -> (d: GameWindowDescriptor)
        ensures
            d.title.is_none(),
            d.width.is_none(),
            d.height.is_none(),
            d.resizable,
    {
        GameWindowDescriptor { title: None, width: None, height: None, resizable: true }
    }
}

/// A game that has nothing but its state.
#[derive(Debug)]
pub struct Game {
    pub state: GameState,
}

impl Game {
    /// A game on its title screen.
    pub fn new() -> (game: Game)
        ensures
            game.state == GameState::Title,
    {
        Game { state: GameState::Title }
    }

    /// Advances the game by one tick. Nothing changes yet.
    pub fn update(&mut self)
        ensures
            final(self).state == old(self).state,
    {
    }
}

} // verus!
