//! The sandbox game: a title screen and nothing to play yet.

use vstd::prelude::*;
use vstd::string::StringExecFns;
use crate::games::GameWindowDescriptor;
use crate::games::sandbox::start_window::StartWindow;
use crate::games::sandbox::states::GameState;

pub mod enemy;
pub mod start_window;
pub mod states;

verus! {

#[derive(Debug)]
pub struct SandboxGame {
    pub state: GameState,
    pub start_window: StartWindow,
    /// Whether the start window has been presented.
    pub start_logged: bool,
}

impl SandboxGame {
    /// A game on its title screen whose start window has not been presented.
    pub fn new() -> (game: SandboxGame)
        ensures
            game.state == GameState::Title,
            game.start_window.is_default(),
            !game.start_logged,
    {
        SandboxGame {
            state: GameState::Title,
            start_window: StartWindow::default(),
            start_logged: false,
        }
    }

    /// The name of the game.
    pub fn name(&self) -> (n: &'static str)
        ensures
            n@ == "Sandbox"@,
    {
        "Sandbox"
    }

    /// Advances the game by one tick: the start window counts as presented
    /// from the first tick on; nothing else changes.
    pub fn update(&mut self)
        ensures
            final(self).start_logged,
            final(self).state == old(self).state,
            final(self).start_window == old(self).start_window,
    {
        self.start_logged = true;
    }

    /// The window that the game asks for: that of its start window, titled
    /// with the title and the subtitle.
    pub fn window_descriptor(&self) -> (d: GameWindowDescriptor)
        ensures
            d.title.is_some(),
            d.title.unwrap()@ == self.start_window.title@ + " â€” "@ + self.start_window.subtitle@,
            d.width == Some(self.start_window.width),
            d.height == Some(self.start_window.height),
            d.resizable == self.start_window.resizable,
    {
        let title = String::from_str(self.start_window.title).concat(" â€” ").concat(
            self.start_window.subtitle,
        );
        GameWindowDescriptor {
            title: Some(title),
            width: Some(self.start_window.width),
            height: Some(self.start_window.height),
            resizable: self.start_window.resizable,
        }
    }
}

} // verus!
