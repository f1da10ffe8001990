//! The start window of the sandbox: its texts, its size and its buttons.

use vstd::prelude::*;

verus! {

#[derive(Debug)]
pub struct StartWindow {
    pub title: &'static str,
    pub subtitle: &'static str,
    pub width: u32,
    pub height: u32,
    pub resizable: bool,
    /// The labels of the buttons, top to bottom.
    pub buttons: Vec<&'static str>,
}

impl StartWindow {
    /// The window is the one that the sandbox starts with.
    pub open spec fn is_default(&self) -> bool {
        &&& self.title@ == "Sandbox Prototype"@
        &&& self.subtitle@ == "Ready to explore?"@
        &&& self.width == 1024
        &&& self.height == 640
        &&& self.resizable
        &&& self.buttons@.len() == 4
        &&& self.buttons@[0]@ == "Start"@
        &&& self.buttons@[1]@ == "Options"@
        &&& self.buttons@[2]@ == "Credits"@
        &&& self.buttons@[3]@ == "Quit"@
    }
}

impl Default for StartWindow {
    fn default() -> (window: StartWindow)
        ensures
            window.is_default(),
    {
        let mut buttons: Vec<&'static str> = Vec::new();
        buttons.push("Start");
        buttons.push("Options");
        buttons.push("Credits");
        buttons.push("Quit");
        StartWindow {
            title: "Sandbox Prototype",
            subtitle: "Ready to explore?",
            width: 1024,
            height: 640,
            resizable: true,
            buttons,
        }
    }
}

} // verus!
