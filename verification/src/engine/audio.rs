//! The audio engine. It has no output yet and stays muted.

use vstd::prelude::*;

verus! {

#[derive(Debug)]
pub struct AudioEngine {
    muted: bool,
}

impl AudioEngine {
    /// Whether the engine is muted.
    pub closed spec fn is_muted(&self) -> bool {
        self.muted
    }

    /// A muted engine.
    pub fn new() -> (engine: AudioEngine)
        ensures
            engine.is_muted(),
    {
        AudioEngine { muted: true }
    }

    /// Keeps the engine silent. The engine does not change.
    pub fn silence(&mut self)
        ensures
            *final(self) == *old(self),
    {
    }

    /// Whether the engine is muted.
    pub fn muted(&self) -> (m: bool)
        ensures
            m == self.is_muted(),
    {
        self.muted
    }
}

impl Default for AudioEngine {
    /// An engine that is not muted.
    fn default() -> (engine: AudioEngine)
        ensures
            !engine.is_muted(),
    {
        AudioEngine { muted: false }
    }
}

} // verus!
