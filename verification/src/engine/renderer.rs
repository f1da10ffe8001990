//! The frame counter of the renderer.

use vstd::prelude::*;

verus! {

#[derive(Debug)]
pub struct Renderer {
    frame_count: u64,
}

impl Renderer {
    /// Number of frames that have ended.
    pub closed spec fn frames(&self) -> u64 {
        self.frame_count
    }

    /// A renderer that has drawn no frame.
    pub fn new() -> (renderer: Renderer)
        ensures
            renderer.frames() == 0,
    {
        Renderer { frame_count: 0 }
    }

    /// Starts a frame. The count of ended frames stays.
    pub fn begin_frame(&mut self)
        ensures
            final(self).frames() == old(self).frames(),
    {
    }

    /// Ends a frame.
    pub fn end_frame(&mut self)
        requires
            old(self).frames() < u64::MAX,
        ensures
            final(self).frames() == old(self).frames() + 1,
    {
        self.frame_count += 1;
    }

    /// Number of frames that have ended.
    pub fn frame_count(&self) -> (n: u64)
        ensures
            n == self.frames(),
    {
        self.frame_count
    }
}

impl Default for Renderer {
    fn default() -> (renderer: Renderer)
        ensures
            renderer.frames() == 0,
    {
        Renderer::new()
    }
}

} // verus!
