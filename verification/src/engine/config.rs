//! The settings that the engine starts with.

use vstd::prelude::*;

verus! {

#[derive(Debug, Clone)]
pub struct EngineConfig {
    pub app_name: String,
    pub window_width: u32,
    pub window_height: u32,
    pub target_fps: u32,
}

impl Default for EngineConfig {
    /// A window of 1280 by 720 at 60 frames per second.
    fn default() -> (config: EngineConfig)
        ensures
            config.app_name@ == "Moo Engine"@,
            config.window_width == 1280,
            config.window_height == 720,
            config.target_fps == 60,
    {
        EngineConfig {
            app_name: "Moo Engine".to_owned(),
            window_width: 1280,
            window_height: 720,
            target_fps: 60,
        }
    }
}

} // verus!
