//! The shell around the simulation: audio, platform, renderer, resources and
//! scene.

pub mod audio;
pub mod config;
pub mod platform;
pub mod renderer;
pub mod resources;
pub mod scene;
