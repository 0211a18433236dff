use vstd::prelude::*;

verus! {

/// The window that the viewer opens.
pub struct WindowConfig {
    pub width: u32,
    pub height: u32,
    pub fullscreen: bool,
    pub target_fps: u32,
}

impl Default for WindowConfig {
    /// A borderless fullscreen window of 1366 by 768 pixels, aiming at 60 frames per second.
    fn default() -> (config: Self)
        ensures
            config.width == 1366,
            config.height == 768,
            config.fullscreen,
            config.target_fps == 60,
    {
        WindowConfig { width: 1366, height: 768, fullscreen: true, target_fps: 60 }
    }
}

} // verus!
