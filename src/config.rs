//! The game's global settings.
use vstd::prelude::*;

verus! {

/// Common window resolutions, in pixels (width, height).
pub const RESOLUTION_720P: (u32, u32) = (1280, 720);
pub const RESOLUTION_1080P: (u32, u32) = (1920, 1080);
pub const RESOLUTION_1440P: (u32, u32) = (2560, 1440);
pub const RESOLUTION_2160P: (u32, u32) = (3840, 2160);

/// Window resolution and title, anti-aliasing samples and target frame rate.
pub struct GameConfig {
    pub resolution: (u32, u32),
    pub title: String,
    pub msaa_samples: u32,
    pub target_fps: u32,
}

impl Default for GameConfig {
    /// 720p, four anti-aliasing samples, sixty frames a second.
    fn default() -> (r: GameConfig)
        ensures
            r.resolution == (1280u32, 720u32),
            r.title@ == "Nooly's AVG Game"@,
            r.msaa_samples == 4,
            r.target_fps == 60,
    {
        GameConfig {
            resolution: RESOLUTION_720P,
            title: String::from_str("Nooly's AVG Game"),
            msaa_samples: 4,
            target_fps: 60,
        }
    }
}

} // verus!
