//! A small 2D game-engine core: an entity-component world, a system
//! scheduler with a main-thread barrier for render systems, a deterministic
//! sprite-animation state machine, pairwise collision detection with a
//! broadcast event channel, and input-to-animation controllers.
//!
//! Geometry and time are measured in integers: world coordinates and scales
//! in fixed-point milli-units, time in microseconds. The front end converts
//! at the boundary.

pub mod animation;
pub mod audio;
pub mod controller;
pub mod ecs;
pub mod error;
pub mod event;
pub mod model;
pub mod player;
pub mod renderer;
pub mod shared;

use vstd::prelude::*;
use vstd::string::StringExecFns;

verus! {

/// Engine start-up configuration: window and loop parameters.
pub struct Config {
    /// Viewport and window dimensions in pixels.
    pub dimensions: (u32, u32),
    /// The title of the window.
    pub title: String,
    /// Hide window decorations and use native resolution for window size.
    pub fullscreen: bool,
    /// Is the window resizable (this is not _always_ respected).
    pub resizable: bool,
    /// The maximum number of frames per second, 0 for uncapped.
    pub frame_cap: u32,
    /// The major and minor version of OpenGL to request.
    pub opengl_version: (u8, u8),
}

impl Config {
    /// The frame budget the main loop paces itself to, in microseconds:
    /// the second split by the frame cap, or zero for an uncapped loop.
    pub fn frame_time_micros(&self) -> (r: u32)
        ensures
            r == (if self.frame_cap > 0 {
                1_000_000int / self.frame_cap as int
            } else {
                0int
            }),
    {
        if self.frame_cap > 0 {
            1_000_000 / self.frame_cap
        } else {
            0
        }
    }

    /// The stock configuration: an 800x600 fixed window at up to 100 frames
    /// per second.
    pub fn default() -> (r: Config)
        ensures
            r.dimensions == (800u32, 600u32),
            r.title@ == "StoneEng"@,
            r.fullscreen == false,
            r.resizable == false,
            r.frame_cap == 100u32,
            r.opengl_version == (4u8, 2u8),
    {
        Config {
            dimensions: (800, 600),
            title: String::from_str("StoneEng"),
            fullscreen: false,
            resizable: false,
            frame_cap: 100,
            opengl_version: (4, 2),
        }
    }
}

} // verus!
