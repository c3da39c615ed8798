//! Core engine of a side-scrolling avoidance game: per-step entity physics
//! under gravity, a procedural obstacle generator with difficulty scaling and
//! smoothness constraints, a collision/progress evaluator, and the
//! menu/playing/end game-mode state machine. Rendering, input capture and
//! audio playback are external collaborators; the engine only emits the
//! events they consume.
use vstd::prelude::*;

pub mod game;
pub mod obstacle;
pub mod player;
pub mod rng;
pub mod sound;

verus! {

/// Width of the playfield in cells.
pub const SCREEN_WIDTH: i32 = 80;

/// Height of the playfield in cells.
pub const SCREEN_HEIGHT: i32 = 50;

/// Minimum accumulated elapsed time, in milliseconds, before a physics step
/// is applied.
pub const FRAME_DURATION: u32 = 75;

/// Number of obstacles kept alive in the rolling set.
pub const INITIAL_OBSTACLES: usize = 3;

/// Horizontal distance between consecutive obstacles.
pub const OBSTACLE_INTERVAL: i32 = 30;

} // verus!
