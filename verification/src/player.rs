//! Physics of the controllable entity: gravity, terminal velocity, flap
//! impulse, and horizontal scrolling.
//!
//! Vertical position and velocity evolve in increments finer than one cell,
//! so both are kept in tenths of a cell (`Y_SCALE` subunits per cell): a
//! physics step adds `0.2` cells of downward velocity up to a terminal
//! `2.0`, and a flap sets the velocity to `-2.0` cells per step.
use vstd::prelude::*;

use crate::SCREEN_HEIGHT;

verus! {

/// Vertical subunits per playfield cell.
pub const Y_SCALE: i32 = 10;

/// Downward velocity gained per physics step, in subunits.
pub const GRAVITY: i32 = 2;

/// Largest downward velocity, in subunits per step.
pub const TERMINAL_VELOCITY: i32 = 20;

/// Velocity set by a flap, in subunits per step: a fixed upward impulse.
pub const FLAP_VELOCITY: i32 = -20;

/// Vertical position, in subunits, below which the entity has fallen
/// through the floor.
pub const FLOOR_Y: i32 = SCREEN_HEIGHT * Y_SCALE;

/// The controllable entity: horizontal scroll coordinate `x` in cells,
/// vertical position `y` and vertical velocity in subunits.
#[derive(Clone, Copy, Debug, PartialEq, Eq, Structural)]
pub struct Player {
    pub x: i32,
    pub y: i32,
    pub velocity: i32,
}

/// Velocity after one physics step: grows by `GRAVITY`, capped at
/// `TERMINAL_VELOCITY`; a velocity already at or past the cap is kept.
pub open spec fn next_velocity(v: int) -> int {
    if v < TERMINAL_VELOCITY {
        if v + GRAVITY <= TERMINAL_VELOCITY {
            v + GRAVITY
        } else {
            TERMINAL_VELOCITY as int
        }
    } else {
        v
    }
}

/// Vertical position after one physics step: the velocity is added and the
/// result clamped at the top of the playfield.
pub open spec fn next_y(y: int, v: int) -> int {
    if y + v >= 0 {
        y + v
    } else {
        0
    }
}

impl Player {
    /// Bounds every reachable entity state obeys: the velocity stays between
    /// the flap impulse and the terminal velocity, and the position is never
    /// above the top of the playfield.
    pub open spec fn wf(self) -> bool {
        &&& FLAP_VELOCITY <= self.velocity <= TERMINAL_VELOCITY
        &&& 0 <= self.y
        &&& 0 <= self.x
    }

    /// True once the entity has fallen below the playfield.
    pub open spec fn fallen(self) -> bool {
        self.y > FLOOR_Y
    }

    /// New entity at cell coordinates `(x, y)`, at rest.
    pub fn new(x: i32, y: i32) -> (p: Player)
        requires
            0 <= x,
            0 <= y <= SCREEN_HEIGHT,
        ensures
            p.x == x,
            p.y == y * Y_SCALE,
            p.velocity == 0,
            p.wf(),
    {
        Player { x, y: y * Y_SCALE, velocity: 0 }
    }

    /// One physics step: gravity steepens the velocity up to the terminal
    /// velocity, the velocity moves the entity vertically, and the entity
    /// scrolls one cell to the right.
    pub fn gravity_and_move(&mut self)
        requires
            old(self).wf(),
            old(self).x < i32::MAX,
            old(self).y <= i32::MAX - TERMINAL_VELOCITY,
        ensures
            final(self).velocity == next_velocity(old(self).velocity as int),
            final(self).y == next_y(old(self).y as int, final(self).velocity as int),
            final(self).x == old(self).x + 1,
            final(self).wf(),
    {
        if self.velocity < TERMINAL_VELOCITY {
            if self.velocity + GRAVITY <= TERMINAL_VELOCITY {
                self.velocity = self.velocity + GRAVITY;
            } else {
                self.velocity = TERMINAL_VELOCITY;
            }
        }
        self.y = self.y + self.velocity;
        if self.y < 0 {
            self.y = 0;
        }
        self.x = self.x + 1;
    }

    /// A flap: sets the velocity to the fixed upward impulse, whatever its
    /// prior sign or magnitude — impulses do not accumulate. Position is
    /// untouched; the impulse takes effect at the next physics step.
    pub fn flap(&mut self)
        ensures
            final(self).velocity == FLAP_VELOCITY,
            final(self).velocity < 0,
            final(self).x == old(self).x,
            final(self).y == old(self).y,
            old(self).wf() ==> final(self).wf(),
    {
        self.velocity = FLAP_VELOCITY;
    }
}

} // verus!
