//! Obstacles: a vertical wall with a passable gap. Gap size shrinks as the
//! score grows, floored at a minimum playable size; the gap center is drawn
//! at random inside a valid band, and — when a previous gap is known —
//! additionally held within a bounded vertical distance of it, so that
//! consecutive obstacles stay playable.
use vstd::prelude::*;

use crate::player::Player;
use crate::player::Y_SCALE;
use crate::rng::rand_range;
use crate::SCREEN_HEIGHT;

verus! {

/// Smallest gap size the generator ever produces.
pub const MIN_GAP_SIZE: i32 = 5;

/// Gap size at score zero; the size shrinks by one per point down to
/// `MIN_GAP_SIZE`.
pub const MAX_GAP_SIZE: i32 = 20;

/// Cells kept between the gap edge and the playfield border.
pub const GAP_MARGIN: i32 = 2;

/// Largest allowed vertical distance between consecutive gap centers: two
/// thirds of `SCREEN_HEIGHT`, rounded down.
pub const MAX_GAP_DIFF: i32 = 33;

/// A wall at column `x`, solid everywhere except a gap of `size` cells
/// centered on row `gap_y`.
#[derive(Clone, Copy, Debug, PartialEq, Eq, Structural)]
pub struct Obstacle {
    pub x: i32,
    pub gap_y: i32,
    pub size: i32,
}

/// Gap size for a score: `20 - score`, floored at `5`.
pub open spec fn spec_gap_size(score: int) -> int {
    if 20 - score < 5 {
        5
    } else {
        20 - score
    }
}

/// Lowest valid gap center for a gap of `size` cells.
pub open spec fn spec_min_gap_y(size: int) -> int {
    size / 2 + GAP_MARGIN
}

/// Highest valid gap center for a gap of `size` cells.
pub open spec fn spec_max_gap_y(size: int) -> int {
    SCREEN_HEIGHT - size / 2 - GAP_MARGIN
}

/// Lower end of the gap-center band once clamped around the previous center
/// `last`.
pub open spec fn spec_clamp_lo(size: int, last: int) -> int {
    if last - MAX_GAP_DIFF > spec_min_gap_y(size) {
        last - MAX_GAP_DIFF
    } else {
        spec_min_gap_y(size)
    }
}

/// Upper end of the gap-center band once clamped around the previous center
/// `last`.
pub open spec fn spec_clamp_hi(size: int, last: int) -> int {
    if last + MAX_GAP_DIFF < spec_max_gap_y(size) {
        last + MAX_GAP_DIFF
    } else {
        spec_max_gap_y(size)
    }
}

/// Gap size for the current score.
///
/// For every score `s >= 0` the result is `max(5, 20 - s)`, hence at least
/// the minimum playable size `5`.
pub fn gap_size(score: i32) -> (size: i32)
    requires
        0 <= score,
    ensures
        size == spec_gap_size(score as int),
        MIN_GAP_SIZE <= size <= MAX_GAP_SIZE,
{
    if 20 - score < 5 {
        5
    } else {
        20 - score
    }
}

impl Obstacle {
    /// Every generated obstacle obeys this: a playable gap size and a gap
    /// center inside the valid band for that size.
    pub open spec fn wf(self) -> bool {
        &&& MIN_GAP_SIZE <= self.size <= MAX_GAP_SIZE
        &&& spec_min_gap_y(self.size as int) <= self.gap_y <= spec_max_gap_y(self.size as int)
    }

    /// An entity at `(px, py)` intersects this obstacle's solid region: same
    /// column, and vertically outside the gap band.
    pub open spec fn spec_hit_xy(self, px: int, py: int) -> bool {
        &&& px == self.x
        &&& {
            ||| py < (self.gap_y - self.size / 2) * Y_SCALE
            ||| py > (self.gap_y + self.size / 2) * Y_SCALE
        }
    }

    /// The entity intersects this obstacle's solid region.
    pub open spec fn spec_hit(self, p: Player) -> bool {
        self.spec_hit_xy(p.x as int, p.y as int)
    }

    /// Collision test between the entity and this obstacle.
    pub fn hit_obstacle(&self, p: &Player) -> (hit: bool)
        requires
            self.wf(),
        ensures
            hit == self.spec_hit(*p),
    {
        let half_size = self.size / 2;
        let does_x_match = p.x == self.x;
        let above_gap = p.y < (self.gap_y - half_size) * Y_SCALE;
        let below_gap = p.y > (self.gap_y + half_size) * Y_SCALE;
        does_x_match && (above_gap || below_gap)
    }

    /// New obstacle at column `x` with no history: the gap center is drawn
    /// uniformly from the whole valid band.
    pub fn new(rng: &mut bracket_lib::random::RandomNumberGenerator, x: i32, score: i32) -> (o:
        Obstacle)
        requires
            0 <= score,
        ensures
            o.x == x,
            o.size == spec_gap_size(score as int),
            spec_min_gap_y(o.size as int) <= o.gap_y < spec_max_gap_y(o.size as int),
            o.wf(),
    {
        let size = gap_size(score);
        let half_size = size / 2;
        let gap_y = rand_range(rng, half_size + GAP_MARGIN, SCREEN_HEIGHT - half_size - GAP_MARGIN);
        Obstacle { x, gap_y, size }
    }

    /// New obstacle at column `x`, its gap center constrained by the
    /// previous one when `last` is present.
    ///
    /// The valid band is clamped to within `MAX_GAP_DIFF` of `last`; if that
    /// clamp is degenerate (a history far outside the band can empty it),
    /// the draw falls back to the unclamped valid band, so the result is
    /// always well formed.
    pub fn with_constraint(
        rng: &mut bracket_lib::random::RandomNumberGenerator,
        x: i32,
        score: i32,
        last: Option<i32>,
    ) -> (o: Obstacle)
        requires
            0 <= score,
            last matches Some(l) ==> -1000000 <= l <= 1000000,
        ensures
            o.x == x,
            o.size == spec_gap_size(score as int),
            o.wf(),
            match last {
                Some(l) => spec_clamp_lo(o.size as int, l as int) <= spec_clamp_hi(
                    o.size as int,
                    l as int,
                ) ==> {
                    &&& spec_clamp_lo(o.size as int, l as int) <= o.gap_y <= spec_clamp_hi(
                        o.size as int,
                        l as int,
                    )
                    &&& -MAX_GAP_DIFF <= o.gap_y - l <= MAX_GAP_DIFF
                },
                None => true,
            },
    {
        let size = gap_size(score);
        let half_size = size / 2;
        let min_gap_y = half_size + GAP_MARGIN;
        let max_gap_y = SCREEN_HEIGHT - half_size - GAP_MARGIN;
        let gap_y: i32 = match last {
            Some(last_gap_y) => {
                let lo = if last_gap_y - MAX_GAP_DIFF > min_gap_y {
                    last_gap_y - MAX_GAP_DIFF
                } else {
                    min_gap_y
                };
                let hi = if last_gap_y + MAX_GAP_DIFF < max_gap_y {
                    last_gap_y + MAX_GAP_DIFF
                } else {
                    max_gap_y
                };
                if lo > hi {
                    // Degenerate clamp: fall back to the unclamped band.
                    rand_range(rng, min_gap_y, max_gap_y)
                } else if lo == hi {
                    lo
                } else {
                    rand_range(rng, lo, hi)
                }
            },
            None => rand_range(rng, min_gap_y, max_gap_y),
        };
        Obstacle { x, gap_y, size }
    }
}

/// For a history inside the playfield, the clamped band is never degenerate:
/// the next gap center then always lies within `MAX_GAP_DIFF` of the
/// previous one and inside the valid band.
pub proof fn lemma_clamp_consistent(score: int, last: int)
    requires
        0 <= score,
        0 <= last <= SCREEN_HEIGHT,
    ensures
        spec_clamp_lo(spec_gap_size(score), last) <= spec_clamp_hi(spec_gap_size(score), last),
{
}

} // verus!
