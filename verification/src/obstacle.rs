//! The gap obstacle: a vertical bar at a world column with a passable gap.
//!
//! Construction places the gap center at a random row strictly inside the
//! screen and narrows the gap as the score grows, down to a floor of
//! `MIN_GAP_SIZE` rows.

use vstd::prelude::*;

use crate::player::Player;
use crate::player::Y_SCALE;
use crate::SCREEN_HEIGHT;

verus! {

/// Lowest row (inclusive) at which a gap center may be placed.
pub const GAP_Y_MIN: i32 = 10;

/// Highest row (exclusive) below which a gap center may be placed.
pub const GAP_Y_END: i32 = 40;

/// The gap never narrows below this many rows.
pub const MIN_GAP_SIZE: i32 = 2;

/// Gap height at score zero; each point of score removes one row.
pub const BASE_GAP_SIZE: i32 = 10;

/// A single obstacle: a bar at world column `x`, passable only through a gap
/// of `size` rows centered at row `gap_y`.
#[derive(Clone, Copy, Debug, PartialEq, Eq, Structural)]
pub struct Obstacle {
    pub x: i32,
    pub gap_y: i32,
    pub size: i32,
}

/// The gap height an obstacle built at score `score` gets:
/// `BASE_GAP_SIZE` shrunk by the score, floored at `MIN_GAP_SIZE`.
pub open spec fn size_for(score: int) -> int {
    if BASE_GAP_SIZE - score > MIN_GAP_SIZE {
        BASE_GAP_SIZE - score
    } else {
        MIN_GAP_SIZE as int
    }
}

/// Relies on bracket_lib's `RandomNumberGenerator::range` (rand's `gen_range`
/// underneath): for `lo < hi` it returns a value that is at least `lo` and
/// strictly below `hi`, drawn from a freshly seeded generator.
#[verifier::external_body]
fn random_in_range(lo: i32, hi: i32) -> (r: i32)
    requires
        lo < hi,
    ensures
        lo <= r < hi,
{
    let mut rng = bracket_lib::random::RandomNumberGenerator::new();
    rng.range(lo, hi)
}

impl Obstacle {
    /// Well-formedness: the gap center lies strictly inside the screen's
    /// allowed band and the gap height is between its floor and its base.
    pub open spec fn wf(self) -> bool {
        &&& GAP_Y_MIN <= self.gap_y < GAP_Y_END
        &&& MIN_GAP_SIZE <= self.size <= BASE_GAP_SIZE
    }

    /// Whether the player collides with this obstacle: the player's column
    /// must exactly match the obstacle's, and the player's row must lie
    /// strictly outside the gap `[gap_y - size/2, gap_y + size/2]`.
    pub open spec fn hit_spec(self, p: Player) -> bool {
        let half = self.size as int / 2;
        &&& p.x == self.x
        &&& (p.y_row() < self.gap_y - half || p.y_row() > self.gap_y + half)
    }

    /// A new obstacle at world column `x`, with the gap height determined by
    /// the score and the gap center drawn at random within the allowed band.
    pub fn new(x: i32, score: i32) -> (ob: Obstacle)
        requires
            score >= 0,
        ensures
            ob.x == x,
            ob.size == size_for(score as int),
            GAP_Y_MIN <= ob.gap_y < GAP_Y_END,
            ob.wf(),
    {
        let gap_y: i32 = random_in_range(GAP_Y_MIN, GAP_Y_END);
        let size: i32 = if 10 - score > MIN_GAP_SIZE {
            10 - score
        } else {
            MIN_GAP_SIZE
        };
        Obstacle { x, gap_y, size }
    }

    /// Collision test against the player's current position.
    pub fn hit_obstacle(&self, player: &Player) -> (r: bool)
        requires
            self.wf(),
            player.y >= 0,
        ensures
            r == self.hit_spec(*player),
    {
        let half_size: i32 = self.size / 2;
        let player_row: i32 = player.y / Y_SCALE;
        let does_x_match: bool = player.x == self.x;
        let player_above_gap: bool = player_row < self.gap_y - half_size;
        let player_below_gap: bool = player_row > self.gap_y + half_size;
        does_x_match && (player_above_gap || player_below_gap)
    }

    /// The screen column at which the bar appears, relative to the player.
    pub fn screen_column(&self, player_x: i32) -> (c: i32)
        requires
            i32::MIN <= self.x - player_x <= i32::MAX,
        ensures
            c == self.x - player_x,
    {
        self.x - player_x
    }

    /// The rows of the bar above the gap, in order: `0 .. gap_y - size/2`.
    pub fn rows_above_gap(&self) -> (rows: Vec<i32>)
        requires
            self.wf(),
        ensures
            rows@.len() == self.gap_y - self.size as int / 2,
            forall|i: int| 0 <= i < rows@.len() ==> rows@[i] == i,
    {
        let top_end: i32 = self.gap_y - self.size / 2;
        let mut rows: Vec<i32> = Vec::new();
        let mut row: i32 = 0;
        while row < top_end
            invariant
                0 <= row <= top_end,
                top_end == self.gap_y - self.size as int / 2,
                rows@.len() == row,
                forall|i: int| 0 <= i < rows@.len() ==> rows@[i] == i,
            decreases top_end - row,
        {
            rows.push(row);
            row = row + 1;
        }
        rows
    }

    /// The rows of the bar below the gap, in order:
    /// `gap_y + size/2 .. SCREEN_HEIGHT`.
    pub fn rows_below_gap(&self) -> (rows: Vec<i32>)
        requires
            self.wf(),
        ensures
            rows@.len() == SCREEN_HEIGHT - (self.gap_y + self.size as int / 2),
            forall|i: int| 0 <= i < rows@.len() ==>
                rows@[i] == self.gap_y + self.size as int / 2 + i,
    {
        let bottom_start: i32 = self.gap_y + self.size / 2;
        let mut rows: Vec<i32> = Vec::new();
        let mut row: i32 = bottom_start;
        while row < SCREEN_HEIGHT
            invariant
                bottom_start <= row <= SCREEN_HEIGHT,
                bottom_start == self.gap_y + self.size as int / 2,
                bottom_start <= SCREEN_HEIGHT,
                rows@.len() == row - bottom_start,
                forall|i: int| 0 <= i < rows@.len() ==> rows@[i] == bottom_start + i,
            decreases SCREEN_HEIGHT - row,
        {
            rows.push(row);
            row = row + 1;
        }
        rows
    }
}

/// Law: the gap size formula `max(MIN_GAP_SIZE, BASE_GAP_SIZE - score)` is
/// non-increasing in the score and never drops below its floor.
pub proof fn lemma_size_for_shrinks(s1: int, s2: int)
    requires
        0 <= s1 <= s2,
    ensures
        size_for(s2) <= size_for(s1),
        MIN_GAP_SIZE <= size_for(s2) <= BASE_GAP_SIZE,
{
}

} // verus!
