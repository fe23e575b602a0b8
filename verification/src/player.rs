//! The player sprite: horizontal position, vertical position and velocity, and
//! an animation-frame counter.
//!
//! Vertical positions and speeds are measured in tenths of a row, so that the
//! per-step gravity increment (0.4 rows) and the flap impulse (2 rows upward)
//! are exact integers.  A whole row is `Y_SCALE` units.

use vstd::prelude::*;

verus! {

/// Tenths of a row per row of the screen.
pub const Y_SCALE: i32 = 10;

/// Added to the velocity on each physics step while below `MAX_FALL_SPEED`
/// (0.4 rows per step).
pub const GRAVITY_PER_STEP: i32 = 4;

/// Terminal downward speed: 2 rows per physics step.
pub const MAX_FALL_SPEED: i32 = 20;

/// Velocity set by a flap: 2 rows per step, upward.
pub const FLAP_SPEED: i32 = -20;

/// Number of animation frames the sprite cycles through.
pub const FRAME_COUNT: usize = 6;

/// Horizontal start position of the player, in columns.
pub const PLAYER_START_X: i32 = 5;

/// Vertical start position of the player, in rows.
pub const PLAYER_START_Y: i32 = 25;

/// The player-controlled sprite.  `y` and `velocity` are in tenths of a row;
/// `x` advances by one column per physics step and never decreases.
#[derive(Clone, Copy, Debug, PartialEq, Eq, Structural)]
pub struct Player {
    pub x: i32,
    pub y: i32,
    pub velocity: i32,
    pub frame: usize,
}

impl Player {
    /// Well-formedness: the velocity stays between the flap impulse and the
    /// terminal fall speed and is a whole number of gravity increments, the
    /// height never goes below the floor, and the animation frame is in range.
    pub open spec fn wf(self) -> bool {
        &&& FLAP_SPEED <= self.velocity <= MAX_FALL_SPEED
        &&& self.velocity % GRAVITY_PER_STEP == 0
        &&& 0 <= self.y
        &&& self.frame < FRAME_COUNT
    }

    /// The whole row the player occupies (the height rounded toward the floor).
    pub open spec fn y_row(self) -> int {
        self.y as int / Y_SCALE as int
    }

    /// The velocity after one physics step: grows by one gravity increment
    /// until it reaches the terminal fall speed.
    pub open spec fn step_velocity(self) -> i32 {
        if self.velocity < MAX_FALL_SPEED {
            (self.velocity + GRAVITY_PER_STEP) as i32
        } else {
            self.velocity
        }
    }

    /// The whole state after one physics step.
    pub open spec fn step_of(self) -> Player {
        let v = self.step_velocity();
        let moved_y = self.y + v;
        Player {
            x: (self.x + 1) as i32,
            y: if moved_y < 0 { 0 } else { moved_y as i32 },
            velocity: v,
            frame: (((self.frame + 1) % (FRAME_COUNT as int)) as usize),
        }
    }

    /// A new player at column `x` and row `y`, at rest, on the first frame.
    pub fn new(x: i32, y: i32) -> (p: Player)
        requires
            0 <= y <= i32::MAX as int / Y_SCALE as int,
        ensures
            p.x == x,
            p.y == y * Y_SCALE,
            p.velocity == 0,
            p.frame == 0,
            p.wf(),
    {
        Player { x, y: y * Y_SCALE, velocity: 0, frame: 0 }
    }

    /// One physics step: gravity pulls until the terminal fall speed is
    /// reached, the height moves by the velocity and is clamped at the floor,
    /// the player advances one column, and the animation frame cycles.
    pub fn gravity_and_move(&mut self)
        requires
            old(self).wf(),
            old(self).x < i32::MAX,
            old(self).y + MAX_FALL_SPEED <= i32::MAX,
        ensures
            *final(self) == old(self).step_of(),
            final(self).wf(),
            final(self).velocity <= MAX_FALL_SPEED,
            final(self).y >= 0,
            final(self).x == old(self).x + 1,
    {
        if self.velocity < MAX_FALL_SPEED {
            self.velocity = self.velocity + GRAVITY_PER_STEP;
        }
        self.y = self.y + self.velocity;
        self.x = self.x + 1;
        if self.y < 0 {
            self.y = 0;
        }
        self.frame = (self.frame + 1) % FRAME_COUNT;
    }

    /// A flap sets the velocity to exactly the fixed upward impulse,
    /// overriding whatever the velocity was; nothing else changes.
    pub fn flap(&mut self)
        ensures
            final(self).velocity == FLAP_SPEED,
            final(self).x == old(self).x,
            final(self).y == old(self).y,
            final(self).frame == old(self).frame,
            old(self).wf() ==> final(self).wf(),
    {
        self.velocity = FLAP_SPEED;
    }
}

/// The glyph index of animation frame `f` in the sprite font.
pub open spec fn frame_glyph(f: int) -> u16 {
    if f == 0 {
        64
    } else if f == 1 {
        1
    } else if f == 2 {
        2
    } else if f == 3 {
        3
    } else if f == 4 {
        2
    } else {
        1
    }
}

impl Player {
    /// The glyph the renderer should draw for the current animation frame.
    pub fn sprite_glyph(&self) -> (g: u16)
        ensures
            g == frame_glyph(self.frame as int),
    {
        match self.frame {
            0 => 64,
            1 => 1,
            2 => 2,
            3 => 3,
            4 => 2,
            _ => 1,
        }
    }
}

/// Law: from any well-formed state, one physics step yields a well-formed
/// state; in particular the velocity never exceeds the terminal fall speed and
/// the height never goes below the floor.  Since a flap also preserves
/// well-formedness, both bounds hold after every sequence of steps and flaps.
pub proof fn lemma_step_preserves_bounds(p: Player)
    requires
        p.wf(),
        p.x < i32::MAX,
        p.y + MAX_FALL_SPEED <= i32::MAX,
    ensures
        p.step_of().wf(),
        p.step_of().velocity <= MAX_FALL_SPEED,
        p.step_of().y >= 0,
{
}

} // verus!
