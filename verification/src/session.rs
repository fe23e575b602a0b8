//! The game session: one player, one obstacle, the score, the accumulated
//! frame time, and the menu / playing / game-over state machine.
//!
//! Each external tick hands the session at most one logical key action and the
//! elapsed milliseconds since the previous tick; the session routes them to
//! the handler for the current mode.

use vstd::prelude::*;

use crate::obstacle::size_for;
use crate::obstacle::Obstacle;
use crate::obstacle::BASE_GAP_SIZE;
use crate::obstacle::GAP_Y_END;
use crate::obstacle::GAP_Y_MIN;
use crate::obstacle::MIN_GAP_SIZE;
use crate::player::Player;
use crate::player::FLAP_SPEED;
use crate::player::FRAME_COUNT;
use crate::player::GRAVITY_PER_STEP;
use crate::player::MAX_FALL_SPEED;
use crate::player::PLAYER_START_X;
use crate::player::PLAYER_START_Y;
use crate::player::Y_SCALE;
use crate::FRAME_DURATION_MS;
use crate::SCREEN_HEIGHT;
use crate::SCREEN_WIDTH;

verus! {

/// Which screen the session is on.
#[derive(Clone, Copy, Debug, PartialEq, Eq, Structural)]
pub enum GameMode {
    Menu,
    Playing,
    End,
}

/// A logical key action, mapped from physical keys by the outer harness.
#[derive(Clone, Copy, Debug, PartialEq, Eq, Structural)]
pub enum Action {
    Flap,
    Play,
    Quit,
}

/// The whole game state: the player, the single live obstacle, the score, the
/// time accumulated toward the next physics step, the current mode, and the
/// flag by which the session asks the outer loop to stop.
#[derive(Clone, Copy, Debug, PartialEq, Eq, Structural)]
pub struct State {
    pub player: Player,
    pub frame_time: u64,
    pub obstacle: Obstacle,
    pub score: i32,
    pub mode: GameMode,
    pub quitting: bool,
}

impl State {
    /// Well-formedness between ticks: player and obstacle are well-formed,
    /// the score is non-negative, the accumulated time sits at or below the
    /// physics threshold, and while playing the player has not yet passed the
    /// obstacle's column nor fallen past the bottom of the screen.
    pub open spec fn wf(self) -> bool {
        &&& self.player.wf()
        &&& self.obstacle.wf()
        &&& self.score >= 0
        &&& self.frame_time <= FRAME_DURATION_MS
        &&& (self.mode is Playing ==> self.player.x <= self.obstacle.x)
        &&& (self.mode is Playing ==> self.player.y_row() <= SCREEN_HEIGHT)
    }

    /// Whether this tick's accumulated time crosses the physics threshold.
    pub open spec fn physics_fires(self, delta_ms: u64) -> bool {
        self.frame_time + delta_ms > FRAME_DURATION_MS
    }

    /// The player after this tick's physics step (if one fires) and after the
    /// flap impulse (if the flap key was pressed this tick).
    pub open spec fn player_after_input(self, key: Option<Action>, delta_ms: u64) -> Player {
        let moved = if self.physics_fires(delta_ms) {
            self.player.step_of()
        } else {
            self.player
        };
        if key == Some(Action::Flap) {
            Player { x: moved.x, y: moved.y, velocity: FLAP_SPEED, frame: moved.frame }
        } else {
            moved
        }
    }

    /// Whether this tick carries the player past the obstacle's column.
    pub open spec fn passes_obstacle(self, key: Option<Action>, delta_ms: u64) -> bool {
        self.player_after_input(key, delta_ms).x > self.obstacle.x
    }
}

/// How one Playing-mode tick relates the state before (`pre`) to the state
/// after (`post`): physics fires at most once and resets the timer, a flap
/// overrides the velocity, passing the obstacle scores one point and places a
/// fresh obstacle one screen width ahead, and falling past the bottom of the
/// screen or colliding ends the game.
pub open spec fn play_rel(pre: State, key: Option<Action>, delta_ms: u64, post: State) -> bool {
    let p = pre.player_after_input(key, delta_ms);
    let passed = pre.passes_obstacle(key, delta_ms);
    &&& post.player == p
    &&& post.frame_time == if pre.physics_fires(delta_ms) {
        0
    } else {
        pre.frame_time + delta_ms
    }
    &&& post.quitting == pre.quitting
    &&& post.score == if passed {
        pre.score + 1
    } else {
        pre.score as int
    }
    &&& (passed ==> {
        &&& post.obstacle.x == p.x + SCREEN_WIDTH
        &&& post.obstacle.size == size_for(post.score as int)
        &&& post.obstacle.wf()
    })
    &&& (!passed ==> post.obstacle == pre.obstacle)
    &&& post.mode == (if p.y_row() > SCREEN_HEIGHT || post.obstacle.hit_spec(p) {
        GameMode::End
    } else {
        GameMode::Playing
    })
}

/// How a restart relates the state before to the state after: the player,
/// timer and score return to their initial values, a fresh obstacle stands one
/// screen width ahead of the origin, and the mode becomes Playing.  The
/// quitting flag is left as it was.
pub open spec fn restart_rel(pre: State, post: State) -> bool {
    &&& post.player.x == PLAYER_START_X
    &&& post.player.y == PLAYER_START_Y * Y_SCALE
    &&& post.player.velocity == 0
    &&& post.player.frame == 0
    &&& post.frame_time == 0
    &&& post.score == 0
    &&& post.mode is Playing
    &&& post.obstacle.x == SCREEN_WIDTH
    &&& post.obstacle.size == size_for(0)
    &&& post.obstacle.wf()
    &&& post.quitting == pre.quitting
}

/// How a Menu- or End-mode tick relates the state before to the state after:
/// the Play action restarts, the Quit action raises the quitting flag, and any
/// other input leaves the state unchanged.
pub open spec fn menu_rel(pre: State, key: Option<Action>, post: State) -> bool {
    &&& (key == Some(Action::Play) ==> restart_rel(pre, post))
    &&& (key == Some(Action::Quit) ==> post == State { quitting: true, ..pre })
    &&& ((key != Some(Action::Play) && key != Some(Action::Quit)) ==> post == pre)
}

impl State {
    /// A fresh session: on the menu screen, with the score, timer and player
    /// at their initial values and an obstacle one screen width ahead.
    pub fn new() -> (s: State)
        ensures
            s.mode is Menu,
            s.quitting == false,
            s.player.x == PLAYER_START_X,
            s.player.y == PLAYER_START_Y * Y_SCALE,
            s.player.velocity == 0,
            s.player.frame == 0,
            s.frame_time == 0,
            s.score == 0,
            s.obstacle.x == SCREEN_WIDTH,
            s.obstacle.size == size_for(0),
            s.wf(),
    {
        State {
            player: Player::new(PLAYER_START_X, PLAYER_START_Y),
            frame_time: 0,
            obstacle: Obstacle::new(SCREEN_WIDTH, 0),
            score: 0,
            mode: GameMode::Menu,
            quitting: false,
        }
    }

    /// Reset the session for a new round and enter Playing mode.
    pub fn restart(&mut self)
        ensures
            restart_rel(*old(self), *final(self)),
            final(self).wf(),
    {
        self.player = Player::new(PLAYER_START_X, PLAYER_START_Y);
        self.frame_time = 0;
        self.obstacle = Obstacle::new(SCREEN_WIDTH, 0);
        self.score = 0;
        self.mode = GameMode::Playing;
    }

    /// One Playing-mode tick: accumulate the elapsed time and step the physics
    /// when it crosses the threshold, apply a flap if the flap key was
    /// pressed, score and replace the obstacle once the player passes it, and
    /// end the game on a fall past the screen bottom or a collision.
    pub fn play(&mut self, key: Option<Action>, delta_ms: u64)
        requires
            old(self).wf(),
            old(self).mode is Playing,
            old(self).player.x + 1 + SCREEN_WIDTH <= i32::MAX,
            old(self).score < i32::MAX,
            old(self).frame_time + delta_ms <= u64::MAX,
        ensures
            play_rel(*old(self), key, delta_ms, *final(self)),
            final(self).wf(),
    {
        self.frame_time = self.frame_time + delta_ms;
        if self.frame_time > FRAME_DURATION_MS {
            self.frame_time = 0;
            self.player.gravity_and_move();
        }
        if let Some(Action::Flap) = key {
            self.player.flap();
        }
        if self.player.x > self.obstacle.x {
            self.score = self.score + 1;
            self.obstacle = Obstacle::new(self.player.x + SCREEN_WIDTH, self.score);
        }
        if self.player.y / Y_SCALE > SCREEN_HEIGHT || self.obstacle.hit_obstacle(&self.player) {
            self.mode = GameMode::End;
        }
    }

    /// One Menu-mode tick: Play starts a round, Quit asks the loop to stop.
    pub fn main_menu(&mut self, key: Option<Action>)
        requires
            old(self).wf(),
        ensures
            menu_rel(*old(self), key, *final(self)),
            final(self).wf(),
    {
        match key {
            Some(Action::Play) => self.restart(),
            Some(Action::Quit) => self.quitting = true,
            _ => {},
        }
    }

    /// One End-mode tick: Play starts a new round, Quit asks the loop to stop.
    pub fn dead(&mut self, key: Option<Action>)
        requires
            old(self).wf(),
        ensures
            menu_rel(*old(self), key, *final(self)),
            final(self).wf(),
    {
        match key {
            Some(Action::Play) => self.restart(),
            Some(Action::Quit) => self.quitting = true,
            _ => {},
        }
    }

    /// One external tick: route the input and elapsed time to the handler for
    /// the current mode.
    pub fn tick(&mut self, key: Option<Action>, delta_ms: u64)
        requires
            old(self).wf(),
            old(self).player.x + 1 + SCREEN_WIDTH <= i32::MAX,
            old(self).score < i32::MAX,
            old(self).frame_time + delta_ms <= u64::MAX,
        ensures
            final(self).wf(),
            old(self).mode is Playing ==> play_rel(*old(self), key, delta_ms, *final(self)),
            !(old(self).mode is Playing) ==> menu_rel(*old(self), key, *final(self)),
    {
        match self.mode {
            GameMode::Menu => self.main_menu(key),
            GameMode::End => self.dead(key),
            GameMode::Playing => self.play(key, delta_ms),
        }
    }

    /// Whether `tick` may be called: the state is well-formed and this tick's
    /// arithmetic stays within the machine's integer ranges.  The outer
    /// harness checks this before every dispatch.
    pub fn tick_ready(&self, delta_ms: u64) -> (r: bool)
        ensures
            r == (self.wf() && self.player.x + 1 + SCREEN_WIDTH <= i32::MAX && self.score
                < i32::MAX && self.frame_time + delta_ms <= u64::MAX),
    {
        let player_ok: bool = FLAP_SPEED <= self.player.velocity && self.player.velocity
            <= MAX_FALL_SPEED && self.player.velocity % GRAVITY_PER_STEP == 0 && 0 <= self.player.y
            && self.player.frame < FRAME_COUNT;
        let obstacle_ok: bool = GAP_Y_MIN <= self.obstacle.gap_y && self.obstacle.gap_y < GAP_Y_END
            && MIN_GAP_SIZE <= self.obstacle.size && self.obstacle.size <= BASE_GAP_SIZE;
        let mode_ok: bool = match self.mode {
            GameMode::Playing => self.player.x <= self.obstacle.x && self.player.y >= 0
                && self.player.y / Y_SCALE <= SCREEN_HEIGHT,
            _ => true,
        };
        let bounds_ok: bool = self.player.x <= i32::MAX - 1 - SCREEN_WIDTH && self.score < i32::MAX
            && delta_ms <= u64::MAX - self.frame_time;
        player_ok && obstacle_ok && mode_ok && self.score >= 0 && self.frame_time
            <= FRAME_DURATION_MS && bounds_ok
    }
}

} // verus!
