//! Core simulation of a side-scrolling "flappy" arcade game.
//!
//! The library owns the game logic: player physics, obstacle generation and
//! collision, and the menu / playing / game-over state machine.  Rendering,
//! window construction and input polling belong to an outer harness; the core
//! consumes plain values (one optional key action and the elapsed milliseconds
//! per tick) and exposes its state for the harness to draw.

use vstd::prelude::*;

pub mod obstacle;
pub mod player;
pub mod session;

verus! {

/// Logical screen width, in columns.
pub const SCREEN_WIDTH: i32 = 80;

/// Logical screen height, in rows.
pub const SCREEN_HEIGHT: i32 = 50;

/// Accumulated tick time, in milliseconds, beyond which one physics step fires.
pub const FRAME_DURATION_MS: u64 = 75;

} // verus!
