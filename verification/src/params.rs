//! Tunable constants of the simulation: board geometry, piece geometry,
//! debounce cooldowns and the gravity cadence.

use vstd::prelude::*;

verus! {

/// Side length of one board cell, in pixels. Horizontal moves and gravity
/// steps both displace the piece by exactly one cell.
pub const CELL_SIZE: i32 = 32;

/// Full width of the falling piece (one cell).
pub const PIECE_WIDTH: i32 = CELL_SIZE * 1;

/// Full height of the falling piece (four cells).
pub const PIECE_HEIGHT: i32 = CELL_SIZE * 4;

/// Full width of the playing field (ten cells), centered at the origin.
pub const BOARD_WIDTH: i32 = CELL_SIZE * 10;

/// Full height of the playing field (twenty cells), centered at the origin.
pub const BOARD_HEIGHT: i32 = CELL_SIZE * 20;

/// Thickness of the boundary walls. Kept even so that every wall center
/// lands on an integer coordinate.
pub const WALL_THICKNESS: i32 = 8;

/// Horizontal center of a freshly spawned piece: half the piece width left
/// of the origin, so the piece's right edge sits on the board's center line.
pub const SPAWN_X: i32 = -16;

/// Vertical center of a freshly spawned piece: half the board height minus
/// half the piece height, so the piece's top edge is flush with the top of
/// the board.
pub const SPAWN_Y: i32 = 256;

/// Horizontal delta of an accepted Left move: one cell to the left.
pub const LEFT_STEP_VX: i32 = -CELL_SIZE;

/// Horizontal delta of an accepted Right move: one cell to the right.
pub const RIGHT_STEP_VX: i32 = CELL_SIZE;

/// Vertical delta of one gravity step: one cell straight down. A fresh
/// piece also spawns with this velocity, applied by its first integration
/// step.
pub const FALL_VY: i32 = -CELL_SIZE;

/// Gravity fires on every tick whose value is a multiple of this period and
/// is suppressed on all others.
pub const GRAVITY_PERIOD: u64 = 60;

/// The tick counter wraps at this bound. It is a multiple of
/// `GRAVITY_PERIOD`, so wrapping never disturbs the gravity cadence.
pub const TICK_WRAP: u64 = GRAVITY_PERIOD * 10000;

/// Ticks during which horizontal input is ignored after an accepted
/// horizontal move.
pub const MOVE_COOLDOWN: u32 = 14;

/// Extra clock ticks the input resolver adds on a step while the
/// soft-drop key is held: a soft drop compresses the clock, driving it
/// toward the next gravity tick faster than one tick per step.
pub const SOFT_DROP_ADVANCE: u64 = 20;

} // verus!
