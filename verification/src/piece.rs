//! The falling piece and the fixed spawn transform.

use vstd::prelude::*;

use crate::geometry::Rect;
use crate::params::{CELL_SIZE, FALL_VY, PIECE_HEIGHT, PIECE_WIDTH, SPAWN_X, SPAWN_Y};

verus! {

/// The single active falling piece: its bounding rectangle and its per-step
/// velocity. The velocity is transient — the input resolver and gravity
/// rewrite it every step and the motion integrator zeroes it after applying
/// it. The piece stands for the whole tetromino, moved and frozen as one
/// unit.
#[derive(Clone, Copy, Debug, PartialEq, Eq, Structural)]
pub struct Piece {
    pub rect: Rect,
    pub vx: i32,
    pub vy: i32,
}

impl Piece {
    /// A piece is well formed when its rectangle has positive extents and
    /// its per-step velocity never exceeds one cell per axis.
    pub open spec fn wf(self) -> bool {
        &&& self.rect.wf()
        &&& -CELL_SIZE <= self.vx <= CELL_SIZE
        &&& -CELL_SIZE <= self.vy <= CELL_SIZE
    }
}

/// The fixed transform every new piece spawns with: centered on the spawn
/// point, one cell wide, four cells tall, already falling one cell per
/// gravity step.
pub open spec fn initial_piece() -> Piece {
    Piece {
        rect: Rect { x: SPAWN_X, y: SPAWN_Y, w: PIECE_WIDTH, h: PIECE_HEIGHT },
        vx: 0,
        vy: FALL_VY,
    }
}

/// Builds a fresh piece at the fixed spawn transform. Called once at
/// startup and again on every landing; these are the only places pieces are
/// created.
pub fn spawn_tetromino() -> (p: Piece)
    ensures
        p == initial_piece(),
        p.wf(),
{
    Piece {
        rect: Rect { x: SPAWN_X, y: SPAWN_Y, w: PIECE_WIDTH, h: PIECE_HEIGHT },
        vx: 0,
        vy: FALL_VY,
    }
}

} // verus!
