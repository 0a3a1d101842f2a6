//! Static colliders: boundary walls and landed pieces.

use vstd::prelude::*;

use crate::geometry::Rect;
use crate::params::{BOARD_HEIGHT, BOARD_WIDTH, WALL_THICKNESS};

verus! {

/// Vertical center of the bottom wall: half a wall thickness below the
/// board's bottom edge.
pub const BOTTOM_WALL_Y: i32 = -324;

/// Vertical center of the decorative top boundary, mirror of the bottom
/// wall.
pub const TOP_WALL_Y: i32 = 324;

/// Horizontal center of the left wall: half a wall thickness left of the
/// board's left edge.
pub const LEFT_WALL_X: i32 = -164;

/// Horizontal center of the right wall, mirror of the left one.
pub const RIGHT_WALL_X: i32 = 164;

/// Horizontal extent of the bottom wall: the board plus both corners.
pub const WALL_SPAN_X: i32 = BOARD_WIDTH + WALL_THICKNESS * 2;

/// Vertical extent of the side walls: the board plus both corners.
pub const WALL_SPAN_Y: i32 = BOARD_HEIGHT + WALL_THICKNESS * 2;

/// A rectangle the piece collides against but which never moves: a boundary
/// wall, or a piece that landed and was downgraded to an obstacle.
#[derive(Clone, Copy, Debug, PartialEq, Eq, Structural)]
pub enum StaticCollider {
    Wall(Rect),
    LandedPiece(Rect),
}

impl StaticCollider {
    /// The bounding rectangle, uniform over both variants.
    pub open spec fn rect(self) -> Rect {
        match self {
            StaticCollider::Wall(r) => r,
            StaticCollider::LandedPiece(r) => r,
        }
    }

    /// Runtime accessor for the bounding rectangle.
    pub fn bounding_rect(&self) -> (r: Rect)
        ensures
            r == self.rect(),
    {
        match self {
            StaticCollider::Wall(r) => *r,
            StaticCollider::LandedPiece(r) => *r,
        }
    }
}

/// The bottom wall: spans the board width plus both wall corners, centered
/// half a wall thickness below the board's bottom edge.
pub open spec fn bottom_wall() -> Rect {
    Rect { x: 0, y: BOTTOM_WALL_Y, w: WALL_SPAN_X, h: WALL_THICKNESS }
}

/// The left wall: spans the board height plus both wall corners, centered
/// half a wall thickness left of the board's left edge.
pub open spec fn left_wall() -> Rect {
    Rect { x: LEFT_WALL_X, y: 0, w: WALL_THICKNESS, h: WALL_SPAN_Y }
}

/// The right wall, mirror of the left one.
pub open spec fn right_wall() -> Rect {
    Rect { x: RIGHT_WALL_X, y: 0, w: WALL_THICKNESS, h: WALL_SPAN_Y }
}

/// The colliders every game starts with: the bottom, left and right walls.
/// The board is open at the top — the top boundary is decorative only and
/// takes part in no collision test.
pub open spec fn board_walls() -> Seq<StaticCollider> {
    seq![
        StaticCollider::Wall(bottom_wall()),
        StaticCollider::Wall(left_wall()),
        StaticCollider::Wall(right_wall()),
    ]
}

/// Builds the initial collider set: the bottom, left and right walls.
pub fn spawn_board() -> (v: Vec<StaticCollider>)
    ensures
        v@ == board_walls(),
        forall|i: int| 0 <= i < v@.len() ==> (#[trigger] v@[i]).rect().wf(),
{
    let mut v: Vec<StaticCollider> = Vec::new();
    v.push(StaticCollider::Wall(Rect { x: 0, y: -324, w: 336, h: 8 }));
    v.push(StaticCollider::Wall(Rect { x: -164, y: 0, w: 8, h: 656 }));
    v.push(StaticCollider::Wall(Rect { x: 164, y: 0, w: 8, h: 656 }));
    proof {
        assert(v@ =~= board_walls());
    }
    v
}

/// The decorative top boundary. It is rendered like the other walls but is
/// not a collider: a spawning piece stands flush against it and must not be
/// treated as colliding.
pub fn top_wall() -> (r: Rect)
    ensures
        r == (Rect { x: 0, y: TOP_WALL_Y, w: WALL_SPAN_X, h: WALL_THICKNESS }),
{
    Rect { x: 0, y: 324, w: 336, h: 8 }
}

} // verus!
