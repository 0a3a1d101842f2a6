//! Axis-aligned rectangles and the overlap test used by the collision
//! resolver.
//!
//! A `Rect` stores its center and its full extents. All overlap arithmetic
//! is carried out on doubled edge coordinates (`2 * center ± extent`), which
//! keeps every edge an integer even when an extent is odd.

use vstd::prelude::*;

verus! {

/// An axis-aligned rectangle: center `(x, y)`, full width `w`, full
/// height `h`.
#[derive(Clone, Copy, Debug, PartialEq, Eq, Structural)]
pub struct Rect {
    pub x: i32,
    pub y: i32,
    pub w: i32,
    pub h: i32,
}

impl Rect {
    /// A rectangle is well formed when both extents are positive.
    pub open spec fn wf(self) -> bool {
        0 < self.w && 0 < self.h
    }

    /// Left edge, doubled.
    pub open spec fn left2(self) -> int {
        2 * self.x - self.w
    }

    /// Right edge, doubled.
    pub open spec fn right2(self) -> int {
        2 * self.x + self.w
    }

    /// Bottom edge, doubled.
    pub open spec fn bottom2(self) -> int {
        2 * self.y - self.h
    }

    /// Top edge, doubled.
    pub open spec fn top2(self) -> int {
        2 * self.y + self.h
    }
}

/// The face of the static rectangle that the moving rectangle penetrated
/// most shallowly, or `Inside` when it spans or contains the static one on
/// both axes.
#[derive(Clone, Copy, Debug, PartialEq, Eq, Structural)]
pub enum Side {
    Left,
    Right,
    Top,
    Bottom,
    Inside,
}

/// True when `a`, displaced by `(dx, dy)`, strictly overlaps `b`.
/// Rectangles that merely touch along an edge do not overlap.
pub open spec fn overlaps_at(a: Rect, dx: int, dy: int, b: Rect) -> bool {
    &&& a.left2() + 2 * dx < b.right2()
    &&& a.right2() + 2 * dx > b.left2()
    &&& a.bottom2() + 2 * dy < b.top2()
    &&& a.top2() + 2 * dy > b.bottom2()
}

/// How far the moving rectangle has penetrated past the static one's left
/// or right face, on doubled edge coordinates. `None` when the moving
/// rectangle spans or is contained in the static one along this axis.
pub open spec fn x_penetration(
    a_left: int,
    a_right: int,
    b_left: int,
    b_right: int,
) -> Option<(Side, int)> {
    if a_left < b_left && a_right > b_left && a_right < b_right {
        Some((Side::Left, a_right - b_left))
    } else if a_left > b_left && a_left < b_right && a_right > b_right {
        Some((Side::Right, b_right - a_left))
    } else {
        None
    }
}

/// The vertical counterpart of `x_penetration`.
pub open spec fn y_penetration(
    a_bottom: int,
    a_top: int,
    b_bottom: int,
    b_top: int,
) -> Option<(Side, int)> {
    if a_bottom < b_bottom && a_top > b_bottom && a_top < b_top {
        Some((Side::Bottom, a_top - b_bottom))
    } else if a_bottom > b_bottom && a_bottom < b_top && a_top > b_top {
        Some((Side::Top, b_top - a_bottom))
    } else {
        None
    }
}

/// Of the two axis penetrations, the shallower one names the collided face;
/// an axis without a finite penetration counts as infinitely deep, and when
/// neither axis has one the moving rectangle is `Inside`.
pub open spec fn pick_side(xp: Option<(Side, int)>, yp: Option<(Side, int)>) -> Side {
    match (xp, yp) {
        (Some(x), Some(y)) => if y.1 < x.1 {
            y.0
        } else {
            x.0
        },
        (Some(x), None) => x.0,
        (None, Some(y)) => y.0,
        (None, None) => Side::Inside,
    }
}

/// Full classification of the candidate position of `a` displaced by
/// `(dx, dy)` against `b`: `None` when the candidate does not overlap `b`,
/// otherwise the face penetrated most shallowly.
pub open spec fn classify_at(a: Rect, dx: int, dy: int, b: Rect) -> Option<Side> {
    if overlaps_at(a, dx, dy, b) {
        Some(
            pick_side(
                x_penetration(a.left2() + 2 * dx, a.right2() + 2 * dx, b.left2(), b.right2()),
                y_penetration(a.bottom2() + 2 * dy, a.top2() + 2 * dy, b.bottom2(), b.top2()),
            ),
        )
    } else {
        None
    }
}

/// Runtime overlap test for the candidate position of `piece` displaced by
/// `(dx, dy)` against `other`.
pub fn overlap_at(piece: &Rect, dx: i32, dy: i32, other: &Rect) -> (r: bool)
    ensures
        r == overlaps_at(*piece, dx as int, dy as int, *other),
{
    let a_left: i64 = 2 * (piece.x as i64) + 2 * (dx as i64) - (piece.w as i64);
    let a_right: i64 = 2 * (piece.x as i64) + 2 * (dx as i64) + (piece.w as i64);
    let a_bottom: i64 = 2 * (piece.y as i64) + 2 * (dy as i64) - (piece.h as i64);
    let a_top: i64 = 2 * (piece.y as i64) + 2 * (dy as i64) + (piece.h as i64);
    let b_left: i64 = 2 * (other.x as i64) - (other.w as i64);
    let b_right: i64 = 2 * (other.x as i64) + (other.w as i64);
    let b_bottom: i64 = 2 * (other.y as i64) - (other.h as i64);
    let b_top: i64 = 2 * (other.y as i64) + (other.h as i64);
    a_left < b_right && a_right > b_left && a_bottom < b_top && a_top > b_bottom
}

/// Tests the candidate position of `piece` displaced by `(dx, dy)` against
/// one static rectangle and classifies the collision, if any: `None` means
/// no overlap, `Left`/`Right` a horizontal-blocking collision, and
/// `Top`/`Bottom`/`Inside` a vertical-blocking (landing) collision.
pub fn check_collision(piece: &Rect, dx: i32, dy: i32, other: &Rect) -> (r: Option<Side>)
    ensures
        r == classify_at(*piece, dx as int, dy as int, *other),
        r is Some <==> overlaps_at(*piece, dx as int, dy as int, *other),
{
    let a_left: i64 = 2 * (piece.x as i64) + 2 * (dx as i64) - (piece.w as i64);
    let a_right: i64 = 2 * (piece.x as i64) + 2 * (dx as i64) + (piece.w as i64);
    let a_bottom: i64 = 2 * (piece.y as i64) + 2 * (dy as i64) - (piece.h as i64);
    let a_top: i64 = 2 * (piece.y as i64) + 2 * (dy as i64) + (piece.h as i64);
    let b_left: i64 = 2 * (other.x as i64) - (other.w as i64);
    let b_right: i64 = 2 * (other.x as i64) + (other.w as i64);
    let b_bottom: i64 = 2 * (other.y as i64) - (other.h as i64);
    let b_top: i64 = 2 * (other.y as i64) + (other.h as i64);
    if !(a_left < b_right && a_right > b_left && a_bottom < b_top && a_top > b_bottom) {
        return None;
    }
    let xp: Option<(Side, i64)> = if a_left < b_left && a_right > b_left && a_right < b_right {
        Some((Side::Left, a_right - b_left))
    } else if a_left > b_left && a_left < b_right && a_right > b_right {
        Some((Side::Right, b_right - a_left))
    } else {
        None
    };
    let yp: Option<(Side, i64)> = if a_bottom < b_bottom && a_top > b_bottom && a_top < b_top {
        Some((Side::Bottom, a_top - b_bottom))
    } else if a_bottom > b_bottom && a_bottom < b_top && a_top > b_top {
        Some((Side::Top, b_top - a_bottom))
    } else {
        None
    };
    let side: Side = match (xp, yp) {
        (Some((sx, xd)), Some((sy, yd))) => if yd < xd {
            sy
        } else {
            sx
        },
        (Some((sx, _)), None) => sx,
        (None, Some((sy, _))) => sy,
        (None, None) => Side::Inside,
    };
    Some(side)
}

} // verus!
