//! The engine's general laws, stated and proved over the same spec
//! functions that the executable contracts use.

use vstd::prelude::*;

use vstd::arithmetic::div_mod::{
    lemma_fundamental_div_mod, lemma_fundamental_div_mod_converse_mod, lemma_mod_bound,
    lemma_mod_mod,
};

use crate::board::StaticCollider;
use crate::clock::{tick_spec, GameState};
use crate::geometry::{overlaps_at, Rect};
use crate::input::InputState;
use crate::params::{GRAVITY_PERIOD, MOVE_COOLDOWN, TICK_WRAP};
use crate::piece::{initial_piece, Piece};
use crate::world::{
    blocked_x_spec, blocked_y_spec, candidate_hits, move_spec, resolve_colliders, resolve_piece,
    step_spec, WorldView,
};

verus! {

/// Debounce monotonicity, clock side: a clock advance never drives the
/// horizontal lock below zero — the lock decreases by exactly one while it
/// is positive and stays at zero once it reaches zero.
pub proof fn lemma_debounce_monotonic(s: GameState)
    ensures
        tick_spec(s).key_debounce >= 0,
        s.key_debounce > 0 ==> tick_spec(s).key_debounce == s.key_debounce - 1,
        s.key_debounce == 0 ==> tick_spec(s).key_debounce == 0,
{
}

/// Debounce monotonicity, input side: the input resolver either leaves the
/// lock alone, clears it on a release, or arms it to `MOVE_COOLDOWN` — and
/// arms it only on a step that resolved a nonzero horizontal delta.
pub proof fn lemma_lock_armed_only_by_accepted_move(s: GameState, p: Piece, inp: InputState)
    ensures
        ({
            let kd = move_spec(s, p, inp).0.key_debounce;
            ||| kd == s.key_debounce
            ||| kd == 0
            ||| (kd == MOVE_COOLDOWN && move_spec(s, p, inp).1.vx != 0)
        }),
{
}

/// Release clears the lock: on a step where a direction key was just
/// released, no direction key is held, and no horizontal delta is pending,
/// the resolver forces the lock to zero — whatever its prior value.
pub proof fn lemma_release_clears_lock(s: GameState, p: Piece, inp: InputState)
    requires
        p.vx == 0,
        !inp.left_pressed,
        !inp.right_pressed,
        inp.left_just_released || inp.right_just_released,
    ensures
        move_spec(s, p, inp).0.key_debounce == 0,
{
}

/// The clock value `i` ticks after clock value `t`, with the wrap applied.
pub open spec fn window_tick(t: int, i: int) -> int {
    (t + i) % (TICK_WRAP as int)
}

/// Gravity fires in slot `i` of the window that starts at clock value `t`.
pub open spec fn fires_in_window(t: int, i: int) -> bool {
    window_tick(t, i) % (GRAVITY_PERIOD as int) == 0
}

/// Gravity cadence: in any window of `GRAVITY_PERIOD` consecutive clock
/// values, gravity fires on exactly one. The wrap bound is a multiple of
/// the period, so the law holds across the wrap as well.
pub proof fn lemma_gravity_cadence(t: int)
    requires
        0 <= t < TICK_WRAP,
    ensures
        exists|i: int| 0 <= i < GRAVITY_PERIOD && #[trigger] fires_in_window(t, i),
        forall|i: int, j: int|
            0 <= i < GRAVITY_PERIOD && 0 <= j < GRAVITY_PERIOD && #[trigger] fires_in_window(t, i)
                && #[trigger] fires_in_window(t, j) ==> i == j,
{
    let g = GRAVITY_PERIOD as int;
    let w = TICK_WRAP as int;
    let r = t % g;
    lemma_fundamental_div_mod(t, g);
    lemma_mod_bound(t, g);
    // The wrap is invisible modulo the period.
    assert forall|i: int| 0 <= i < g implies (#[trigger] fires_in_window(t, i) <==> (t + i) % g
        == 0) by {
        lemma_mod_mod(t + i, g, 10000);
        assert(g * 10000 == w);
    }
    // Within one window, the slot where the sum reaches a multiple of the
    // period is determined by the start's remainder.
    let i0 = if r == 0 {
        0int
    } else {
        g - r
    };
    assert((t + i0) % g == 0) by {
        if r == 0 {
            lemma_fundamental_div_mod_converse_mod(t + i0, g, t / g, 0);
        } else {
            lemma_fundamental_div_mod_converse_mod(t + i0, g, t / g + 1, 0);
        }
    }
    assert(fires_in_window(t, i0));
    assert forall|i: int, j: int|
        0 <= i < g && 0 <= j < g && #[trigger] fires_in_window(t, i) && #[trigger] fires_in_window(
            t,
            j,
        ) implies i == j by {
        if r + i < g {
            lemma_fundamental_div_mod_converse_mod(t + i, g, t / g, r + i);
        } else {
            lemma_fundamental_div_mod_converse_mod(t + i, g, t / g + 1, r + i - g);
        }
        if r + j < g {
            lemma_fundamental_div_mod_converse_mod(t + j, g, t / g, r + j);
        } else {
            lemma_fundamental_div_mod_converse_mod(t + j, g, t / g + 1, r + j - g);
        }
    }
}

/// Axis independence: each collision verdict reads only its own axis —
/// the horizontal verdict ignores the vertical delta and the vertical
/// verdict ignores the horizontal delta. Consequently a horizontal-only
/// collision cancels the horizontal delta while this step's vertical
/// motion proceeds untouched, and a vertical-only collision lands the
/// piece without the horizontal test ever reporting a block.
pub proof fn lemma_axis_independence(p: Piece, q: Piece, cs: Seq<StaticCollider>)
    requires
        p.rect == q.rect,
    ensures
        p.vx == q.vx ==> blocked_x_spec(p, cs) == blocked_x_spec(q, cs),
        p.vy == q.vy ==> blocked_y_spec(p, cs) == blocked_y_spec(q, cs),
        blocked_x_spec(p, cs) && !blocked_y_spec(p, cs) ==> resolve_piece(p, cs) == (Piece {
            rect: p.rect,
            vx: 0,
            vy: p.vy,
        }),
        !blocked_x_spec(p, cs) && blocked_y_spec(p, cs) ==> resolve_piece(p, cs)
            == initial_piece() && resolve_colliders(p, cs) == cs.push(
            StaticCollider::LandedPiece(p.rect),
        ),
{
}

/// No tunneling, horizontal: when a horizontal step is smaller than the
/// collider's width, a move whose leading edge would cross the collider's
/// near face — at a height where the two rectangles overlap — always
/// yields an overlapping candidate, so the overlap test cannot miss it.
pub proof fn lemma_no_tunneling_horizontal(a: Rect, dx: int, b: Rect)
    requires
        a.wf(),
        b.wf(),
        dx != 0,
        -b.w < dx < b.w,
        a.bottom2() < b.top2(),
        a.top2() > b.bottom2(),
        dx > 0 ==> a.right2() <= b.left2() < a.right2() + 2 * dx,
        dx < 0 ==> a.left2() >= b.right2() > a.left2() + 2 * dx,
    ensures
        overlaps_at(a, dx, 0, b),
{
}

/// No tunneling, vertical: the counterpart of the horizontal law for a
/// vertical step smaller than the collider's height.
pub proof fn lemma_no_tunneling_vertical(a: Rect, dy: int, b: Rect)
    requires
        a.wf(),
        b.wf(),
        dy != 0,
        -b.h < dy < b.h,
        a.left2() < b.right2(),
        a.right2() > b.left2(),
        dy > 0 ==> a.top2() <= b.bottom2() < a.top2() + 2 * dy,
        dy < 0 ==> a.bottom2() >= b.top2() > a.bottom2() + 2 * dy,
    ensures
        overlaps_at(a, 0, dy, b),
{
}

/// No tunneling, resolver, horizontal: with such a collider present in the
/// set, the resolver reports the horizontal candidate blocked.
pub proof fn lemma_no_tunneling_resolver_horizontal(p: Piece, cs: Seq<StaticCollider>, k: int)
    requires
        p.rect.wf(),
        0 <= k < cs.len(),
        cs[k].rect().wf(),
        p.vx != 0,
        -cs[k].rect().w < p.vx < cs[k].rect().w,
        p.rect.bottom2() < cs[k].rect().top2(),
        p.rect.top2() > cs[k].rect().bottom2(),
        p.vx > 0 ==> p.rect.right2() <= cs[k].rect().left2() < p.rect.right2() + 2 * p.vx,
        p.vx < 0 ==> p.rect.left2() >= cs[k].rect().right2() > p.rect.left2() + 2 * p.vx,
    ensures
        blocked_x_spec(p, cs),
{
    lemma_no_tunneling_horizontal(p.rect, p.vx as int, cs[k].rect());
    assert(candidate_hits(p.rect, p.vx as int, 0, cs));
}

/// No tunneling, resolver, vertical: with such a collider present in the
/// set, the resolver reports the vertical candidate blocked, which lands
/// the piece.
pub proof fn lemma_no_tunneling_resolver_vertical(p: Piece, cs: Seq<StaticCollider>, k: int)
    requires
        p.rect.wf(),
        0 <= k < cs.len(),
        cs[k].rect().wf(),
        p.vy != 0,
        -cs[k].rect().h < p.vy < cs[k].rect().h,
        p.rect.left2() < cs[k].rect().right2(),
        p.rect.right2() > cs[k].rect().left2(),
        p.vy > 0 ==> p.rect.top2() <= cs[k].rect().bottom2() < p.rect.top2() + 2 * p.vy,
        p.vy < 0 ==> p.rect.bottom2() >= cs[k].rect().top2() > p.rect.bottom2() + 2 * p.vy,
    ensures
        blocked_y_spec(p, cs),
{
    lemma_no_tunneling_vertical(p.rect, p.vy as int, cs[k].rect());
    assert(candidate_hits(p.rect, 0, p.vy as int, cs));
}

/// A piece's extents never change after spawn: a full step either keeps
/// the piece's rectangle extents or replaces a landed piece by the fixed
/// spawn transform — whose extents are the ones every piece the engine
/// creates is born with.
pub proof fn lemma_piece_size_constant(v: WorldView, inp: InputState)
    ensures
        step_spec(v, inp).piece.rect.w == v.piece.rect.w || step_spec(v, inp).piece
            == initial_piece(),
        step_spec(v, inp).piece.rect.h == v.piece.rect.h || step_spec(v, inp).piece
            == initial_piece(),
{
}

/// Respawn invariant: a landing replaces the active piece by exactly one
/// fresh piece at the fixed spawn transform with the fixed initial
/// velocity, and freezes the landed rectangle as one new static collider;
/// nothing else of the collider set changes.
pub proof fn lemma_respawn_invariant(p: Piece, cs: Seq<StaticCollider>)
    requires
        blocked_y_spec(p, cs),
    ensures
        resolve_piece(p, cs) == initial_piece(),
        resolve_colliders(p, cs) == cs.push(StaticCollider::LandedPiece(p.rect)),
        resolve_colliders(p, cs).len() == cs.len() + 1,
        resolve_colliders(p, cs)[cs.len() as int] == StaticCollider::LandedPiece(p.rect),
        forall|i: int| 0 <= i < cs.len() ==> resolve_colliders(p, cs)[i] == cs[i],
{
}

} // verus!
