//! The world state and the fixed simulation step: input resolution,
//! axis-separated collision checks, landing and respawn, and motion
//! integration.

use vstd::prelude::*;

use crate::board::{board_walls, spawn_board, StaticCollider};
use crate::clock::{tick_spec, GameState};
use crate::geometry::{overlap_at, overlaps_at, Rect};
use crate::input::InputState;
use crate::params::{
    CELL_SIZE, FALL_VY, LEFT_STEP_VX, MOVE_COOLDOWN, RIGHT_STEP_VX, SOFT_DROP_ADVANCE, TICK_WRAP,
};
use crate::piece::{initial_piece, spawn_tetromino, Piece};

verus! {

/// The whole simulation state: exactly one active falling piece, the
/// static colliders (walls and landed pieces), and the clock/debounce
/// state. Holding the active piece apart from the collider list makes the
/// single-active-piece invariant structural, and the piece never tests
/// collision against itself.
pub struct World {
    pub state: GameState,
    pub piece: Piece,
    pub colliders: Vec<StaticCollider>,
}

/// The mathematical view of a `World`: the same state with the collider
/// list abstracted to a sequence.
#[verifier::ext_equal]
pub struct WorldView {
    pub state: GameState,
    pub piece: Piece,
    pub colliders: Seq<StaticCollider>,
}

impl View for World {
    type V = WorldView;

    open spec fn view(&self) -> WorldView {
        WorldView { state: self.state, piece: self.piece, colliders: self.colliders@ }
    }
}

impl WorldView {
    /// Well-formedness: the clock is in range, the piece has positive
    /// extents and at most one cell of velocity per axis, and every
    /// collider has positive extents.
    pub open spec fn wf(self) -> bool {
        &&& self.state.wf()
        &&& self.piece.wf()
        &&& forall|i: int|
            0 <= i < self.colliders.len() ==> (#[trigger] self.colliders[i]).rect().wf()
    }
}

/// True when some static collider overlaps the candidate position of `r`
/// displaced by `(dx, dy)`.
pub open spec fn candidate_hits(r: Rect, dx: int, dy: int, cs: Seq<StaticCollider>) -> bool {
    exists|i: int| 0 <= i < cs.len() && overlaps_at(r, dx, dy, (#[trigger] cs[i]).rect())
}

/// The horizontal candidate is blocked: the piece requests a nonzero
/// horizontal delta and the displaced rectangle overlaps some collider. A
/// zero delta requests no move, so its test is skipped and it is never
/// blocked.
pub open spec fn blocked_x_spec(p: Piece, cs: Seq<StaticCollider>) -> bool {
    p.vx != 0 && candidate_hits(p.rect, p.vx as int, 0, cs)
}

/// The vertical candidate is blocked, which lands the piece. As with the
/// horizontal test, a zero vertical delta is never blocked.
pub open spec fn blocked_y_spec(p: Piece, cs: Seq<StaticCollider>) -> bool {
    p.vy != 0 && candidate_hits(p.rect, 0, p.vy as int, cs)
}

/// What the input resolver does to the clock state and the piece, in
/// branch order: Left is resolved first and Right after it, so Right wins
/// when both are held; a release clears the horizontal cooldown; a
/// resolved nonzero horizontal delta arms the cooldown; Down advances the
/// clock (soft drop); and when gravity is not suppressed this step it
/// requests one cell of downward motion.
pub open spec fn move_spec(s: GameState, p: Piece, inp: InputState) -> (GameState, Piece) {
    let vx1 = if inp.left_pressed && s.key_debounce == 0 {
        LEFT_STEP_VX
    } else {
        p.vx
    };
    let kd1 = if !(inp.left_pressed && s.key_debounce == 0) && inp.left_just_released {
        0u32
    } else {
        s.key_debounce
    };
    let vx2 = if inp.right_pressed && kd1 == 0 {
        RIGHT_STEP_VX
    } else {
        vx1
    };
    let kd2 = if !(inp.right_pressed && kd1 == 0) && inp.right_just_released {
        0u32
    } else {
        kd1
    };
    let kd3 = if vx2 != 0 && kd2 == 0 {
        MOVE_COOLDOWN
    } else {
        kd2
    };
    let tick1 = if inp.down_pressed {
        (((s.tick + SOFT_DROP_ADVANCE) % (TICK_WRAP as int)) as u64)
    } else {
        s.tick
    };
    let vy1 = if !s.gravity_debounce {
        FALL_VY
    } else {
        p.vy
    };
    (
        GameState { tick: tick1, key_debounce: kd3, gravity_debounce: s.gravity_debounce },
        Piece { rect: p.rect, vx: vx2, vy: vy1 },
    )
}

/// The piece after collision resolution: replaced by a fresh spawn when the
/// vertical candidate is blocked (a landing), otherwise kept with its
/// horizontal delta cancelled when the horizontal candidate is blocked.
pub open spec fn resolve_piece(p: Piece, cs: Seq<StaticCollider>) -> Piece {
    if blocked_y_spec(p, cs) {
        initial_piece()
    } else if blocked_x_spec(p, cs) {
        Piece { rect: p.rect, vx: 0, vy: p.vy }
    } else {
        p
    }
}

/// The collider set after collision resolution: a landing downgrades the
/// landed piece to a static collider at the position it froze in.
pub open spec fn resolve_colliders(p: Piece, cs: Seq<StaticCollider>) -> Seq<StaticCollider> {
    if blocked_y_spec(p, cs) {
        cs.push(StaticCollider::LandedPiece(p.rect))
    } else {
        cs
    }
}

/// The motion integrator's effect: the net per-step velocity is added to
/// the position, and the transient velocity is zeroed so the next step
/// re-derives it from input and gravity.
pub open spec fn integrate_spec(p: Piece) -> Piece {
    Piece {
        rect: Rect {
            x: (p.rect.x + p.vx) as i32,
            y: (p.rect.y + p.vy) as i32,
            w: p.rect.w,
            h: p.rect.h,
        },
        vx: 0,
        vy: 0,
    }
}

/// One whole fixed step, as a function on the world view: clock advance,
/// input resolution, collision resolution, then — on every step without a
/// landing — motion integration. On a landing step the integrator is
/// skipped: the landed piece freezes where it stood and the replacement
/// spawned by the collision pass first falls on the following step.
pub open spec fn step_spec(v: WorldView, inp: InputState) -> WorldView {
    let s1 = tick_spec(v.state);
    let mv = move_spec(s1, v.piece, inp);
    let s2 = mv.0;
    let p2 = mv.1;
    let p3 = resolve_piece(p2, v.colliders);
    let cs3 = resolve_colliders(p2, v.colliders);
    if blocked_y_spec(p2, v.colliders) {
        WorldView { state: s2, piece: p3, colliders: cs3 }
    } else {
        WorldView { state: s2, piece: integrate_spec(p3), colliders: cs3 }
    }
}

/// Whether one whole fixed step ends in a landing.
pub open spec fn step_landed(v: WorldView, inp: InputState) -> bool {
    blocked_y_spec(move_spec(tick_spec(v.state), v.piece, inp).1, v.colliders)
}

/// Whether one whole fixed step has its horizontal candidate blocked.
pub open spec fn step_blocked_x(v: WorldView, inp: InputState) -> bool {
    blocked_x_spec(move_spec(tick_spec(v.state), v.piece, inp).1, v.colliders)
}

/// The outcome of one collision-resolution pass: the synchronous stand-in
/// for a fire-and-forget collision event. A collision occurred on this
/// step exactly when one of the two flags is set.
#[derive(Clone, Copy, Debug, PartialEq, Eq, Structural)]
pub struct CollisionReport {
    /// The horizontal candidate overlapped a collider; the horizontal
    /// delta was cancelled for this step.
    pub horizontal_blocked: bool,
    /// The vertical candidate overlapped a collider; the piece landed and
    /// was replaced by a fresh spawn.
    pub landed: bool,
}

/// Scans the collider set for one whose rectangle overlaps the candidate
/// position of `piece` displaced by `(dx, dy)`.
fn hits_any(piece: &Rect, dx: i32, dy: i32, colliders: &Vec<StaticCollider>) -> (r: bool)
    ensures
        r == candidate_hits(*piece, dx as int, dy as int, colliders@),
{
    let mut i: usize = 0;
    while i < colliders.len()
        invariant
            i <= colliders@.len(),
            forall|j: int|
                0 <= j < i ==> !overlaps_at(
                    *piece,
                    dx as int,
                    dy as int,
                    (#[trigger] colliders@[j]).rect(),
                ),
        decreases colliders@.len() - i,
    {
        let c = colliders[i].bounding_rect();
        if overlap_at(piece, dx, dy, &c) {
            return true;
        }
        i = i + 1;
    }
    false
}

impl World {
    /// Builds the starting world: the three boundary walls as colliders and
    /// one active piece at the fixed spawn transform, with the clock at
    /// zero and no horizontal lock.
    pub fn new() -> (w: World)
        ensures
            w.state == (GameState { tick: 0, key_debounce: 0, gravity_debounce: false }),
            w.piece == initial_piece(),
            w.colliders@ == board_walls(),
            w@.wf(),
    {
        World { state: GameState::new(), piece: spawn_tetromino(), colliders: spawn_board() }
    }

    /// The input resolver: integrates this step's directional input into
    /// the piece's transient velocity and the debounce state, as
    /// `move_spec` describes.
    pub fn move_tetromino(&mut self, input: &InputState)
        requires
            old(self).state.wf(),
        ensures
            final(self).state == move_spec(old(self).state, old(self).piece, *input).0,
            final(self).piece == move_spec(old(self).state, old(self).piece, *input).1,
            final(self).colliders@ == old(self).colliders@,
            final(self).state.wf(),
    {
        if input.left_pressed && self.state.key_debounce == 0 {
            self.piece.vx = LEFT_STEP_VX;
        } else if input.left_just_released {
            self.state.key_debounce = 0;
        }
        if input.right_pressed && self.state.key_debounce == 0 {
            self.piece.vx = RIGHT_STEP_VX;
        } else if input.right_just_released {
            self.state.key_debounce = 0;
        }
        if self.piece.vx != 0 && self.state.key_debounce == 0 {
            self.state.key_debounce = MOVE_COOLDOWN;
        }
        if input.down_pressed {
            self.state.tick = (self.state.tick + SOFT_DROP_ADVANCE) % TICK_WRAP;
        }
        if !self.state.gravity_debounce {
            self.piece.vy = FALL_VY;
        }
    }

    /// The collision resolver: tests the horizontal and the vertical
    /// candidate positions independently against every collider. A blocked
    /// horizontal candidate cancels the horizontal delta; a blocked
    /// vertical candidate lands the piece — the landed rectangle is
    /// downgraded to a static collider and a fresh piece is spawned at the
    /// fixed spawn transform. Zero deltas skip their test.
    pub fn check_for_collisions(&mut self) -> (r: CollisionReport)
        ensures
            r.horizontal_blocked == blocked_x_spec(old(self).piece, old(self).colliders@),
            r.landed == blocked_y_spec(old(self).piece, old(self).colliders@),
            final(self).piece == resolve_piece(old(self).piece, old(self).colliders@),
            final(self).colliders@ == resolve_colliders(old(self).piece, old(self).colliders@),
            final(self).state == old(self).state,
    {
        let blocked_x = self.piece.vx != 0 && hits_any(
            &self.piece.rect,
            self.piece.vx,
            0,
            &self.colliders,
        );
        if blocked_x {
            self.piece.vx = 0;
        }
        let blocked_y = self.piece.vy != 0 && hits_any(
            &self.piece.rect,
            0,
            self.piece.vy,
            &self.colliders,
        );
        if blocked_y {
            self.colliders.push(StaticCollider::LandedPiece(self.piece.rect));
            self.piece = spawn_tetromino();
        }
        CollisionReport { horizontal_blocked: blocked_x, landed: blocked_y }
    }

    /// The motion integrator: applies the net per-step velocity to the
    /// piece and zeroes it, as `integrate_spec` describes.
    pub fn apply_velocity(&mut self)
        requires
            i32::MIN <= old(self).piece.rect.x + old(self).piece.vx <= i32::MAX,
            i32::MIN <= old(self).piece.rect.y + old(self).piece.vy <= i32::MAX,
        ensures
            final(self).piece == integrate_spec(old(self).piece),
            final(self).colliders@ == old(self).colliders@,
            final(self).state == old(self).state,
    {
        self.piece.rect.x = self.piece.rect.x + self.piece.vx;
        self.piece.rect.y = self.piece.rect.y + self.piece.vy;
        self.piece.vx = 0;
        self.piece.vy = 0;
    }

    /// One whole fixed simulation step in the canonical order: clock
    /// advance, input resolution, axis-separated collision resolution,
    /// then motion integration on every step without a landing.
    ///
    /// The two position bounds keep the integration inside `i32`; they
    /// hold for any piece that stays within reach of the board.
    pub fn step(&mut self, input: &InputState) -> (r: CollisionReport)
        requires
            old(self)@.wf(),
            i32::MIN + CELL_SIZE <= old(self).piece.rect.x <= i32::MAX - CELL_SIZE,
            i32::MIN + CELL_SIZE <= old(self).piece.rect.y <= i32::MAX - CELL_SIZE,
        ensures
            final(self)@ == step_spec(old(self)@, *input),
            r.landed == step_landed(old(self)@, *input),
            r.horizontal_blocked == step_blocked_x(old(self)@, *input),
            final(self)@.wf(),
            r.landed ==> final(self).piece == initial_piece() && final(self).colliders@
                == old(self).colliders@.push(StaticCollider::LandedPiece(old(self).piece.rect)),
    {
        self.state.ticker();
        self.move_tetromino(input);
        let r = self.check_for_collisions();
        if !r.landed {
            self.apply_velocity();
        }
        r
    }
}

} // verus!
