use tetromino_core::board::{top_wall, StaticCollider};
use tetromino_core::geometry::Rect;
use tetromino_core::input::InputState;
use tetromino_core::piece::Piece;
use tetromino_core::world::World;

fn idle() -> InputState {
    InputState::idle()
}

fn left_held() -> InputState {
    InputState {
        left_pressed: true,
        left_just_released: false,
        right_pressed: false,
        right_just_released: false,
        down_pressed: false,
    }
}

fn left_released() -> InputState {
    InputState {
        left_pressed: false,
        left_just_released: true,
        right_pressed: false,
        right_just_released: false,
        down_pressed: false,
    }
}

#[test]
fn new_world_has_three_walls_and_spawned_piece() {
    let w = World::new();
    assert_eq!(w.colliders.len(), 3);
    assert_eq!(w.colliders[0].bounding_rect(), Rect { x: 0, y: -324, w: 336, h: 8 });
    assert_eq!(w.colliders[1].bounding_rect(), Rect { x: -164, y: 0, w: 8, h: 656 });
    assert_eq!(w.colliders[2].bounding_rect(), Rect { x: 164, y: 0, w: 8, h: 656 });
    assert_eq!(top_wall(), Rect { x: 0, y: 324, w: 336, h: 8 });
    assert_eq!(w.piece.rect, Rect { x: -16, y: 256, w: 32, h: 128 });
    assert_eq!(w.piece.vx, 0);
    assert_eq!(w.piece.vy, -32);
    assert_eq!(w.state.tick, 0);
    assert_eq!(w.state.key_debounce, 0);
}

#[test]
fn accepted_left_move_shifts_one_cell_and_arms_lock() {
    // board 320 wide (ten 32-pixel cells), piece centered at x = 0,
    // Left held for one tick with the lock at zero
    let mut w = World::new();
    w.piece.rect.x = 0;
    w.piece.vy = 0;
    let r1 = w.step(&left_held());
    assert!(!r1.horizontal_blocked);
    assert!(!r1.landed);
    assert_eq!(w.piece.rect.x, -32);
    assert_eq!(w.state.key_debounce, 14);
    // Left released on the next tick: the lock is forced to zero even
    // though thirteen ticks remained
    let r2 = w.step(&left_released());
    assert!(!r2.horizontal_blocked);
    assert_eq!(w.state.key_debounce, 0);
    assert_eq!(w.piece.rect.x, -32);
}

#[test]
fn cooldown_suppresses_held_key_until_it_expires() {
    let mut w = World::new();
    w.piece.rect.x = 0;
    w.piece.vy = 0;
    w.step(&left_held());
    assert_eq!(w.piece.rect.x, -32);
    assert_eq!(w.state.key_debounce, 14);
    // the held key is ignored while the cooldown runs down
    for _ in 0..13 {
        w.step(&left_held());
        assert_eq!(w.piece.rect.x, -32);
    }
    assert_eq!(w.state.key_debounce, 1);
    // the tick that clears the cooldown accepts the held key again
    w.step(&left_held());
    assert_eq!(w.piece.rect.x, -64);
    assert_eq!(w.state.key_debounce, 14);
}

#[test]
fn right_wins_when_both_directions_held() {
    let mut w = World::new();
    w.piece.rect.x = 0;
    w.piece.vy = 0;
    let both = InputState {
        left_pressed: true,
        left_just_released: false,
        right_pressed: true,
        right_just_released: false,
        down_pressed: false,
    };
    w.step(&both);
    assert_eq!(w.piece.rect.x, 32);
}

#[test]
fn landing_on_exact_contact_respawns_piece() {
    // piece one cell above a wall whose top face it already touches:
    // half-heights sum to exactly one cell, gravity fires this tick
    let mut w = World::new();
    w.piece = Piece { rect: Rect { x: 0, y: -288, w: 32, h: 32 }, vx: 0, vy: 0 };
    w.state.tick = 59;
    w.colliders.push(StaticCollider::Wall(Rect { x: 0, y: -320, w: 320, h: 32 }));
    let r = w.step(&idle());
    assert!(r.landed);
    assert!(!r.horizontal_blocked);
    // the landed rectangle froze where it stood and became a collider
    assert_eq!(w.colliders.len(), 5);
    assert_eq!(
        w.colliders[4].bounding_rect(),
        Rect { x: 0, y: -288, w: 32, h: 32 }
    );
    // exactly one new active piece, at the spawn transform, already falling
    assert_eq!(w.piece.rect, Rect { x: -16, y: 256, w: 32, h: 128 });
    assert_eq!(w.piece.vx, 0);
    assert_eq!(w.piece.vy, -32);
    // the frozen rectangle no longer moves; the replacement falls next step
    let r2 = w.step(&idle());
    assert!(!r2.landed);
    assert_eq!(
        w.colliders[4].bounding_rect(),
        Rect { x: 0, y: -288, w: 32, h: 32 }
    );
    assert_eq!(w.piece.rect.y, 224);
}

#[test]
fn horizontal_block_leaves_vertical_motion_untouched() {
    // piece flush against the left wall, gravity firing, nothing below:
    // the horizontal candidate is blocked, the vertical one proceeds
    let mut w = World::new();
    w.piece = Piece { rect: Rect { x: -144, y: 0, w: 32, h: 32 }, vx: 0, vy: 0 };
    w.state.tick = 59;
    let r = w.step(&left_held());
    assert!(r.horizontal_blocked);
    assert!(!r.landed);
    assert_eq!(w.piece.rect.x, -144);
    assert_eq!(w.piece.rect.y, -32);
}

#[test]
fn vertical_block_lands_without_reporting_horizontal() {
    // piece just above the bottom wall in open space, Left held and free:
    // the vertical candidate lands the piece, the horizontal test reports
    // no block
    let mut w = World::new();
    w.piece = Piece { rect: Rect { x: 0, y: -280, w: 32, h: 32 }, vx: 0, vy: 0 };
    w.state.tick = 59;
    let r = w.step(&left_held());
    assert!(r.landed);
    assert!(!r.horizontal_blocked);
    // the landing froze the piece at its pre-step position
    assert_eq!(w.colliders.len(), 4);
    assert_eq!(
        w.colliders[3].bounding_rect(),
        Rect { x: 0, y: -280, w: 32, h: 32 }
    );
    assert_eq!(w.piece.rect, Rect { x: -16, y: 256, w: 32, h: 128 });
}

#[test]
fn resting_piece_with_zero_delta_reports_no_collision() {
    // a piece resting exactly on the wall touches it; with no vertical
    // delta the test is skipped and no collision is reported
    let mut w = World::new();
    w.piece = Piece { rect: Rect { x: -16, y: -256, w: 32, h: 128 }, vx: 0, vy: 0 };
    let r = w.step(&idle());
    assert!(!r.landed);
    assert!(!r.horizontal_blocked);
    assert_eq!(w.piece.rect.y, -256);
}

#[test]
fn free_fall_from_spawn_lands_on_bottom_wall() {
    let mut w = World::new();
    let mut steps: u64 = 0;
    let mut landed = false;
    while steps < 2000 {
        let r = w.step(&idle());
        steps += 1;
        if r.landed {
            landed = true;
            break;
        }
    }
    assert!(landed);
    // fifteen gravity periods of falling, then the landing tick
    assert_eq!(steps, 960);
    // the piece froze resting exactly on the bottom wall
    assert_eq!(w.colliders.len(), 4);
    assert_eq!(
        w.colliders[3].bounding_rect(),
        Rect { x: -16, y: -256, w: 32, h: 128 }
    );
    assert_eq!(w.piece.rect, Rect { x: -16, y: 256, w: 32, h: 128 });
    assert_eq!(w.piece.vy, -32);
}
