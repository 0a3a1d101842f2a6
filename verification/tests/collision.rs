use tetromino_core::geometry::{check_collision, overlap_at, Rect, Side};

#[test]
fn touching_edges_do_not_overlap() {
    // piece resting exactly on top of a wall: edges touch, no overlap
    let piece = Rect { x: 0, y: -288, w: 32, h: 32 };
    let wall = Rect { x: 0, y: -320, w: 32, h: 32 };
    assert!(!overlap_at(&piece, 0, 0, &wall));
    assert_eq!(check_collision(&piece, 0, 0, &wall), None);
}

#[test]
fn fully_aligned_candidate_is_inside() {
    // a gravity step that lands the piece exactly on the wall's footprint
    let piece = Rect { x: 0, y: -288, w: 32, h: 32 };
    let wall = Rect { x: 0, y: -320, w: 32, h: 32 };
    assert_eq!(check_collision(&piece, 0, -32, &wall), Some(Side::Inside));
}

#[test]
fn shallow_left_penetration_is_classified_left() {
    let piece = Rect { x: -100, y: 0, w: 32, h: 32 };
    let wall = Rect { x: -80, y: 0, w: 32, h: 64 };
    assert_eq!(check_collision(&piece, 8, 0, &wall), Some(Side::Left));
}

#[test]
fn shallow_right_penetration_is_classified_right() {
    let piece = Rect { x: -60, y: 0, w: 32, h: 32 };
    let wall = Rect { x: -80, y: 0, w: 32, h: 64 };
    assert_eq!(check_collision(&piece, -8, 0, &wall), Some(Side::Right));
}

#[test]
fn shallow_top_penetration_is_classified_top() {
    // the piece drops onto the wall's top face
    let piece = Rect { x: 0, y: 40, w: 64, h: 32 };
    let wall = Rect { x: 0, y: 0, w: 64, h: 32 };
    assert_eq!(check_collision(&piece, 0, -12, &wall), Some(Side::Top));
}

#[test]
fn shallow_bottom_penetration_is_classified_bottom() {
    let piece = Rect { x: 0, y: -40, w: 64, h: 32 };
    let wall = Rect { x: 0, y: 0, w: 64, h: 32 };
    assert_eq!(check_collision(&piece, 0, 12, &wall), Some(Side::Bottom));
}

#[test]
fn vertical_penetration_wins_when_shallower() {
    // the candidate clips a corner: 4 half-units deep vertically,
    // 56 half-units deep horizontally, so the vertical face is reported
    let piece = Rect { x: -4, y: 34, w: 32, h: 32 };
    let wall = Rect { x: 0, y: 0, w: 32, h: 32 };
    assert_eq!(check_collision(&piece, 0, -4, &wall), Some(Side::Top));
}

#[test]
fn odd_extents_are_tested_exactly() {
    // a 7-wide wall: candidate touching its left face does not overlap,
    // one half-unit further does
    let piece = Rect { x: 0, y: 0, w: 32, h: 32 };
    let wall = Rect { x: 20, y: 0, w: 7, h: 32 };
    // wall's left face sits at 16.5; the piece's right face at 16
    assert!(!overlap_at(&piece, 0, 0, &wall));
    assert!(overlap_at(&piece, 1, 0, &wall));
    assert_eq!(check_collision(&piece, 1, 0, &wall), Some(Side::Left));
}
