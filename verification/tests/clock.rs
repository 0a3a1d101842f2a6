use tetromino_core::clock::GameState;
use tetromino_core::input::InputState;
use tetromino_core::params::{GRAVITY_PERIOD, TICK_WRAP};
use tetromino_core::world::World;

fn held(left: bool, right: bool, down: bool) -> InputState {
    InputState {
        left_pressed: left,
        left_just_released: false,
        right_pressed: right,
        right_just_released: false,
        down_pressed: down,
    }
}

#[test]
fn ticker_increments_tick_and_recomputes_gravity() {
    let mut s = GameState::new();
    assert_eq!(s.tick, 0);
    s.ticker();
    assert_eq!(s.tick, 1);
    assert!(s.gravity_debounce);
    for _ in 1..GRAVITY_PERIOD {
        s.ticker();
    }
    assert_eq!(s.tick, GRAVITY_PERIOD);
    assert!(!s.gravity_debounce);
}

#[test]
fn ticker_decrements_lock_by_one_per_tick_and_stops_at_zero() {
    let mut s = GameState { tick: 0, key_debounce: 3, gravity_debounce: true };
    s.ticker();
    assert_eq!(s.key_debounce, 2);
    s.ticker();
    assert_eq!(s.key_debounce, 1);
    s.ticker();
    assert_eq!(s.key_debounce, 0);
    s.ticker();
    assert_eq!(s.key_debounce, 0);
}

#[test]
fn ticker_wraps_at_tick_wrap() {
    let mut s = GameState { tick: TICK_WRAP - 1, key_debounce: 0, gravity_debounce: true };
    s.ticker();
    assert_eq!(s.tick, 0);
    assert!(!s.gravity_debounce);
}

#[test]
fn gravity_fires_exactly_once_per_window() {
    // One full wrap of the clock: the number of firing ticks is exactly the
    // number of whole gravity periods in it.
    let mut s = GameState::new();
    let mut fires: u64 = 0;
    for _ in 0..TICK_WRAP {
        s.ticker();
        if !s.gravity_debounce {
            fires += 1;
        }
    }
    assert_eq!(s.tick, 0);
    assert_eq!(fires, TICK_WRAP / GRAVITY_PERIOD);
}

#[test]
fn soft_drop_advances_clock_by_extra_ticks() {
    let mut w = World::new();
    let r = w.step(&held(false, false, true));
    assert!(!r.landed);
    // one ordinary tick plus the soft-drop advance
    assert_eq!(w.state.tick, 21);
}
