//! The simulation clock and debounce state, advanced once per fixed step.

use vstd::prelude::*;

use crate::params::{GRAVITY_PERIOD, TICK_WRAP};

verus! {

/// Clock and debounce state shared by the whole simulation.
///
/// `tick` is a monotonic counter that wraps at `TICK_WRAP`; its value is
/// meaningless outside modulus checks. `key_debounce` is the number of
/// remaining ticks during which horizontal input is ignored.
/// `gravity_debounce` is true on every tick on which gravity is suppressed;
/// it is recomputed from the tick counter on every step.
#[derive(Clone, Copy, Debug, PartialEq, Eq, Structural)]
pub struct GameState {
    pub tick: u64,
    pub key_debounce: u32,
    pub gravity_debounce: bool,
}

/// Gravity fires exactly on the ticks whose value is a multiple of
/// `GRAVITY_PERIOD`.
pub open spec fn gravity_fires(tick: u64) -> bool {
    tick % GRAVITY_PERIOD == 0
}

/// What one clock advance does: the tick increments modulo `TICK_WRAP`, the
/// horizontal lock counts down toward zero, and the gravity flag is
/// recomputed from the new tick.
pub open spec fn tick_spec(s: GameState) -> GameState {
    let t = (((s.tick + 1) % (TICK_WRAP as int)) as u64);
    GameState {
        tick: t,
        key_debounce: if s.key_debounce > 0 {
            (s.key_debounce - 1) as u32
        } else {
            0
        },
        gravity_debounce: !gravity_fires(t),
    }
}

impl GameState {
    pub open spec fn wf(self) -> bool {
        self.tick < TICK_WRAP
    }

    /// The state the simulation starts in: tick zero, no horizontal lock,
    /// gravity not suppressed.
    pub fn new() -> (s: GameState)
        ensures
            s == (GameState { tick: 0, key_debounce: 0, gravity_debounce: false }),
            s.wf(),
    {
        GameState { tick: 0, key_debounce: 0, gravity_debounce: false }
    }

    /// Advances the clock by one fixed step: increments the tick counter
    /// modulo `TICK_WRAP`, decrements the horizontal lock if it is positive,
    /// and recomputes whether gravity is suppressed on the new tick.
    pub fn ticker(&mut self)
        requires
            old(self).wf(),
        ensures
            *final(self) == tick_spec(*old(self)),
            final(self).wf(),
            final(self).tick == (old(self).tick + 1) % (TICK_WRAP as int),
            final(self).key_debounce == if old(self).key_debounce > 0 {
                old(self).key_debounce - 1
            } else {
                0int
            },
            final(self).gravity_debounce == !gravity_fires(final(self).tick),
    {
        self.tick = (self.tick + 1) % TICK_WRAP;
        if self.key_debounce > 0 {
            self.key_debounce = self.key_debounce - 1;
        }
        self.gravity_debounce = self.tick % GRAVITY_PERIOD != 0;
    }
}

} // verus!
