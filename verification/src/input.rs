//! The per-step snapshot of directional input handed to the input resolver.

use vstd::prelude::*;

verus! {

/// Which directional keys are held this step and which transitioned to
/// released this step. The host samples the keyboard once per fixed step
/// and hands the core this plain snapshot.
#[derive(Clone, Copy, Debug, PartialEq, Eq, Structural)]
pub struct InputState {
    /// Left is currently held.
    pub left_pressed: bool,
    /// Left went from held to released on this step.
    pub left_just_released: bool,
    /// Right is currently held.
    pub right_pressed: bool,
    /// Right went from held to released on this step.
    pub right_just_released: bool,
    /// Down (soft drop) is currently held.
    pub down_pressed: bool,
}

impl InputState {
    /// A step on which no key is held and none was released.
    pub fn idle() -> (i: InputState)
        ensures
            i == (InputState {
                left_pressed: false,
                left_just_released: false,
                right_pressed: false,
                right_just_released: false,
                down_pressed: false,
            }),
    {
        InputState {
            left_pressed: false,
            left_just_released: false,
            right_pressed: false,
            right_just_released: false,
            down_pressed: false,
        }
    }
}

} // verus!
