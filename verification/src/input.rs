//! Input snapshots and edge-triggered key detection.
//!
//! The runtime refreshes a process-wide key map every frame; the per-frame
//! handlers receive it as a read-only snapshot. The reset command is
//! edge-triggered: it must fire on the transition from unpressed to pressed,
//! never merely because the key is held.

use vstd::prelude::*;

verus! {

/// A read-only snapshot of the keys the demo consumes, sampled once per
/// frame: left movement ("A"), right movement ("D"), and the reset command
/// ("0"). Each field is the level state of the key during this frame.
#[derive(Clone, Copy, Debug, PartialEq, Eq, Structural)]
pub struct FrameInput {
    pub left_pressed: bool,
    pub right_pressed: bool,
    pub reset_pressed: bool,
}

/// Whether a key is freshly pressed this frame: it is down now and was not
/// down on the previous frame.
pub open spec fn just_pressed(was_pressed: bool, pressed_now: bool) -> bool {
    pressed_now && !was_pressed
}

/// Tracks the reset key's level state across frames so that the press
/// transition can be detected.
#[derive(Clone, Copy, Debug, PartialEq, Eq, Structural)]
pub struct ResetTracker {
    pub was_pressed: bool,
}

impl ResetTracker {
    /// At startup no key is held down yet.
    pub fn new() -> (r: ResetTracker)
        ensures
            !r.was_pressed,
    {
        ResetTracker { was_pressed: false }
    }

    /// Records this frame's level state of the reset key and reports whether
    /// the key was freshly pressed on this frame.
    pub fn observe(&mut self, pressed_now: bool) -> (just: bool)
        ensures
            just == just_pressed(old(self).was_pressed, pressed_now),
            final(self).was_pressed == pressed_now,
    {
        let just = pressed_now && !self.was_pressed;
        self.was_pressed = pressed_now;
        just
    }
}

} // verus!
