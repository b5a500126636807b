//! The per-frame motion controller.
//!
//! Each frame the controller combines the held movement keys with a constant
//! downward gravity term and scales both by the frame time delta, producing
//! the displacement request handed to the physics runtime's character
//! controller. No state is carried between frames: the request is recomputed
//! from scratch from this frame's key state and time delta alone.

use vstd::prelude::*;

use crate::Frac;
use crate::Vec2f;

verus! {

/// Horizontal speed, in units per second, added while the right key is held
/// and subtracted while the left key is held.
pub const MOVE_SPEED: i64 = 300;

/// Constant downward speed, in units per second, applied every frame. This
/// is not an integrated acceleration: the same downward rate is reapplied
/// each frame regardless of prior motion.
pub const GRAVITY_SPEED: i64 = 300;

/// The net horizontal rate for a frame, in units per second: start at zero,
/// add `MOVE_SPEED` if the right key is held, subtract `MOVE_SPEED` if the
/// left key is held. Holding both cancels to zero.
pub open spec fn horizontal_rate(left: bool, right: bool) -> int {
    (if right { MOVE_SPEED as int } else { 0 }) - (if left { MOVE_SPEED as int } else { 0 })
}

/// Numerator of this frame's horizontal displacement request, over the
/// denominator of `dt`: the horizontal rate scaled by the time delta.
pub open spec fn translation_x_num(left: bool, right: bool, dt: Frac) -> int {
    horizontal_rate(left, right) * dt.num
}

/// Numerator of this frame's vertical displacement request, over the
/// denominator of `dt`: the constant downward rate scaled by the time delta.
pub open spec fn translation_y_num(dt: Frac) -> int {
    -GRAVITY_SPEED * dt.num
}

/// The frame time delta is small enough that scaling it by the speed
/// constants stays within the scalar's machine range.
pub open spec fn dt_in_range(dt: Frac) -> bool {
    -(i64::MAX as int) <= MOVE_SPEED * dt.num <= i64::MAX as int
}

/// Computes this frame's displacement request from the held movement keys
/// and the frame time delta.
///
/// The horizontal component is `horizontal_rate(left, right) * dt` and the
/// vertical component is `-GRAVITY_SPEED * dt`, both exact.
pub fn compute_translation(left: bool, right: bool, dt: &Frac) -> (t: Vec2f)
    requires
        dt.wf(),
        dt_in_range(*dt),
    ensures
        t.x.num == translation_x_num(left, right, *dt),
        t.x.den == dt.den,
        t.y.num == translation_y_num(*dt),
        t.y.den == dt.den,
        t.x.wf(),
        t.y.wf(),
{
    let x_num: i64 = if left && right {
        0
    } else if right {
        MOVE_SPEED * dt.num
    } else if left {
        -(MOVE_SPEED * dt.num)
    } else {
        0
    };
    let y_num: i64 = -(GRAVITY_SPEED * dt.num);
    proof {
        if left && right {
            assert(horizontal_rate(left, right) == 0);
        } else if right {
            assert(horizontal_rate(left, right) == MOVE_SPEED);
        } else if left {
            assert(horizontal_rate(left, right) == -MOVE_SPEED);
        } else {
            assert(horizontal_rate(left, right) == 0);
        }
    }
    Vec2f {
        x: Frac { num: x_num, den: dt.den },
        y: Frac { num: y_num, den: dt.den },
    }
}

} // verus!
