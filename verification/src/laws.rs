//! The library's general guarantees, stated and proved once over the spec
//! model that the per-frame functions' contracts use.

use vstd::prelude::*;

use crate::Frac;
use crate::input::FrameInput;
use crate::input::just_pressed;
use crate::motion::GRAVITY_SPEED;
use crate::motion::MOVE_SPEED;
use crate::motion::dt_in_range;
use crate::motion::translation_x_num;
use crate::motion::translation_y_num;
use crate::systems::reset_entity;
use crate::systems::ticked_entity;
use crate::world::Entity;

verus! {

/// On a frame where neither movement key is pressed, the ball's horizontal
/// displacement request is zero and its vertical displacement request is
/// `-GRAVITY_SPEED` scaled by the time delta.
pub proof fn lemma_idle_keys_fall_straight(e: Entity, input: FrameInput, was_pressed: bool, dt: Frac)
    requires
        !input.left_pressed,
        !input.right_pressed,
        e.is_ball,
        e.controller is Some,
        dt.wf(),
        dt_in_range(dt),
    ensures
        translation_x_num(false, false, dt) == 0,
        translation_y_num(dt) == -GRAVITY_SPEED * dt.num,
        ticked_entity(e, input, was_pressed, dt).controller matches Some(c)
            && c.translation matches Some(t)
            && t.x.num == 0
            && t.x.den == dt.den
            && t.y.num == -GRAVITY_SPEED * dt.num
            && t.y.den == dt.den,
{
}

/// On a frame where only the right key is pressed, the ball's horizontal
/// displacement request is `MOVE_SPEED` scaled by the time delta — positive
/// whenever the time delta is positive.
pub proof fn lemma_right_key_moves_right(e: Entity, input: FrameInput, was_pressed: bool, dt: Frac)
    requires
        !input.left_pressed,
        input.right_pressed,
        e.is_ball,
        e.controller is Some,
        dt.wf(),
        dt_in_range(dt),
    ensures
        translation_x_num(false, true, dt) == MOVE_SPEED * dt.num,
        ticked_entity(e, input, was_pressed, dt).controller matches Some(c)
            && c.translation matches Some(t)
            && t.x.num == MOVE_SPEED * dt.num
            && t.x.den == dt.den
            && (dt.num > 0 ==> t.x.num > 0),
{
}

/// On a frame where both movement keys are pressed at once, they cancel:
/// the ball's horizontal displacement request is zero.
pub proof fn lemma_opposed_keys_cancel(e: Entity, input: FrameInput, was_pressed: bool, dt: Frac)
    requires
        input.left_pressed,
        input.right_pressed,
        e.is_ball,
        e.controller is Some,
        dt.wf(),
        dt_in_range(dt),
    ensures
        translation_x_num(true, true, dt) == 0,
        ticked_entity(e, input, was_pressed, dt).controller matches Some(c)
            && c.translation matches Some(t)
            && t.x.num == 0
            && t.x.den == dt.den,
{
}

/// The reset command snaps a ball's vertical position to exactly zero and
/// leaves its horizontal position (and draw layer, and every other field)
/// unchanged, whatever the prior position was.
pub proof fn lemma_reset_zeroes_height_only(e: Entity)
    requires
        e.is_ball,
        e.transform is Some,
    ensures
        e.transform matches Some(t) ==> {
            let r = reset_entity(e);
            &&& r.transform matches Some(rt)
            &&& rt.y == (Frac { num: 0, den: 1 })
            &&& rt.x == t.x
            &&& rt.z == t.z
            &&& r == (Entity { transform: r.transform, ..e })
        },
{
}

/// Holding the reset key down does not retrigger the reset: on a frame
/// where the key is still pressed but was already pressed on the previous
/// frame, there is no fresh press, and a whole frame leaves every entity's
/// position untouched.
pub proof fn lemma_held_reset_does_not_retrigger(e: Entity, input: FrameInput, dt: Frac)
    requires
        input.reset_pressed,
    ensures
        !just_pressed(true, input.reset_pressed),
        ticked_entity(e, input, true, dt).transform == e.transform,
{
}

} // verus!
