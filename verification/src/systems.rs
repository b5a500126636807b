//! The per-frame update pass.
//!
//! Each frame the runtime invokes the debug command handler first and the
//! motion controller second; both read the frame's input snapshot and the
//! world store and write the desired values. The physics runtime then
//! resolves the requested displacement against colliders and draws the
//! frame.

use vstd::prelude::*;

use crate::Frac;
use crate::Vec2f;
use crate::input::FrameInput;
use crate::input::ResetTracker;
use crate::input::just_pressed;
use crate::motion::compute_translation;
use crate::motion::dt_in_range;
use crate::motion::translation_x_num;
use crate::motion::translation_y_num;
use crate::world::CharacterController;
use crate::world::Entity;
use crate::world::Transform3;
use crate::world::World;

verus! {

/// The effect of the reset command on one entity: an entity tagged as the
/// ball with a transform has its vertical coordinate snapped to zero, with
/// the horizontal coordinate, the draw layer and every other field left
/// untouched; any other entity is unchanged.
pub open spec fn reset_entity(e: Entity) -> Entity {
    match e.transform {
        Some(t) => if e.is_ball {
            Entity {
                transform: Some(Transform3 { y: Frac { num: 0, den: 1 }, ..t }),
                ..e
            }
        } else {
            e
        },
        None => e,
    }
}

/// The effect of the motion controller on one entity: an entity tagged as
/// the ball that owns a movement controller has this frame's displacement
/// request written into the controller, with every other field left
/// untouched; any other entity is unchanged.
pub open spec fn moved_entity(e: Entity, left: bool, right: bool, dt: Frac) -> Entity {
    match e.controller {
        Some(c) => if e.is_ball {
            Entity {
                controller: Some(CharacterController {
                    translation: Some(Vec2f {
                        x: Frac { num: translation_x_num(left, right, dt) as i64, den: dt.den },
                        y: Frac { num: translation_y_num(dt) as i64, den: dt.den },
                    }),
                    ..c
                }),
                ..e
            }
        } else {
            e
        },
        None => e,
    }
}

/// The effect of one whole frame on one entity: the reset command first —
/// applied only when the reset key is freshly pressed this frame — then the
/// motion controller.
pub open spec fn ticked_entity(e: Entity, input: FrameInput, was_pressed: bool, dt: Frac) -> Entity {
    let after_reset = if just_pressed(was_pressed, input.reset_pressed) {
        reset_entity(e)
    } else {
        e
    };
    moved_entity(after_reset, input.left_pressed, input.right_pressed, dt)
}

/// The debug command handler: when the reset key was freshly pressed this
/// frame, snaps every ball-tagged entity's vertical position back to zero;
/// otherwise leaves the world untouched. A world with no ball entities is
/// left unchanged either way.
pub fn handle_debug_commands(world: &mut World, reset_just_pressed: bool)
    ensures
        final(world).entities@.len() == old(world).entities@.len(),
        forall|i: int| 0 <= i < old(world).entities@.len() ==> final(world).entities@[i]
            == if reset_just_pressed {
                reset_entity(old(world).entities@[i])
            } else {
                old(world).entities@[i]
            },
{
    if reset_just_pressed {
        let ghost orig = world.entities@;
        let n = world.entities.len();
        let mut i: usize = 0;
        while i < n
            invariant
                n == orig.len(),
                world.entities@.len() == orig.len(),
                i <= n,
                forall|j: int| 0 <= j < i ==> world.entities@[j] == reset_entity(orig[j]),
                forall|j: int| i <= j < orig.len() ==> world.entities@[j] == orig[j],
            decreases n - i,
        {
            let e = world.entities[i];
            if e.is_ball {
                match e.transform {
                    Some(t) => {
                        let ne = Entity {
                            transform: Some(Transform3 { y: Frac { num: 0, den: 1 }, ..t }),
                            ..e
                        };
                        world.entities.set(i, ne);
                    },
                    None => {},
                }
            }
            i = i + 1;
        }
    }
}

/// The motion controller pass: writes this frame's displacement request
/// into the movement controller of every ball-tagged entity that owns one,
/// leaving all other entities and fields untouched. The request is
/// recomputed from scratch from this frame's key state and time delta; a
/// world with no matching entities is left unchanged.
pub fn ball_move_system(world: &mut World, left: bool, right: bool, dt: &Frac)
    requires
        dt.wf(),
        dt_in_range(*dt),
    ensures
        final(world).entities@.len() == old(world).entities@.len(),
        forall|i: int| 0 <= i < old(world).entities@.len() ==> final(world).entities@[i]
            == moved_entity(old(world).entities@[i], left, right, *dt),
{
    let ghost orig = world.entities@;
    let n = world.entities.len();
    let mut i: usize = 0;
    while i < n
        invariant
            n == orig.len(),
            world.entities@.len() == orig.len(),
            i <= n,
            dt.wf(),
            dt_in_range(*dt),
            forall|j: int| 0 <= j < i ==> world.entities@[j] == moved_entity(orig[j], left, right, *dt),
            forall|j: int| i <= j < orig.len() ==> world.entities@[j] == orig[j],
        decreases n - i,
    {
        let e = world.entities[i];
        if e.is_ball {
            match e.controller {
                Some(c) => {
                    let t = compute_translation(left, right, dt);
                    let ne = Entity {
                        controller: Some(CharacterController { translation: Some(t), ..c }),
                        ..e
                    };
                    world.entities.set(i, ne);
                },
                None => {},
            }
        }
        i = i + 1;
    }
}

/// One whole frame of the update pass, in the runtime's fixed order: the
/// debug command handler first, then the motion controller. The tracker
/// carries the reset key's level state from the previous frame so that the
/// reset is edge-triggered.
pub fn run_frame(world: &mut World, tracker: &mut ResetTracker, input: FrameInput, dt: &Frac)
    requires
        dt.wf(),
        dt_in_range(*dt),
    ensures
        final(tracker).was_pressed == input.reset_pressed,
        final(world).entities@.len() == old(world).entities@.len(),
        forall|i: int| 0 <= i < old(world).entities@.len() ==> final(world).entities@[i]
            == ticked_entity(old(world).entities@[i], input, old(tracker).was_pressed, *dt),
{
    let just = tracker.observe(input.reset_pressed);
    handle_debug_commands(world, just);
    ball_move_system(world, input.left_pressed, input.right_pressed, dt);
}

} // verus!
