//! The scene's entity records and one-time scene setup.
//!
//! The engine's entity-component store is modeled as an explicit collection
//! of entity records, each holding an optional set of typed fields: a
//! transform, a visual descriptor, a physics body descriptor, a collider, a
//! movement controller, and contact coefficients. Setup runs exactly once,
//! before any frame update, and creates the camera, the ball and the floor.

use vstd::prelude::*;

use crate::Frac;
use crate::Vec2f;

verus! {

/// Radius of the ball, in world units: both its visual circle and its
/// physics collider.
pub const BALL_RADIUS: i64 = 50;

/// Vertical position of the floor's center.
pub const FLOOR_Y: i64 = -200;

/// Full width of the floor, in world units.
pub const FLOOR_WIDTH: i64 = 400;

/// Full height of the floor, in world units.
pub const FLOOR_HEIGHT: i64 = 40;

/// Half-extent of the floor collider along `x`: half of `FLOOR_WIDTH`.
pub const FLOOR_HALF_WIDTH: i64 = 200;

/// Half-extent of the floor collider along `y`: half of `FLOOR_HEIGHT`.
pub const FLOOR_HALF_HEIGHT: i64 = 20;

/// A position in the scene: `x` to the right, `y` upward, `z` the draw
/// layer.
#[derive(Clone, Copy, Debug, PartialEq, Eq, Structural)]
pub struct Transform3 {
    pub x: Frac,
    pub y: Frac,
    pub z: Frac,
}

/// The visual mesh of an entity: a solid-color filled shape.
#[derive(Clone, Copy, Debug, PartialEq, Eq, Structural)]
pub enum ShapeDesc {
    Circle { radius: Frac },
    Rect { width: Frac, height: Frac },
}

/// The solid fill colors the demo uses.
#[derive(Clone, Copy, Debug, PartialEq, Eq, Structural)]
pub enum FillColor {
    Purple,
    Black,
}

/// A visual descriptor: shape and fill color.
#[derive(Clone, Copy, Debug, PartialEq, Eq, Structural)]
pub struct VisualDesc {
    pub shape: ShapeDesc,
    pub color: FillColor,
}

/// The kind of physics body driving an entity. The ball is kinematic: its
/// position is driven directly by game logic each frame, while still
/// participating in collision resolution.
#[derive(Clone, Copy, Debug, PartialEq, Eq, Structural)]
pub enum BodyKind {
    KinematicPositionBased,
}

/// A physics collider shape. A cuboid is given by its half-extents.
#[derive(Clone, Copy, Debug, PartialEq, Eq, Structural)]
pub enum ColliderDesc {
    Ball { radius: Frac },
    Cuboid { half_x: Frac, half_y: Frac },
}

/// A character-style movement controller: the physics runtime resolves its
/// requested per-frame translation against colliders before moving the
/// entity. `offset` is the absolute collision-skin width around the shape.
#[derive(Clone, Copy, Debug, PartialEq, Eq, Structural)]
pub struct CharacterController {
    pub offset: Frac,
    pub translation: Option<Vec2f>,
}

/// One entity record: a tag set plus an optional field per capability.
#[derive(Clone, Copy, Debug, PartialEq, Eq, Structural)]
pub struct Entity {
    /// Tagged as the player-controlled ball.
    pub is_ball: bool,
    /// Tagged as the camera (default projection; no other fields).
    pub is_camera: bool,
    pub transform: Option<Transform3>,
    pub visual: Option<VisualDesc>,
    pub body: Option<BodyKind>,
    pub collider: Option<ColliderDesc>,
    pub controller: Option<CharacterController>,
    /// Bounciness of contacts against this entity; may exceed one.
    pub restitution: Option<Frac>,
    /// Friction coefficient of contacts against this entity.
    pub friction: Option<Frac>,
    pub rotation_locked: bool,
}

/// The world store: every entity created so far, in creation order.
pub struct World {
    pub entities: Vec<Entity>,
}

/// An entity record with no tags and no capabilities.
pub open spec fn empty_entity() -> Entity {
    Entity {
        is_ball: false,
        is_camera: false,
        transform: None,
        visual: None,
        body: None,
        collider: None,
        controller: None,
        restitution: None,
        friction: None,
        rotation_locked: false,
    }
}

/// The camera: a bare tagged entity with the runtime's default projection.
pub open spec fn camera_entity() -> Entity {
    Entity {
        is_camera: true,
        ..empty_entity()
    }
}

/// The ball at startup: at the origin, a purple circle of radius
/// `BALL_RADIUS`, a kinematic position-driven body with a ball collider of
/// the same radius, rotation locked, and a movement controller with a
/// collision-skin offset of 0.05 units and no translation requested yet.
pub open spec fn ball_entity() -> Entity {
    Entity {
        is_ball: true,
        transform: Some(Transform3 {
            x: Frac { num: 0, den: 1 },
            y: Frac { num: 0, den: 1 },
            z: Frac { num: 0, den: 1 },
        }),
        visual: Some(VisualDesc {
            shape: ShapeDesc::Circle { radius: Frac { num: BALL_RADIUS, den: 1 } },
            color: FillColor::Purple,
        }),
        body: Some(BodyKind::KinematicPositionBased),
        collider: Some(ColliderDesc::Ball { radius: Frac { num: BALL_RADIUS, den: 1 } }),
        controller: Some(CharacterController {
            offset: Frac { num: 5, den: 100 },
            translation: None,
        }),
        rotation_locked: true,
        ..empty_entity()
    }
}

/// The floor: a static black rectangle of `FLOOR_WIDTH` by `FLOOR_HEIGHT`
/// centered at `(0, FLOOR_Y)` on draw layer 1, with a box collider of the
/// matching half-extents, restitution 1.15 and friction 0. It has no body
/// descriptor: a collider without a body is fixed in place.
pub open spec fn floor_entity() -> Entity {
    Entity {
        transform: Some(Transform3 {
            x: Frac { num: 0, den: 1 },
            y: Frac { num: FLOOR_Y, den: 1 },
            z: Frac { num: 1, den: 1 },
        }),
        visual: Some(VisualDesc {
            shape: ShapeDesc::Rect {
                width: Frac { num: FLOOR_WIDTH, den: 1 },
                height: Frac { num: FLOOR_HEIGHT, den: 1 },
            },
            color: FillColor::Black,
        }),
        collider: Some(ColliderDesc::Cuboid {
            half_x: Frac { num: FLOOR_HALF_WIDTH, den: 1 },
            half_y: Frac { num: FLOOR_HALF_HEIGHT, den: 1 },
        }),
        restitution: Some(Frac { num: 115, den: 100 }),
        friction: Some(Frac { num: 0, den: 1 }),
        ..empty_entity()
    }
}

/// One-time scene setup: creates the camera, the ball and the floor, in
/// that order, exactly as `camera_entity`, `ball_entity` and `floor_entity`
/// describe them.
pub fn setup_scene() -> (w: World)
    ensures
        w.entities@.len() == 3,
        w.entities@[0] == camera_entity(),
        w.entities@[1] == ball_entity(),
        w.entities@[2] == floor_entity(),
{
    let mut entities: Vec<Entity> = Vec::new();
    entities.push(Entity {
        is_ball: false,
        is_camera: true,
        transform: None,
        visual: None,
        body: None,
        collider: None,
        controller: None,
        restitution: None,
        friction: None,
        rotation_locked: false,
    });
    entities.push(Entity {
        is_ball: true,
        is_camera: false,
        transform: Some(Transform3 {
            x: Frac { num: 0, den: 1 },
            y: Frac { num: 0, den: 1 },
            z: Frac { num: 0, den: 1 },
        }),
        visual: Some(VisualDesc {
            shape: ShapeDesc::Circle { radius: Frac { num: BALL_RADIUS, den: 1 } },
            color: FillColor::Purple,
        }),
        body: Some(BodyKind::KinematicPositionBased),
        collider: Some(ColliderDesc::Ball { radius: Frac { num: BALL_RADIUS, den: 1 } }),
        controller: Some(CharacterController {
            offset: Frac { num: 5, den: 100 },
            translation: None,
        }),
        restitution: None,
        friction: None,
        rotation_locked: true,
    });
    entities.push(Entity {
        is_ball: false,
        is_camera: false,
        transform: Some(Transform3 {
            x: Frac { num: 0, den: 1 },
            y: Frac { num: FLOOR_Y, den: 1 },
            z: Frac { num: 1, den: 1 },
        }),
        visual: Some(VisualDesc {
            shape: ShapeDesc::Rect {
                width: Frac { num: FLOOR_WIDTH, den: 1 },
                height: Frac { num: FLOOR_HEIGHT, den: 1 },
            },
            color: FillColor::Black,
        }),
        body: None,
        collider: Some(ColliderDesc::Cuboid {
            half_x: Frac { num: FLOOR_HALF_WIDTH, den: 1 },
            half_y: Frac { num: FLOOR_HALF_HEIGHT, den: 1 },
        }),
        controller: None,
        restitution: Some(Frac { num: 115, den: 100 }),
        friction: Some(Frac { num: 0, den: 1 }),
        rotation_locked: false,
    });
    World { entities }
}

} // verus!
