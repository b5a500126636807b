use bouncing_ball::Frac;
use bouncing_ball::world::BALL_RADIUS;
use bouncing_ball::world::BodyKind;
use bouncing_ball::world::ColliderDesc;
use bouncing_ball::world::FLOOR_HALF_HEIGHT;
use bouncing_ball::world::FLOOR_HALF_WIDTH;
use bouncing_ball::world::FLOOR_HEIGHT;
use bouncing_ball::world::FLOOR_WIDTH;
use bouncing_ball::world::FLOOR_Y;
use bouncing_ball::world::FillColor;
use bouncing_ball::world::ShapeDesc;
use bouncing_ball::world::setup_scene;

fn value(f: Frac) -> f64 {
    f.num as f64 / f.den as f64
}

#[test]
fn startup_scene_matches_exactly() {
    let w = setup_scene();
    assert_eq!(w.entities.len(), 3);

    let camera = &w.entities[0];
    assert!(camera.is_camera);
    assert!(!camera.is_ball);
    assert!(camera.transform.is_none());

    let ball = &w.entities[1];
    assert!(ball.is_ball);
    let tr = ball.transform.unwrap();
    assert_eq!((value(tr.x), value(tr.y), value(tr.z)), (0.0, 0.0, 0.0));
    match ball.collider.unwrap() {
        ColliderDesc::Ball { radius } => assert_eq!(value(radius), 50.0),
        other => panic!("unexpected ball collider: {:?}", other),
    }
    assert_eq!(ball.body.unwrap(), BodyKind::KinematicPositionBased);
    assert!(ball.rotation_locked);

    let floor = &w.entities[2];
    assert!(!floor.is_ball);
    let tr = floor.transform.unwrap();
    assert_eq!((value(tr.x), value(tr.y), value(tr.z)), (0.0, -200.0, 1.0));
    match floor.collider.unwrap() {
        ColliderDesc::Cuboid { half_x, half_y } => {
            assert_eq!(value(half_x), 200.0);
            assert_eq!(value(half_y), 20.0);
        }
        other => panic!("unexpected floor collider: {:?}", other),
    }
    assert_eq!(value(floor.restitution.unwrap()), 1.15);
    assert_eq!(value(floor.friction.unwrap()), 0.0);
    assert!(floor.body.is_none());
}

#[test]
fn scene_constants_match() {
    assert_eq!(BALL_RADIUS, 50);
    assert_eq!(FLOOR_Y, -200);
    assert_eq!(FLOOR_WIDTH, 400);
    assert_eq!(FLOOR_HEIGHT, 40);
    assert_eq!(FLOOR_HALF_WIDTH * 2, FLOOR_WIDTH);
    assert_eq!(FLOOR_HALF_HEIGHT * 2, FLOOR_HEIGHT);
}

#[test]
fn visual_meshes_match() {
    let w = setup_scene();

    let ball_visual = w.entities[1].visual.unwrap();
    assert_eq!(ball_visual.color, FillColor::Purple);
    match ball_visual.shape {
        ShapeDesc::Circle { radius } => assert_eq!(value(radius), 50.0),
        other => panic!("unexpected ball mesh: {:?}", other),
    }

    let floor_visual = w.entities[2].visual.unwrap();
    assert_eq!(floor_visual.color, FillColor::Black);
    match floor_visual.shape {
        ShapeDesc::Rect { width, height } => {
            assert_eq!(value(width), 400.0);
            assert_eq!(value(height), 40.0);
        }
        other => panic!("unexpected floor mesh: {:?}", other),
    }

    // The ball's movement controller carries the collision-skin offset.
    let c = w.entities[1].controller.unwrap();
    assert_eq!(value(c.offset), 0.05);
    assert!(c.translation.is_none());
}
