// Component-level behaviour: classification, bouncing, clamping,
// integration, and the swept wall stop.

use pong_core::ball::{limit_speed, move_ball, spawn_ball, Ball};
use pong_core::collisions::{
    bounce_objects, collide_with_side, kinematic_wall_stop, BounceCollider, KinematicWallStop,
    SweepState,
};
use pong_core::components::{ratio_scale, Aabb, PongCollision, PongPosition, PongVelocity, Vec2};
use pong_core::score::detect_goal;

fn aabb(cx: i64, cy: i64, hx: i64, hy: i64) -> Aabb {
    Aabb { center: Vec2 { x: cx, y: cy }, half: Vec2 { x: hx, y: hy } }
}

#[test]
fn ratio_scale_rounds_toward_zero() {
    assert_eq!(ratio_scale(7, 1, 2), 3);
    assert_eq!(ratio_scale(-7, 1, 2), -3);
    assert_eq!(ratio_scale(0, 3, 7), 0);
    assert_eq!(ratio_scale(100, 6, 5), 120);
}

#[test]
fn collide_disjoint_is_none() {
    let a = aabb(0, 0, 10, 10);
    let b = aabb(100, 0, 10, 10);
    assert_eq!(collide_with_side(&a, &b), None);
}

#[test]
fn collide_touching_edges_is_none() {
    let a = aabb(0, 0, 10, 10);
    let b = aabb(20, 0, 10, 10);
    assert_eq!(collide_with_side(&a, &b), None);
}

#[test]
fn collide_each_side() {
    let a = aabb(0, 0, 10, 10);
    assert_eq!(collide_with_side(&a, &aabb(15, 0, 10, 10)), Some(PongCollision::Left));
    assert_eq!(collide_with_side(&a, &aabb(-15, 0, 10, 10)), Some(PongCollision::Right));
    assert_eq!(collide_with_side(&a, &aabb(0, -15, 10, 10)), Some(PongCollision::Top));
    assert_eq!(collide_with_side(&a, &aabb(0, 15, 10, 10)), Some(PongCollision::Bottom));
}

#[test]
fn collide_tie_resolves_vertically() {
    // Equal offset magnitudes on both axes: the vertical branch decides.
    let a = aabb(0, 0, 10, 10);
    assert_eq!(collide_with_side(&a, &aabb(15, 15, 10, 10)), Some(PongCollision::Bottom));
    assert_eq!(collide_with_side(&a, &aabb(15, -15, 10, 10)), Some(PongCollision::Top));
}

#[test]
fn collide_coinciding_centers_default_bottom() {
    let a = aabb(0, 0, 10, 10);
    let b = aabb(0, 0, 10, 10);
    assert_eq!(collide_with_side(&a, &b), Some(PongCollision::Bottom));
}

#[test]
fn right_wall_classification_threshold() {
    // Ball of radius 15 against a wall whose near face stands at x = 400:
    // no classification until the ball's center passes 385.
    let wall = aabb(410, 0, 10, 100);
    let at_385 = aabb(385, 0, 15, 15);
    assert_eq!(collide_with_side(&at_385, &wall), None);
    let at_386 = aabb(386, 0, 15, 15);
    assert_eq!(collide_with_side(&at_386, &wall), Some(PongCollision::Left));
}

#[test]
fn side_wall_bounce_flips_scales_clamps() {
    // Horizontal contact: the x component flips sign, scales by the
    // bounce ratio, and the clamp caps the result at the maximum speed.
    let mut v = PongVelocity(Vec2 { x: 30, y: 0 });
    let bounce = BounceCollider { num: 2, den: 1 };
    let fired = bounce_objects(&mut v, PongCollision::Left, &bounce, 10, 50);
    assert!(fired);
    assert_eq!(v.0, Vec2 { x: -50, y: 0 });
}

#[test]
fn bottom_wall_bounce_reflects_and_clamps() {
    // Straight down at 2500 into the bottom wall (contact side `Top`)
    // with a ceiling of 2000: the reflected speed lands exactly on the
    // ceiling, pointing straight up.
    let mut v = PongVelocity(Vec2 { x: 0, y: -2500 });
    let bounce = BounceCollider { num: 6, den: 5 };
    let fired = bounce_objects(&mut v, PongCollision::Top, &bounce, 500, 2000);
    assert!(fired);
    assert_eq!(v.0, Vec2 { x: 0, y: 2000 });
}

#[test]
fn bounce_separating_contact_unchanged() {
    // The contact side is `Right` but the velocity already points away:
    // nothing fires and nothing changes.
    let mut v = PongVelocity(Vec2 { x: 5, y: 7 });
    let bounce = BounceCollider { num: 6, den: 5 };
    let fired = bounce_objects(&mut v, PongCollision::Right, &bounce, 1, 1000);
    assert!(!fired);
    assert_eq!(v.0, Vec2 { x: 5, y: 7 });
}

#[test]
fn bounce_fires_once_per_approach() {
    // A second invocation on the already reflected velocity is a
    // separating contact and leaves it unchanged.
    let mut v = PongVelocity(Vec2 { x: -30, y: 0 });
    let bounce = BounceCollider { num: 2, den: 1 };
    assert!(bounce_objects(&mut v, PongCollision::Right, &bounce, 10, 100));
    let after_first = v.0;
    assert!(!bounce_objects(&mut v, PongCollision::Right, &bounce, 10, 100));
    assert_eq!(v.0, after_first);
}

#[test]
fn limit_speed_zero_stays_zero() {
    let mut v = PongVelocity(Vec2 { x: 0, y: 0 });
    limit_speed(&mut v, 500, 2000);
    assert_eq!(v.0, Vec2 { x: 0, y: 0 });
}

#[test]
fn limit_speed_raises_slow_velocity_to_min() {
    let mut v = PongVelocity(Vec2 { x: 300, y: 400 });
    limit_speed(&mut v, 500, 2000);
    assert_eq!(v.0, Vec2 { x: 375, y: 500 });
}

#[test]
fn limit_speed_caps_fast_velocity_at_max() {
    let mut v = PongVelocity(Vec2 { x: 3000, y: -4000 });
    limit_speed(&mut v, 500, 2000);
    assert_eq!(v.0, Vec2 { x: 1500, y: -2000 });
}

#[test]
fn limit_speed_keeps_banded_velocity() {
    let mut v = PongVelocity(Vec2 { x: -600, y: 123 });
    limit_speed(&mut v, 500, 2000);
    assert_eq!(v.0, Vec2 { x: -600, y: 123 });
}

#[test]
fn move_ball_advances_by_velocity_share() {
    let mut ball = spawn_ball(15, 480, 600);
    ball.position = PongPosition(Vec2 { x: 10, y: 20 });
    // spawn velocity is (480, 240); at 60 ticks per second that is (8, 4)
    // per tick
    move_ball(&mut ball, 60);
    assert_eq!(ball.position.0, Vec2 { x: 18, y: 24 });
    assert_eq!(ball.velocity.0, Vec2 { x: 480, y: 240 });
}

#[test]
fn move_ball_rounds_toward_zero_both_signs() {
    let mut ball = Ball {
        position: PongPosition(Vec2 { x: 0, y: 0 }),
        velocity: PongVelocity(Vec2 { x: -125, y: 125 }),
        radius: 15,
        min_speed: 100,
        max_speed: 200,
    };
    move_ball(&mut ball, 60);
    assert_eq!(ball.position.0, Vec2 { x: -2, y: 2 });
}

#[test]
fn fast_kinematic_body_stops_at_skin_width() {
    // Travelling 20000 units per second toward a wall 100 units away with
    // a skin width of 0.01 and a 1/60 tick, in centiunits: the planned
    // 333.33 units are cut to 99.99, and the body stops dead.
    let mut pos = PongPosition(Vec2 { x: 0, y: 0 });
    let mut vel = PongVelocity(Vec2 { x: 2_000_000, y: 0 });
    let collider = pong_core::components::PongCollider { half: Vec2 { x: 1500, y: 1500 } };
    let wall = aabb(12_500, 0, 1000, 2000);
    let settings = KinematicWallStop::new(1);
    let s = kinematic_wall_stop(&mut pos, &mut vel, &collider, &wall, &settings, 60);
    assert_eq!(s, SweepState::Impact);
    assert_eq!(pos.0, Vec2 { x: 9999, y: 0 });
    assert_eq!(vel.0, Vec2 { x: 0, y: 0 });
}

#[test]
fn swept_gap_after_impact_and_clear() {
    // Impact: a gap of 5 against a planned travel of 10 leaves exactly
    // the skin width of 1.
    let collider = pong_core::components::PongCollider { half: Vec2 { x: 10, y: 10 } };
    let settings = KinematicWallStop::new(1);
    let mut pos = PongPosition(Vec2 { x: 0, y: 0 });
    let mut vel = PongVelocity(Vec2 { x: 600, y: 0 });
    let wall_near = aabb(20, 0, 5, 100);  // near face at x = 15, gap 5
    let s = kinematic_wall_stop(&mut pos, &mut vel, &collider, &wall_near, &settings, 60);
    assert_eq!(s, SweepState::Impact);
    assert_eq!(pos.0.x, 4);  // remaining gap: 15 - (4 + 10) = 1
    assert_eq!(vel.0, Vec2 { x: 0, y: 0 });

    // Clear, but the wall sits within planned + skin: the full planned
    // travel still leaves a gap within the skin width.
    let mut pos2 = PongPosition(Vec2 { x: 0, y: 0 });
    let mut vel2 = PongVelocity(Vec2 { x: 600, y: 0 });
    let wall_far = aabb(26, 0, 5, 100);  // near face at x = 21, gap 11
    let s2 = kinematic_wall_stop(&mut pos2, &mut vel2, &collider, &wall_far, &settings, 60);
    assert_eq!(s2, SweepState::Clear);
    assert_eq!(pos2.0.x, 10);  // remaining gap: 21 - (10 + 10) = 1
    assert_eq!(vel2.0, Vec2 { x: 600, y: 0 });
}

#[test]
fn idle_body_is_skipped() {
    let collider = pong_core::components::PongCollider { half: Vec2 { x: 10, y: 10 } };
    let settings = KinematicWallStop::new(1);
    let mut pos = PongPosition(Vec2 { x: 3, y: 4 });
    let mut vel = PongVelocity(Vec2 { x: 0, y: 0 });
    let wall = aabb(20, 0, 5, 100);
    let s = kinematic_wall_stop(&mut pos, &mut vel, &collider, &wall, &settings, 60);
    assert_eq!(s, SweepState::Idle);
    assert_eq!(pos.0, Vec2 { x: 3, y: 4 });
}

#[test]
fn goal_detection_thresholds() {
    let mut ball = spawn_ball(15, 480, 600);
    ball.position = PongPosition(Vec2 { x: 415, y: 0 });
    assert_eq!(detect_goal(&ball, 400), None);
    ball.position = PongPosition(Vec2 { x: 416, y: 0 });
    let right = detect_goal(&ball, 400).expect("trailing edge past the right boundary");
    assert_eq!(right.scorer, pong_core::paddle::Owner::Player);
    ball.position = PongPosition(Vec2 { x: -416, y: 0 });
    let left = detect_goal(&ball, 400).expect("trailing edge past the left boundary");
    assert_eq!(left.scorer, pong_core::paddle::Owner::Ai);
}

#[test]
fn spawn_ball_launch_state() {
    let ball = spawn_ball(30, 500, 2000);
    assert_eq!(ball.position.0, Vec2 { x: 0, y: 0 });
    assert_eq!(ball.velocity.0, Vec2 { x: 500, y: 250 });
    assert_eq!(ball.radius, 30);
}
