// Arena-level behaviour: confinement, the chase controller, world
// construction, and whole ticks with scoring.

use pong_core::collisions::BounceCollider;
use pong_core::components::{Aabb, PongCollider, PongPosition, PongVelocity, Vec2};
use pong_core::game::{GameConfig, PaddleInput, WorldState};
use pong_core::paddle::{
    constrain_paddle_position, move_ai, AiConfig, Owner, Paddle,
};
use pong_core::score::{update_score, Score, Scored};

fn test_config() -> GameConfig {
    GameConfig {
        hz: 60,
        half_width: 400,
        padding: 20,
        ball_radius: 15,
        min_speed: 480,
        max_speed: 600,
        paddle_half: Vec2 { x: 10, y: 50 },
        paddle_speed: 500,
        paddle_bounce: BounceCollider { num: 6, den: 5 },
        wall_center_y: 300,
        wall_half: Vec2 { x: 1200, y: 20 },
        wall_bounce: BounceCollider { num: 6, den: 5 },
        skin_width: 1,
        ai: AiConfig { deadzone: 5, ramp_distance: 100, min_speed: 10, max_speed: 600 },
    }
}

fn test_paddle(y: i64) -> Paddle {
    Paddle {
        position: PongPosition(Vec2 { x: 380, y }),
        velocity: PongVelocity(Vec2 { x: 0, y: 0 }),
        collider: PongCollider { half: Vec2 { x: 10, y: 50 } },
        bounce: BounceCollider { num: 6, den: 5 },
    }
}

#[test]
fn confinement_under_top_wall_exact() {
    // Top wall centered at 250 with half height 50, body half height 10:
    // a bottom-side penetration lands the body at 250 - 50 - 10 = 190.
    let collider = PongCollider { half: Vec2 { x: 10, y: 10 } };
    let wall = Aabb { center: Vec2 { x: 0, y: 250 }, half: Vec2 { x: 100, y: 50 } };
    let mut pos = PongPosition(Vec2 { x: 0, y: 300 });
    constrain_paddle_position(&mut pos, &collider, &wall);
    assert_eq!(pos.0, Vec2 { x: 0, y: 190 });
}

#[test]
fn confinement_is_idempotent() {
    let collider = PongCollider { half: Vec2 { x: 10, y: 50 } };
    let wall = Aabb { center: Vec2 { x: 0, y: 300 }, half: Vec2 { x: 1200, y: 20 } };
    let mut pos = PongPosition(Vec2 { x: 0, y: 280 });
    constrain_paddle_position(&mut pos, &collider, &wall);
    assert_eq!(pos.0, Vec2 { x: 0, y: 230 });
    constrain_paddle_position(&mut pos, &collider, &wall);
    assert_eq!(pos.0, Vec2 { x: 0, y: 230 });
}

#[test]
fn confinement_above_bottom_wall() {
    let collider = PongCollider { half: Vec2 { x: 10, y: 50 } };
    let wall = Aabb { center: Vec2 { x: 0, y: -300 }, half: Vec2 { x: 1200, y: 20 } };
    let mut pos = PongPosition(Vec2 { x: 0, y: -275 });
    constrain_paddle_position(&mut pos, &collider, &wall);
    assert_eq!(pos.0, Vec2 { x: 0, y: -230 });
}

#[test]
fn confinement_leaves_separated_body_alone() {
    let collider = PongCollider { half: Vec2 { x: 10, y: 50 } };
    let wall = Aabb { center: Vec2 { x: 0, y: 300 }, half: Vec2 { x: 1200, y: 20 } };
    let mut pos = PongPosition(Vec2 { x: 0, y: 0 });
    constrain_paddle_position(&mut pos, &collider, &wall);
    assert_eq!(pos.0, Vec2 { x: 0, y: 0 });
}

#[test]
fn chase_ramp_exact_value() {
    // Distance 50 over a ramp of 100 between speeds 10 and 1000:
    // 10 + 990 * 50 / 100 = 505, signed toward the ball.
    let cfg = AiConfig { deadzone: 5, ramp_distance: 100, min_speed: 10, max_speed: 1000 };
    let mut paddle = test_paddle(0);
    move_ai(&mut paddle, 50, &cfg);
    assert_eq!(paddle.velocity.0.y, 505);
    let mut below = test_paddle(0);
    move_ai(&mut below, -50, &cfg);
    assert_eq!(below.velocity.0.y, -505);
}

#[test]
fn chase_deadzone_and_ceiling() {
    let cfg = AiConfig { deadzone: 5, ramp_distance: 100, min_speed: 10, max_speed: 1000 };
    let mut near = test_paddle(0);
    move_ai(&mut near, 5, &cfg);
    assert_eq!(near.velocity.0.y, 0);
    let mut far = test_paddle(0);
    move_ai(&mut far, 10_000, &cfg);
    assert_eq!(far.velocity.0.y, 1000);
}

#[test]
fn score_counts_one_per_event() {
    let mut score = Score { player: 3, ai: 7 };
    update_score(&mut score, &Scored { scorer: Owner::Player });
    assert_eq!(score, Score { player: 4, ai: 7 });
    update_score(&mut score, &Scored { scorer: Owner::Ai });
    assert_eq!(score, Score { player: 4, ai: 8 });
}

#[test]
fn configuration_validation_rejects_bad_extents() {
    let good = test_config();
    assert!(good.validate());
    let mut flat_paddle = test_config();
    flat_paddle.paddle_half = Vec2 { x: 10, y: 0 };
    assert!(!flat_paddle.validate());
    let mut tunnel_prone = test_config();
    tunnel_prone.max_speed = 600 * 60;  // one tick's travel reaches the radius
    assert!(!tunnel_prone.validate());
    let mut dead_bounce = test_config();
    dead_bounce.wall_bounce = BounceCollider { num: 1, den: 2 };  // under one
    assert!(!dead_bounce.validate());
}

#[test]
fn world_session_start_layout() {
    let w = WorldState::new(test_config());
    assert_eq!(w.player.position.0, Vec2 { x: -380, y: 0 });
    assert_eq!(w.ai.position.0, Vec2 { x: 380, y: 0 });
    assert_eq!(w.wall_top.position.0, Vec2 { x: 0, y: 300 });
    assert_eq!(w.wall_bottom.position.0, Vec2 { x: 0, y: -300 });
    assert_eq!(w.ball.position.0, Vec2 { x: 0, y: 0 });
    assert_eq!(w.score, Score { player: 0, ai: 0 });
}

#[test]
fn goal_scores_once_and_resets_ball() {
    let mut w = WorldState::new(test_config());
    w.ball.position = PongPosition(Vec2 { x: 410, y: 0 });
    w.ball.velocity = PongVelocity(Vec2 { x: 480, y: 0 });
    let ev = w.advance(PaddleInput::Idle);
    assert_eq!(ev, Some(Scored { scorer: Owner::Player }));
    assert_eq!(w.score, Score { player: 1, ai: 0 });
    assert_eq!(w.ball.position.0, Vec2 { x: 0, y: 0 });
    assert_eq!(w.ball.velocity.0, Vec2 { x: 480, y: 0 });

    // The reset ran before the next tick's detection: the crossing is
    // counted exactly once.
    let ev2 = w.advance(PaddleInput::Idle);
    assert_eq!(ev2, None);
    assert_eq!(w.score, Score { player: 1, ai: 0 });
}

#[test]
fn machine_goal_counts_for_machine() {
    let mut w = WorldState::new(test_config());
    w.ball.position = PongPosition(Vec2 { x: -410, y: 0 });
    w.ball.velocity = PongVelocity(Vec2 { x: -480, y: 0 });
    let ev = w.advance(PaddleInput::Idle);
    assert_eq!(ev, Some(Scored { scorer: Owner::Ai }));
    assert_eq!(w.score, Score { player: 0, ai: 1 });
    assert_eq!(w.ball.position.0, Vec2 { x: 0, y: 0 });
}

#[test]
fn ball_speed_stays_banded_over_ticks() {
    let mut w = WorldState::new(test_config());
    let mut tick: usize = 0;
    while tick < 240 {
        w.advance(PaddleInput::Up);
        let vx = w.ball.velocity.0.x.abs();
        let vy = w.ball.velocity.0.y.abs();
        let speed = if vx >= vy { vx } else { vy };
        assert!(480 <= speed && speed <= 600);
        tick += 1;
    }
}

#[test]
fn wall_bounce_within_tick_reflects_down() {
    let mut w = WorldState::new(test_config());
    // Straight up just under the top wall: the tick integrates into the
    // wall, reflects, scales by 6/5 and clamps back to the ceiling.
    w.ball.position = PongPosition(Vec2 { x: 0, y: 260 });
    w.ball.velocity = PongVelocity(Vec2 { x: 0, y: 600 });
    let ev = w.advance(PaddleInput::Idle);
    assert_eq!(ev, None);
    assert_eq!(w.ball.position.0, Vec2 { x: 0, y: 270 });
    assert_eq!(w.ball.velocity.0, Vec2 { x: 0, y: -600 });
}

#[test]
fn paddle_bounce_reverses_ball_within_tick() {
    let mut w = WorldState::new(test_config());
    // Leftward into the player's paddle at x = -380: the tick integrates
    // into the paddle, the contact classifies on its right face, and the
    // reflected, restitution-scaled velocity stays inside the band.
    w.ball.position = PongPosition(Vec2 { x: -360, y: 0 });
    w.ball.velocity = PongVelocity(Vec2 { x: -480, y: 0 });
    let ev = w.advance(PaddleInput::Idle);
    assert_eq!(ev, None);
    assert_eq!(w.ball.position.0, Vec2 { x: -368, y: 0 });
    assert_eq!(w.ball.velocity.0, Vec2 { x: 576, y: 0 });
}

#[test]
fn machine_paddle_chases_ball_within_tick() {
    let mut w = WorldState::new(test_config());
    w.ball.position = PongPosition(Vec2 { x: 0, y: 100 });
    w.ball.velocity = PongVelocity(Vec2 { x: 480, y: 0 });
    w.advance(PaddleInput::Idle);
    // Distance 100 at the full ramp: 10 + 590 * 100 / 100 = 600, and one
    // tick of that chase moves the paddle by 10.
    assert_eq!(w.ai.velocity.0.y, 600);
    assert_eq!(w.ai.position.0.y, 10);
    assert_eq!(w.player.position.0.y, 0);
}

#[test]
fn paddle_follows_input_and_stops_at_wall() {
    let mut w = WorldState::new(test_config());
    // Wall inner face at 280, paddle half height 50: from the center the
    // paddle can rise to 230 and no further (minus the skin width).
    let mut tick: usize = 0;
    while tick < 120 {
        w.advance(PaddleInput::Up);
        assert!(w.player.position.0.y + 50 <= 280);
        tick += 1;
    }
    assert!(w.player.position.0.y >= 229 - 1);
}
