//! The whole arena: configuration, world state, the session-start
//! factories, and the fixed tick that runs controllers, integration,
//! collision resolution and scoring in order.

use vstd::prelude::*;
use vstd::arithmetic::div_mod::lemma_div_is_ordered;
use crate::components::{
    abs_val, scaled_mag, Aabb, PongCollider, PongPosition, PongVelocity, Vec2,
    lemma_scaled_mag_props, COORD_LIMIT,
};
use crate::ball::{Ball, spawn_ball, reset_ball, move_ball};
use crate::collisions::{
    boxes_overlap, classify, offset_x, offset_y, collide_bounce_spec, resolve_bounce,
    BounceCollider, KinematicWallStop,
};
use crate::paddle::{
    ai_velocity_spec, move_ai, move_paddle_spec, move_paddles, AiConfig, Gutter, Owner, Paddle,
};
use crate::score::{crossed_left, crossed_right, detect_goal, update_score, Score, Scored};

verus! {

/// The directional intent of the human player for one tick.
#[derive(Clone, Copy, PartialEq, Eq, Structural, Debug)]
pub enum PaddleInput {
    Up,
    Down,
    Idle,
}

/// Every configured quantity of a session, fixed at session start.
#[derive(Clone, Copy, PartialEq, Eq, Structural, Debug)]
pub struct GameConfig {
    /// Fixed ticks per second; one tick advances time by `1 / hz`.
    pub hz: i64,
    /// The goal lines stand at `x == -half_width` and `x == half_width`.
    pub half_width: i64,
    /// How far each paddle stands in from its goal line.
    pub padding: i64,
    pub ball_radius: i64,
    /// The ball's speed band.
    pub min_speed: i64,
    pub max_speed: i64,
    pub paddle_half: Vec2,
    /// The vertical speed the human player's intent drives the paddle at.
    pub paddle_speed: i64,
    pub paddle_bounce: BounceCollider,
    /// The top wall's center height; the bottom wall mirrors it.
    pub wall_center_y: i64,
    pub wall_half: Vec2,
    pub wall_bounce: BounceCollider,
    pub skin_width: i64,
    pub ai: AiConfig,
}

impl GameConfig {
    /// The per-tick travel bound: the longest distance any component of a
    /// banded velocity can cover in one tick.
    pub open spec fn step(self) -> int {
        self.max_speed as int / self.hz as int
    }

    /// The height of the walls' inner faces: the top wall's bottom face
    /// sits at `wall_inner`, the bottom wall's top face at `-wall_inner`.
    pub open spec fn wall_inner(self) -> int {
        self.wall_center_y - self.wall_half.y
    }

    /// Above this height the ball's box overlaps the top wall; below its
    /// mirror image it overlaps the bottom wall.
    pub open spec fn top_near(self) -> int {
        self.wall_inner() - self.ball_radius
    }

    pub open spec fn wf(self) -> bool {
        &&& 0 < self.hz <= COORD_LIMIT
        &&& 0 < self.half_width <= COORD_LIMIT
        &&& 0 <= self.padding < self.half_width
        &&& 0 < self.ball_radius <= COORD_LIMIT
        &&& 0 < self.min_speed <= self.max_speed <= COORD_LIMIT
        &&& 0 < self.paddle_half.x <= COORD_LIMIT
        &&& 0 < self.paddle_half.y <= COORD_LIMIT
        &&& 0 <= self.paddle_speed <= COORD_LIMIT
        &&& self.paddle_bounce.wf()
        &&& self.wall_bounce.wf()
        &&& 0 < self.wall_center_y <= COORD_LIMIT
        &&& 0 < self.wall_half.y <= COORD_LIMIT
        &&& 0 < self.wall_half.x <= 2 * COORD_LIMIT
        &&& 0 <= self.skin_width <= COORD_LIMIT
        &&& self.ai.wf()
        // the arena interior holds the ball and a centered paddle
        &&& self.wall_inner() >= self.ball_radius
        &&& self.wall_inner() >= self.paddle_half.y
        // the walls span every x the ball can reach during a tick
        &&& self.wall_half.x >= self.half_width + self.ball_radius + self.max_speed + 1
        // the walls are thick enough that one tick cannot jump them
        &&& self.step() <= 2 * self.wall_half.y
        // one tick cannot jump the arena's width from the center
        &&& self.step() <= self.half_width
        // one tick's travel stays under the ball's radius, so the ball's
        // center never enters a wall's band and the discrete bounce can
        // never point the wrong way
        &&& self.step() < self.ball_radius
    }

    /// Decides well-formedness executably, so that a configuration read
    /// from outside the verified world can be rejected at session start
    /// rather than fed to the simulation.
    pub fn validate(&self) -> (r: bool)
        ensures
            r == self.wf(),
    {
        let basics: bool = 0 < self.hz && self.hz <= COORD_LIMIT && 0 < self.half_width
            && self.half_width <= COORD_LIMIT && 0 <= self.padding
            && self.padding < self.half_width && 0 < self.ball_radius
            && self.ball_radius <= COORD_LIMIT && 0 < self.min_speed
            && self.min_speed <= self.max_speed && self.max_speed <= COORD_LIMIT
            && 0 < self.paddle_half.x && self.paddle_half.x <= COORD_LIMIT
            && 0 < self.paddle_half.y && self.paddle_half.y <= COORD_LIMIT
            && 0 <= self.paddle_speed && self.paddle_speed <= COORD_LIMIT
            && 0 < self.wall_center_y && self.wall_center_y <= COORD_LIMIT
            && 0 < self.wall_half.y && self.wall_half.y <= COORD_LIMIT
            && 0 < self.wall_half.x && self.wall_half.x <= 2 * COORD_LIMIT
            && 0 <= self.skin_width && self.skin_width <= COORD_LIMIT;
        if !basics {
            return false;
        }
        let bounces: bool = 0 < self.paddle_bounce.den
            && self.paddle_bounce.den <= self.paddle_bounce.num
            && self.paddle_bounce.num <= 1_000_000
            && self.paddle_bounce.num <= 4 * self.paddle_bounce.den
            && 0 < self.wall_bounce.den && self.wall_bounce.den <= self.wall_bounce.num
            && self.wall_bounce.num <= 1_000_000
            && self.wall_bounce.num <= 4 * self.wall_bounce.den;
        let chase: bool = 0 <= self.ai.deadzone && self.ai.deadzone <= COORD_LIMIT
            && 0 < self.ai.ramp_distance && self.ai.ramp_distance <= COORD_LIMIT
            && 0 < self.ai.min_speed && self.ai.min_speed <= self.ai.max_speed
            && self.ai.max_speed <= COORD_LIMIT;
        let step: i64 = ((self.max_speed as u64) / (self.hz as u64)) as i64;
        let geometry: bool = self.wall_center_y - self.wall_half.y >= self.ball_radius
            && self.wall_center_y - self.wall_half.y >= self.paddle_half.y
            && self.wall_half.x >= self.half_width + self.ball_radius + self.max_speed + 1
            && step <= 2 * self.wall_half.y && step <= self.half_width
            && step < self.ball_radius;
        basics && bounces && chase && geometry
    }
}

/// The world: one ball, two paddles, two walls, one pair of score
/// counters, and the configuration that shaped them.
#[derive(Clone, Copy, PartialEq, Eq, Structural, Debug)]
pub struct WorldState {
    pub config: GameConfig,
    pub ball: Ball,
    pub player: Paddle,
    pub ai: Paddle,
    pub wall_top: Gutter,
    pub wall_bottom: Gutter,
    pub score: Score,
}

/// One paddle's standing relation to the configuration and the walls.
pub open spec fn paddle_wf(p: Paddle, cfg: GameConfig, x: int) -> bool {
    &&& p.collider.half == cfg.paddle_half
    &&& p.bounce == cfg.paddle_bounce
    &&& p.position.0.x == x
    &&& p.velocity.0.x == 0
    &&& abs_val(p.velocity.0.y as int) <= COORD_LIMIT
    &&& p.position.0.y + cfg.paddle_half.y <= cfg.wall_inner()
    &&& p.position.0.y - cfg.paddle_half.y >= -cfg.wall_inner()
}

impl WorldState {
    /// The well-formedness of the whole world: the entities carry the
    /// configured quantities, the ball's speed sits in its band, the
    /// paddles stand between the walls, and the ball stands inside the
    /// arena — past a wall's inner face only while already moving back.
    pub open spec fn wf(self) -> bool {
        let cfg = self.config;
        &&& cfg.wf()
        &&& self.ball.radius == cfg.ball_radius
        &&& self.ball.min_speed == cfg.min_speed
        &&& self.ball.max_speed == cfg.max_speed
        &&& self.ball.wf()
        &&& paddle_wf(self.player, cfg, -(cfg.half_width - cfg.padding) as int)
        &&& paddle_wf(self.ai, cfg, cfg.half_width - cfg.padding)
        &&& self.wall_top.position.0 == (Vec2 { x: 0i64, y: cfg.wall_center_y })
        &&& self.wall_top.collider.half == cfg.wall_half
        &&& self.wall_top.bounce == cfg.wall_bounce
        &&& self.wall_bottom.position.0 == (Vec2 { x: 0i64, y: (-cfg.wall_center_y) as i64 })
        &&& self.wall_bottom.collider.half == cfg.wall_half
        &&& self.wall_bottom.bounce == cfg.wall_bounce
        &&& abs_val(self.ball.position.0.x as int) <= cfg.half_width + cfg.ball_radius
        &&& self.ball.position.0.y <= cfg.top_near() + cfg.step()
        &&& self.ball.position.0.y >= -cfg.top_near() - cfg.step()
        &&& self.ball.position.0.y > cfg.top_near() ==> self.ball.velocity.0.y <= 0
        &&& self.ball.position.0.y < -cfg.top_near() ==> self.ball.velocity.0.y >= 0
    }
}

/// Builds the two paddles of a session: the player's on the left, the
/// machine's on the right, both centered vertically and at rest.
pub fn spawn_paddles(cfg: &GameConfig) -> (r: (Paddle, Paddle))
    requires
        cfg.wf(),
    ensures
        r.0 == (Paddle {
            position: PongPosition(
                Vec2 { x: (-(cfg.half_width - cfg.padding)) as i64, y: 0i64 },
            ),
            velocity: PongVelocity(Vec2 { x: 0i64, y: 0i64 }),
            collider: (PongCollider { half: cfg.paddle_half }),
            bounce: cfg.paddle_bounce,
        }),
        r.1 == (Paddle {
            position: PongPosition(Vec2 { x: (cfg.half_width - cfg.padding) as i64, y: 0i64 }),
            velocity: PongVelocity(Vec2 { x: 0i64, y: 0i64 }),
            collider: (PongCollider { half: cfg.paddle_half }),
            bounce: cfg.paddle_bounce,
        }),
        paddle_wf(r.0, *cfg, -(cfg.half_width - cfg.padding) as int),
        paddle_wf(r.1, *cfg, cfg.half_width - cfg.padding),
{
    let x: i64 = cfg.half_width - cfg.padding;
    let player = Paddle {
        position: PongPosition(Vec2 { x: -x, y: 0 }),
        velocity: PongVelocity(Vec2 { x: 0, y: 0 }),
        collider: PongCollider { half: cfg.paddle_half },
        bounce: cfg.paddle_bounce,
    };
    let ai = Paddle {
        position: PongPosition(Vec2 { x, y: 0 }),
        velocity: PongVelocity(Vec2 { x: 0, y: 0 }),
        collider: PongCollider { half: cfg.paddle_half },
        bounce: cfg.paddle_bounce,
    };
    (player, ai)
}

/// Builds the two walls of a session, mirrored about the arena's
/// horizontal midline.
pub fn spawn_gutters(cfg: &GameConfig) -> (r: (Gutter, Gutter))
    requires
        cfg.wf(),
    ensures
        r.0 == (Gutter {
            position: PongPosition(Vec2 { x: 0i64, y: cfg.wall_center_y }),
            collider: (PongCollider { half: cfg.wall_half }),
            bounce: cfg.wall_bounce,
        }),
        r.1 == (Gutter {
            position: PongPosition(Vec2 { x: 0i64, y: (-cfg.wall_center_y) as i64 }),
            collider: (PongCollider { half: cfg.wall_half }),
            bounce: cfg.wall_bounce,
        }),
{
    let top = Gutter {
        position: PongPosition(Vec2 { x: 0, y: cfg.wall_center_y }),
        collider: PongCollider { half: cfg.wall_half },
        bounce: cfg.wall_bounce,
    };
    let bottom = Gutter {
        position: PongPosition(Vec2 { x: 0, y: -cfg.wall_center_y }),
        collider: PongCollider { half: cfg.wall_half },
        bounce: cfg.wall_bounce,
    };
    (top, bottom)
}

impl WorldState {
    /// Builds a fully formed session: ball at the center with its launch
    /// drift, paddles centered on their sides, walls in place, scores at
    /// zero.
    pub fn new(config: GameConfig) -> (w: WorldState)
        requires
            config.wf(),
        ensures
            w.wf(),
            w.config == config,
            w.score == (Score { player: 0u32, ai: 0u32 }),
            w.ball.position.0 == (Vec2 { x: 0i64, y: 0i64 }),
    {
        let ball = spawn_ball(config.ball_radius, config.min_speed, config.max_speed);
        let paddles = spawn_paddles(&config);
        let gutters = spawn_gutters(&config);
        WorldState {
            config,
            ball,
            player: paddles.0,
            ai: paddles.1,
            wall_top: gutters.0,
            wall_bottom: gutters.1,
            score: Score { player: 0, ai: 0 },
        }
    }
}

/// The vertical velocity the human player's intent stands for.
pub open spec fn input_velocity_spec(input: PaddleInput, speed: int) -> int {
    match input {
        PaddleInput::Up => speed,
        PaddleInput::Down => -speed,
        PaddleInput::Idle => 0,
    }
}

/// A paddle with its vertical velocity replaced.
pub open spec fn paddle_with_vy(p: Paddle, vy: int) -> Paddle {
    Paddle {
        position: p.position,
        velocity: PongVelocity(Vec2 { x: p.velocity.0.x, y: vy as i64 }),
        collider: p.collider,
        bounce: p.bounce,
    }
}

/// The ball after one tick of position integration.
pub open spec fn ball_after_motion(b: Ball, hz: int) -> Ball {
    Ball {
        position: PongPosition(
            Vec2 {
                x: (b.position.0.x + scaled_mag(b.velocity.0.x as int, 1, hz)) as i64,
                y: (b.position.0.y + scaled_mag(b.velocity.0.y as int, 1, hz)) as i64,
            },
        ),
        velocity: b.velocity,
        radius: b.radius,
        min_speed: b.min_speed,
        max_speed: b.max_speed,
    }
}

/// The ball with its velocity replaced.
pub open spec fn ball_with_velocity(b: Ball, v: Vec2) -> Ball {
    Ball {
        position: b.position,
        velocity: PongVelocity(v),
        radius: b.radius,
        min_speed: b.min_speed,
        max_speed: b.max_speed,
    }
}

/// The ball as a goal's reset leaves it: at the center, launched at the
/// minimum speed toward the right side.
pub open spec fn reset_ball_spec(b: Ball) -> Ball {
    Ball {
        position: PongPosition(Vec2 { x: 0i64, y: 0i64 }),
        velocity: PongVelocity(Vec2 { x: b.min_speed, y: 0i64 }),
        radius: b.radius,
        min_speed: b.min_speed,
        max_speed: b.max_speed,
    }
}

pub open spec fn ball_box(b: Ball) -> Aabb {
    Aabb { center: b.position.0, half: Vec2 { x: b.radius, y: b.radius } }
}

pub open spec fn paddle_box(p: Paddle) -> Aabb {
    Aabb { center: p.position.0, half: p.collider.half }
}

/// One whole fixed tick: controllers set the paddle velocities, the ball
/// integrates, the paddles run their swept translation and confinement,
/// the ball's velocity is resolved against both paddles and then both
/// walls, and finally a boundary crossing is scored — counter up by one,
/// ball reset — within the same tick.
pub open spec fn tick_spec(w: WorldState, input: PaddleInput) -> (WorldState, Option<Scored>) {
    let cfg = w.config;
    let ai1 = paddle_with_vy(
        w.ai,
        ai_velocity_spec(w.ball.position.0.y as int, w.ai.position.0.y as int, cfg.ai),
    );
    let pl1 = paddle_with_vy(w.player, input_velocity_spec(input, cfg.paddle_speed as int));
    let ball1 = ball_after_motion(w.ball, cfg.hz as int);
    let top = w.wall_top.body_spec();
    let bottom = w.wall_bottom.body_spec();
    let pl2 = move_paddle_spec(pl1, top, bottom, cfg.skin_width as int, cfg.hz as int);
    let ai2 = move_paddle_spec(ai1, top, bottom, cfg.skin_width as int, cfg.hz as int);
    let bbox = ball_box(ball1);
    let v1 = collide_bounce_spec(
        bbox,
        ball1.velocity.0,
        paddle_box(pl2),
        cfg.paddle_bounce,
        cfg.min_speed as int,
        cfg.max_speed as int,
    );
    let v2 = collide_bounce_spec(
        bbox,
        v1,
        paddle_box(ai2),
        cfg.paddle_bounce,
        cfg.min_speed as int,
        cfg.max_speed as int,
    );
    let v3 = collide_bounce_spec(
        bbox,
        v2,
        top,
        cfg.wall_bounce,
        cfg.min_speed as int,
        cfg.max_speed as int,
    );
    let v4 = collide_bounce_spec(
        bbox,
        v3,
        bottom,
        cfg.wall_bounce,
        cfg.min_speed as int,
        cfg.max_speed as int,
    );
    let ball2 = ball_with_velocity(ball1, v4);
    if crossed_right(ball2, cfg.half_width as int) {
        (
            WorldState {
                config: cfg,
                ball: reset_ball_spec(ball2),
                player: pl2,
                ai: ai2,
                wall_top: w.wall_top,
                wall_bottom: w.wall_bottom,
                score: Score { player: (w.score.player + 1) as u32, ai: w.score.ai },
            },
            Some(Scored { scorer: Owner::Player }),
        )
    } else if crossed_left(ball2, cfg.half_width as int) {
        (
            WorldState {
                config: cfg,
                ball: reset_ball_spec(ball2),
                player: pl2,
                ai: ai2,
                wall_top: w.wall_top,
                wall_bottom: w.wall_bottom,
                score: Score { player: w.score.player, ai: (w.score.ai + 1) as u32 },
            },
            Some(Scored { scorer: Owner::Ai }),
        )
    } else {
        (
            WorldState {
                config: cfg,
                ball: ball2,
                player: pl2,
                ai: ai2,
                wall_top: w.wall_top,
                wall_bottom: w.wall_bottom,
                score: w.score,
            },
            None,
        )
    }
}

/// Exactly one goal event fires per boundary crossing: a tick that scores
/// puts the ball back at the center within that same tick, and from the
/// center one tick's travel cannot reach a goal line again, so the tick
/// that follows a goal never re-counts the same crossing.
pub proof fn lemma_goal_not_recounted(w: WorldState, input: PaddleInput, input2: PaddleInput)
    requires
        w.wf(),
        tick_spec(w, input).1 is Some,
    ensures
        tick_spec(tick_spec(w, input).0, input2).1 is None,
{
    let w1 = tick_spec(w, input).0;
    let cfg = w.config;
    let hz = cfg.hz as int;
    assert(w1.ball.position.0 == (Vec2 { x: 0i64, y: 0i64 }));
    assert(w1.ball.velocity.0 == (Vec2 { x: cfg.min_speed, y: 0i64 }));
    lemma_scaled_mag_props(w1.ball.velocity.0.x as int, 1, hz);
    lemma_div_is_ordered(abs_val(w1.ball.velocity.0.x as int), cfg.max_speed as int, hz);
    let ball2 = ball_after_motion(w1.ball, hz);
    assert(0 <= ball2.position.0.x as int <= cfg.step());
    assert(!crossed_right(ball2, cfg.half_width as int));
    assert(!crossed_left(ball2, cfg.half_width as int));
}

impl WorldState {
    /// Advances the world by one fixed tick.
    ///
    /// The tick runs the control flow of the simulation in order —
    /// controllers, motion integration, collision detection and response,
    /// paddle confinement, goal scoring — and preserves the world's
    /// well-formedness. In particular the ball's speed stays inside its
    /// configured band after every tick, and a goal moves exactly one
    /// counter up by exactly one and puts the ball back at the center
    /// before the next tick's detection can run.
    #[verifier::rlimit(100)]
    pub fn advance(&mut self, input: PaddleInput) -> (ev: Option<Scored>)
        requires
            old(self).wf(),
            old(self).score.player < 0xffff_ffff,
            old(self).score.ai < 0xffff_ffff,
        ensures
            *final(self) == tick_spec(*old(self), input).0,
            ev == tick_spec(*old(self), input).1,
            final(self).wf(),
            final(self).config == old(self).config,
            old(self).config.min_speed <= final(self).ball.velocity.0.speed(),
            final(self).ball.velocity.0.speed() <= old(self).config.max_speed,
            ev is None ==> final(self).score == old(self).score
                && abs_val(final(self).ball.position.0.x as int) <= old(self).config.half_width
                + old(self).config.ball_radius,
            ev == Some(Scored { scorer: Owner::Player }) ==> final(self).score.player == old(
                self,
            ).score.player + 1 && final(self).score.ai == old(self).score.ai,
            ev == Some(Scored { scorer: Owner::Ai }) ==> final(self).score.ai == old(
                self,
            ).score.ai + 1 && final(self).score.player == old(self).score.player,
            ev is Some ==> final(self).ball == reset_ball_spec(old(self).ball),
            final(self).score.player >= old(self).score.player,
            final(self).score.ai >= old(self).score.ai,
    {
        let ghost w0 = *self;
        let hz: i64 = self.config.hz;
        let min_speed: i64 = self.config.min_speed;
        let max_speed: i64 = self.config.max_speed;

        // Controllers: the machine chases the ball, the player follows the
        // sampled intent. Both touch only the vertical velocity.
        move_ai(&mut self.ai, self.ball.position.0.y, &self.config.ai);
        let player_vy: i64 = match input {
            PaddleInput::Up => self.config.paddle_speed,
            PaddleInput::Down => -self.config.paddle_speed,
            PaddleInput::Idle => 0,
        };
        self.player.velocity.0.y = player_vy;
        proof {
            assert(self.ai == paddle_with_vy(
                w0.ai,
                ai_velocity_spec(w0.ball.position.0.y as int, w0.ai.position.0.y as int,
                w0.config.ai),
            ));
            assert(self.player == paddle_with_vy(
                w0.player,
                input_velocity_spec(input, w0.config.paddle_speed as int),
            ));
        }
        let ghost pl1 = self.player;
        let ghost ai1 = self.ai;

        // Motion integration of the ball.
        proof {
            lemma_scaled_mag_props(w0.ball.velocity.0.x as int, 1, hz as int);
            lemma_scaled_mag_props(w0.ball.velocity.0.y as int, 1, hz as int);
            lemma_div_is_ordered(
                abs_val(w0.ball.velocity.0.x as int),
                w0.config.max_speed as int,
                hz as int,
            );
            lemma_div_is_ordered(
                abs_val(w0.ball.velocity.0.y as int),
                w0.config.max_speed as int,
                hz as int,
            );
        }
        move_ball(&mut self.ball, hz);
        proof {
            assert(self.ball == ball_after_motion(w0.ball, hz as int));
        }
        let ghost ball1 = self.ball;

        // The paddles run their swept translation and confinement.
        let settings = KinematicWallStop::new(self.config.skin_width);
        move_paddles(&mut self.player, &self.wall_top, &self.wall_bottom, &settings, hz);
        move_paddles(&mut self.ai, &self.wall_top, &self.wall_bottom, &settings, hz);
        proof {
            assert(self.player == move_paddle_spec(
                pl1,
                w0.wall_top.body_spec(),
                w0.wall_bottom.body_spec(),
                w0.config.skin_width as int,
                hz as int,
            ));
            assert(self.ai == move_paddle_spec(
                ai1,
                w0.wall_top.body_spec(),
                w0.wall_bottom.body_spec(),
                w0.config.skin_width as int,
                hz as int,
            ));
        }

        // Collision resolution of the ball: both paddles, then both walls,
        // so that the walls have the last word on the vertical direction.
        let bbox = self.ball.bounding_box();
        let player_box = self.player.collider.aabb_at(&self.player.position);
        let ai_box = self.ai.collider.aabb_at(&self.ai.position);
        let top_box = self.wall_top.body();
        let bottom_box = self.wall_bottom.body();
        let paddle_bounce: BounceCollider = self.config.paddle_bounce;
        let wall_bounce: BounceCollider = self.config.wall_bounce;
        resolve_bounce(&mut self.ball.velocity, &bbox, &player_box, &paddle_bounce, min_speed,
            max_speed);
        resolve_bounce(&mut self.ball.velocity, &bbox, &ai_box, &paddle_bounce, min_speed,
            max_speed);
        proof {
            // The ball can stand past a wall's inner face only by less than
            // one tick's travel, which is under its own radius: so against
            // the top wall it always stands below the wall's band and any
            // overlap classifies as `Bottom`, and mirrored for the bottom
            // wall. This is what pins the vertical direction after the wall
            // pass.
            let cfg = w0.config;
            let x1 = ball1.position.0.x as int;
            let y1 = ball1.position.0.y as int;
            assert(y1 <= cfg.top_near() + cfg.step());
            assert(y1 >= -cfg.top_near() - cfg.step());
            assert(abs_val(x1) <= cfg.half_width + cfg.ball_radius + cfg.step());
            if y1 > cfg.top_near() {
                assert(boxes_overlap(bbox, top_box));
                assert(offset_x(bbox, top_box) == 0);
                assert(offset_y(bbox, top_box) < 0);
                assert(classify(bbox, top_box) is Bottom);
                assert(!boxes_overlap(bbox, bottom_box));
            }
            if y1 < -cfg.top_near() {
                assert(boxes_overlap(bbox, bottom_box));
                assert(offset_x(bbox, bottom_box) == 0);
                assert(offset_y(bbox, bottom_box) > 0);
                assert(classify(bbox, bottom_box) is Top);
                assert(!boxes_overlap(bbox, top_box));
            }
        }
        resolve_bounce(&mut self.ball.velocity, &bbox, &top_box, &wall_bounce, min_speed,
            max_speed);
        resolve_bounce(&mut self.ball.velocity, &bbox, &bottom_box, &wall_bounce, min_speed,
            max_speed);

        // Scoring: a boundary crossing counts for the far side and sends
        // the ball back to the center within the same tick.
        let ev = detect_goal(&self.ball, self.config.half_width);
        match &ev {
            Option::Some(scored) => {
                update_score(&mut self.score, scored);
                reset_ball(&mut self.ball);
            },
            Option::None => {},
        }
        ev
    }
}

} // verus!
