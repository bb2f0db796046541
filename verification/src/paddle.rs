//! The two kinematic paddles and the two static walls (gutters) that
//! bound them: vertical movement under the swept wall stop, confinement
//! against the walls, and the proportional chase controller of the
//! machine-driven paddle.

use vstd::prelude::*;
use crate::components::{
    abs_val, clamp_val, sign_of, Aabb, PongCollider, PongCollision, PongPosition,
    PongVelocity, Vec2, ratio_scale, COORD_LIMIT,
};
use crate::collisions::{
    boxes_overlap, classify, collide_with_side, wall_stop_spec, lemma_axis_sweep_gap,
    kinematic_wall_stop_system, BounceCollider, KinematicWallStop, SweepState,
};

verus! {

/// Which participant owns a paddle or a score: the human player on the
/// left side, or the machine on the right.
#[derive(Clone, Copy, PartialEq, Eq, Structural, Debug)]
pub enum Owner {
    Player,
    Ai,
}

/// A kinematic paddle: its position, the velocity set each tick by input
/// or by the chase controller, its rectangular collider, and the
/// restitution the ball meets on it.
#[derive(Clone, Copy, PartialEq, Eq, Structural, Debug)]
pub struct Paddle {
    pub position: PongPosition,
    pub velocity: PongVelocity,
    pub collider: PongCollider,
    pub bounce: BounceCollider,
}

/// A static wall along the top or bottom of the arena, with the
/// restitution the ball meets on it.
#[derive(Clone, Copy, PartialEq, Eq, Structural, Debug)]
pub struct Gutter {
    pub position: PongPosition,
    pub collider: PongCollider,
    pub bounce: BounceCollider,
}

impl Gutter {
    pub open spec fn body_spec(self) -> Aabb {
        Aabb { center: self.position.0, half: self.collider.half }
    }

    /// The box the wall occupies.
    pub fn body(&self) -> (b: Aabb)
        ensures
            b == self.body_spec(),
    {
        Aabb { center: self.position.0, half: self.collider.half }
    }
}

/// Where confinement against one wall puts a body: a box overlapping the
/// wall with a vertical classification is snapped flush against the
/// wall's matching face; horizontal classifications are not meaningful
/// for a paddle against a wall and leave it alone.
pub open spec fn confine_spec(pos: Vec2, half: Vec2, wall: Aabb) -> Vec2 {
    let pbox = Aabb { center: pos, half };
    if !boxes_overlap(pbox, wall) {
        pos
    } else {
        match classify(pbox, wall) {
            PongCollision::Top => Vec2 {
                x: pos.x,
                y: (wall.center.y + wall.half.y + half.y) as i64,
            },
            PongCollision::Bottom => Vec2 {
                x: pos.x,
                y: (wall.center.y - wall.half.y - half.y) as i64,
            },
            PongCollision::Left => pos,
            PongCollision::Right => pos,
        }
    }
}

/// Clamps a body's position so it does not penetrate a wall.
///
/// The collision classifier names the side of the wall on which the
/// body's center sits; a `Top` penetration leaves the body resting on the
/// wall's top face, a `Bottom` penetration hanging under its bottom face.
pub fn constrain_paddle_position(
    position: &mut PongPosition,
    collider: &PongCollider,
    wall: &Aabb,
)
    requires
        collider.wf(),
        wall.wf(),
        abs_val(old(position).0.x as int) <= 8 * COORD_LIMIT,
        abs_val(old(position).0.y as int) <= 8 * COORD_LIMIT,
    ensures
        final(position).0 == confine_spec(old(position).0, collider.half, *wall),
        final(position).0.x == old(position).0.x,
        abs_val(final(position).0.y as int) <= 12 * COORD_LIMIT,
{
    let pbox = collider.aabb_at(position);
    let hit = collide_with_side(&pbox, wall);
    match hit {
        Option::Some(PongCollision::Top) => {
            position.0.y = wall.center.y + wall.half.y + collider.half.y;
        },
        Option::Some(PongCollision::Bottom) => {
            position.0.y = wall.center.y - wall.half.y - collider.half.y;
        },
        _ => {},
    }
}

/// Confinement is idempotent: a body snapped flush against a wall no
/// longer overlaps it, so a second application changes nothing.
pub proof fn lemma_confine_idempotent(pos: Vec2, half: Vec2, wall: Aabb)
    requires
        0 < half.x <= COORD_LIMIT,
        0 < half.y <= COORD_LIMIT,
        wall.wf(),
        abs_val(pos.x as int) <= 6 * COORD_LIMIT,
        abs_val(pos.y as int) <= 6 * COORD_LIMIT,
    ensures
        confine_spec(confine_spec(pos, half, wall), half, wall) == confine_spec(pos, half, wall),
{
    let once = confine_spec(pos, half, wall);
    let pbox = Aabb { center: pos, half };
    if boxes_overlap(pbox, wall) {
        let obox = Aabb { center: once, half };
        match classify(pbox, wall) {
            PongCollision::Top => {
                assert(once.y == wall.center.y + wall.half.y + half.y);
                assert(!boxes_overlap(obox, wall));
            },
            PongCollision::Bottom => {
                assert(once.y == wall.center.y - wall.half.y - half.y);
                assert(!boxes_overlap(obox, wall));
            },
            PongCollision::Left => {},
            PongCollision::Right => {},
        }
    }
}

/// The configuration of the proportional chase controller.
#[derive(Clone, Copy, PartialEq, Eq, Structural, Debug)]
pub struct AiConfig {
    /// Within this distance of the ball the paddle stands still.
    pub deadzone: i64,
    /// Distance over which the chase speed ramps from minimum to maximum.
    pub ramp_distance: i64,
    pub min_speed: i64,
    pub max_speed: i64,
}

impl AiConfig {
    pub open spec fn wf(self) -> bool {
        &&& 0 <= self.deadzone <= COORD_LIMIT
        &&& 0 < self.ramp_distance <= COORD_LIMIT
        &&& 0 < self.min_speed <= self.max_speed <= COORD_LIMIT
    }
}

/// The vertical chase velocity: zero inside the deadzone, and otherwise a
/// speed ramping linearly with distance from `min_speed` at the deadzone
/// to `max_speed` at `ramp_distance`, clamped into that band, signed
/// toward the ball.
pub open spec fn ai_velocity_spec(ball_y: int, paddle_y: int, cfg: AiConfig) -> int {
    let delta = ball_y - paddle_y;
    if abs_val(delta) <= cfg.deadzone {
        0
    } else {
        sign_of(delta) * clamp_val(
            cfg.min_speed + (cfg.max_speed - cfg.min_speed) * abs_val(delta) / (
            cfg.ramp_distance as int),
            cfg.min_speed as int,
            cfg.max_speed as int,
        )
    }
}

/// Steers a paddle vertically toward the ball with the proportional
/// chase rule. Only the vertical velocity is touched.
pub fn move_ai(paddle: &mut Paddle, ball_y: i64, cfg: &AiConfig)
    requires
        cfg.wf(),
        abs_val(ball_y as int) <= 4 * COORD_LIMIT,
        abs_val(old(paddle).position.0.y as int) <= 4 * COORD_LIMIT,
    ensures
        final(paddle).velocity.0.y as int == ai_velocity_spec(
            ball_y as int,
            old(paddle).position.0.y as int,
            *cfg,
        ),
        final(paddle).velocity.0.x == old(paddle).velocity.0.x,
        final(paddle).position == old(paddle).position,
        final(paddle).collider == old(paddle).collider,
        final(paddle).bounce == old(paddle).bounce,
        abs_val(final(paddle).velocity.0.y as int) <= cfg.max_speed,
{
    let delta: i64 = ball_y - paddle.position.0.y;
    let ad: i64 = if delta < 0 { -delta } else { delta };
    if ad <= cfg.deadzone {
        paddle.velocity.0.y = 0;
        return ;
    }
    let span: i64 = cfg.max_speed - cfg.min_speed;
    let ramped: i64 = if span == 0 {
        proof {
            assert((cfg.max_speed - cfg.min_speed) * abs_val(delta as int) == 0) by (nonlinear_arith)
                requires
                    cfg.max_speed == cfg.min_speed,
            ;
            vstd::arithmetic::div_mod::lemma_div_of0(cfg.ramp_distance as int);
        }
        0
    } else {
        proof {
            assert(abs_val(ad as int) * span <= 8_000_000_000_000_000_000) by (nonlinear_arith)
                requires
                    0 <= abs_val(ad as int) <= 8 * COORD_LIMIT && 0 < span <= COORD_LIMIT,
            ;
        }
        let scaled: i64 = ratio_scale(ad, span, cfg.ramp_distance);
        proof {
            assert((span as int) * abs_val(delta as int) == abs_val(delta as int) * (
            span as int)) by (nonlinear_arith);
        }
        scaled
    };
    let raw: i64 = cfg.min_speed + ramped;
    let speed: i64 = if raw < cfg.min_speed {
        cfg.min_speed
    } else if raw > cfg.max_speed {
        cfg.max_speed
    } else {
        raw
    };
    paddle.velocity.0.y = if delta < 0 {
        -speed
    } else {
        speed
    };
}

/// One paddle's whole per-tick movement: the planned vertical translation
/// runs under the swept wall stop against the wall in its direction of
/// travel, then confinement against both walls clamps whatever is left.
pub open spec fn move_paddle_spec(p: Paddle, top: Aabb, bottom: Aabb, skin: int, hz: int) -> Paddle {
    let chosen = if p.velocity.0.y >= 0 {
        top
    } else {
        bottom
    };
    let swept = wall_stop_spec(p.position.0, p.velocity.0, p.collider.half, chosen, skin, hz);
    let c1 = confine_spec(swept.0, p.collider.half, top);
    let c2 = confine_spec(c1, p.collider.half, bottom);
    Paddle {
        position: PongPosition(c2),
        velocity: PongVelocity(swept.1),
        collider: p.collider,
        bounce: p.bounce,
    }
}

/// Moves one paddle for one fixed tick.
///
/// The paddle moves only vertically; a wall closer than the planned
/// travel stops it a skin width short, and a paddle that starts between
/// the walls ends between them.
pub fn move_paddles(
    paddle: &mut Paddle,
    wall_top: &Gutter,
    wall_bottom: &Gutter,
    settings: &KinematicWallStop,
    hz: i64,
) -> (s: SweepState)
    requires
        old(paddle).collider.wf(),
        wall_top.collider.wf(),
        wall_bottom.collider.wf(),
        settings.wf(),
        0 < hz <= COORD_LIMIT,
        old(paddle).velocity.0.x == 0,
        old(paddle).velocity.0.speed() <= COORD_LIMIT,
        abs_val(old(paddle).position.0.x as int) <= 6 * COORD_LIMIT,
        abs_val(old(paddle).position.0.y as int) <= 6 * COORD_LIMIT,
        wall_top.body_spec().wf(),
        wall_bottom.body_spec().wf(),
        // the paddle starts between the walls and within their horizontal
        // spans
        old(paddle).position.0.y + old(paddle).collider.half.y <= wall_top.body_spec().bottom(),
        old(paddle).position.0.y - old(paddle).collider.half.y >= wall_bottom.body_spec().top(),
        abs_val(old(paddle).position.0.x - wall_top.position.0.x) < old(paddle).collider.half.x
            + wall_top.collider.half.x,
        abs_val(old(paddle).position.0.x - wall_bottom.position.0.x) < old(
            paddle,
        ).collider.half.x + wall_bottom.collider.half.x,
    ensures
        *final(paddle) == move_paddle_spec(
            *old(paddle),
            wall_top.body_spec(),
            wall_bottom.body_spec(),
            settings.skin_width as int,
            hz as int,
        ),
        final(paddle).position.0.x == old(paddle).position.0.x,
        final(paddle).velocity.0.x == 0,
        final(paddle).collider == old(paddle).collider,
        final(paddle).bounce == old(paddle).bounce,
        final(paddle).velocity.0 == old(paddle).velocity.0 || final(paddle).velocity.0 == (Vec2 {
            x: 0i64,
            y: 0i64,
        }),
        final(paddle).position.0.y + final(paddle).collider.half.y <= wall_top.body_spec().bottom(),
        final(paddle).position.0.y - final(paddle).collider.half.y >= wall_bottom.body_spec().top(),
{
    let top_box = wall_top.body();
    let bottom_box = wall_bottom.body();
    let ghost p0 = *paddle;
    let s = kinematic_wall_stop_system(
        &mut paddle.position,
        &mut paddle.velocity,
        &paddle.collider,
        &top_box,
        &bottom_box,
        settings,
        hz,
    );
    proof {
        let vy = p0.velocity.0.y as int;
        let hy = p0.collider.half.y as int;
        let py = p0.position.0.y as int;
        if vy > 0 {
            lemma_axis_sweep_gap(
                py,
                hy,
                vy,
                top_box.bottom(),
                top_box.top(),
                abs_val(vy) / (hz as int),
                settings.skin_width as int,
            );
        }
        if vy < 0 {
            lemma_axis_sweep_gap(
                py,
                hy,
                vy,
                bottom_box.bottom(),
                bottom_box.top(),
                abs_val(vy) / (hz as int),
                settings.skin_width as int,
            );
        }
    }
    constrain_paddle_position(&mut paddle.position, &paddle.collider, &top_box);
    constrain_paddle_position(&mut paddle.position, &paddle.collider, &bottom_box);
    s
}

} // verus!
