//! The ball: the one dynamic body of the arena. Its speed is kept inside
//! the configured `[min_speed, max_speed]` band after every velocity change,
//! and a goal sends it back to the center with a fixed launch velocity.

use vstd::prelude::*;
use crate::components::{
    abs_val, max_val, scaled_mag, Aabb, PongPosition, PongVelocity, Vec2, ratio_scale,
    COORD_LIMIT,
};

verus! {

/// The circular dynamic body of the arena, with the speed band it is
/// held to.
#[derive(Clone, Copy, PartialEq, Eq, Structural, Debug)]
pub struct Ball {
    pub position: PongPosition,
    pub velocity: PongVelocity,
    pub radius: i64,
    pub min_speed: i64,
    pub max_speed: i64,
}

/// The result of clamping one velocity component: the current speed is the
/// larger magnitude of the component `c` and its neighbour `o`; a speed
/// outside `[min, max]` rescales both components toward the nearer bound,
/// with the dominant component landing on the bound exactly.
pub open spec fn limit_comp(c: int, o: int, min: int, max: int) -> int {
    let cur = max_val(abs_val(c), abs_val(o));
    if cur == 0 {
        c
    } else if cur < min {
        scaled_mag(c, min, cur)
    } else if cur > max {
        scaled_mag(c, max, cur)
    } else {
        c
    }
}

/// The whole clamped velocity, component by component.
pub open spec fn limit_vec(v: Vec2, min: int, max: int) -> Vec2 {
    Vec2 {
        x: limit_comp(v.x as int, v.y as int, min, max) as i64,
        y: limit_comp(v.y as int, v.x as int, min, max) as i64,
    }
}

impl Ball {
    /// The configured quantities are positive and within the magnitude
    /// bound of the fixed-point arithmetic.
    pub open spec fn params_wf(self) -> bool {
        &&& 0 < self.radius <= COORD_LIMIT
        &&& 0 < self.min_speed <= self.max_speed <= COORD_LIMIT
    }

    /// The ball's speed sits inside its configured band.
    pub open spec fn speed_in_range(self) -> bool {
        self.min_speed <= self.velocity.0.speed() <= self.max_speed
    }

    pub open spec fn wf(self) -> bool {
        self.params_wf() && self.speed_in_range()
    }

    /// The ball's bounding box: a square of half extent `radius`.
    pub fn bounding_box(&self) -> (b: Aabb)
        ensures
            b == (Aabb {
                center: self.position.0,
                half: Vec2 { x: self.radius, y: self.radius },
            }),
    {
        Aabb { center: self.position.0, half: Vec2 { x: self.radius, y: self.radius } }
    }
}

/// Builds the ball at the arena center with its session-start velocity:
/// rightward at the minimum speed, drifting upward at half of it.
pub fn spawn_ball(radius: i64, min_speed: i64, max_speed: i64) -> (b: Ball)
    requires
        0 < radius <= COORD_LIMIT,
        0 < min_speed <= max_speed <= COORD_LIMIT,
    ensures
        b.position.0 == (Vec2 { x: 0i64, y: 0i64 }),
        b.velocity.0.x == min_speed,
        b.velocity.0.y as int == min_speed as int / 2,
        b.radius == radius,
        b.min_speed == min_speed,
        b.max_speed == max_speed,
        b.wf(),
{
    let half: i64 = ((min_speed as u64) / 2u64) as i64;
    Ball {
        position: PongPosition(Vec2 { x: 0, y: 0 }),
        velocity: PongVelocity(Vec2 { x: min_speed, y: half }),
        radius,
        min_speed,
        max_speed,
    }
}

/// Sends the ball back to the arena center with the launch velocity: the
/// minimum speed, straight toward the right side.
pub fn reset_ball(ball: &mut Ball)
    requires
        old(ball).params_wf(),
    ensures
        final(ball).position.0 == (Vec2 { x: 0i64, y: 0i64 }),
        final(ball).velocity.0 == (Vec2 { x: old(ball).min_speed, y: 0i64 }),
        final(ball).radius == old(ball).radius,
        final(ball).min_speed == old(ball).min_speed,
        final(ball).max_speed == old(ball).max_speed,
        final(ball).wf(),
{
    ball.position = PongPosition(Vec2 { x: 0, y: 0 });
    let launch: i64 = ball.min_speed;
    ball.velocity = PongVelocity(Vec2 { x: launch, y: 0 });
}

/// Advances the ball by one fixed tick: each position component moves by
/// the per-tick share of its velocity component, `velocity / hz` rounded
/// toward zero. The velocity is untouched.
pub fn move_ball(ball: &mut Ball, hz: i64)
    requires
        0 < hz <= COORD_LIMIT,
        old(ball).velocity.0.speed() <= COORD_LIMIT,
        abs_val(old(ball).position.0.x as int) <= 6 * COORD_LIMIT,
        abs_val(old(ball).position.0.y as int) <= 6 * COORD_LIMIT,
    ensures
        final(ball).position.0.x as int == old(ball).position.0.x as int + scaled_mag(
            old(ball).velocity.0.x as int,
            1,
            hz as int,
        ),
        final(ball).position.0.y as int == old(ball).position.0.y as int + scaled_mag(
            old(ball).velocity.0.y as int,
            1,
            hz as int,
        ),
        final(ball).velocity == old(ball).velocity,
        final(ball).radius == old(ball).radius,
        final(ball).min_speed == old(ball).min_speed,
        final(ball).max_speed == old(ball).max_speed,
{
    let dx: i64 = ratio_scale(ball.velocity.0.x, 1, hz);
    let dy: i64 = ratio_scale(ball.velocity.0.y, 1, hz);
    ball.position.0.x = ball.position.0.x + dx;
    ball.position.0.y = ball.position.0.y + dy;
}

/// Clamps a velocity into the speed band `[min_speed, max_speed]`.
///
/// The speed is the maximum norm. A zero velocity stays zero — there is no
/// direction to rescale along — and a speed inside the band is untouched.
/// A speed outside it rescales both components by `bound / speed` with
/// magnitudes rounded toward zero, so the dominant component lands on the
/// bound exactly and the clamped speed equals the bound.
pub fn limit_speed(velocity: &mut PongVelocity, min_speed: i64, max_speed: i64)
    requires
        0 < min_speed <= max_speed <= COORD_LIMIT,
        old(velocity).0.speed() <= 8 * COORD_LIMIT,
    ensures
        final(velocity).0 == limit_vec(old(velocity).0, min_speed as int, max_speed as int),
        old(velocity).0.speed() == 0 ==> final(velocity).0 == old(velocity).0,
        0 < old(velocity).0.speed() < min_speed ==> final(velocity).0.speed() == min_speed,
        min_speed <= old(velocity).0.speed() <= max_speed ==> final(velocity).0 == old(
            velocity,
        ).0,
        old(velocity).0.speed() > max_speed ==> final(velocity).0.speed() == max_speed,
        old(velocity).0.x >= 0 ==> final(velocity).0.x >= 0,
        old(velocity).0.x <= 0 ==> final(velocity).0.x <= 0,
        old(velocity).0.y >= 0 ==> final(velocity).0.y >= 0,
        old(velocity).0.y <= 0 ==> final(velocity).0.y <= 0,
{
    let vx: i64 = velocity.0.x;
    let vy: i64 = velocity.0.y;
    let ax: i64 = if vx < 0 { -vx } else { vx };
    let ay: i64 = if vy < 0 { -vy } else { vy };
    let cur: i64 = if ax >= ay { ax } else { ay };
    if cur == 0 {
        return ;
    }
    let target: i64 = if cur < min_speed {
        min_speed
    } else if cur > max_speed {
        max_speed
    } else {
        return ;
    };
    proof {
        assert(abs_val(vx as int) * target <= 0x7fff_ffff_ffff_ffff) by (nonlinear_arith)
            requires
                abs_val(vx as int) <= 8 * COORD_LIMIT && 0 < target <= COORD_LIMIT,
        ;
        assert(abs_val(vy as int) * target <= 0x7fff_ffff_ffff_ffff) by (nonlinear_arith)
            requires
                abs_val(vy as int) <= 8 * COORD_LIMIT && 0 < target <= COORD_LIMIT,
        ;
    }
    let rx: i64 = ratio_scale(vx, target, cur);
    let ry: i64 = ratio_scale(vy, target, cur);
    velocity.0.x = rx;
    velocity.0.y = ry;
}

} // verus!
