//! Collision handling: box overlap with penetration-side classification,
//! the reflective bounce with restitution and speed clamping, and the swept
//! wall stop that keeps fast kinematic bodies from tunneling through walls.

use vstd::prelude::*;
use crate::components::{
    abs_val, max_val, clamp_val, scaled_mag, Aabb, PongCollider, PongCollision, PongPosition,
    PongVelocity, Vec2, ratio_scale, lemma_scaled_mag_props, COORD_LIMIT,
};
use crate::ball::{limit_vec, limit_speed};

verus! {

/// Two boxes overlap when they interpenetrate on both axes; touching
/// edges do not count.
pub open spec fn boxes_overlap(a: Aabb, b: Aabb) -> bool {
    &&& abs_val(a.center.x - b.center.x) < a.half.x + b.half.x
    &&& abs_val(a.center.y - b.center.y) < a.half.y + b.half.y
}

/// The point of `b` closest to the center of `a`, one axis at a time.
pub open spec fn closest_x(a: Aabb, b: Aabb) -> int {
    clamp_val(a.center.x as int, b.left(), b.right())
}

pub open spec fn closest_y(a: Aabb, b: Aabb) -> int {
    clamp_val(a.center.y as int, b.bottom(), b.top())
}

/// The offset from the closest point of `b` back to the center of `a`.
pub open spec fn offset_x(a: Aabb, b: Aabb) -> int {
    a.center.x - closest_x(a, b)
}

pub open spec fn offset_y(a: Aabb, b: Aabb) -> int {
    a.center.y - closest_y(a, b)
}

/// The penetration-side rule: the axis with the larger offset magnitude
/// names the side of `b` on which the center of `a` sits. A tie falls to
/// the vertical branch, and a zero offset (coinciding centers) falls
/// through it to `Bottom`.
pub open spec fn classify(a: Aabb, b: Aabb) -> PongCollision {
    let ox = offset_x(a, b);
    let oy = offset_y(a, b);
    if abs_val(ox) > abs_val(oy) {
        if ox < 0 {
            PongCollision::Left
        } else {
            PongCollision::Right
        }
    } else {
        if oy > 0 {
            PongCollision::Top
        } else {
            PongCollision::Bottom
        }
    }
}

/// Tests two boxes and classifies the penetration side.
///
/// Returns `None` exactly for disjoint boxes, and for overlapping boxes
/// exactly the side that the penetration-axis rule picks.
pub fn collide_with_side(a: &Aabb, b: &Aabb) -> (r: Option<PongCollision>)
    requires
        a.wf(),
        b.wf(),
    ensures
        r is Some <==> boxes_overlap(*a, *b),
        boxes_overlap(*a, *b) ==> r == Some(classify(*a, *b)),
{
    let dx: i64 = a.center.x - b.center.x;
    let adx: i64 = if dx < 0 { -dx } else { dx };
    let dy: i64 = a.center.y - b.center.y;
    let ady: i64 = if dy < 0 { -dy } else { dy };
    if adx >= a.half.x + b.half.x || ady >= a.half.y + b.half.y {
        return None;
    }
    let bl: i64 = b.center.x - b.half.x;
    let br: i64 = b.center.x + b.half.x;
    let cx: i64 = if a.center.x < bl {
        bl
    } else if a.center.x > br {
        br
    } else {
        a.center.x
    };
    let bb: i64 = b.center.y - b.half.y;
    let bt: i64 = b.center.y + b.half.y;
    let cy: i64 = if a.center.y < bb {
        bb
    } else if a.center.y > bt {
        bt
    } else {
        a.center.y
    };
    let ox: i64 = a.center.x - cx;
    let oy: i64 = a.center.y - cy;
    let aox: i64 = if ox < 0 { -ox } else { ox };
    let aoy: i64 = if oy < 0 { -oy } else { oy };
    if aox > aoy {
        if ox < 0 {
            Some(PongCollision::Left)
        } else {
            Some(PongCollision::Right)
        }
    } else {
        if oy > 0 {
            Some(PongCollision::Top)
        } else {
            Some(PongCollision::Bottom)
        }
    }
}

/// The restitution of a bouncing surface, as the exact ratio `num / den`
/// by which a reflected velocity is scaled.
#[derive(Clone, Copy, PartialEq, Eq, Structural, Debug)]
pub struct BounceCollider {
    pub num: i64,
    pub den: i64,
}

impl BounceCollider {
    /// The ratio is at least one — a bounce never robs the ball of its
    /// whole speed band — and at most four, which keeps the scaled
    /// velocity inside the range the clamp accepts.
    pub open spec fn wf(self) -> bool {
        &&& 0 < self.den <= self.num <= 4 * self.den
        &&& self.num <= 1_000_000
    }
}

/// Whether a velocity moves toward the surface a side classification
/// names: the dot product with that side's outward normal is negative.
pub open spec fn approaching(v: Vec2, side: PongCollision) -> bool {
    match side {
        PongCollision::Left => v.x > 0,
        PongCollision::Right => v.x < 0,
        PongCollision::Top => v.y < 0,
        PongCollision::Bottom => v.y > 0,
    }
}

/// A velocity reflected off the axis-aligned normal of a side: the
/// component along that axis flips, the other is kept.
pub open spec fn reflect_x(v: Vec2, side: PongCollision) -> int {
    match side {
        PongCollision::Left => -(v.x as int),
        PongCollision::Right => -(v.x as int),
        PongCollision::Top => v.x as int,
        PongCollision::Bottom => v.x as int,
    }
}

pub open spec fn reflect_y(v: Vec2, side: PongCollision) -> int {
    match side {
        PongCollision::Left => v.y as int,
        PongCollision::Right => v.y as int,
        PongCollision::Top => -(v.y as int),
        PongCollision::Bottom => -(v.y as int),
    }
}

/// The whole bounce of a velocity on a contact side: nothing on a
/// separating contact; on an approaching one, reflection, restitution
/// scaling, and the speed clamp.
pub open spec fn bounce_vec(v: Vec2, side: PongCollision, num: int, den: int, min: int, max: int) -> Vec2 {
    if approaching(v, side) {
        let sx = scaled_mag(reflect_x(v, side), num, den);
        let sy = scaled_mag(reflect_y(v, side), num, den);
        limit_vec(Vec2 { x: sx as i64, y: sy as i64 }, min, max)
    } else {
        v
    }
}

/// Reflects a velocity off the contact side, edge-triggered on approach.
///
/// Invoked only while the contact forms: a separating or grazing contact
/// (the dot product with the contact normal is at least zero) leaves the
/// velocity unchanged, which keeps a resting contact from being reflected
/// over and over. On approach the component along the contact normal flips,
/// both components scale by the restitution ratio, and the global speed
/// clamp is re-applied.
pub fn bounce_objects(
    velocity: &mut PongVelocity,
    side: PongCollision,
    bounce: &BounceCollider,
    min_speed: i64,
    max_speed: i64,
) -> (fired: bool)
    requires
        bounce.wf(),
        0 < min_speed <= max_speed <= COORD_LIMIT,
        old(velocity).0.speed() <= COORD_LIMIT,
    ensures
        final(velocity).0 == bounce_vec(
            old(velocity).0,
            side,
            bounce.num as int,
            bounce.den as int,
            min_speed as int,
            max_speed as int,
        ),
        fired == approaching(old(velocity).0, side),
        !approaching(old(velocity).0, side) ==> final(velocity).0 == old(velocity).0,
        approaching(old(velocity).0, side) && min_speed <= old(velocity).0.speed()
            <= max_speed ==> min_speed <= final(velocity).0.speed() <= max_speed,
        side is Left ==> final(velocity).0.x <= 0,
        side is Right ==> final(velocity).0.x >= 0,
        side is Top ==> final(velocity).0.y >= 0,
        side is Bottom ==> final(velocity).0.y <= 0,
{
    let vx: i64 = velocity.0.x;
    let vy: i64 = velocity.0.y;
    let appr: bool = match side {
        PongCollision::Left => vx > 0,
        PongCollision::Right => vx < 0,
        PongCollision::Top => vy < 0,
        PongCollision::Bottom => vy > 0,
    };
    if !appr {
        return false;
    }
    let rx: i64 = match side {
        PongCollision::Left => -vx,
        PongCollision::Right => -vx,
        PongCollision::Top => vx,
        PongCollision::Bottom => vx,
    };
    let ry: i64 = match side {
        PongCollision::Left => vy,
        PongCollision::Right => vy,
        PongCollision::Top => -vy,
        PongCollision::Bottom => -vy,
    };
    proof {
        assert(abs_val(rx as int) * bounce.num <= 0x7fff_ffff_ffff_ffff) by (nonlinear_arith)
            requires
                abs_val(rx as int) <= COORD_LIMIT && 0 < bounce.num <= 1_000_000,
        ;
        assert(abs_val(ry as int) * bounce.num <= 0x7fff_ffff_ffff_ffff) by (nonlinear_arith)
            requires
                abs_val(ry as int) <= COORD_LIMIT && 0 < bounce.num <= 1_000_000,
        ;
    }
    let sx: i64 = ratio_scale(rx, bounce.num, bounce.den);
    let sy: i64 = ratio_scale(ry, bounce.num, bounce.den);
    velocity.0.x = sx;
    velocity.0.y = sy;
    limit_speed(velocity, min_speed, max_speed);
    true
}

/// One detection-and-response step of the bounce system: what a velocity
/// becomes when a body box meets another box — nothing for disjoint
/// boxes, otherwise the bounce keyed by the classified side.
pub open spec fn collide_bounce_spec(
    bbox: Aabb,
    v: Vec2,
    other: Aabb,
    b: BounceCollider,
    min: int,
    max: int,
) -> Vec2 {
    if boxes_overlap(bbox, other) {
        bounce_vec(v, classify(bbox, other), b.num as int, b.den as int, min, max)
    } else {
        v
    }
}

/// Detects a collision between a body box and another box and, if the
/// boxes meet, bounces the body's velocity off the classified side.
pub fn resolve_bounce(
    velocity: &mut PongVelocity,
    bbox: &Aabb,
    other: &Aabb,
    bounce: &BounceCollider,
    min_speed: i64,
    max_speed: i64,
) -> (hit: bool)
    requires
        bbox.wf(),
        other.wf(),
        bounce.wf(),
        0 < min_speed <= max_speed <= COORD_LIMIT,
        min_speed <= old(velocity).0.speed() <= max_speed,
    ensures
        final(velocity).0 == collide_bounce_spec(
            *bbox,
            old(velocity).0,
            *other,
            *bounce,
            min_speed as int,
            max_speed as int,
        ),
        min_speed <= final(velocity).0.speed() <= max_speed,
        hit == boxes_overlap(*bbox, *other),
        !boxes_overlap(*bbox, *other) ==> final(velocity).0 == old(velocity).0,
        boxes_overlap(*bbox, *other) && classify(*bbox, *other) is Bottom
            ==> final(velocity).0.y <= 0,
        boxes_overlap(*bbox, *other) && classify(*bbox, *other) is Top
            ==> final(velocity).0.y >= 0,
        boxes_overlap(*bbox, *other) && classify(*bbox, *other) is Left
            ==> final(velocity).0.x <= 0,
        boxes_overlap(*bbox, *other) && classify(*bbox, *other) is Right
            ==> final(velocity).0.x >= 0,
{
    let hit = collide_with_side(bbox, other);
    match hit {
        Option::Some(side) => {
            bounce_objects(velocity, side, bounce, min_speed, max_speed);
            true
        },
        Option::None => false,
    }
}

/// The bounce is edge-triggered: one reflection per newly formed contact.
/// After a bounce the velocity no longer approaches the same side, so
/// re-invoking the bounce on that contact changes nothing.
pub proof fn lemma_bounce_fires_once_per_approach(
    v: Vec2,
    side: PongCollision,
    num: int,
    den: int,
    min: int,
    max: int,
)
    requires
        0 < den <= num <= 4 * den,
        num <= 1_000_000,
        0 < min <= max <= COORD_LIMIT,
        v.speed() <= COORD_LIMIT,
    ensures
        !approaching(bounce_vec(v, side, num, den, min, max), side),
        bounce_vec(bounce_vec(v, side, num, den, min, max), side, num, den, min, max)
            == bounce_vec(v, side, num, den, min, max),
{
    if approaching(v, side) {
        let rx = reflect_x(v, side);
        let ry = reflect_y(v, side);
        lemma_scaled_mag_props(rx, num, den);
        lemma_scaled_mag_props(ry, num, den);
        let sx = scaled_mag(rx, num, den);
        let sy = scaled_mag(ry, num, den);
        let s = Vec2 { x: sx as i64, y: sy as i64 };
        lemma_limit_vec_signs(s, min, max);
    }
}

/// Keeps a fast kinematic body from tunneling through a wall: the body's
/// planned translation is swept ahead of it, and a hit closer than the
/// planned distance stops the body a skin width short of the wall.
#[derive(Clone, Copy, PartialEq, Eq, Structural, Debug)]
pub struct KinematicWallStop {
    /// The small buffer distance kept from the wall so the body never
    /// comes to rest embedded in it.
    pub skin_width: i64,
}

impl KinematicWallStop {
    pub open spec fn wf(self) -> bool {
        0 <= self.skin_width <= COORD_LIMIT
    }

    pub fn new(skin_width: i64) -> (s: Self)
        ensures
            s.skin_width == skin_width,
    {
        Self { skin_width }
    }
}

/// What one swept tick did with a body: it stood still, ran its planned
/// translation clear of the wall, or hit and was stopped at the wall.
#[derive(Clone, Copy, PartialEq, Eq, Structural, Debug)]
pub enum SweepState {
    Idle,
    Clear,
    Impact,
}

/// The distance ahead of the moving edge of a body (interval `[pos - h,
/// pos + h]`, signed speed `v`) to the near edge of a wall interval
/// `[lo, hi]` on the same axis. Negative when the intervals already
/// interpenetrate.
pub open spec fn axis_gap(pos: int, h: int, v: int, lo: int, hi: int) -> int {
    if v > 0 {
        lo - (pos + h)
    } else {
        (pos - h) - hi
    }
}

/// Whether the body has not yet passed entirely beyond the wall in its
/// direction of travel; a wall left behind is never hit again.
pub open spec fn axis_not_past(pos: int, h: int, v: int, lo: int, hi: int) -> bool {
    if v > 0 {
        pos - h < hi
    } else {
        pos + h > lo
    }
}

/// One axis of the swept translation: where the body ends up and whether
/// it was stopped. A hit nearer than the planned distance stops the body
/// `skin` short of the wall (never pushed backward); otherwise the full
/// planned distance is travelled.
pub open spec fn axis_outcome(
    pos: int,
    h: int,
    v: int,
    lo: int,
    hi: int,
    perp: bool,
    planned: int,
    skin: int,
) -> (int, bool) {
    if v == 0 {
        (pos, false)
    } else {
        let relevant = perp && axis_not_past(pos, h, v, lo, hi);
        let gap = max_val(axis_gap(pos, h, v, lo, hi), 0);
        if relevant && gap < planned {
            let travel = max_val(gap - skin, 0);
            (if v > 0 {
                pos + travel
            } else {
                pos - travel
            }, true)
        } else {
            (if v > 0 {
                pos + planned
            } else {
                pos - planned
            }, false)
        }
    }
}

/// The whole swept tick of one body against one wall: the x share of the
/// planned translation is resolved first, then the y share from the new x
/// position; an impact stops the body dead, zeroing its whole velocity.
pub open spec fn wall_stop_spec(
    pos: Vec2,
    vel: Vec2,
    half: Vec2,
    wall: Aabb,
    skin: int,
    hz: int,
) -> (Vec2, Vec2, SweepState) {
    if vel.x == 0 && vel.y == 0 {
        (pos, vel, SweepState::Idle)
    } else {
        let planned_x = abs_val(vel.x as int) / hz;
        let perp_x = abs_val(pos.y - wall.center.y) < half.y + wall.half.y;
        let ox = axis_outcome(
            pos.x as int,
            half.x as int,
            vel.x as int,
            wall.left(),
            wall.right(),
            perp_x,
            planned_x,
            skin,
        );
        if ox.1 {
            (Vec2 { x: ox.0 as i64, y: pos.y }, Vec2 { x: 0i64, y: 0i64 }, SweepState::Impact)
        } else {
            let planned_y = abs_val(vel.y as int) / hz;
            let perp_y = abs_val(ox.0 - wall.center.x) < half.x + wall.half.x;
            let oy = axis_outcome(
                pos.y as int,
                half.y as int,
                vel.y as int,
                wall.bottom(),
                wall.top(),
                perp_y,
                planned_y,
                skin,
            );
            if oy.1 {
                (
                    Vec2 { x: ox.0 as i64, y: oy.0 as i64 },
                    Vec2 { x: 0i64, y: 0i64 },
                    SweepState::Impact,
                )
            } else {
                (Vec2 { x: ox.0 as i64, y: oy.0 as i64 }, vel, SweepState::Clear)
            }
        }
    }
}

/// One axis of the swept translation, executably.
fn axis_sweep(pos: i64, h: i64, v: i64, lo: i64, hi: i64, perp: bool, planned: i64, skin: i64) -> (r: (
    i64,
    bool,
))
    requires
        abs_val(pos as int) <= 7 * COORD_LIMIT,
        0 < h <= 2 * COORD_LIMIT,
        abs_val(v as int) <= COORD_LIMIT,
        abs_val(lo as int) <= 10 * COORD_LIMIT,
        abs_val(hi as int) <= 10 * COORD_LIMIT,
        0 <= planned <= COORD_LIMIT,
        0 <= skin <= COORD_LIMIT,
    ensures
        r.0 as int == axis_outcome(
            pos as int,
            h as int,
            v as int,
            lo as int,
            hi as int,
            perp,
            planned as int,
            skin as int,
        ).0,
        r.1 == axis_outcome(
            pos as int,
            h as int,
            v as int,
            lo as int,
            hi as int,
            perp,
            planned as int,
            skin as int,
        ).1,
{
    if v == 0 {
        return (pos, false);
    }
    let not_past: bool = if v > 0 {
        pos - h < hi
    } else {
        pos + h > lo
    };
    let raw_gap: i64 = if v > 0 {
        lo - (pos + h)
    } else {
        (pos - h) - hi
    };
    let gap: i64 = if raw_gap < 0 {
        0
    } else {
        raw_gap
    };
    if perp && not_past && gap < planned {
        let travel: i64 = if gap > skin {
            gap - skin
        } else {
            0
        };
        if v > 0 {
            (pos + travel, true)
        } else {
            (pos - travel, true)
        }
    } else {
        if v > 0 {
            (pos + planned, false)
        } else {
            (pos - planned, false)
        }
    }
}

/// Sweeps one kinematic body against one wall for one fixed tick and
/// applies the resulting translation.
///
/// A body at rest is skipped. Otherwise each axis share of the planned
/// translation (`velocity / hz`, magnitudes rounded toward zero) is swept
/// against the wall; a hit nearer than the planned share stops the body a
/// skin width short of the wall and zeroes the whole velocity.
pub fn kinematic_wall_stop(
    position: &mut PongPosition,
    velocity: &mut PongVelocity,
    collider: &PongCollider,
    wall: &Aabb,
    settings: &KinematicWallStop,
    hz: i64,
) -> (s: SweepState)
    requires
        collider.wf(),
        wall.wf(),
        settings.wf(),
        0 < hz <= COORD_LIMIT,
        old(velocity).0.speed() <= COORD_LIMIT,
        abs_val(old(position).0.x as int) <= 6 * COORD_LIMIT,
        abs_val(old(position).0.y as int) <= 6 * COORD_LIMIT,
    ensures
        final(position).0 == wall_stop_spec(
            old(position).0,
            old(velocity).0,
            collider.half,
            *wall,
            settings.skin_width as int,
            hz as int,
        ).0,
        final(velocity).0 == wall_stop_spec(
            old(position).0,
            old(velocity).0,
            collider.half,
            *wall,
            settings.skin_width as int,
            hz as int,
        ).1,
        s == wall_stop_spec(
            old(position).0,
            old(velocity).0,
            collider.half,
            *wall,
            settings.skin_width as int,
            hz as int,
        ).2,
        s is Idle ==> final(position).0 == old(position).0 && final(velocity).0 == old(
            velocity,
        ).0,
        s is Impact ==> final(velocity).0 == (Vec2 { x: 0i64, y: 0i64 }),
        s is Clear ==> final(velocity).0 == old(velocity).0,
{
    let vx: i64 = velocity.0.x;
    let vy: i64 = velocity.0.y;
    if vx == 0 && vy == 0 {
        return SweepState::Idle;
    }
    let ax: i64 = if vx < 0 { -vx } else { vx };
    let planned_x: i64 = ratio_scale(ax, 1, hz);
    let dy_wall: i64 = position.0.y - wall.center.y;
    let ady_wall: i64 = if dy_wall < 0 { -dy_wall } else { dy_wall };
    let perp_x: bool = ady_wall < collider.half.y + wall.half.y;
    let ox = axis_sweep(
        position.0.x,
        collider.half.x,
        vx,
        wall.center.x - wall.half.x,
        wall.center.x + wall.half.x,
        perp_x,
        planned_x,
        settings.skin_width,
    );
    position.0.x = ox.0;
    if ox.1 {
        velocity.0.x = 0;
        velocity.0.y = 0;
        return SweepState::Impact;
    }
    let ay: i64 = if vy < 0 { -vy } else { vy };
    let planned_y: i64 = ratio_scale(ay, 1, hz);
    let dx_wall: i64 = position.0.x - wall.center.x;
    let adx_wall: i64 = if dx_wall < 0 { -dx_wall } else { dx_wall };
    let perp_y: bool = adx_wall < collider.half.x + wall.half.x;
    let oy = axis_sweep(
        position.0.y,
        collider.half.y,
        vy,
        wall.center.y - wall.half.y,
        wall.center.y + wall.half.y,
        perp_y,
        planned_y,
        settings.skin_width,
    );
    position.0.y = oy.0;
    if oy.1 {
        velocity.0.x = 0;
        velocity.0.y = 0;
        return SweepState::Impact;
    }
    SweepState::Clear
}

/// The per-tick swept stop of one kinematic body held between the two
/// arena walls: the body is swept against the wall that lies in its
/// direction of vertical travel.
pub fn kinematic_wall_stop_system(
    position: &mut PongPosition,
    velocity: &mut PongVelocity,
    collider: &PongCollider,
    wall_top: &Aabb,
    wall_bottom: &Aabb,
    settings: &KinematicWallStop,
    hz: i64,
) -> (s: SweepState)
    requires
        collider.wf(),
        wall_top.wf(),
        wall_bottom.wf(),
        settings.wf(),
        0 < hz <= COORD_LIMIT,
        old(velocity).0.speed() <= COORD_LIMIT,
        abs_val(old(position).0.x as int) <= 6 * COORD_LIMIT,
        abs_val(old(position).0.y as int) <= 6 * COORD_LIMIT,
    ensures
        old(velocity).0.y >= 0 ==> (final(position).0, final(velocity).0, s) == wall_stop_spec(
            old(position).0,
            old(velocity).0,
            collider.half,
            *wall_top,
            settings.skin_width as int,
            hz as int,
        ),
        old(velocity).0.y < 0 ==> (final(position).0, final(velocity).0, s) == wall_stop_spec(
            old(position).0,
            old(velocity).0,
            collider.half,
            *wall_bottom,
            settings.skin_width as int,
            hz as int,
        ),
{
    if velocity.0.y >= 0 {
        kinematic_wall_stop(position, velocity, collider, wall_top, settings, hz)
    } else {
        kinematic_wall_stop(position, velocity, collider, wall_bottom, settings, hz)
    }
}

/// The tunneling-safety law of one swept axis: a body that starts outside
/// the wall never ends up inside it, and whenever the wall lies within
/// reach of this tick's travel — nearer than the planned distance plus the
/// skin width — the body ends the tick with a gap of at most the skin
/// width, and is stopped exactly when the wall is nearer than the planned
/// distance.
pub proof fn lemma_axis_sweep_gap(
    pos: int,
    h: int,
    v: int,
    lo: int,
    hi: int,
    planned: int,
    skin: int,
)
    requires
        v != 0,
        0 <= skin,
        0 <= planned,
        axis_not_past(pos, h, v, lo, hi),
        axis_gap(pos, h, v, lo, hi) >= 0,
    ensures
        axis_gap(axis_outcome(pos, h, v, lo, hi, true, planned, skin).0, h, v, lo, hi) >= 0,
        axis_gap(pos, h, v, lo, hi) <= planned + skin ==> axis_gap(
            axis_outcome(pos, h, v, lo, hi, true, planned, skin).0,
            h,
            v,
            lo,
            hi,
        ) <= skin,
        axis_outcome(pos, h, v, lo, hi, true, planned, skin).1 <==> axis_gap(pos, h, v, lo, hi)
            < planned,
{
}

/// The tunneling-safety law of a whole swept tick, for a body moving
/// vertically against the one wall that lies in its path: if the wall
/// stands within reach of this tick's travel plus the skin width, the
/// body ends the tick with a gap to the wall between zero and the skin
/// width — never inside the wall, never further than the skin width when
/// an impact was due.
pub proof fn lemma_swept_stop_gap(
    pos: Vec2,
    vel: Vec2,
    half: Vec2,
    wall: Aabb,
    skin: int,
    hz: int,
)
    requires
        vel.x == 0,
        vel.y != 0,
        0 < hz,
        0 <= skin,
        abs_val(pos.y as int) <= 7 * COORD_LIMIT,
        0 < half.y <= 2 * COORD_LIMIT,
        wall.wf(),
        abs_val(pos.x - wall.center.x) < half.x + wall.half.x,
        vel.y > 0 ==> 0 <= wall.bottom() - (pos.y + half.y)
            <= abs_val(vel.y as int) / hz + skin,
        vel.y < 0 ==> 0 <= (pos.y - half.y) - wall.top()
            <= abs_val(vel.y as int) / hz + skin,
    ensures
        vel.y > 0 ==> 0 <= wall.bottom() - (wall_stop_spec(pos, vel, half, wall, skin, hz).0.y
            + half.y) <= skin,
        vel.y < 0 ==> 0 <= (wall_stop_spec(pos, vel, half, wall, skin, hz).0.y - half.y)
            - wall.top() <= skin,
        wall_stop_spec(pos, vel, half, wall, skin, hz).2 is Impact <==> (if vel.y > 0 {
            wall.bottom() - (pos.y + half.y)
        } else {
            (pos.y - half.y) - wall.top()
        }) < abs_val(vel.y as int) / hz,
{
    let planned = abs_val(vel.y as int) / hz;
    vstd::arithmetic::div_mod::lemma_div_pos_is_pos(abs_val(vel.y as int), hz);
    lemma_axis_sweep_gap(
        pos.y as int,
        half.y as int,
        vel.y as int,
        wall.bottom(),
        wall.top(),
        planned,
        skin,
    );
}

/// Sign preservation of the speed clamp, stated over the clamp's spec
/// function: no component changes sign when a velocity is rescaled into
/// the speed band.
pub proof fn lemma_limit_vec_signs(v: Vec2, min: int, max: int)
    requires
        0 < min <= max <= COORD_LIMIT,
        v.speed() <= 8 * COORD_LIMIT,
    ensures
        v.x >= 0 ==> limit_vec(v, min, max).x >= 0,
        v.x <= 0 ==> limit_vec(v, min, max).x <= 0,
        v.y >= 0 ==> limit_vec(v, min, max).y >= 0,
        v.y <= 0 ==> limit_vec(v, min, max).y <= 0,
{
    let cur = v.speed();
    if cur != 0 {
        let target: int = if cur < min {
            min
        } else if cur > max {
            max
        } else {
            cur
        };
        lemma_scaled_mag_props(v.x as int, target, cur);
        lemma_scaled_mag_props(v.y as int, target, cur);
    }
}

} // verus!
