//! The shared geometric vocabulary of the arena: vectors, positions,
//! velocities, rectangular colliders, axis-aligned boxes, and the exact
//! integer scaling primitive the rest of the core is built on.

use vstd::prelude::*;
use vstd::arithmetic::div_mod::{lemma_div_pos_is_pos, lemma_div_is_ordered, lemma_div_multiples_vanish, lemma_div_of0, lemma_div_nonincreasing};
use vstd::arithmetic::mul::lemma_mul_inequality;

verus! {

/// Magnitude bound for configured lengths and speeds. Every configured
/// quantity of the simulation stays within this many fixed-point world
/// units, which keeps all intermediate arithmetic far inside `i64` range.
pub const COORD_LIMIT: i64 = 1_000_000_000;

pub open spec fn abs_val(a: int) -> int {
    if a < 0 { -a } else { a }
}

pub open spec fn max_val(a: int, b: int) -> int {
    if a >= b { a } else { b }
}

pub open spec fn min_val(a: int, b: int) -> int {
    if a <= b { a } else { b }
}

pub open spec fn clamp_val(a: int, lo: int, hi: int) -> int {
    if a < lo { lo } else if a > hi { hi } else { a }
}

/// -1, 0 or 1 according to the sign of `a`.
pub open spec fn sign_of(a: int) -> int {
    if a < 0 { -1 } else if a == 0 { 0 } else { 1 }
}

/// `c` rescaled by the ratio `num / den`, magnitude rounded toward zero:
/// the sign of `c` times `|c| * num / den`.
pub open spec fn scaled_mag(c: int, num: int, den: int) -> int {
    sign_of(c) * (abs_val(c) * num / den)
}

/// A two-dimensional vector in fixed-point world units.
#[derive(Clone, Copy, PartialEq, Eq, Structural, Debug)]
pub struct Vec2 {
    pub x: i64,
    pub y: i64,
}

impl Vec2 {
    /// The speed a velocity vector stands for: the larger of the two
    /// component magnitudes (the maximum norm), which integer rescaling
    /// clamps exactly.
    pub open spec fn speed(self) -> int {
        max_val(abs_val(self.x as int), abs_val(self.y as int))
    }
}

/// Where an entity stands in the arena.
#[derive(Clone, Copy, PartialEq, Eq, Structural, Debug)]
pub struct PongPosition(pub Vec2);

/// How fast an entity moves, in world units per second.
#[derive(Clone, Copy, PartialEq, Eq, Structural, Debug)]
pub struct PongVelocity(pub Vec2);

/// A rectangular collision extent, stored as half sizes.
#[derive(Clone, Copy, PartialEq, Eq, Structural, Debug)]
pub struct PongCollider {
    pub half: Vec2,
}

impl PongCollider {
    /// Extents are positive and within the magnitude bounds of the
    /// fixed-point arithmetic.
    pub open spec fn wf(self) -> bool {
        &&& 0 < self.half.x <= 2 * COORD_LIMIT
        &&& 0 < self.half.y <= 2 * COORD_LIMIT
    }

    pub fn half_size(&self) -> (r: Vec2)
        ensures
            r == self.half,
    {
        self.half
    }

    /// The box this collider spans around the given position.
    pub fn aabb_at(&self, pos: &PongPosition) -> (b: Aabb)
        ensures
            b == (Aabb { center: pos.0, half: self.half }),
    {
        Aabb { center: pos.0, half: self.half }
    }
}

/// The side of the second box on which a collision is classified.
#[derive(Clone, Copy, PartialEq, Eq, Structural, Debug)]
pub enum PongCollision {
    Left,
    Right,
    Top,
    Bottom,
}

/// An axis-aligned box: a center and half extents.
#[derive(Clone, Copy, PartialEq, Eq, Structural, Debug)]
pub struct Aabb {
    pub center: Vec2,
    pub half: Vec2,
}

impl Aabb {
    pub open spec fn left(self) -> int {
        self.center.x - self.half.x
    }

    pub open spec fn right(self) -> int {
        self.center.x + self.half.x
    }

    pub open spec fn bottom(self) -> int {
        self.center.y - self.half.y
    }

    pub open spec fn top(self) -> int {
        self.center.y + self.half.y
    }

    /// Extents are positive and the box sits far inside `i64` range.
    pub open spec fn wf(self) -> bool {
        &&& 0 < self.half.x <= 2 * COORD_LIMIT
        &&& 0 < self.half.y <= 2 * COORD_LIMIT
        &&& abs_val(self.center.x as int) <= 8 * COORD_LIMIT
        &&& abs_val(self.center.y as int) <= 8 * COORD_LIMIT
    }
}

/// The exact proportions of integer rescaling: magnitude, sign, and the
/// bounds that follow from how `num` compares with `den`. In particular the
/// dominant case — a magnitude equal to `den` — lands exactly on `num`,
/// which is what makes maximum-norm speed clamping exact.
pub proof fn lemma_scaled_mag_props(c: int, num: int, den: int)
    requires
        0 < num,
        0 < den,
    ensures
        abs_val(scaled_mag(c, num, den)) == abs_val(c) * num / den,
        c >= 0 ==> scaled_mag(c, num, den) >= 0,
        c <= 0 ==> scaled_mag(c, num, den) <= 0,
        abs_val(c) <= den ==> abs_val(scaled_mag(c, num, den)) <= num,
        abs_val(c) == den ==> abs_val(scaled_mag(c, num, den)) == num,
        num <= den ==> abs_val(scaled_mag(c, num, den)) <= abs_val(c),
        den <= num ==> abs_val(scaled_mag(c, num, den)) >= abs_val(c),
        num <= 4 * den ==> abs_val(scaled_mag(c, num, den)) <= 4 * abs_val(c),
        abs_val(scaled_mag(c, num, den)) <= abs_val(c) * num,
{
    let mi = abs_val(c);
    let ni = num;
    let di = den;
    assert(mi * ni >= 0) by (nonlinear_arith)
        requires
            0 <= mi && 0 < ni,
    ;
    lemma_div_pos_is_pos(mi * ni, di);
    lemma_div_nonincreasing(mi * ni, di);
    lemma_div_of0(di);
    if c == 0 {
        assert(mi == 0);
        assert(mi * ni == 0) by (nonlinear_arith)
            requires
                mi == 0,
        ;
    }
    // m <= den gives a quotient of at most num; equality is exact.
    lemma_div_multiples_vanish(ni, di);
    assert(di * ni == ni * di) by (nonlinear_arith);
    if mi <= di {
        lemma_mul_inequality(mi, di, ni);
        lemma_div_is_ordered(mi * ni, di * ni, di);
    }
    // num <= den gives a quotient of at most m, and at least m when
    // den <= num.
    lemma_div_multiples_vanish(mi, di);
    assert(di * mi == mi * di) by (nonlinear_arith);
    if ni <= di {
        lemma_mul_inequality(ni, di, mi);
        assert(ni * mi == mi * ni) by (nonlinear_arith);
        lemma_div_is_ordered(mi * ni, di * mi, di);
    }
    if di <= ni {
        lemma_mul_inequality(di, ni, mi);
        assert(di * mi == mi * di && ni * mi == mi * ni) by (nonlinear_arith);
        lemma_div_is_ordered(di * mi, mi * ni, di);
    }
    // num <= 4 * den bounds the quotient by 4 * m.
    if ni <= 4 * di {
        lemma_div_multiples_vanish(4 * mi, di);
        assert(mi * ni <= di * (4 * mi)) by (nonlinear_arith)
            requires
                0 <= mi && 0 < di && 0 < ni && ni <= 4 * di,
        ;
        lemma_div_is_ordered(mi * ni, di * (4 * mi), di);
    }
}

/// Rescales `c` by the ratio `num / den`, magnitude rounded toward zero.
///
/// This one primitive carries all the exact proportions of the core:
/// velocity-per-tick displacement (`num = 1`, `den` the tick rate),
/// restitution scaling, and speed clamping (where `den` is the current
/// speed, so the dominant component lands exactly on the target).
pub fn ratio_scale(c: i64, num: i64, den: i64) -> (r: i64)
    requires
        0 < num <= COORD_LIMIT,
        0 < den <= 9 * COORD_LIMIT,
        abs_val(c as int) <= 8 * COORD_LIMIT,
        abs_val(c as int) * num <= 0x7fff_ffff_ffff_ffff,
    ensures
        r as int == scaled_mag(c as int, num as int, den as int),
        c >= 0 ==> r >= 0,
        c <= 0 ==> r <= 0,
        abs_val(r as int) == abs_val(c as int) * (num as int) / (den as int),
        abs_val(c as int) <= den ==> abs_val(r as int) <= num,
        abs_val(c as int) == den ==> abs_val(r as int) == num,
        num <= den ==> abs_val(r as int) <= abs_val(c as int),
        den <= num ==> abs_val(r as int) >= abs_val(c as int),
        num <= 4 * den ==> abs_val(r as int) <= 4 * abs_val(c as int),
        abs_val(r as int) <= abs_val(c as int) * num,
    {
    proof {
        lemma_scaled_mag_props(c as int, num as int, den as int);
    }
    let m: i64 = if c < 0 { -c } else { c };
    let p: i64 = m * num;
    let q: i64 = ((p as u64) / (den as u64)) as i64;
    if c < 0 {
        -q
    } else {
        q
    }
}

} // verus!
