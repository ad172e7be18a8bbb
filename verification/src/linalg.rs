//! Fixed-point three-component vectors and rotation quaternions.
//!
//! Components are micro-units (`FX_ONE` stands for `1.0`). A rotation
//! quaternion keeps its components near the unit sphere; vectors carry
//! positions, velocities, forces and torques.

use vstd::prelude::*;

use crate::fx::FX_ONE;
use crate::fx::FX_PI;
use crate::fx::FX_TAU;
use crate::fx::fx_abs;
use crate::fx::lemma_mul_zero;
use crate::fx::fx_mul;
use crate::fx::fx_mul_spec;
use crate::fx::fx_muldiv;
use crate::fx::fx_muldiv_spec;
use crate::fx::isqrt_u128;
use crate::fx::lemma_abs_sq;
use crate::fx::lemma_div_mul_le;
use crate::fx::lemma_lt_sq;
use crate::fx::lemma_mul_abs_le;
use crate::fx::lemma_mul_div_exact;
use crate::fx::lemma_mul_le;
use crate::fx::lemma_muldiv_abs_le;
use crate::fx::lemma_sq_mono;

verus! {

/// The widest component magnitude the vector routines accept: one million
/// whole units. Positions, velocities and torques all stay far inside it.
pub const VEC_LIMIT: i64 = 1_000_000_000_000_000;

/// A three-component vector in micro-units.
#[derive(Clone, Copy, Debug, PartialEq, Eq, Structural)]
pub struct Vec3 {
    pub x: i64,
    pub y: i64,
    pub z: i64,
}

/// Squared magnitude, in squared micro-units.
pub open spec fn mag_sq(v: Vec3) -> int {
    (v.x as int) * (v.x as int) + (v.y as int) * (v.y as int) + (v.z as int) * (v.z as int)
}

/// Every component within `b` of zero.
pub open spec fn vec_in(v: Vec3, b: int) -> bool {
    &&& fx_abs(v.x as int) <= b
    &&& fx_abs(v.y as int) <= b
    &&& fx_abs(v.z as int) <= b
}

impl Vec3 {
    /// Builds a vector from its components.
    pub fn new(x: i64, y: i64, z: i64) -> (r: Vec3)
        ensures
            r == (Vec3 { x, y, z }),
    {
        Vec3 { x, y, z }
    }

    /// The zero vector.
    pub fn zero() -> (r: Vec3)
        ensures
            r == (Vec3 { x: 0i64, y: 0i64, z: 0i64 }),
    {
        Vec3 { x: 0, y: 0, z: 0 }
    }

    /// Component-wise sum.
    pub fn add(self, o: Vec3) -> (r: Vec3)
        requires
            i64::MIN <= self.x + o.x <= i64::MAX,
            i64::MIN <= self.y + o.y <= i64::MAX,
            i64::MIN <= self.z + o.z <= i64::MAX,
        ensures
            r.x == self.x + o.x,
            r.y == self.y + o.y,
            r.z == self.z + o.z,
    {
        Vec3 { x: self.x + o.x, y: self.y + o.y, z: self.z + o.z }
    }

    /// Component-wise difference.
    pub fn sub(self, o: Vec3) -> (r: Vec3)
        requires
            i64::MIN <= self.x - o.x <= i64::MAX,
            i64::MIN <= self.y - o.y <= i64::MAX,
            i64::MIN <= self.z - o.z <= i64::MAX,
        ensures
            r.x == self.x - o.x,
            r.y == self.y - o.y,
            r.z == self.z - o.z,
    {
        Vec3 { x: self.x - o.x, y: self.y - o.y, z: self.z - o.z }
    }

    /// The opposite vector.
    pub fn neg(self) -> (r: Vec3)
        requires
            self.x > i64::MIN,
            self.y > i64::MIN,
            self.z > i64::MIN,
        ensures
            r.x == -self.x,
            r.y == -self.y,
            r.z == -self.z,
    {
        Vec3 { x: -self.x, y: -self.y, z: -self.z }
    }

    /// Fixed-point scaling of every component by `s`.
    pub fn scale(self, s: i64) -> (r: Vec3)
        requires
            vec_in(self, VEC_LIMIT as int),
            fx_abs(s as int) <= VEC_LIMIT as int,
            fx_abs(self.x as int) * fx_abs(s as int) <= (FX_ONE as int) * (i64::MAX as int),
            fx_abs(self.y as int) * fx_abs(s as int) <= (FX_ONE as int) * (i64::MAX as int),
            fx_abs(self.z as int) * fx_abs(s as int) <= (FX_ONE as int) * (i64::MAX as int),
        ensures
            r.x as int == fx_mul_spec(self.x as int, s as int),
            r.y as int == fx_mul_spec(self.y as int, s as int),
            r.z as int == fx_mul_spec(self.z as int, s as int),
    {
        Vec3 { x: fx_mul(self.x, s), y: fx_mul(self.y, s), z: fx_mul(self.z, s) }
    }

    /// Fixed-point dot product.
    pub fn dot(self, o: Vec3) -> (r: i64)
        requires
            vec_in(self, 1_000_000_000_000),
            vec_in(o, 1_000_000_000_000),
        ensures
            r as int == fx_mul_spec(self.x as int, o.x as int) + fx_mul_spec(
                self.y as int,
                o.y as int,
            ) + fx_mul_spec(self.z as int, o.z as int),
    {
        proof {
            lemma_mul_le(fx_abs(self.x as int), fx_abs(o.x as int), 1_000_000_000_000, 1_000_000_000_000);
            lemma_mul_le(fx_abs(self.y as int), fx_abs(o.y as int), 1_000_000_000_000, 1_000_000_000_000);
            lemma_mul_le(fx_abs(self.z as int), fx_abs(o.z as int), 1_000_000_000_000, 1_000_000_000_000);
            lemma_mul_abs_le(self.x as int, o.x as int, 1_000_000_000_000, 1_000_000_000_000);
            lemma_mul_abs_le(self.y as int, o.y as int, 1_000_000_000_000, 1_000_000_000_000);
            lemma_mul_abs_le(self.z as int, o.z as int, 1_000_000_000_000, 1_000_000_000_000);
        }
        fx_mul(self.x, o.x) + fx_mul(self.y, o.y) + fx_mul(self.z, o.z)
    }

    /// Fixed-point cross product.
    pub fn cross(self, o: Vec3) -> (r: Vec3)
        requires
            vec_in(self, 1_000_000_000_000),
            vec_in(o, 1_000_000_000_000),
        ensures
            r.x as int == fx_mul_spec(self.y as int, o.z as int) - fx_mul_spec(
                self.z as int,
                o.y as int,
            ),
            r.y as int == fx_mul_spec(self.z as int, o.x as int) - fx_mul_spec(
                self.x as int,
                o.z as int,
            ),
            r.z as int == fx_mul_spec(self.x as int, o.y as int) - fx_mul_spec(
                self.y as int,
                o.x as int,
            ),
    {
        proof {
            lemma_mul_le(fx_abs(self.x as int), fx_abs(o.y as int), 1_000_000_000_000, 1_000_000_000_000);
            lemma_mul_le(fx_abs(self.x as int), fx_abs(o.z as int), 1_000_000_000_000, 1_000_000_000_000);
            lemma_mul_le(fx_abs(self.y as int), fx_abs(o.x as int), 1_000_000_000_000, 1_000_000_000_000);
            lemma_mul_le(fx_abs(self.y as int), fx_abs(o.z as int), 1_000_000_000_000, 1_000_000_000_000);
            lemma_mul_le(fx_abs(self.z as int), fx_abs(o.x as int), 1_000_000_000_000, 1_000_000_000_000);
            lemma_mul_le(fx_abs(self.z as int), fx_abs(o.y as int), 1_000_000_000_000, 1_000_000_000_000);
            lemma_mul_abs_le(self.x as int, o.y as int, 1_000_000_000_000, 1_000_000_000_000);
            lemma_mul_abs_le(self.x as int, o.z as int, 1_000_000_000_000, 1_000_000_000_000);
            lemma_mul_abs_le(self.y as int, o.x as int, 1_000_000_000_000, 1_000_000_000_000);
            lemma_mul_abs_le(self.y as int, o.z as int, 1_000_000_000_000, 1_000_000_000_000);
            lemma_mul_abs_le(self.z as int, o.x as int, 1_000_000_000_000, 1_000_000_000_000);
            lemma_mul_abs_le(self.z as int, o.y as int, 1_000_000_000_000, 1_000_000_000_000);
        }
        Vec3 {
            x: fx_mul(self.y, o.z) - fx_mul(self.z, o.y),
            y: fx_mul(self.z, o.x) - fx_mul(self.x, o.z),
            z: fx_mul(self.x, o.y) - fx_mul(self.y, o.x),
        }
    }

    /// Squared magnitude in a wide register.
    pub fn mag_sq_wide(self) -> (r: i128)
        requires
            vec_in(self, VEC_LIMIT as int),
        ensures
            r as int == mag_sq(self),
            r >= 0,
    {
        proof {
            lemma_abs_sq(self.x as int);
            lemma_abs_sq(self.y as int);
            lemma_abs_sq(self.z as int);
            lemma_mul_le(fx_abs(self.x as int), fx_abs(self.x as int), VEC_LIMIT as int, VEC_LIMIT as int);
            lemma_mul_le(fx_abs(self.y as int), fx_abs(self.y as int), VEC_LIMIT as int, VEC_LIMIT as int);
            lemma_mul_le(fx_abs(self.z as int), fx_abs(self.z as int), VEC_LIMIT as int, VEC_LIMIT as int);
        }
        (self.x as i128) * (self.x as i128) + (self.y as i128) * (self.y as i128) + (
        self.z as i128) * (self.z as i128)
    }

    /// Scales the vector back onto the ball of radius `max` whenever its
    /// magnitude exceeds `max`; inside the ball it is returned unchanged.
    pub fn clamp_magnitude(self, max: i64) -> (r: Vec3)
        requires
            0 < max <= 1_000_000_000_000,
            vec_in(self, VEC_LIMIT as int),
        ensures
            mag_sq(r) <= (max as int) * (max as int),
            mag_sq(self) <= (max as int) * (max as int) ==> r == self,
            mag_sq(self) > (max as int) * (max as int) ==> {
                let m = crate::fx::isqrt_spec(mag_sq(self)) + 1;
                &&& r.x as int == fx_muldiv_spec(self.x as int, max as int, m)
                &&& r.y as int == fx_muldiv_spec(self.y as int, max as int, m)
                &&& r.z as int == fx_muldiv_spec(self.z as int, max as int, m)
            },
    {
        let s2: i128 = self.mag_sq_wide();
        proof {
            lemma_mul_le(max as int, max as int, 1_000_000_000_000, 1_000_000_000_000);
        }
        let mx: i128 = (max as i128) * (max as i128);
        if s2 <= mx {
            return self;
        }
        let s: u64 = isqrt_u128(s2 as u128);
        proof {
            // the root fits comfortably in an i64
            if s as int >= 2_000_000_000_000_000 {
                lemma_sq_mono(2_000_000_000_000_000, s as int);
                lemma_mul_le(
                    fx_abs(self.x as int),
                    fx_abs(self.x as int),
                    VEC_LIMIT as int,
                    VEC_LIMIT as int,
                );
                lemma_mul_le(
                    fx_abs(self.y as int),
                    fx_abs(self.y as int),
                    VEC_LIMIT as int,
                    VEC_LIMIT as int,
                );
                lemma_mul_le(
                    fx_abs(self.z as int),
                    fx_abs(self.z as int),
                    VEC_LIMIT as int,
                    VEC_LIMIT as int,
                );
                lemma_abs_sq(self.x as int);
                lemma_abs_sq(self.y as int);
                lemma_abs_sq(self.z as int);
                assert(false);
            }
        }
        let m: i64 = (s as i64) + 1;
        proof {
            lemma_abs_sq(self.x as int);
            lemma_abs_sq(self.y as int);
            lemma_abs_sq(self.z as int);
            lemma_clamp_components(self.x as int, s2 as int, s as int);
            lemma_clamp_components(self.y as int, s2 as int, s as int);
            lemma_clamp_components(self.z as int, s2 as int, s as int);
            lemma_scale_fits(fx_abs(self.x as int), max as int, m as int);
            lemma_scale_fits(fx_abs(self.y as int), max as int, m as int);
            lemma_scale_fits(fx_abs(self.z as int), max as int, m as int);
        }
        let rx = fx_muldiv(self.x, max, m);
        let ry = fx_muldiv(self.y, max, m);
        let rz = fx_muldiv(self.z, max, m);
        let r = Vec3 { x: rx, y: ry, z: rz };
        proof {
            lemma_scaled_mag_sq(self.x as int, rx as int, max as int, m as int);
            lemma_scaled_mag_sq(self.y as int, ry as int, max as int, m as int);
            lemma_scaled_mag_sq(self.z as int, rz as int, max as int, m as int);
            lemma_clamp_sum(
                (rx as int) * (rx as int),
                (ry as int) * (ry as int),
                (rz as int) * (rz as int),
                (self.x as int) * (self.x as int),
                (self.y as int) * (self.y as int),
                (self.z as int) * (self.z as int),
                (m as int) * (m as int),
                (max as int) * (max as int),
            );
            assert((s2 as int) < (m as int) * (m as int));
            lemma_clamp_final(mag_sq(r), mag_sq(self), max as int, m as int);
        }
        r
    }
}

/// A component no greater than the scale divisor, times a bounded factor,
/// stays within the divisor times the widest machine value.
proof fn lemma_scale_fits(xa: int, max: int, m: int)
    by (nonlinear_arith)
    requires
        0 <= xa <= m,
        0 <= max <= i64::MAX as int,
        m > 0,
    ensures
        xa * max <= m * (i64::MAX as int),
{
}

/// Component inequalities against a common scale sum to the vector
/// inequality.
proof fn lemma_clamp_sum(
    a1: int,
    a2: int,
    a3: int,
    b1: int,
    b2: int,
    b3: int,
    mm: int,
    qq: int,
)
    by (nonlinear_arith)
    requires
        a1 * mm <= b1 * qq,
        a2 * mm <= b2 * qq,
        a3 * mm <= b3 * qq,
    ensures
        (a1 + a2 + a3) * mm <= (b1 + b2 + b3) * qq,
{
}

/// If the scaled squared magnitude stays under the unscaled one times
/// `max^2`, and the unscaled one is under `m^2`, the result is under
/// `max^2`.
proof fn lemma_clamp_final(sr: int, ss: int, max: int, m: int)
    by (nonlinear_arith)
    requires
        sr * (m * m) <= ss * (max * max),
        ss < m * m,
        max > 0,
        m > 0,
    ensures
        sr <= max * max,
{
}

impl Vec3 {
    /// Scales the vector to unit length (in micro-units), keeping the
    /// direction of every component.
    pub fn normalize(self) -> (r: Vec3)
        requires
            vec_in(self, 1_000_000_000_000),
            mag_sq(self) > 0,
        ensures
            vec_in(r, FX_ONE as int),
            r.x as int == fx_muldiv_spec(
                self.x as int,
                FX_ONE as int,
                crate::fx::isqrt_spec(mag_sq(self)),
            ),
            r.y as int == fx_muldiv_spec(
                self.y as int,
                FX_ONE as int,
                crate::fx::isqrt_spec(mag_sq(self)),
            ),
            r.z as int == fx_muldiv_spec(
                self.z as int,
                FX_ONE as int,
                crate::fx::isqrt_spec(mag_sq(self)),
            ),
            self.x >= 0 ==> r.x >= 0,
            self.x <= 0 ==> r.x <= 0,
            self.y >= 0 ==> r.y >= 0,
            self.y <= 0 ==> r.y <= 0,
            self.z >= 0 ==> r.z >= 0,
            self.z <= 0 ==> r.z <= 0,
    {
        let s2: i128 = self.mag_sq_wide();
        let s64: u64 = isqrt_u128(s2 as u128);
        proof {
            if s64 as int >= 2_000_000_000_000 {
                lemma_sq_mono(2_000_000_000_000, s64 as int);
                lemma_mul_le(
                    fx_abs(self.x as int),
                    fx_abs(self.x as int),
                    1_000_000_000_000,
                    1_000_000_000_000,
                );
                lemma_mul_le(
                    fx_abs(self.y as int),
                    fx_abs(self.y as int),
                    1_000_000_000_000,
                    1_000_000_000_000,
                );
                lemma_mul_le(
                    fx_abs(self.z as int),
                    fx_abs(self.z as int),
                    1_000_000_000_000,
                    1_000_000_000_000,
                );
                lemma_abs_sq(self.x as int);
                lemma_abs_sq(self.y as int);
                lemma_abs_sq(self.z as int);
                assert(false);
            }
        }
        let s: i64 = s64 as i64;
        proof {
            if s64 == 0 {
                assert((s64 as int + 1) * (s64 as int + 1) == 1) by (nonlinear_arith)
                    requires
                        s64 == 0u64,
                ;
                assert(false);
            }
        }
        proof {
            lemma_abs_sq(self.x as int);
            lemma_abs_sq(self.y as int);
            lemma_abs_sq(self.z as int);
            lemma_clamp_components(self.x as int, s2 as int, s as int);
            lemma_clamp_components(self.y as int, s2 as int, s as int);
            lemma_clamp_components(self.z as int, s2 as int, s as int);
            lemma_scale_fits(fx_abs(self.x as int), FX_ONE as int, s as int);
            lemma_scale_fits(fx_abs(self.y as int), FX_ONE as int, s as int);
            lemma_scale_fits(fx_abs(self.z as int), FX_ONE as int, s as int);
            lemma_muldiv_abs_le(self.x as int, FX_ONE as int, s as int, s as int, FX_ONE as int);
            lemma_muldiv_abs_le(self.y as int, FX_ONE as int, s as int, s as int, FX_ONE as int);
            lemma_muldiv_abs_le(self.z as int, FX_ONE as int, s as int, s as int, FX_ONE as int);
            lemma_mul_div_exact(FX_ONE as int, s as int);
            lemma_div_mul_le(fx_abs(self.x as int) * (FX_ONE as int), s as int);
            lemma_div_mul_le(fx_abs(self.y as int) * (FX_ONE as int), s as int);
            lemma_div_mul_le(fx_abs(self.z as int) * (FX_ONE as int), s as int);
        }
        Vec3 {
            x: fx_muldiv(self.x, FX_ONE, s),
            y: fx_muldiv(self.y, FX_ONE, s),
            z: fx_muldiv(self.z, FX_ONE, s),
        }
    }
}

/// A component of a vector is bounded by the integer square root of the
/// vector's squared magnitude.
proof fn lemma_clamp_components(x: int, s2: int, s: int)
    requires
        s >= 0,
        x * x <= s2,
        s2 < (s + 1) * (s + 1),
    ensures
        fx_abs(x) <= s,
{
    lemma_abs_sq(x);
    lemma_lt_sq(fx_abs(x), s + 1);
}

/// A rotation quaternion in micro-units. A well-formed rotation stays
/// within `QUAT_LIMIT` of zero in every component.
#[derive(Clone, Copy, Debug, PartialEq, Eq, Structural)]
pub struct Quat {
    pub x: i64,
    pub y: i64,
    pub z: i64,
    pub w: i64,
}

/// Unit quaternions, with slack for accumulated fixed-point drift.
pub const QUAT_LIMIT: i64 = 2_000_000;

/// Every component within `b` of zero.
pub open spec fn quat_in(q: Quat, b: int) -> bool {
    &&& fx_abs(q.x as int) <= b
    &&& fx_abs(q.y as int) <= b
    &&& fx_abs(q.z as int) <= b
    &&& fx_abs(q.w as int) <= b
}

/// The identity rotation.
pub open spec fn quat_identity_spec() -> Quat {
    Quat { x: 0i64, y: 0i64, z: 0i64, w: FX_ONE }
}

/// The conjugate: the inverse of a unit rotation.
pub open spec fn quat_conj_spec(q: Quat) -> Quat {
    Quat {
        x: (-(q.x as int)) as i64,
        y: (-(q.y as int)) as i64,
        z: (-(q.z as int)) as i64,
        w: q.w,
    }
}

/// The angle an axis-angle decomposition reads off a rotation: zero for
/// anything at or past unit `w`, twice the inverse cosine of `w`
/// otherwise.
pub open spec fn axis_angle_raw(q: Quat) -> int {
    if q.w >= FX_ONE {
        0
    } else {
        2 * crate::fx::acos_spec(q.w as int)
    }
}

/// The unit axis an axis-angle decomposition reads off a rotation: its
/// normalized vector part, or the x axis when that part vanishes.
pub open spec fn axis_of(q: Quat) -> Vec3 {
    if q.w >= FX_ONE {
        Vec3 { x: FX_ONE, y: 0i64, z: 0i64 }
    } else {
        let v = Vec3 { x: q.x, y: q.y, z: q.z };
        if mag_sq(v) == 0 {
            Vec3 { x: FX_ONE, y: 0i64, z: 0i64 }
        } else {
            Vec3 {
                x: fx_muldiv_spec(
                    q.x as int,
                    FX_ONE as int,
                    crate::fx::isqrt_spec(mag_sq(v)),
                ) as i64,
                y: fx_muldiv_spec(
                    q.y as int,
                    FX_ONE as int,
                    crate::fx::isqrt_spec(mag_sq(v)),
                ) as i64,
                z: fx_muldiv_spec(
                    q.z as int,
                    FX_ONE as int,
                    crate::fx::isqrt_spec(mag_sq(v)),
                ) as i64,
            }
        }
    }
}

/// Component-wise opposite; as a rotation it is the same as `q`.
pub open spec fn quat_neg_spec(q: Quat) -> Quat {
    Quat {
        x: (-(q.x as int)) as i64,
        y: (-(q.y as int)) as i64,
        z: (-(q.z as int)) as i64,
        w: (-(q.w as int)) as i64,
    }
}

/// The x component of the Hamilton product.
pub open spec fn quat_mul_x(a: Quat, b: Quat) -> int {
    fx_mul_spec(a.w as int, b.x as int) + fx_mul_spec(a.x as int, b.w as int) + fx_mul_spec(
        a.y as int,
        b.z as int,
    ) - fx_mul_spec(a.z as int, b.y as int)
}

/// The y component of the Hamilton product.
pub open spec fn quat_mul_y(a: Quat, b: Quat) -> int {
    fx_mul_spec(a.w as int, b.y as int) - fx_mul_spec(a.x as int, b.z as int) + fx_mul_spec(
        a.y as int,
        b.w as int,
    ) + fx_mul_spec(a.z as int, b.x as int)
}

/// The z component of the Hamilton product.
pub open spec fn quat_mul_z(a: Quat, b: Quat) -> int {
    fx_mul_spec(a.w as int, b.z as int) + fx_mul_spec(a.x as int, b.y as int) - fx_mul_spec(
        a.y as int,
        b.x as int,
    ) + fx_mul_spec(a.z as int, b.w as int)
}

/// The w component of the Hamilton product.
pub open spec fn quat_mul_w(a: Quat, b: Quat) -> int {
    fx_mul_spec(a.w as int, b.w as int) - fx_mul_spec(a.x as int, b.x as int) - fx_mul_spec(
        a.y as int,
        b.y as int,
    ) - fx_mul_spec(a.z as int, b.z as int)
}

/// The rotation of a vector by a quaternion, component by component:
/// `v + w t + qv x t` with `t = 2 (qv x v)`.
pub open spec fn rotate_spec(q: Quat, v: Vec3) -> Vec3 {
    let tx = 2 * (fx_mul_spec(q.y as int, v.z as int) - fx_mul_spec(q.z as int, v.y as int));
    let ty = 2 * (fx_mul_spec(q.z as int, v.x as int) - fx_mul_spec(q.x as int, v.z as int));
    let tz = 2 * (fx_mul_spec(q.x as int, v.y as int) - fx_mul_spec(q.y as int, v.x as int));
    Vec3 {
        x: (v.x as int + fx_mul_spec(tx, q.w as int) + fx_mul_spec(q.y as int, tz) - fx_mul_spec(
            q.z as int,
            ty,
        )) as i64,
        y: (v.y as int + fx_mul_spec(ty, q.w as int) + fx_mul_spec(q.z as int, tx) - fx_mul_spec(
            q.x as int,
            tz,
        )) as i64,
        z: (v.z as int + fx_mul_spec(tz, q.w as int) + fx_mul_spec(q.x as int, ty) - fx_mul_spec(
            q.y as int,
            tx,
        )) as i64,
    }
}

/// A quaternion scaled onto the unit sphere, component by component; an
/// all-zero input falls back to `fallback`.
pub open spec fn normalize4_spec(cx: int, cy: int, cz: int, cw: int, fallback: Quat) -> Quat {
    let s2 = cx * cx + cy * cy + cz * cz + cw * cw;
    if s2 == 0 {
        fallback
    } else {
        Quat {
            x: fx_muldiv_spec(cx, FX_ONE as int, crate::fx::isqrt_spec(s2)) as i64,
            y: fx_muldiv_spec(cy, FX_ONE as int, crate::fx::isqrt_spec(s2)) as i64,
            z: fx_muldiv_spec(cz, FX_ONE as int, crate::fx::isqrt_spec(s2)) as i64,
            w: fx_muldiv_spec(cw, FX_ONE as int, crate::fx::isqrt_spec(s2)) as i64,
        }
    }
}

/// Shortest-arc interpolation between two rotations: the far endpoint is
/// flipped onto the near hemisphere, the endpoints are returned exactly,
/// and anything between is the renormalized linear blend.
pub open spec fn slerp_spec(a: Quat, b: Quat, t: int) -> Quat {
    let d = fx_mul_spec(a.x as int, b.x as int) + fx_mul_spec(a.y as int, b.y as int)
        + fx_mul_spec(a.z as int, b.z as int) + fx_mul_spec(a.w as int, b.w as int);
    let bb = if d < 0 {
        quat_neg_spec(b)
    } else {
        b
    };
    if t == 0 {
        a
    } else if t == FX_ONE as int {
        bb
    } else {
        normalize4_spec(
            a.x as int + fx_mul_spec(bb.x as int - a.x as int, t),
            a.y as int + fx_mul_spec(bb.y as int - a.y as int, t),
            a.z as int + fx_mul_spec(bb.z as int - a.z as int, t),
            a.w as int + fx_mul_spec(bb.w as int - a.w as int, t),
            a,
        )
    }
}

/// Sign-preserving halving, truncated toward zero.
pub open spec fn fx_half(a: int) -> int {
    if a >= 0 {
        a / 2
    } else {
        -((-a) / 2)
    }
}

/// The Hamilton product, component by component.
pub open spec fn quat_mul_spec(a: Quat, b: Quat) -> Quat {
    Quat {
        x: quat_mul_x(a, b) as i64,
        y: quat_mul_y(a, b) as i64,
        z: quat_mul_z(a, b) as i64,
        w: quat_mul_w(a, b) as i64,
    }
}

/// A rotation of `a` micro-radians about the x axis.
pub open spec fn rot_x_spec(a: int) -> Quat {
    Quat {
        x: crate::fx::sin_spec(fx_half(a)) as i64,
        y: 0i64,
        z: 0i64,
        w: crate::fx::cos_spec(fx_half(a)) as i64,
    }
}

/// A rotation of `a` micro-radians about the y axis.
pub open spec fn rot_y_spec(a: int) -> Quat {
    Quat {
        x: 0i64,
        y: crate::fx::sin_spec(fx_half(a)) as i64,
        z: 0i64,
        w: crate::fx::cos_spec(fx_half(a)) as i64,
    }
}

/// A rotation of `a` micro-radians about the z axis.
pub open spec fn rot_z_spec(a: int) -> Quat {
    Quat {
        x: 0i64,
        y: 0i64,
        z: crate::fx::sin_spec(fx_half(a)) as i64,
        w: crate::fx::cos_spec(fx_half(a)) as i64,
    }
}

impl Quat {
    /// The identity rotation.
    pub fn identity() -> (r: Quat)
        ensures
            r == quat_identity_spec(),
    {
        Quat { x: 0, y: 0, z: 0, w: FX_ONE }
    }

    /// The inverse of a unit rotation: its conjugate.
    pub fn conjugate(self) -> (r: Quat)
        requires
            self.x > i64::MIN,
            self.y > i64::MIN,
            self.z > i64::MIN,
        ensures
            r == quat_conj_spec(self),
            r.x == -self.x,
            r.y == -self.y,
            r.z == -self.z,
            r.w == self.w,
    {
        Quat { x: -self.x, y: -self.y, z: -self.z, w: self.w }
    }

    /// Component-wise opposite.
    pub fn negate(self) -> (r: Quat)
        requires
            self.x > i64::MIN,
            self.y > i64::MIN,
            self.z > i64::MIN,
            self.w > i64::MIN,
        ensures
            r == quat_neg_spec(self),
    {
        Quat { x: -self.x, y: -self.y, z: -self.z, w: -self.w }
    }

    /// Hamilton product: the rotation `self` composed after `o`.
    pub fn mul(self, o: Quat) -> (r: Quat)
        requires
            quat_in(self, 100_000_000),
            quat_in(o, 100_000_000),
        ensures
            r == quat_mul_spec(self, o),
            r.x as int == quat_mul_x(self, o),
            r.y as int == quat_mul_y(self, o),
            r.z as int == quat_mul_z(self, o),
            r.w as int == quat_mul_w(self, o),
            quat_in(r, 40_000_000_000),
    {
        proof {
            lemma_quat_mul_bounds(self, o);
        }
        Quat {
            x: fx_mul(self.w, o.x) + fx_mul(self.x, o.w) + fx_mul(self.y, o.z) - fx_mul(
                self.z,
                o.y,
            ),
            y: fx_mul(self.w, o.y) - fx_mul(self.x, o.z) + fx_mul(self.y, o.w) + fx_mul(
                self.z,
                o.x,
            ),
            z: fx_mul(self.w, o.z) + fx_mul(self.x, o.y) - fx_mul(self.y, o.x) + fx_mul(
                self.z,
                o.w,
            ),
            w: fx_mul(self.w, o.w) - fx_mul(self.x, o.x) - fx_mul(self.y, o.y) - fx_mul(
                self.z,
                o.z,
            ),
        }
    }

    /// Four-component dot product; positive when the two rotations lie in
    /// the same half of the sphere.
    pub fn dot(self, o: Quat) -> (r: i64)
        requires
            quat_in(self, 100_000_000),
            quat_in(o, 100_000_000),
        ensures
            r as int == fx_mul_spec(self.x as int, o.x as int) + fx_mul_spec(
                self.y as int,
                o.y as int,
            ) + fx_mul_spec(self.z as int, o.z as int) + fx_mul_spec(self.w as int, o.w as int),
    {
        proof {
            lemma_quat_mul_bounds(self, o);
        }
        fx_mul(self.x, o.x) + fx_mul(self.y, o.y) + fx_mul(self.z, o.z) + fx_mul(self.w, o.w)
    }

    /// A rotation of `a` micro-radians about the x axis.
    pub fn from_rotation_x(a: i64) -> (r: Quat)
        requires
            -FX_PI <= a <= FX_PI,
        ensures
            r == rot_x_spec(a as int),
            quat_in(r, FX_ONE as int),
    {
        let h = half_angle(a);
        Quat { x: crate::fx::sin_fx(h), y: 0, z: 0, w: crate::fx::cos_fx(h) }
    }

    /// A rotation of `a` micro-radians about the y axis.
    pub fn from_rotation_y(a: i64) -> (r: Quat)
        requires
            -FX_PI <= a <= FX_PI,
        ensures
            r == rot_y_spec(a as int),
            quat_in(r, FX_ONE as int),
    {
        let h = half_angle(a);
        Quat { x: 0, y: crate::fx::sin_fx(h), z: 0, w: crate::fx::cos_fx(h) }
    }

    /// A rotation of `a` micro-radians about the z axis.
    pub fn from_rotation_z(a: i64) -> (r: Quat)
        requires
            -FX_PI <= a <= FX_PI,
        ensures
            r == rot_z_spec(a as int),
            quat_in(r, FX_ONE as int),
    {
        let h = half_angle(a);
        Quat { x: 0, y: 0, z: crate::fx::sin_fx(h), w: crate::fx::cos_fx(h) }
    }

    /// Decomposes a rotation into a unit axis and an angle of
    /// `[0, 2 FX_PI]` micro-radians. A rotation indistinguishable from the
    /// identity decomposes to a zero angle about the x axis.
    pub fn to_axis_angle(self) -> (r: (Vec3, i64))
        requires
            quat_in(self, 100_000_000_000),
        ensures
            vec_in(r.0, FX_ONE as int),
            0 <= r.1 <= 2 * FX_PI,
            self.w >= FX_ONE ==> r.1 == 0,
            r.0 == axis_of(self),
            r.1 as int == axis_angle_raw(self),
    {
        if self.w >= FX_ONE {
            return (Vec3 { x: FX_ONE, y: 0, z: 0 }, 0);
        }
        let angle = 2 * crate::fx::acos_fx(self.w);
        let v = Vec3 { x: self.x, y: self.y, z: self.z };
        let s2: i128 = v.mag_sq_wide();
        if s2 == 0 {
            return (Vec3 { x: FX_ONE, y: 0, z: 0 }, angle);
        }
        proof {
            lemma_abs_sq(v.x as int);
            lemma_abs_sq(v.y as int);
            lemma_abs_sq(v.z as int);
        }
        (v.normalize(), angle)
    }

    /// Applies the rotation to a vector: `q v q^-1`, expanded as
    /// `v + w t + qv x t` with `t = 2 (qv x v)`.
    #[verifier::rlimit(40)]
    pub fn rotate(self, v: Vec3) -> (r: Vec3)
        requires
            quat_in(self, QUAT_LIMIT as int),
            vec_in(v, 1_000_000_000),
        ensures
            vec_in(r, 100_000_000_000),
            self == quat_identity_spec() ==> r == v,
            r == rotate_spec(self, v),
    {
        let qv = Vec3 { x: self.x, y: self.y, z: self.z };
        let c1 = qv.cross(v);
        proof {
            lemma_mul_abs_le(qv.y as int, v.z as int, QUAT_LIMIT as int, 1_000_000_000);
            lemma_mul_abs_le(qv.z as int, v.y as int, QUAT_LIMIT as int, 1_000_000_000);
            lemma_mul_abs_le(qv.z as int, v.x as int, QUAT_LIMIT as int, 1_000_000_000);
            lemma_mul_abs_le(qv.x as int, v.z as int, QUAT_LIMIT as int, 1_000_000_000);
            lemma_mul_abs_le(qv.x as int, v.y as int, QUAT_LIMIT as int, 1_000_000_000);
            lemma_mul_abs_le(qv.y as int, v.x as int, QUAT_LIMIT as int, 1_000_000_000);
        }
        let t = Vec3 { x: 2 * c1.x, y: 2 * c1.y, z: 2 * c1.z };
        proof {
            lemma_mul_le(fx_abs(t.x as int), fx_abs(self.w as int), 8_000_000_000, QUAT_LIMIT as int);
            lemma_mul_le(fx_abs(t.y as int), fx_abs(self.w as int), 8_000_000_000, QUAT_LIMIT as int);
            lemma_mul_le(fx_abs(t.z as int), fx_abs(self.w as int), 8_000_000_000, QUAT_LIMIT as int);
            lemma_mul_abs_le(t.x as int, self.w as int, 8_000_000_000, QUAT_LIMIT as int);
            lemma_mul_abs_le(t.y as int, self.w as int, 8_000_000_000, QUAT_LIMIT as int);
            lemma_mul_abs_le(t.z as int, self.w as int, 8_000_000_000, QUAT_LIMIT as int);
        }
        let wt = t.scale(self.w);
        let c2 = qv.cross(t);
        proof {
            lemma_mul_abs_le(qv.y as int, t.z as int, QUAT_LIMIT as int, 8_000_000_000);
            lemma_mul_abs_le(qv.z as int, t.y as int, QUAT_LIMIT as int, 8_000_000_000);
            lemma_mul_abs_le(qv.z as int, t.x as int, QUAT_LIMIT as int, 8_000_000_000);
            lemma_mul_abs_le(qv.x as int, t.z as int, QUAT_LIMIT as int, 8_000_000_000);
            lemma_mul_abs_le(qv.x as int, t.y as int, QUAT_LIMIT as int, 8_000_000_000);
            lemma_mul_abs_le(qv.y as int, t.x as int, QUAT_LIMIT as int, 8_000_000_000);
        }
        let r = v.add(wt).add(c2);
        proof {
            if self == quat_identity_spec() {
                lemma_mul_zero(v.x as int);
                lemma_mul_zero(v.y as int);
                lemma_mul_zero(v.z as int);
                lemma_mul_zero(t.x as int);
                lemma_mul_zero(t.y as int);
                lemma_mul_zero(t.z as int);
                lemma_mul_zero(self.w as int);
            }
        }
        r
    }

    /// Interpolates from `self` at `t == 0` to `o` at `t == FX_ONE` along
    /// the shortest arc, renormalizing the result; the endpoints are
    /// returned exactly (the far one up to quaternion sign).
    pub fn slerp(self, o: Quat, t: i64) -> (r: Quat)
        requires
            quat_in(self, QUAT_LIMIT as int),
            quat_in(o, QUAT_LIMIT as int),
            0 <= t <= FX_ONE,
        ensures
            r == slerp_spec(self, o, t as int),
            quat_in(r, QUAT_LIMIT as int),
            t == 0 ==> r == self,
            t == FX_ONE ==> r == o || r == quat_neg_spec(o),
    {
        let d = self.dot(o);
        let bb = if d < 0 {
            o.negate()
        } else {
            o
        };
        if t == 0 {
            return self;
        }
        if t == FX_ONE {
            return bb;
        }
        proof {
            lemma_mul_le(fx_abs(bb.x as int - self.x as int), fx_abs(t as int), 4_000_000, FX_ONE as int);
            lemma_mul_le(fx_abs(bb.y as int - self.y as int), fx_abs(t as int), 4_000_000, FX_ONE as int);
            lemma_mul_le(fx_abs(bb.z as int - self.z as int), fx_abs(t as int), 4_000_000, FX_ONE as int);
            lemma_mul_le(fx_abs(bb.w as int - self.w as int), fx_abs(t as int), 4_000_000, FX_ONE as int);
            lemma_mul_abs_le(bb.x as int - self.x as int, t as int, 4_000_000, FX_ONE as int);
            lemma_mul_abs_le(bb.y as int - self.y as int, t as int, 4_000_000, FX_ONE as int);
            lemma_mul_abs_le(bb.z as int - self.z as int, t as int, 4_000_000, FX_ONE as int);
            lemma_mul_abs_le(bb.w as int - self.w as int, t as int, 4_000_000, FX_ONE as int);
        }
        let cx = self.x + fx_mul(bb.x - self.x, t);
        let cy = self.y + fx_mul(bb.y - self.y, t);
        let cz = self.z + fx_mul(bb.z - self.z, t);
        let cw = self.w + fx_mul(bb.w - self.w, t);
        normalize4(cx, cy, cz, cw, self)
    }
}

/// Halves an angle with truncation toward zero.
fn half_angle(a: i64) -> (r: i64)
    requires
        -FX_TAU <= a <= FX_TAU,
    ensures
        r as int == fx_half(a as int),
        fx_abs(r as int) <= fx_abs(a as int),
{
    if a >= 0 {
        a / 2
    } else {
        -((-a) / 2)
    }
}

/// Scales a near-unit quaternion onto the unit sphere; a degenerate
/// all-zero intermediate falls back to `fallback`.
pub(crate) fn normalize4(cx: i64, cy: i64, cz: i64, cw: i64, fallback: Quat) -> (r: Quat)
    requires
        fx_abs(cx as int) <= 20_000_000,
        fx_abs(cy as int) <= 20_000_000,
        fx_abs(cz as int) <= 20_000_000,
        fx_abs(cw as int) <= 20_000_000,
        quat_in(fallback, QUAT_LIMIT as int),
    ensures
        r == normalize4_spec(cx as int, cy as int, cz as int, cw as int, fallback),
        quat_in(r, QUAT_LIMIT as int),
{
    proof {
        lemma_abs_sq(cx as int);
        lemma_abs_sq(cy as int);
        lemma_abs_sq(cz as int);
        lemma_abs_sq(cw as int);
        lemma_mul_le(fx_abs(cx as int), fx_abs(cx as int), 20_000_000, 20_000_000);
        lemma_mul_le(fx_abs(cy as int), fx_abs(cy as int), 20_000_000, 20_000_000);
        lemma_mul_le(fx_abs(cz as int), fx_abs(cz as int), 20_000_000, 20_000_000);
        lemma_mul_le(fx_abs(cw as int), fx_abs(cw as int), 20_000_000, 20_000_000);
    }
    let s2: i128 = (cx as i128) * (cx as i128) + (cy as i128) * (cy as i128) + (cz as i128) * (
    cz as i128) + (cw as i128) * (cw as i128);
    if s2 == 0 {
        return fallback;
    }
    let s64: u64 = isqrt_u128(s2 as u128);
    proof {
        if s64 as int >= 41_000_000 {
            lemma_sq_mono(41_000_000, s64 as int);
            assert(false);
        }
    }
    let s: i64 = s64 as i64;
    proof {
        if s64 == 0 {
            assert((s64 as int + 1) * (s64 as int + 1) == 1) by (nonlinear_arith)
                requires
                    s64 == 0u64,
            ;
            assert(false);
        }
        lemma_quat_component(cx as int, s2 as int, s as int);
        lemma_quat_component(cy as int, s2 as int, s as int);
        lemma_quat_component(cz as int, s2 as int, s as int);
        lemma_quat_component(cw as int, s2 as int, s as int);
        lemma_scale_fits(fx_abs(cx as int), FX_ONE as int, s as int);
        lemma_scale_fits(fx_abs(cy as int), FX_ONE as int, s as int);
        lemma_scale_fits(fx_abs(cz as int), FX_ONE as int, s as int);
        lemma_scale_fits(fx_abs(cw as int), FX_ONE as int, s as int);
        lemma_muldiv_abs_le(cx as int, FX_ONE as int, s as int, s as int, FX_ONE as int);
        lemma_muldiv_abs_le(cy as int, FX_ONE as int, s as int, s as int, FX_ONE as int);
        lemma_muldiv_abs_le(cz as int, FX_ONE as int, s as int, s as int, FX_ONE as int);
        lemma_muldiv_abs_le(cw as int, FX_ONE as int, s as int, s as int, FX_ONE as int);
        lemma_mul_div_exact(FX_ONE as int, s as int);
    }
    Quat {
        x: fx_muldiv(cx, FX_ONE, s),
        y: fx_muldiv(cy, FX_ONE, s),
        z: fx_muldiv(cz, FX_ONE, s),
        w: fx_muldiv(cw, FX_ONE, s),
    }
}

/// A component of a quaternion is bounded by the integer square root of
/// its squared magnitude.
proof fn lemma_quat_component(x: int, s2: int, s: int)
    requires
        s >= 0,
        x * x <= s2,
        s2 < (s + 1) * (s + 1),
    ensures
        fx_abs(x) <= s,
{
    lemma_abs_sq(x);
    lemma_lt_sq(fx_abs(x), s + 1);
}

/// Bounds on two quaternions bound every component of their Hamilton
/// product by four scaled pairwise products.
pub proof fn lemma_quat_mul_tight(a: Quat, b: Quat, ba: int, bb: int)
    requires
        quat_in(a, ba),
        quat_in(b, bb),
        0 <= ba,
        0 <= bb,
    ensures
        fx_abs(quat_mul_x(a, b)) <= 4 * ((ba * bb) / (FX_ONE as int)),
        fx_abs(quat_mul_y(a, b)) <= 4 * ((ba * bb) / (FX_ONE as int)),
        fx_abs(quat_mul_z(a, b)) <= 4 * ((ba * bb) / (FX_ONE as int)),
        fx_abs(quat_mul_w(a, b)) <= 4 * ((ba * bb) / (FX_ONE as int)),
{
    lemma_mul_abs_le(a.w as int, b.x as int, ba, bb);
    lemma_mul_abs_le(a.x as int, b.w as int, ba, bb);
    lemma_mul_abs_le(a.y as int, b.z as int, ba, bb);
    lemma_mul_abs_le(a.z as int, b.y as int, ba, bb);
    lemma_mul_abs_le(a.w as int, b.y as int, ba, bb);
    lemma_mul_abs_le(a.x as int, b.z as int, ba, bb);
    lemma_mul_abs_le(a.y as int, b.w as int, ba, bb);
    lemma_mul_abs_le(a.z as int, b.x as int, ba, bb);
    lemma_mul_abs_le(a.w as int, b.z as int, ba, bb);
    lemma_mul_abs_le(a.x as int, b.y as int, ba, bb);
    lemma_mul_abs_le(a.y as int, b.x as int, ba, bb);
    lemma_mul_abs_le(a.z as int, b.w as int, ba, bb);
    lemma_mul_abs_le(a.w as int, b.w as int, ba, bb);
    lemma_mul_abs_le(a.x as int, b.x as int, ba, bb);
    lemma_mul_abs_le(a.y as int, b.y as int, ba, bb);
    lemma_mul_abs_le(a.z as int, b.z as int, ba, bb);
}

/// All sixteen pairwise products of two bounded quaternions fit the
/// fixed-point multiplier.
proof fn lemma_quat_mul_bounds(a: Quat, b: Quat)
    requires
        quat_in(a, 100_000_000),
        quat_in(b, 100_000_000),
    ensures
        fx_abs(a.w as int) * fx_abs(b.x as int) <= (FX_ONE as int) * (i64::MAX as int),
        fx_abs(a.x as int) * fx_abs(b.w as int) <= (FX_ONE as int) * (i64::MAX as int),
        fx_abs(a.y as int) * fx_abs(b.z as int) <= (FX_ONE as int) * (i64::MAX as int),
        fx_abs(a.z as int) * fx_abs(b.y as int) <= (FX_ONE as int) * (i64::MAX as int),
        fx_abs(a.w as int) * fx_abs(b.y as int) <= (FX_ONE as int) * (i64::MAX as int),
        fx_abs(a.x as int) * fx_abs(b.z as int) <= (FX_ONE as int) * (i64::MAX as int),
        fx_abs(a.y as int) * fx_abs(b.w as int) <= (FX_ONE as int) * (i64::MAX as int),
        fx_abs(a.z as int) * fx_abs(b.x as int) <= (FX_ONE as int) * (i64::MAX as int),
        fx_abs(a.w as int) * fx_abs(b.z as int) <= (FX_ONE as int) * (i64::MAX as int),
        fx_abs(a.x as int) * fx_abs(b.y as int) <= (FX_ONE as int) * (i64::MAX as int),
        fx_abs(a.y as int) * fx_abs(b.x as int) <= (FX_ONE as int) * (i64::MAX as int),
        fx_abs(a.z as int) * fx_abs(b.w as int) <= (FX_ONE as int) * (i64::MAX as int),
        fx_abs(a.w as int) * fx_abs(b.w as int) <= (FX_ONE as int) * (i64::MAX as int),
        fx_abs(a.x as int) * fx_abs(b.x as int) <= (FX_ONE as int) * (i64::MAX as int),
        fx_abs(a.y as int) * fx_abs(b.y as int) <= (FX_ONE as int) * (i64::MAX as int),
        fx_abs(a.z as int) * fx_abs(b.z as int) <= (FX_ONE as int) * (i64::MAX as int),
        fx_abs(fx_mul_spec(a.w as int, b.x as int)) <= 10_000_000_000,
        fx_abs(fx_mul_spec(a.x as int, b.w as int)) <= 10_000_000_000,
        fx_abs(fx_mul_spec(a.y as int, b.z as int)) <= 10_000_000_000,
        fx_abs(fx_mul_spec(a.z as int, b.y as int)) <= 10_000_000_000,
        fx_abs(fx_mul_spec(a.w as int, b.y as int)) <= 10_000_000_000,
        fx_abs(fx_mul_spec(a.x as int, b.z as int)) <= 10_000_000_000,
        fx_abs(fx_mul_spec(a.y as int, b.w as int)) <= 10_000_000_000,
        fx_abs(fx_mul_spec(a.z as int, b.x as int)) <= 10_000_000_000,
        fx_abs(fx_mul_spec(a.w as int, b.z as int)) <= 10_000_000_000,
        fx_abs(fx_mul_spec(a.x as int, b.y as int)) <= 10_000_000_000,
        fx_abs(fx_mul_spec(a.y as int, b.x as int)) <= 10_000_000_000,
        fx_abs(fx_mul_spec(a.z as int, b.w as int)) <= 10_000_000_000,
        fx_abs(fx_mul_spec(a.w as int, b.w as int)) <= 10_000_000_000,
        fx_abs(fx_mul_spec(a.x as int, b.x as int)) <= 10_000_000_000,
        fx_abs(fx_mul_spec(a.y as int, b.y as int)) <= 10_000_000_000,
        fx_abs(fx_mul_spec(a.z as int, b.z as int)) <= 10_000_000_000,
{
    lemma_quat_pair(a.w as int, b.x as int);
    lemma_quat_pair(a.x as int, b.w as int);
    lemma_quat_pair(a.y as int, b.z as int);
    lemma_quat_pair(a.z as int, b.y as int);
    lemma_quat_pair(a.w as int, b.y as int);
    lemma_quat_pair(a.x as int, b.z as int);
    lemma_quat_pair(a.y as int, b.w as int);
    lemma_quat_pair(a.z as int, b.x as int);
    lemma_quat_pair(a.w as int, b.z as int);
    lemma_quat_pair(a.x as int, b.y as int);
    lemma_quat_pair(a.y as int, b.x as int);
    lemma_quat_pair(a.z as int, b.w as int);
    lemma_quat_pair(a.w as int, b.w as int);
    lemma_quat_pair(a.x as int, b.x as int);
    lemma_quat_pair(a.y as int, b.y as int);
    lemma_quat_pair(a.z as int, b.z as int);
}

/// One bounded pair: the raw product fits, and the fixed-point product is
/// small.
proof fn lemma_quat_pair(p: int, q: int)
    requires
        fx_abs(p) <= 100_000_000,
        fx_abs(q) <= 100_000_000,
    ensures
        fx_abs(p) * fx_abs(q) <= (FX_ONE as int) * (i64::MAX as int),
        fx_abs(fx_mul_spec(p, q)) <= 10_000_000_000,
{
    lemma_mul_le(fx_abs(p), fx_abs(q), 100_000_000, 100_000_000);
    lemma_mul_abs_le(p, q, 100_000_000, 100_000_000);
}

/// Scaling a component by `max / m` with truncation scales its square by
/// at most `(max / m)^2`.
proof fn lemma_scaled_mag_sq(x: int, r: int, max: int, m: int)
    requires
        max >= 0,
        m > 0,
        r == fx_muldiv_spec(x, max, m),
    ensures
        (r * r) * (m * m) <= (x * x) * (max * max),
        r * r >= 0,
{
    let p = fx_abs(x) * max;
    assert(p >= 0) by (nonlinear_arith)
        requires
            p == fx_abs(x) * max,
            fx_abs(x) >= 0,
            max >= 0,
    ;
    lemma_div_mul_le(p, m);
    assert(fx_abs(r) == p / m);
    assert((fx_abs(r) * m) * (fx_abs(r) * m) <= p * p) by (nonlinear_arith)
        requires
            0 <= fx_abs(r) * m <= p,
    ;
    assert((fx_abs(r) * m) * (fx_abs(r) * m) == (fx_abs(r) * fx_abs(r)) * (m * m))
        by (nonlinear_arith);
    assert(p * p == (fx_abs(x) * fx_abs(x)) * (max * max)) by (nonlinear_arith)
        requires
            p == fx_abs(x) * max,
    ;
    lemma_abs_sq(r);
    lemma_abs_sq(x);
}

} // verus!
