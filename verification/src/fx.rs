//! Fixed-point scalar arithmetic.
//!
//! Every scalar in this crate is an `i64` holding micro-units: `FX_ONE`
//! (1_000_000) stands for `1.0`. Angles are radians in micro-units.
//! Multiplication and division are truncated toward zero, computed on
//! magnitudes so that the rounding direction is independent of sign.

use vstd::prelude::*;

verus! {

/// One whole unit in micro-units.
pub const FX_ONE: i64 = 1_000_000;

/// The circle constant pi, in micro-radians (rounded).
pub const FX_PI: i64 = 3_141_593;

/// Two pi in micro-radians (rounded).
pub const FX_TAU: i64 = 6_283_185;

/// Half pi in micro-radians (rounded).
pub const FX_HALF_PI: i64 = 1_570_796;

/// A quarter pi in micro-radians (rounded).
pub const FX_QUARTER_PI: i64 = 785_398;

/// `5 * pi^2` scaled by `10^12`, the constant denominator term of the
/// rational sine approximation.
pub const FIVE_PI_SQ_E12: i128 = 49_348_022_005_447;

/// The coefficient `0.273` of the arctangent approximation, in micro-units.
pub const ATAN_C2: i64 = 273_000;

/// Magnitude of an integer.
pub open spec fn fx_abs(a: int) -> int {
    if a < 0 {
        -a
    } else {
        a
    }
}

/// Truncated-toward-zero `a * b / c`: the quotient of magnitudes, carrying
/// the sign of `a * b`. `c` is assumed positive.
pub open spec fn fx_muldiv_spec(a: int, b: int, c: int) -> int {
    let m = (fx_abs(a) * fx_abs(b)) / c;
    if (a < 0) != (b < 0) {
        -m
    } else {
        m
    }
}

/// Truncated fixed-point product `a * b / FX_ONE`.
pub open spec fn fx_mul_spec(a: int, b: int) -> int {
    fx_muldiv_spec(a, b, FX_ONE as int)
}

/// Truncated fixed-point quotient `a * FX_ONE / b`, carrying the sign of
/// `a / b`. `b` is assumed nonzero.
pub open spec fn fx_div_spec(a: int, b: int) -> int {
    let m = (fx_abs(a) * (FX_ONE as int)) / fx_abs(b);
    if (a < 0) != (b < 0) {
        -m
    } else {
        m
    }
}

/// `v` forced into `[lo, hi]`.
pub open spec fn fx_clamp_spec(v: int, lo: int, hi: int) -> int {
    if v < lo {
        lo
    } else if v > hi {
        hi
    } else {
        v
    }
}

/// Bounds on two nonnegative factors bound their product.
pub proof fn lemma_mul_le(x: int, y: int, bx: int, by_bound: int)
    by (nonlinear_arith)
    requires
        0 <= x <= bx,
        0 <= y <= by_bound,
    ensures
        x * y <= bx * by_bound,
{
}

/// Division by a positive constant is monotone.
pub proof fn lemma_div_mono(x: int, y: int, c: int)
    by (nonlinear_arith)
    requires
        0 <= x <= y,
        c > 0,
    ensures
        0 <= x / c <= y / c,
{
}

/// A product divided by one of its factors gives back the other.
pub proof fn lemma_mul_div_exact(m: int, c: int)
    by (nonlinear_arith)
    requires
        c > 0,
    ensures
        (c * m) / c == m,
        (m * c) / c == m,
{
}

/// A truncated quotient, multiplied back by the divisor, does not exceed
/// the dividend.
pub proof fn lemma_div_mul_le(p: int, c: int)
    by (nonlinear_arith)
    requires
        p >= 0,
        c > 0,
    ensures
        (p / c) * c <= p,
        p / c >= 0,
{
}

/// Multiplying a truncated quotient keeps it under the quotient of the
/// multiplied dividend.
pub proof fn lemma_divmul(p: int, u: int, c: int)
    by (nonlinear_arith)
    requires
        p >= 0,
        u >= 0,
        c > 0,
    ensures
        (p / c) * u <= (p * u) / c,
{
}

/// Squaring is monotone on nonnegative integers.
pub proof fn lemma_sq_mono(a: int, b: int)
    by (nonlinear_arith)
    requires
        0 <= a <= b,
    ensures
        a * a <= b * b,
{
}

/// The square of the magnitude is the square, and squares are nonnegative.
pub proof fn lemma_abs_sq(a: int)
    ensures
        fx_abs(a) * fx_abs(a) == a * a,
        a * a >= 0,
{
    if a < 0 {
        assert((-a) * (-a) == a * a && (-a) * (-a) >= 0) by (nonlinear_arith)
            requires
                a < 0,
        ;
    } else {
        assert(a * a >= 0) by (nonlinear_arith)
            requires
                a >= 0,
        ;
    }
}

/// An integer whose square is strictly below another's is strictly below
/// it, for nonnegative integers.
pub proof fn lemma_lt_sq(a: int, b: int)
    by (nonlinear_arith)
    requires
        0 <= a,
        0 <= b,
        a * a < b * b,
    ensures
        a < b,
{
}

/// A zero factor gives a zero truncated product, whatever the other
/// operands.
pub proof fn lemma_muldiv_zero(b: int, c: int)
    requires
        c > 0,
    ensures
        fx_muldiv_spec(0, b, c) == 0,
        fx_muldiv_spec(b, 0, c) == 0,
{
    assert((0 * fx_abs(b)) / c == 0 && (fx_abs(b) * 0) / c == 0) by (nonlinear_arith)
        requires
            c > 0,
    ;
}

/// A zero factor gives a zero fixed-point product.
pub proof fn lemma_mul_zero(b: int)
    ensures
        fx_mul_spec(0, b) == 0,
        fx_mul_spec(b, 0) == 0,
{
    lemma_muldiv_zero(b, FX_ONE as int);
}

/// Bounds on the operands of a truncated `a * b / c` bound its magnitude.
pub proof fn lemma_muldiv_abs_le(a: int, b: int, c: int, ba: int, bb: int)
    requires
        c > 0,
        fx_abs(a) <= ba,
        fx_abs(b) <= bb,
    ensures
        fx_abs(fx_muldiv_spec(a, b, c)) <= (ba * bb) / c,
{
    lemma_mul_le(fx_abs(a), fx_abs(b), ba, bb);
    lemma_div_mono(fx_abs(a) * fx_abs(b), ba * bb, c);
}

/// Bounds on the operands of a truncated fixed-point product bound its
/// magnitude.
pub proof fn lemma_mul_abs_le(a: int, b: int, ba: int, bb: int)
    requires
        fx_abs(a) <= ba,
        fx_abs(b) <= bb,
    ensures
        fx_abs(fx_mul_spec(a, b)) <= (ba * bb) / (FX_ONE as int),
{
    lemma_muldiv_abs_le(a, b, FX_ONE as int, ba, bb);
}

/// Computes `a * b / c` truncated toward zero, on magnitudes.
pub fn fx_muldiv(a: i64, b: i64, c: i64) -> (r: i64)
    requires
        c > 0,
        fx_abs(a as int) * fx_abs(b as int) <= (c as int) * (i64::MAX as int),
    ensures
        r as int == fx_muldiv_spec(a as int, b as int, c as int),
{
    proof {
        lemma_div_mono(
            fx_abs(a as int) * fx_abs(b as int),
            (c as int) * (i64::MAX as int),
            c as int,
        );
        lemma_mul_div_exact(i64::MAX as int, c as int);
    }
    let neg: bool = (a < 0) != (b < 0);
    let aa: u128 = if a >= 0 {
        a as u128
    } else {
        (-(a as i128)) as u128
    };
    let bb: u128 = if b >= 0 {
        b as u128
    } else {
        (-(b as i128)) as u128
    };
    assert(aa as int == fx_abs(a as int));
    assert(bb as int == fx_abs(b as int));
    assert(aa * bb <= u128::MAX) by (nonlinear_arith)
        requires
            aa <= 0x8000_0000_0000_0000u128,
            bb <= 0x8000_0000_0000_0000u128,
    ;
    let m: u128 = (aa * bb) / (c as u128);
    assert(m as int == fx_abs(a as int) * fx_abs(b as int) / (c as int));
    let mi: i64 = m as i64;
    if neg {
        -mi
    } else {
        mi
    }
}

/// Computes the fixed-point product `a * b / FX_ONE` truncated toward zero.
pub fn fx_mul(a: i64, b: i64) -> (r: i64)
    requires
        fx_abs(a as int) * fx_abs(b as int) <= (FX_ONE as int) * (i64::MAX as int),
    ensures
        r as int == fx_mul_spec(a as int, b as int),
{
    fx_muldiv(a, b, FX_ONE)
}

/// Computes the fixed-point quotient `a * FX_ONE / b` truncated toward zero.
pub fn fx_div(a: i64, b: i64) -> (r: i64)
    requires
        b != 0,
        b > i64::MIN,
        fx_abs(a as int) * (FX_ONE as int) <= fx_abs(b as int) * (i64::MAX as int),
    ensures
        r as int == fx_div_spec(a as int, b as int),
{
    let bp: i64 = if b >= 0 {
        b
    } else {
        -b
    };
    proof {
        lemma_div_mono(
            fx_abs(a as int) * (FX_ONE as int),
            fx_abs(b as int) * (i64::MAX as int),
            bp as int,
        );
        lemma_mul_div_exact(i64::MAX as int, bp as int);
    }
    let q = fx_muldiv(a, FX_ONE, bp);
    if b < 0 {
        -q
    } else {
        q
    }
}

/// Forces `v` into `[lo, hi]`.
pub fn fx_clamp(v: i64, lo: i64, hi: i64) -> (r: i64)
    requires
        lo <= hi,
    ensures
        r as int == fx_clamp_spec(v as int, lo as int, hi as int),
        lo <= r <= hi,
{
    if v < lo {
        lo
    } else if v > hi {
        hi
    } else {
        v
    }
}

/// Rational sine approximation on `[0, FX_PI]`:
/// `sin t ~= 16 t (pi - t) / (5 pi^2 - 4 t (pi - t))`, clamped into
/// `[0, FX_ONE]`.
pub open spec fn bhaskara_spec(t: int) -> int {
    let p = t * (FX_PI as int - t);
    if p <= 0 {
        0
    } else {
        let q = (16 * p * (FX_ONE as int)) / (FIVE_PI_SQ_E12 as int - 4 * p);
        if q > FX_ONE as int {
            FX_ONE as int
        } else {
            q
        }
    }
}

/// Sine on `[0, FX_TAU]`, by odd symmetry about `FX_PI`.
pub open spec fn sin_nonneg_spec(x: int) -> int {
    if x <= FX_PI as int {
        bhaskara_spec(x)
    } else {
        -bhaskara_spec(x - FX_PI as int)
    }
}

/// Sine on `[-FX_TAU, FX_TAU]`, by odd symmetry about zero.
pub open spec fn sin_spec(x: int) -> int {
    if x < 0 {
        -sin_nonneg_spec(-x)
    } else {
        sin_nonneg_spec(x)
    }
}

/// Cosine as a phase-shifted sine.
pub open spec fn cos_spec(x: int) -> int {
    sin_spec(x + FX_HALF_PI as int)
}

/// Arctangent on `[-FX_ONE, FX_ONE]`:
/// `atan z ~= z (pi/4 + 0.273 (1 - |z|))`.
pub open spec fn atan_unit_spec(z: int) -> int {
    fx_mul_spec(z, FX_QUARTER_PI as int + fx_mul_spec(ATAN_C2 as int, FX_ONE as int - fx_abs(z)))
}

/// Full-plane arctangent by octant reduction, in `[-FX_PI, FX_PI]`.
pub open spec fn atan2_spec(y: int, x: int) -> int {
    if x == 0 && y == 0 {
        0
    } else if fx_abs(y) <= fx_abs(x) {
        let z = fx_div_spec(y, x);
        if x > 0 {
            atan_unit_spec(z)
        } else if y >= 0 {
            atan_unit_spec(z) + FX_PI as int
        } else {
            atan_unit_spec(z) - FX_PI as int
        }
    } else {
        let z = fx_div_spec(x, y);
        if y > 0 {
            FX_HALF_PI as int - atan_unit_spec(z)
        } else {
            -FX_HALF_PI as int - atan_unit_spec(z)
        }
    }
}

/// The shortest-path correction: an angle folded into `(-FX_PI, FX_PI]`
/// (up to the one fixed point `-FX_PI` itself).
pub open spec fn normalize_angle_spec(a: int) -> int {
    if a > FX_PI as int {
        a - FX_TAU as int
    } else if a < -FX_PI as int {
        a + FX_TAU as int
    } else {
        a
    }
}

/// Core of the sine: the clamped rational approximation on `[0, FX_PI]`.
fn bhaskara_fx(t: i64) -> (r: i64)
    requires
        0 <= t <= FX_PI,
    ensures
        r as int == bhaskara_spec(t as int),
        0 <= r <= FX_ONE,
{
    let pi_minus: i64 = FX_PI - t;
    assert(0 <= (t as int) * (pi_minus as int) && 4 * ((t as int) * (pi_minus as int)) <= (
    FX_PI as int) * (FX_PI as int)) by (nonlinear_arith)
        requires
            0 <= t as int,
            0 <= pi_minus as int,
            (t as int) + (pi_minus as int) == FX_PI as int,
    ;
    let p: i128 = (t as i128) * (pi_minus as i128);
    assert(p as int == (t as int) * (pi_minus as int));
    if p <= 0 {
        0
    } else {
        let num: i128 = 16 * p * 1_000_000i128;
        let den: i128 = FIVE_PI_SQ_E12 - 4 * p;
        let q: i128 = num / den;
        assert(q >= 0) by (nonlinear_arith)
            requires
                q == (num as int) / (den as int),
                num >= 0,
                den > 0,
        ;
        if q > FX_ONE as i128 {
            FX_ONE
        } else {
            q as i64
        }
    }
}

/// Sine of a nonnegative angle up to a full turn.
fn sin_nonneg_fx(x: i64) -> (r: i64)
    requires
        0 <= x <= FX_TAU,
    ensures
        r as int == sin_nonneg_spec(x as int),
        -FX_ONE <= r <= FX_ONE,
{
    if x <= FX_PI {
        bhaskara_fx(x)
    } else {
        -bhaskara_fx(x - FX_PI)
    }
}

/// Sine of an angle within one turn of zero, in micro-radians.
pub fn sin_fx(x: i64) -> (r: i64)
    requires
        -FX_TAU <= x <= FX_TAU,
    ensures
        r as int == sin_spec(x as int),
        -FX_ONE <= r <= FX_ONE,
{
    if x < 0 {
        -sin_nonneg_fx(-x)
    } else {
        sin_nonneg_fx(x)
    }
}

/// Cosine, as the sine shifted by a quarter turn.
pub fn cos_fx(x: i64) -> (r: i64)
    requires
        -FX_TAU <= x <= FX_TAU - FX_HALF_PI,
    ensures
        r as int == cos_spec(x as int),
        -FX_ONE <= r <= FX_ONE,
{
    sin_fx(x + FX_HALF_PI)
}

/// One bisection step toward the inverse cosine: walks `[lo, hi)` down
/// the decreasing `cos_spec` until one micro-radian remains.
pub open spec fn acos_bisect(w: int, lo: int, hi: int) -> int
    decreases hi - lo,
{
    if hi - lo <= 1 {
        lo
    } else {
        let mid = lo + (hi - lo) / 2;
        if cos_spec(mid) >= w {
            acos_bisect(w, mid, hi)
        } else {
            acos_bisect(w, lo, mid)
        }
    }
}

/// Inverse cosine of a clamped input, by bisection over `[0, FX_PI]`.
pub open spec fn acos_spec(w: int) -> int {
    let wc = fx_clamp_spec(w, -(FX_ONE as int), FX_ONE as int);
    if wc >= FX_ONE as int {
        0
    } else if wc <= -(FX_ONE as int) {
        FX_PI as int
    } else {
        acos_bisect(wc, 0, FX_PI as int)
    }
}

/// Inverse cosine by bisection against `cos_fx`, in `[0, FX_PI]`.
/// The input is clamped into `[-FX_ONE, FX_ONE]` first, as a dot product
/// fed to it may stray slightly outside the unit range. For an input
/// strictly inside the unit range, the result is the greatest angle
/// whose cosine still reaches the input: the crossing is bracketed to
/// one micro-radian.
pub fn acos_fx(w: i64) -> (r: i64)
    ensures
        0 <= r <= FX_PI,
        w >= FX_ONE ==> r == 0,
        w <= -FX_ONE ==> r == FX_PI,
        -FX_ONE < w < FX_ONE ==> cos_spec(r as int) >= w && cos_spec(r as int + 1) < w,
        r as int == acos_spec(w as int),
{
    let wc = fx_clamp(w, -FX_ONE, FX_ONE);
    if wc >= FX_ONE {
        return 0;
    }
    if wc <= -FX_ONE {
        return FX_PI;
    }
    proof {
        // the approximation is exact at the interval's ends: evaluate
        // the rational sine at the quarter turn by hand
        assert(1_570_796int * (3_141_593int - 1_570_796) == 2_467_401_644_412) by (nonlinear_arith);
        assert(16int * 2_467_401_644_412 * 1_000_000 == 39_478_426_310_592_000_000)
            by (nonlinear_arith);
        assert(39_478_426_310_592_000_000int / (49_348_022_005_447int - 4 * 2_467_401_644_412)
            == 1_000_000) by (nonlinear_arith);
        assert(bhaskara_spec(FX_HALF_PI as int) == FX_ONE as int);
        assert(cos_spec(0) == FX_ONE);
        assert(cos_spec(FX_PI as int) == -FX_ONE);
    }
    let mut lo: i64 = 0;
    let mut hi: i64 = FX_PI;
    while hi - lo > 1
        invariant
            0 <= lo < hi <= FX_PI,
            -FX_ONE < wc < FX_ONE,
            wc as int == fx_clamp_spec(w as int, -(FX_ONE as int), FX_ONE as int),
            cos_spec(lo as int) >= wc,
            cos_spec(hi as int) < wc,
            acos_bisect(wc as int, lo as int, hi as int) == acos_spec(w as int),
        decreases hi - lo,
    {
        let mid = lo + (hi - lo) / 2;
        let c = cos_fx(mid);
        proof {
            assert(acos_bisect(wc as int, lo as int, hi as int) == if cos_spec(mid as int)
                >= wc as int {
                acos_bisect(wc as int, mid as int, hi as int)
            } else {
                acos_bisect(wc as int, lo as int, mid as int)
            });
        }
        if c >= wc {
            lo = mid;
        } else {
            hi = mid;
        }
    }
    lo
}

/// Arctangent of a ratio already within `[-FX_ONE, FX_ONE]`.
fn atan_unit_fx(z: i64) -> (r: i64)
    requires
        -FX_ONE <= z <= FX_ONE,
    ensures
        r as int == atan_unit_spec(z as int),
        fx_abs(r as int) <= FX_QUARTER_PI + ATAN_C2,
        z >= 0 ==> r >= 0,
        z <= 0 ==> r <= 0,
{
    let za: i64 = if z < 0 {
        -z
    } else {
        z
    };
    proof {
        lemma_mul_le(fx_abs(ATAN_C2 as int), fx_abs(FX_ONE as int - za as int), 273_000, 1_000_000);
        lemma_muldiv_abs_le(
            ATAN_C2 as int,
            FX_ONE as int - za as int,
            FX_ONE as int,
            273_000,
            1_000_000,
        );
    }
    let inner = FX_QUARTER_PI + fx_mul(ATAN_C2, FX_ONE - za);
    proof {
        lemma_mul_le(fx_abs(z as int), fx_abs(inner as int), 1_000_000, 1_058_398);
        lemma_muldiv_abs_le(z as int, inner as int, FX_ONE as int, 1_000_000, 1_058_398);
    }
    fx_mul(z, inner)
}

/// Full-plane arctangent `atan2(y, x)`, in `[-FX_PI, FX_PI]`.
pub fn atan2_fx(y: i64, x: i64) -> (r: i64)
    requires
        fx_abs(y as int) <= 1_000_000_000_000_000,
        fx_abs(x as int) <= 1_000_000_000_000_000,
    ensures
        r as int == atan2_spec(y as int, x as int),
        -FX_PI <= r <= FX_PI,
{
    let ya = if y < 0 { -y } else { y };
    let xa = if x < 0 { -x } else { x };
    if x == 0 && y == 0 {
        0
    } else if ya <= xa {
        proof {
            lemma_div_mono(
                fx_abs(y as int) * (FX_ONE as int),
                fx_abs(x as int) * (FX_ONE as int),
                fx_abs(x as int),
            );
            lemma_mul_div_exact(FX_ONE as int, fx_abs(x as int));
        }
        let z = fx_div(y, x);
        let a = atan_unit_fx(z);
        if x > 0 {
            a
        } else if y >= 0 {
            a + FX_PI
        } else {
            a - FX_PI
        }
    } else {
        proof {
            lemma_div_mono(
                fx_abs(x as int) * (FX_ONE as int),
                fx_abs(y as int) * (FX_ONE as int),
                fx_abs(y as int),
            );
            lemma_mul_div_exact(FX_ONE as int, fx_abs(y as int));
        }
        let z = fx_div(x, y);
        let a = atan_unit_fx(z);
        if y > 0 {
            FX_HALF_PI - a
        } else {
            -FX_HALF_PI - a
        }
    }
}

/// Folds an angle into `(-FX_PI, FX_PI]`; only the input `-FX_PI` itself
/// maps to `-FX_PI`.
pub fn normalize_angle(a: i64) -> (r: i64)
    requires
        -FX_TAU <= a <= 2 * FX_PI,
    ensures
        r as int == normalize_angle_spec(a as int),
        -FX_PI <= r <= FX_PI,
        a >= 0 ==> -FX_PI < r,
{
    if a > FX_PI {
        a - FX_TAU
    } else if a < -FX_PI {
        a + FX_TAU
    } else {
        a
    }
}

/// The angle handed to the proportional term is always a shortest-path
/// correction: folding any angle of `[0, 2 pi]` - the range an axis-angle
/// decomposition can produce - lands strictly inside `(-FX_PI, FX_PI]`.
pub proof fn lemma_normalized_angle_in_half_turn(a: int)
    requires
        0 <= a <= 2 * FX_PI,
    ensures
        -FX_PI < normalize_angle_spec(a) <= FX_PI,
{
}

/// One bisection step toward the integer square root: the greatest value
/// of `[lo, hi)` whose square is at most `n`, assuming `lo` qualifies
/// and `hi` does not.
pub open spec fn isqrt_bisect(n: int, lo: int, hi: int) -> int
    decreases hi - lo,
{
    if hi - lo <= 1 {
        lo
    } else {
        let mid = lo + (hi - lo) / 2;
        if mid * mid <= n {
            isqrt_bisect(n, mid, hi)
        } else {
            isqrt_bisect(n, lo, mid)
        }
    }
}

/// Integer square root by bisection over the 64-bit range.
pub open spec fn isqrt_spec(n: int) -> int {
    isqrt_bisect(n, 0, 0x1_0000_0000_0000_0000)
}

/// Integer square root: the greatest `r` with `r * r <= n`.
pub fn isqrt_u128(n: u128) -> (r: u64)
    ensures
        (r as int) * (r as int) <= n as int,
        (n as int) < ((r as int) + 1) * ((r as int) + 1),
        r as int == isqrt_spec(n as int),
{
    let mut lo: u128 = 0;
    let mut hi: u128 = 0x1_0000_0000_0000_0000u128;
    assert((hi as int) * (hi as int) > n as int) by (nonlinear_arith)
        requires
            hi == 0x1_0000_0000_0000_0000u128,
            n <= u128::MAX,
    ;
    while hi - lo > 1
        invariant
            lo < hi,
            hi <= 0x1_0000_0000_0000_0000u128,
            (lo as int) * (lo as int) <= n as int,
            (n as int) < (hi as int) * (hi as int),
            isqrt_bisect(n as int, lo as int, hi as int) == isqrt_spec(n as int),
        decreases hi - lo,
    {
        let mid: u128 = lo + (hi - lo) / 2;
        assert(lo < mid < hi);
        assert(mid * mid <= u128::MAX) by (nonlinear_arith)
            requires
                mid < 0x1_0000_0000_0000_0000u128,
        ;
        proof {
            assert(isqrt_bisect(n as int, lo as int, hi as int) == if (mid as int) * (mid as int)
                <= n as int {
                isqrt_bisect(n as int, mid as int, hi as int)
            } else {
                isqrt_bisect(n as int, lo as int, mid as int)
            });
        }
        if mid * mid <= n {
            lo = mid;
        } else {
            hi = mid;
        }
    }
    assert(hi - lo == 1);
    lo as u64
}

} // verus!
