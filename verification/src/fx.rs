//! Signed 64-bit fixed-point scalars with 16 fraction bits.
//!
//! Every arithmetic operation is total: results are saturated into the
//! symmetric range `[-FX_MAX, FX_MAX]`, multiplication and division truncate
//! toward zero, and division by zero yields zero. Each executable operation
//! is specified exactly by a spec-level mirror over `int`.

use vstd::prelude::*;

verus! {

/// Number of fraction bits of a fixed-point scalar.
pub const FX_FRAC_BITS: u32 = 16;

/// The fixed-point representation of one: `2^16`.
pub const FX_ONE: i64 = 65536;

/// Largest representable fixed-point value.
pub const FX_MAX: i64 = 9223372036854775807;

/// Smallest representable fixed-point value; the range is symmetric so that
/// negation never overflows.
pub const FX_MIN: i64 = -9223372036854775807;

/// Saturate an unbounded integer into the symmetric fixed-point range.
pub open spec fn sat64(x: int) -> int {
    if x > FX_MAX as int {
        FX_MAX as int
    } else if x < FX_MIN as int {
        FX_MIN as int
    } else {
        x
    }
}

/// Absolute value of an unbounded integer.
pub open spec fn abs_int(x: int) -> int {
    if x < 0 {
        -x
    } else {
        x
    }
}

/// Quotient of `a` and `b` truncated toward zero; zero when `b == 0`.
pub open spec fn div_trunc(a: int, b: int) -> int {
    if b == 0 {
        0
    } else {
        let q = abs_int(a) / abs_int(b);
        if (a < 0) != (b < 0) {
            -q
        } else {
            q
        }
    }
}

/// Saturating fixed-point addition.
pub open spec fn spec_add(a: int, b: int) -> int {
    sat64(a + b)
}

/// Saturating fixed-point subtraction.
pub open spec fn spec_sub(a: int, b: int) -> int {
    sat64(a - b)
}

/// Saturating fixed-point negation.
pub open spec fn spec_neg(a: int) -> int {
    sat64(-a)
}

/// Saturating fixed-point multiplication: the double-width product is
/// rescaled by `2^16`, truncating toward zero.
pub open spec fn spec_mul(a: int, b: int) -> int {
    sat64(div_trunc(a * b, FX_ONE as int))
}

/// Saturating fixed-point division, truncating toward zero; zero when the
/// divisor is zero.
pub open spec fn spec_div(a: int, b: int) -> int {
    if b == 0 {
        0
    } else {
        sat64(div_trunc(a * (FX_ONE as int), b))
    }
}

/// The non-negative part of a value.
pub open spec fn spec_max0(a: int) -> int {
    if a > 0 {
        a
    } else {
        0
    }
}

/// Linear interpolation `a + t * (b - a)` over the saturating operations.
pub open spec fn spec_lerp(a: int, b: int, t: int) -> int {
    spec_add(a, spec_mul(t, spec_sub(b, a)))
}

/// Largest natural number whose square does not exceed `u`.
pub open spec fn sqrt_floor(u: nat) -> nat {
    choose|r: nat| #[trigger] (r * r) <= u && (r + 1) * (r + 1) > u
}

/// Square root floors are unique, so the `choose` in [`sqrt_floor`] picks the
/// one witness that an executable search produces.
pub proof fn lemma_sqrt_floor_unique(u: nat, r: nat)
    requires
        r * r <= u,
        (r + 1) * (r + 1) > u,
    ensures
        sqrt_floor(u) == r,
{
    assert(exists|s: nat| #[trigger] (s * s) <= u && (s + 1) * (s + 1) > u) by {
        assert(r * r <= u && (r + 1) * (r + 1) > u);
    }
    let s = sqrt_floor(u);
    assert(s * s <= u && (s + 1) * (s + 1) > u);
    if s < r {
        assert((s + 1) * (s + 1) <= r * r) by (nonlinear_arith)
            requires s + 1 <= r,
        ;
    }
    if r < s {
        assert((r + 1) * (r + 1) <= s * s) by (nonlinear_arith)
            requires r + 1 <= s,
        ;
    }
}

/// Multiplying by one is exact for every representable value, and negating
/// one factor negates the truncated product.
pub proof fn lemma_mul_one(v: int)
    requires
        -0x7fffffffffffffff <= v <= 0x7fffffffffffffff,
    ensures
        spec_mul(v, FX_ONE as int) == v,
        spec_mul(FX_ONE as int, v) == v,
        spec_mul(-(FX_ONE as int), v) == -v,
        spec_mul(v, -(FX_ONE as int)) == -v,
{
    assert(abs_int(v * 65536) == abs_int(v) * 65536) by (nonlinear_arith);
    assert(abs_int(65536 * v) == abs_int(v) * 65536) by (nonlinear_arith);
    assert(abs_int(v * -65536) == abs_int(v) * 65536) by (nonlinear_arith);
    assert(abs_int(-65536 * v) == abs_int(v) * 65536) by (nonlinear_arith);
    vstd::arithmetic::div_mod::lemma_div_multiples_vanish(abs_int(v), 65536);
    assert(65536 * abs_int(v) == abs_int(v) * 65536) by (nonlinear_arith);
}

/// Multiplying by zero gives zero.
pub proof fn lemma_mul_zero(v: int)
    ensures
        spec_mul(v, 0) == 0,
        spec_mul(0, v) == 0,
{
    assert(v * 0 == 0) by (nonlinear_arith);
    assert(0 * v == 0) by (nonlinear_arith);
}

/// Clamp a double-width intermediate into the representable range.
pub fn sat_from_i128(x: i128) -> (r: i64)
    ensures
        r as int == sat64(x as int),
{
    if x > FX_MAX as i128 {
        FX_MAX
    } else if x < FX_MIN as i128 {
        FX_MIN
    } else {
        x as i64
    }
}

/// Saturating fixed-point addition.
pub fn fx_add(a: i64, b: i64) -> (r: i64)
    ensures
        r as int == spec_add(a as int, b as int),
{
    sat_from_i128(a as i128 + b as i128)
}

/// Saturating fixed-point subtraction.
pub fn fx_sub(a: i64, b: i64) -> (r: i64)
    ensures
        r as int == spec_sub(a as int, b as int),
{
    sat_from_i128(a as i128 - b as i128)
}

/// Saturating fixed-point negation.
pub fn fx_neg(a: i64) -> (r: i64)
    ensures
        r as int == spec_neg(a as int),
{
    sat_from_i128(-(a as i128))
}

/// Truncating division of a double-width intermediate by a positive divisor,
/// computed over magnitudes.
fn div_trunc_i128(a: i128, b: i128) -> (r: i128)
    requires
        b > 0,
        -(a as int) < 0x7fffffffffffffffffffffffffffffff,
    ensures
        r as int == div_trunc(a as int, b as int),
{
    let m: u128 = if a < 0 {
        (-a) as u128
    } else {
        a as u128
    };
    let q: u128 = m / (b as u128);
    assert(q == abs_int(a as int) / abs_int(b as int));
    if a < 0 {
        -(q as i128)
    } else {
        q as i128
    }
}

/// Saturating fixed-point multiplication.
pub fn fx_mul(a: i64, b: i64) -> (r: i64)
    ensures
        r as int == spec_mul(a as int, b as int),
{
    proof {
        assert((a as int) * (b as int) <= 0x40000000000000000000000000000000int
            && (a as int) * (b as int) >= -0x40000000000000000000000000000000int) by (nonlinear_arith)
            requires
                -0x8000000000000000int <= a as int <= 0x7fffffffffffffffint,
                -0x8000000000000000int <= b as int <= 0x7fffffffffffffffint,
        ;
    }
    let p: i128 = (a as i128) * (b as i128);
    let q: i128 = div_trunc_i128(p, FX_ONE as i128);
    sat_from_i128(q)
}

/// Saturating fixed-point division; zero when the divisor is zero.
pub fn fx_div(a: i64, b: i64) -> (r: i64)
    ensures
        r as int == spec_div(a as int, b as int),
{
    if b == 0 {
        0
    } else {
        let n: i128 = (a as i128) * 65536;
        let m: u128 = if n < 0 {
            (-n) as u128
        } else {
            n as u128
        };
        let d: u128 = if b < 0 {
            (-(b as i128)) as u128
        } else {
            b as u128
        };
        let q: u128 = m / d;
        assert(q == abs_int(n as int) / abs_int(b as int));
        let neg: bool = (a < 0) != (b < 0);
        let signed: i128 = if neg && a != 0 {
            -(q as i128)
        } else {
            q as i128
        };
        assert(signed as int == div_trunc(n as int, b as int));
        sat_from_i128(signed)
    }
}

/// Fixed-point linear interpolation `a + t * (b - a)`.
pub fn fx_lerp(a: i64, b: i64, t: i64) -> (r: i64)
    ensures
        r as int == spec_lerp(a as int, b as int, t as int),
{
    fx_add(a, fx_mul(t, fx_sub(b, a)))
}

/// Smaller of two fixed-point values.
pub fn fx_min(a: i64, b: i64) -> (r: i64)
    ensures
        r == if a <= b { a } else { b },
{
    if a <= b { a } else { b }
}

/// Larger of two fixed-point values.
pub fn fx_max(a: i64, b: i64) -> (r: i64)
    ensures
        r == if a >= b { a } else { b },
{
    if a >= b { a } else { b }
}

/// Clamp a fixed-point value into `[lo, hi]`.
pub fn fx_clamp(a: i64, lo: i64, hi: i64) -> (r: i64)
    requires
        lo <= hi,
    ensures
        r == if a < lo { lo } else if a > hi { hi } else { a },
{
    if a < lo {
        lo
    } else if a > hi {
        hi
    } else {
        a
    }
}

/// Truncating division of a fixed-point value by a positive plain integer.
pub fn fx_divn(a: i64, n: i64) -> (r: i64)
    requires
        n > 0,
    ensures
        r as int == div_trunc(a as int, n as int),
{
    let wide: i128 = a as i128;
    let m: u128 = if wide < 0 {
        (-wide) as u128
    } else {
        wide as u128
    };
    let q: u128 = m / (n as u128);
    assert(q == abs_int(a as int) / abs_int(n as int));
    let signed: i128 = if wide < 0 {
        -(q as i128)
    } else {
        q as i128
    };
    assert(-(q as int) >= -0x8000000000000000int);
    signed as i64
}

/// Euclidean remainder of a fixed-point value by a positive modulus: the
/// result lies in `[0, m)`.
pub fn fx_rem_euclid(a: i64, m: i64) -> (r: i64)
    requires
        m > 0,
    ensures
        r as int == (a as int) % (m as int),
{
    if a >= 0 {
        let q: u64 = (a as u64) % (m as u64);
        proof {
            assert((a as u64) as int == a as int);
            assert(q as int == (a as int) % (m as int));
        }
        q as i64
    } else {
        let neg: u128 = (-(a as i128)) as u128;
        let rm: u128 = neg % (m as u128);
        proof {
            assert(neg as int == -(a as int));
            assert(rm as int == (-(a as int)) % (m as int));
        }
        if rm == 0 {
            proof {
                lemma_neg_mod(a as int, m as int);
            }
            0i64
        } else {
            proof {
                lemma_neg_mod(a as int, m as int);
            }
            m - (rm as i64)
        }
    }
}

/// Relates the Euclidean remainders of a value and of its negation.
proof fn lemma_neg_mod(a: int, m: int)
    requires
        m > 0,
        a < 0,
    ensures
        (-a) % m == 0 ==> a % m == 0,
        (-a) % m != 0 ==> a % m == m - ((-a) % m),
{
    let q = (-a) / m;
    let r = (-a) % m;
    vstd::arithmetic::div_mod::lemma_fundamental_div_mod(-a, m);
    assert(-a == m * q + r);
    if r == 0 {
        assert(m * (-q) == -(m * q)) by (nonlinear_arith);
        assert(a == m * (-q));
        vstd::arithmetic::div_mod::lemma_mod_multiples_basic(-q, m);
    } else {
        assert(m * (-q - 1) == -(m * q) - m) by (nonlinear_arith);
        assert(a == m * (-q - 1) + (m - r));
        vstd::arithmetic::div_mod::lemma_fundamental_div_mod_converse_mod(a, m, -q - 1, m - r);
    }
}

/// The fixed-point representation of pi.
pub const FX_PI: i64 = 205887;

/// The fixed-point representation of pi over two.
pub const FX_HALF_PI: i64 = 102944;

/// The fixed-point representation of two pi.
pub const FX_TWO_PI: i64 = 411775;

/// Odd Taylor polynomial of the sine about zero, degree seven, over the
/// saturating fixed-point operations; accurate on `[-pi/2, pi/2]`.
pub open spec fn spec_sin_poly(x: int) -> int {
    let x2 = spec_mul(x, x);
    let x3 = spec_mul(x2, x);
    let x5 = spec_mul(x3, x2);
    let x7 = spec_mul(x5, x2);
    spec_sub(
        spec_add(spec_sub(x, div_trunc(x3, 6)), div_trunc(x5, 120)),
        div_trunc(x7, 5040),
    )
}

/// Fixed-point sine: the argument is reduced modulo two pi into
/// `[-pi/2, pi/2]` by the sine's symmetries, then the Taylor polynomial is
/// evaluated.
pub open spec fn spec_sin(a: int) -> int {
    let m = a % (FX_TWO_PI as int);
    let x = if m > FX_PI as int {
        m - FX_TWO_PI as int
    } else {
        m
    };
    let y = if x > FX_HALF_PI as int {
        FX_PI as int - x
    } else if x < -(FX_HALF_PI as int) {
        -(FX_PI as int) - x
    } else {
        x
    };
    spec_sin_poly(y)
}

/// Even Taylor polynomial of the cosine about zero, degree six, over the
/// saturating fixed-point operations; accurate on `[0, pi/2]` and exactly
/// one at zero.
pub open spec fn spec_cos_poly(x: int) -> int {
    let x2 = spec_mul(x, x);
    let x4 = spec_mul(x2, x2);
    let x6 = spec_mul(x4, x2);
    spec_sub(
        spec_add(spec_sub(FX_ONE as int, div_trunc(x2, 2)), div_trunc(x4, 24)),
        div_trunc(x6, 720),
    )
}

/// Fixed-point cosine: the argument is reduced modulo two pi into
/// `[0, pi/2]` by the cosine's symmetries, then the Taylor polynomial is
/// evaluated, negated on the middle half of the period.
pub open spec fn spec_cos(a: int) -> int {
    let m = a % (FX_TWO_PI as int);
    let x = if m > FX_PI as int {
        FX_TWO_PI as int - m
    } else {
        m
    };
    if x > FX_HALF_PI as int {
        spec_neg(spec_cos_poly(FX_PI as int - x))
    } else {
        spec_cos_poly(x)
    }
}

/// Fixed-point sine.
pub fn fx_sin(a: i64) -> (r: i64)
    ensures
        r as int == spec_sin(a as int),
{
    let m: i64 = fx_rem_euclid(a, FX_TWO_PI);
    let x: i64 = if m > FX_PI {
        m - FX_TWO_PI
    } else {
        m
    };
    let y: i64 = if x > FX_HALF_PI {
        FX_PI - x
    } else if x < -FX_HALF_PI {
        -FX_PI - x
    } else {
        x
    };
    let y2: i64 = fx_mul(y, y);
    let y3: i64 = fx_mul(y2, y);
    let y5: i64 = fx_mul(y3, y2);
    let y7: i64 = fx_mul(y5, y2);
    fx_sub(fx_add(fx_sub(y, fx_divn(y3, 6)), fx_divn(y5, 120)), fx_divn(y7, 5040))
}

/// Fixed-point cosine.
pub fn fx_cos(a: i64) -> (r: i64)
    ensures
        r as int == spec_cos(a as int),
{
    let m: i64 = fx_rem_euclid(a, FX_TWO_PI);
    let x: i64 = if m > FX_PI {
        FX_TWO_PI - m
    } else {
        m
    };
    let y: i64 = if x > FX_HALF_PI {
        FX_PI - x
    } else {
        x
    };
    let y2: i64 = fx_mul(y, y);
    let y4: i64 = fx_mul(y2, y2);
    let y6: i64 = fx_mul(y4, y2);
    let p: i64 = fx_sub(
        fx_add(fx_sub(FX_ONE, fx_divn(y2, 2)), fx_divn(y4, 24)),
        fx_divn(y6, 720),
    );
    if x > FX_HALF_PI {
        fx_neg(p)
    } else {
        p
    }
}

/// The fixed-point representation of pi over four.
pub const FX_QUARTER_PI: i64 = 51472;

/// The polynomial coefficient of the arctangent approximation.
pub const FX_ATAN_C: i64 = 17891;

/// Absolute value saturated into the representable range.
pub open spec fn abs_sat(z: int) -> int {
    sat64(abs_int(z))
}

/// Arctangent of a ratio in `[-1, 1]`, by the approximation
/// `atan(z) = (pi/4) z + c z (1 - |z|)` with `c = 0.273`.
pub open spec fn spec_atan_unit(z: int) -> int {
    spec_add(
        spec_mul(FX_QUARTER_PI as int, z),
        spec_mul(spec_mul(FX_ATAN_C as int, z), spec_sub(FX_ONE as int, abs_sat(z))),
    )
}

/// Arctangent of `y / x` in the correct quadrant, in `(-pi, pi]`; zero when
/// both arguments are zero.
pub open spec fn spec_atan2(y: int, x: int) -> int {
    let ax = abs_sat(x);
    let ay = abs_sat(y);
    if ax == 0 && ay == 0 {
        0
    } else if ay <= ax {
        let base = spec_atan_unit(spec_div(y, ax));
        if x >= 0 {
            base
        } else if y >= 0 {
            spec_sub(FX_PI as int, base)
        } else {
            spec_sub(-(FX_PI as int), base)
        }
    } else {
        let base = spec_atan_unit(spec_div(x, ay));
        if y >= 0 {
            spec_sub(FX_HALF_PI as int, base)
        } else {
            spec_sub(-(FX_HALF_PI as int), base)
        }
    }
}

/// Arctangent of a ratio in `[-1, 1]`.
fn fx_atan_unit(z: i64) -> (r: i64)
    ensures
        r as int == spec_atan_unit(z as int),
{
    let az: i64 = if z < 0 {
        fx_neg(z)
    } else {
        z
    };
    proof {
        assert(az as int == abs_sat(z as int));
    }
    fx_add(fx_mul(FX_QUARTER_PI, z), fx_mul(fx_mul(FX_ATAN_C, z), fx_sub(FX_ONE, az)))
}

/// Fixed-point two-argument arctangent.
pub fn fx_atan2(y: i64, x: i64) -> (r: i64)
    ensures
        r as int == spec_atan2(y as int, x as int),
{
    let ax: i64 = if x < 0 {
        fx_neg(x)
    } else {
        x
    };
    let ay: i64 = if y < 0 {
        fx_neg(y)
    } else {
        y
    };
    proof {
        assert(ax as int == abs_sat(x as int));
        assert(ay as int == abs_sat(y as int));
    }
    if ax == 0 && ay == 0 {
        0
    } else if ay <= ax {
        let base: i64 = fx_atan_unit(fx_div(y, ax));
        if x >= 0 {
            base
        } else if y >= 0 {
            fx_sub(FX_PI, base)
        } else {
            fx_sub(-FX_PI, base)
        }
    } else {
        let base: i64 = fx_atan_unit(fx_div(x, ay));
        if y >= 0 {
            fx_sub(FX_HALF_PI, base)
        } else {
            fx_sub(-FX_HALF_PI, base)
        }
    }
}

/// Arcsine of a value in `[-1, 1]`, as the angle whose sine and cosine are
/// `y` and `sqrt(1 - y^2)`.
pub open spec fn spec_asin(y: int) -> int {
    spec_atan2(y, spec_sqrt(spec_sub(FX_ONE as int, spec_mul(y, y))))
}

/// Fixed-point arcsine of a value in `[-1, 1]`.
pub fn fx_asin(y: i64) -> (r: i64)
    ensures
        r as int == spec_asin(y as int),
{
    fx_atan2(y, fx_sqrt(fx_sub(FX_ONE, fx_mul(y, y))))
}

/// Fixed-point tangent, as sine over cosine; saturates near the poles.
pub fn fx_tan(a: i64) -> (r: i64)
    ensures
        r as int == spec_div(spec_sin(a as int), spec_cos(a as int)),
{
    fx_div(fx_sin(a), fx_cos(a))
}

/// Largest `u64` whose square does not exceed `u`.
fn isqrt_u128(u: u128) -> (r: u128)
    requires
        u < 0x100000000000000000000 as u128,
    ensures
        r as nat == sqrt_floor(u as nat),
        r * r <= u,
{
    let mut lo: u128 = 0;
    let mut hi: u128 = 0x10000000000;
    proof {
        assert(hi * hi > u) by (nonlinear_arith)
            requires hi == 0x10000000000 as u128, u < 0x100000000000000000000 as u128,
        ;
    }
    while lo < hi
        invariant
            lo <= hi,
            hi <= 0x10000000000 as u128,
            lo * lo <= u as nat,
            (hi + 1) * (hi + 1) > u as nat,
        decreases hi - lo,
    {
        let mid: u128 = lo + (hi - lo + 1) / 2;
        assert(lo < mid <= hi);
        proof {
            assert(mid * mid <= 0x100000000000000000000int) by (nonlinear_arith)
                requires mid <= 0x10000000000 as u128,
            ;
        }
        let sq: u128 = mid * mid;
        if sq <= u {
            lo = mid;
        } else {
            hi = mid - 1;
        }
    }
    proof {
        lemma_sqrt_floor_unique(u as nat, lo as nat);
    }
    lo
}

/// Fixed-point square root of the integer value `a / 2^16`, as a fixed-point
/// value; zero for non-positive inputs.
pub open spec fn spec_sqrt(a: int) -> int {
    if a <= 0 {
        0
    } else {
        sqrt_floor((a * (FX_ONE as int)) as nat) as int
    }
}

/// Gamma correction `x ^ (1 / 2.2)`, approximated by the product of nested
/// square roots at the binary digits of the exponent:
/// `x^(1/4) * x^(1/8) * x^(1/16) * x^(1/64) * x^(1/1024)`.
pub open spec fn spec_gamma(x: int) -> int {
    let s1 = spec_sqrt(x);
    let s2 = spec_sqrt(s1);
    let s3 = spec_sqrt(s2);
    let s4 = spec_sqrt(s3);
    let s5 = spec_sqrt(s4);
    let s6 = spec_sqrt(s5);
    let s7 = spec_sqrt(s6);
    let s8 = spec_sqrt(s7);
    let s9 = spec_sqrt(s8);
    let s10 = spec_sqrt(s9);
    spec_mul(spec_mul(spec_mul(spec_mul(s2, s3), s4), s6), s10)
}

/// Fixed-point gamma correction `x ^ (1 / 2.2)`.
pub fn fx_gamma(x: i64) -> (r: i64)
    ensures
        r as int == spec_gamma(x as int),
{
    let s1: i64 = fx_sqrt(x);
    let s2: i64 = fx_sqrt(s1);
    let s3: i64 = fx_sqrt(s2);
    let s4: i64 = fx_sqrt(s3);
    let s5: i64 = fx_sqrt(s4);
    let s6: i64 = fx_sqrt(s5);
    let s7: i64 = fx_sqrt(s6);
    let s8: i64 = fx_sqrt(s7);
    let s9: i64 = fx_sqrt(s8);
    let s10: i64 = fx_sqrt(s9);
    fx_mul(fx_mul(fx_mul(fx_mul(s2, s3), s4), s6), s10)
}

/// Fixed-point square root; zero for non-positive inputs.
pub fn fx_sqrt(a: i64) -> (r: i64)
    ensures
        r as int == spec_sqrt(a as int),
        r >= 0,
{
    if a <= 0 {
        0
    } else {
        let u: u128 = (a as u128) * 65536;
        let s: u128 = isqrt_u128(u);
        proof {
            assert(s * s <= u as nat);
            assert(s < 0x8000000000000000 as u128) by (nonlinear_arith)
                requires
                    s * s <= u as nat,
                    u < 0x100000000000000000000 as u128,
            ;
        }
        s as i64
    }
}

} // verus!
