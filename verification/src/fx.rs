//! Fixed-point arithmetic for the simulation.
//!
//! A quantity of one game unit (a pixel, a second, a radian) is stored as
//! [`SCALE`] sub-units in an `i64`. Products of two fixed-point values are
//! computed in 128-bit arithmetic and divided by [`SCALE`], truncating toward
//! zero. Sums that could leave the representable range saturate at a named
//! cap; every operation states its result exactly, saturation included.

use vstd::prelude::*;
use vstd::arithmetic::div_mod::{
    lemma_div_is_ordered, lemma_div_multiples_vanish, lemma_div_pos_is_pos,
    lemma_mod_add_multiples_vanish, lemma_mod_sub_multiples_vanish, lemma_small_mod,
};
use vstd::arithmetic::mul::{
    lemma_mul_inequality, lemma_mul_is_commutative, lemma_mul_nonnegative, lemma_mul_upper_bound,
};

verus! {

/// Sub-units per game unit.
pub const SCALE: i64 = 1024;

/// Magnitude cap on every scalar read from the configuration.
pub const CFG_MAX: i64 = 16777216;

/// Magnitude cap on a single timestep.
pub const DT_MAX: i64 = 16384;

/// Magnitude at which the card-driven accumulators saturate.
pub const EXTRA_MAX: i64 = 1073741824;

/// Magnitude at which velocity components saturate.
pub const VEL_CAP: i64 = 4294967296;

/// Magnitude at which positions saturate.
pub const POS_CAP: i64 = 35184372088832;

/// Magnitude at which the cosmetic rotation angle saturates.
pub const ROT_CAP: i64 = 4503599627370496;

/// Magnitude at which the bounded oscillators saturate.
pub const OSC_CAP: i64 = 17179869184;

/// Absolute value of a mathematical integer.
pub open spec fn abs_i(a: int) -> int {
    if a < 0 { -a } else { a }
}

/// The smaller of two mathematical integers.
pub open spec fn min_i(a: int, b: int) -> int {
    if a < b { a } else { b }
}

/// Clamp of a mathematical integer into `[lo, hi]`.
pub open spec fn clamp_i(v: int, lo: int, hi: int) -> int {
    if v < lo { lo } else if v > hi { hi } else { v }
}

/// The fixed-point product: `a * b / SCALE`, truncated toward zero.
pub open spec fn fx_mul_i(a: int, b: int) -> int {
    if (a < 0) == (b < 0) {
        (abs_i(a) * abs_i(b)) / (SCALE as int)
    } else {
        -((abs_i(a) * abs_i(b)) / (SCALE as int))
    }
}

/// The magnitude of a fixed-point product is the product of the magnitudes,
/// scaled down; it is bounded by the scaled-down product of any bounds on them.
pub proof fn lemma_fx_mul_abs_le(a: int, b: int, abound: int, bbound: int)
    requires
        abs_i(a) <= abound,
        abs_i(b) <= bbound,
    ensures
        abs_i(a) * abs_i(b) <= abound * bbound,
        abs_i(fx_mul_i(a, b)) == (abs_i(a) * abs_i(b)) / (SCALE as int),
        abs_i(fx_mul_i(a, b)) <= (abound * bbound) / (SCALE as int),
{
    lemma_mul_upper_bound(abs_i(a), abound, abs_i(b), bbound);
    lemma_div_pos_is_pos(abs_i(a) * abs_i(b), SCALE as int);
    lemma_div_is_ordered(abs_i(a) * abs_i(b), abound * bbound, SCALE as int);
}

/// For non-negative operands the fixed-point product is non-negative and
/// monotone in its second operand.
pub proof fn lemma_fx_mul_mono(a: int, b1: int, b2: int)
    requires
        0 <= a,
        0 <= b1 <= b2,
    ensures
        0 <= fx_mul_i(a, b1) <= fx_mul_i(a, b2),
{
    lemma_mul_nonnegative(a, b1);
    lemma_div_pos_is_pos(a * b1, SCALE as int);
    lemma_mul_inequality(b1, b2, a);
    lemma_mul_is_commutative(b1, a);
    lemma_mul_is_commutative(b2, a);
    lemma_div_is_ordered(a * b1, a * b2, SCALE as int);
}

/// For non-negative operands the fixed-point product is non-negative and
/// monotone in its first operand.
pub proof fn lemma_fx_mul_mono_first(a1: int, a2: int, b: int)
    requires
        0 <= a1 <= a2,
        0 <= b,
    ensures
        0 <= fx_mul_i(a1, b) <= fx_mul_i(a2, b),
{
    lemma_mul_nonnegative(a1, b);
    lemma_div_pos_is_pos(a1 * b, SCALE as int);
    lemma_mul_inequality(a1, a2, b);
    lemma_div_is_ordered(a1 * b, a2 * b, SCALE as int);
}

/// Multiplying a non-negative value by the scale factor of one gives the
/// value back.
pub proof fn lemma_fx_mul_one(a: int)
    requires
        0 <= a,
    ensures
        fx_mul_i(a, SCALE as int) == a,
{
    lemma_mul_is_commutative(a, SCALE as int);
    lemma_div_multiples_vanish(a, SCALE as int);
}

/// Multiplying by a factor of magnitude at most `SCALE` (one) cannot grow a
/// value: the friction and restitution damping steps are non-amplifying.
pub proof fn lemma_fx_mul_shrink(v: int, f: int)
    requires
        abs_i(f) <= SCALE,
    ensures
        abs_i(fx_mul_i(v, f)) <= abs_i(v),
{
    lemma_fx_mul_abs_le(v, f, abs_i(v), SCALE as int);
    lemma_mul_inequality(abs_i(f), SCALE as int, abs_i(v));
    lemma_div_is_ordered(abs_i(v) * abs_i(f), abs_i(v) * (SCALE as int), SCALE as int);
    lemma_div_multiples_vanish(abs_i(v), SCALE as int);
    assert(abs_i(v) * (SCALE as int) == (SCALE as int) * abs_i(v))
        by (nonlinear_arith);
}

/// Fixed-point multiply, exact to [`fx_mul_i`].
pub fn fx_mul(a: i64, b: i64) -> (r: i64)
    requires
        a > i64::MIN,
        b > i64::MIN,
        abs_i(a as int) * abs_i(b as int) <= 0x7fffffffffffffff * 1024,
    ensures
        r == fx_mul_i(a as int, b as int),
{
    let neg: bool = (a < 0) != (b < 0);
    let ma: i64 = if a < 0 { -a } else { a };
    let mb: i64 = if b < 0 { -b } else { b };
    proof {
        assert(ma == abs_i(a as int));
        assert(mb == abs_i(b as int));
    }
    let p: u128 = (ma as u128) * (mb as u128);
    let q: u128 = p / (SCALE as u128);
    proof {
        assert(p == abs_i(a as int) * abs_i(b as int));
        assert(q == (abs_i(a as int) * abs_i(b as int)) / (SCALE as int));
        lemma_div_is_ordered(p as int, 0x7fffffffffffffffint * 1024, SCALE as int);
        lemma_div_multiples_vanish(0x7fffffffffffffffint, SCALE as int);
    }
    if neg {
        -(q as i64)
    } else {
        q as i64
    }
}

/// Saturating addition: `a + b`, clamped into `[-cap, cap]`.
pub fn add_clamp(a: i64, b: i64, cap: i64) -> (r: i64)
    requires
        cap >= 0,
        abs_i(a as int) <= 0x2000000000000000,
        abs_i(b as int) <= 0x2000000000000000,
    ensures
        r == clamp_i(a + b, -cap as int, cap as int),
{
    let s: i64 = a + b;
    if s < -cap {
        -cap
    } else if s > cap {
        cap
    } else {
        s
    }
}

/// Clamp into `[lo, hi]`.
pub fn clamp(v: i64, lo: i64, hi: i64) -> (r: i64)
    requires
        lo <= hi,
    ensures
        r == clamp_i(v as int, lo as int, hi as int),
{
    if v < lo {
        lo
    } else if v > hi {
        hi
    } else {
        v
    }
}

/// Absolute value.
pub fn abs64(v: i64) -> (r: i64)
    requires
        v > i64::MIN,
    ensures
        r == abs_i(v as int),
{
    if v < 0 { -v } else { v }
}

/// One step of a bounded linear oscillator with reflecting bounds: the shared
/// shape of the launch-angle, launch-speed and buy-selector sweeps. The value
/// advances by `delta * dt` in the direction of `sign`; a value at or past a
/// bound reverses the direction for the next step (a triangle wave, no clamp).
/// Returns the new value and the new sign.
pub fn osc_step(value: i64, sign: i64, min: i64, max: i64, delta: i64, dt: i64) -> (r: (i64, i64))
    requires
        sign == 1 || sign == -1,
        abs_i(value as int) <= OSC_CAP,
        abs_i(min as int) <= CFG_MAX,
        abs_i(max as int) <= CFG_MAX,
        0 <= delta <= CFG_MAX,
        0 <= dt <= DT_MAX,
    ensures
        r.0 == clamp_i(
            value + sign * fx_mul_i(delta as int, dt as int),
            -OSC_CAP as int,
            OSC_CAP as int,
        ),
        r.1 == (if r.0 >= max { -1i64 } else if r.0 <= min { 1i64 } else { sign }),
        r.1 == 1 || r.1 == -1,
{
    proof {
        lemma_fx_mul_abs_le(delta as int, dt as int, CFG_MAX as int, DT_MAX as int);
    }
    let step: i64 = fx_mul(delta, dt);
    let stepped: i64 = if sign >= 0 {
        add_clamp(value, step, OSC_CAP)
    } else {
        add_clamp(value, -step, OSC_CAP)
    };
    let new_sign: i64 = if stepped >= max {
        -1
    } else if stepped <= min {
        1
    } else {
        sign
    };
    (stepped, new_sign)
}

/// One step of the boost meter: a linear sweep over `[0, total]` that is
/// clamped exactly to the bound it overshoots, reversing direction there.
/// Returns the new meter value and the new sign.
pub fn meter_step(value: i64, sign: i64, speed: i64, total: i64, dt: i64) -> (r: (i64, i64))
    requires
        sign == 1 || sign == -1,
        0 <= value <= 3 * CFG_MAX,
        0 <= speed <= CFG_MAX,
        0 <= total <= 3 * CFG_MAX,
        0 <= dt <= DT_MAX,
    ensures
        ({
            let raw = value + sign * fx_mul_i(speed as int, dt as int);
            if raw >= total {
                r.0 == total && r.1 == -1
            } else if raw <= 0 {
                r.0 == 0 && r.1 == 1
            } else {
                r.0 == raw && r.1 == sign
            }
        }),
        0 <= r.0 <= total,
        r.1 == 1 || r.1 == -1,
{
    proof {
        lemma_fx_mul_abs_le(speed as int, dt as int, CFG_MAX as int, DT_MAX as int);
    }
    let step: i64 = fx_mul(speed, dt);
    let raw: i64 = if sign >= 0 { value + step } else { value - step };
    if raw >= total {
        (total, -1)
    } else if raw <= 0 {
        (0, 1)
    } else {
        (raw, sign)
    }
}

/// Pi in fixed-point units.
pub const PI_FX: i64 = 3217;

/// Pi/2 in fixed-point units.
pub const HALF_PI_FX: i64 = 1608;

/// 2*Pi in fixed-point units.
pub const TWO_PI_FX: i64 = 6434;

/// The sine approximation on the half wave `[0, PI_FX]`: the parabola
/// `4 x (pi - x) / pi^2`, scaled to fixed point. It is exact at `0`, `pi/2`
/// and `pi` and stays within `[0, 1]` on the whole half wave.
pub open spec fn sin_half_i(x: int) -> int {
    (4 * x * (PI_FX - x) * SCALE) / (PI_FX * PI_FX)
}

/// The sine approximation for any angle: the angle normalized into
/// `[0, 2 pi)`, the first half wave positive, the second negative.
pub open spec fn sin_i(x: int) -> int {
    let n = x % (TWO_PI_FX as int);
    if n <= PI_FX {
        sin_half_i(n)
    } else {
        -sin_half_i(n - PI_FX)
    }
}

/// The cosine approximation: sine a quarter turn ahead.
pub open spec fn cos_i(x: int) -> int {
    sin_i(x + HALF_PI_FX)
}

/// The half-wave parabola stays within `[0, SCALE]` on `[0, PI_FX]`.
pub proof fn lemma_sin_half_bounds(x: int)
    requires
        0 <= x <= PI_FX,
    ensures
        0 <= sin_half_i(x) <= SCALE,
{
    assert(0 <= 4 * x * (PI_FX - x) && 4 * x * (PI_FX - x) <= PI_FX * PI_FX)
        by (nonlinear_arith)
        requires 0 <= x <= PI_FX;
    assert(0 <= 4 * x * (PI_FX - x) * SCALE <= PI_FX * PI_FX * SCALE) by (nonlinear_arith)
        requires 0 <= 4 * x * (PI_FX - x) <= PI_FX * PI_FX;
    lemma_div_pos_is_pos(4 * x * (PI_FX - x) * SCALE, PI_FX * PI_FX);
    lemma_div_is_ordered(4 * x * (PI_FX - x) * SCALE, PI_FX * PI_FX * SCALE, PI_FX * PI_FX);
    lemma_div_multiples_vanish(SCALE as int, PI_FX * PI_FX);
    assert(PI_FX * PI_FX * SCALE == (PI_FX * PI_FX) * (SCALE as int)) by (nonlinear_arith);
}

/// The sine approximation stays within `[-SCALE, SCALE]`.
pub proof fn lemma_sin_bounds(x: int)
    ensures
        abs_i(sin_i(x)) <= SCALE,
{
    let n = x % (TWO_PI_FX as int);
    assert(0 <= n < TWO_PI_FX);
    if n <= PI_FX {
        lemma_sin_half_bounds(n);
    } else {
        lemma_sin_half_bounds(n - PI_FX);
    }
}

/// Normalize an angle into `[0, 2 pi)` by whole turns.
fn norm_angle(x: i64) -> (r: i64)
    requires
        abs_i(x as int) <= 2 * OSC_CAP,
    ensures
        r == (x as int) % (TWO_PI_FX as int),
        0 <= r < TWO_PI_FX,
{
    let mut a: i64 = x;
    while a < 0
        invariant
            (a as int) % (TWO_PI_FX as int) == (x as int) % (TWO_PI_FX as int),
            -2 * OSC_CAP <= a <= 2 * OSC_CAP,
        decreases TWO_PI_FX - a,
    {
        proof {
            lemma_mod_add_multiples_vanish(a as int, TWO_PI_FX as int);
        }
        a = a + TWO_PI_FX;
    }
    while a >= TWO_PI_FX
        invariant
            (a as int) % (TWO_PI_FX as int) == (x as int) % (TWO_PI_FX as int),
            0 <= a <= 2 * OSC_CAP,
        decreases a,
    {
        proof {
            lemma_mod_sub_multiples_vanish((a - TWO_PI_FX) as int, TWO_PI_FX as int);
        }
        a = a - TWO_PI_FX;
    }
    proof {
        lemma_small_mod(a as nat, TWO_PI_FX as nat);
    }
    a
}

/// The half-wave parabola, exact to [`sin_half_i`].
fn sin_half(x: i64) -> (r: i64)
    requires
        0 <= x <= PI_FX,
    ensures
        r == sin_half_i(x as int),
        0 <= r <= SCALE,
{
    proof {
        lemma_sin_half_bounds(x as int);
        assert(4 * x * (PI_FX - x) <= PI_FX * PI_FX) by (nonlinear_arith)
            requires 0 <= x <= PI_FX;
        assert(0 <= 4 * x * (PI_FX - x)) by (nonlinear_arith)
            requires 0 <= x <= PI_FX;
    }
    let num: u64 = (4 * x) as u64 * ((PI_FX - x) as u64) * (SCALE as u64);
    let den: u64 = (PI_FX * PI_FX) as u64;
    let q: u64 = num / den;
    proof {
        assert(num == 4 * (x as int) * (PI_FX - x as int) * SCALE);
        assert(q == sin_half_i(x as int));
    }
    q as i64
}

/// The sine approximation, exact to [`sin_i`].
pub fn sin_fx(x: i64) -> (r: i64)
    requires
        abs_i(x as int) <= 2 * OSC_CAP,
    ensures
        r == sin_i(x as int),
        abs_i(r as int) <= SCALE,
{
    proof {
        lemma_sin_bounds(x as int);
    }
    let n: i64 = norm_angle(x);
    if n <= PI_FX {
        sin_half(n)
    } else {
        -sin_half(n - PI_FX)
    }
}

/// The cosine approximation, exact to [`cos_i`].
pub fn cos_fx(x: i64) -> (r: i64)
    requires
        abs_i(x as int) <= OSC_CAP,
    ensures
        r == cos_i(x as int),
        abs_i(r as int) <= SCALE,
{
    sin_fx(x + HALF_PI_FX)
}

/// Integer square root: the greatest `r` with `r * r <= n`.
pub fn isqrt128(n: u128) -> (r: u64)
    requires
        n < 0x40000000000000000,
    ensures
        (r as int) * (r as int) <= n,
        n < (r as int + 1) * (r as int + 1),
{
    let mut lo: u64 = 0;
    let mut hi: u64 = 0x200000000;
    proof {
        assert((0x200000000int) * (0x200000000int) == 0x40000000000000000) by (nonlinear_arith);
    }
    while lo + 1 < hi
        invariant
            lo < hi <= 0x200000000,
            (lo as int) * (lo as int) <= n,
            n < (hi as int) * (hi as int),
        decreases hi - lo,
    {
        let mid: u64 = lo + (hi - lo) / 2;
        proof {
            assert((mid as int) * (mid as int) <= 0x40000000000000000) by (nonlinear_arith)
                requires mid <= 0x200000000u64;
        }
        let sq: u128 = (mid as u128) * (mid as u128);
        if sq <= n {
            lo = mid;
        } else {
            hi = mid;
        }
    }
    lo
}

} // verus!
