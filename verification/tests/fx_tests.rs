use flycore::fx::{abs64, add_clamp, clamp, cos_fx, fx_mul, isqrt128, meter_step, osc_step, sin_fx, HALF_PI_FX, PI_FX, SCALE};

#[test]
fn fx_mul_scales_products() {
    assert_eq!(fx_mul(2048, 3072), 6144);
    assert_eq!(fx_mul(1024, 1024), 1024);
    assert_eq!(fx_mul(0, 123456), 0);
}

#[test]
fn fx_mul_truncates_toward_zero() {
    assert_eq!(fx_mul(-3, 512), -1);
    assert_eq!(fx_mul(3, -512), -1);
    assert_eq!(fx_mul(-3, -512), 1);
    assert_eq!(fx_mul(3, 512), 1);
}

#[test]
fn add_clamp_saturates_at_the_cap() {
    assert_eq!(add_clamp(10, 20, 1000), 30);
    assert_eq!(add_clamp(900, 200, 1000), 1000);
    assert_eq!(add_clamp(-900, -200, 1000), -1000);
}

#[test]
fn clamp_and_abs_are_exact() {
    assert_eq!(clamp(5, 0, 10), 5);
    assert_eq!(clamp(-5, 0, 10), 0);
    assert_eq!(clamp(15, 0, 10), 10);
    assert_eq!(abs64(-7), 7);
    assert_eq!(abs64(7), 7);
}

#[test]
fn oscillator_sweeps_and_reflects() {
    // One unit is SCALE sub-units: bounds 10 and 50, rate 20 per second,
    // one-second ticks, starting at the lower bound sweeping up.
    let min = 10 * SCALE;
    let max = 50 * SCALE;
    let delta = 20 * SCALE;
    let dt = SCALE;
    let (v1, s1) = osc_step(10 * SCALE, 1, min, max, delta, dt);
    assert_eq!(v1, 30 * SCALE);
    assert_eq!(s1, 1);
    let (v2, s2) = osc_step(v1, s1, min, max, delta, dt);
    assert_eq!(v2, 50 * SCALE);
    assert_eq!(s2, -1);
    let (v3, s3) = osc_step(v2, s2, min, max, delta, dt);
    assert_eq!(v3, 30 * SCALE);
    assert_eq!(s3, -1);
}

#[test]
fn oscillator_reflects_at_the_lower_bound() {
    let min = 10 * SCALE;
    let max = 50 * SCALE;
    let (v, s) = osc_step(20 * SCALE, -1, min, max, 20 * SCALE, SCALE);
    assert_eq!(v, 0);
    assert_eq!(s, 1);
}

#[test]
fn meter_clamps_to_the_bound_it_overshoots() {
    let total = 30 * SCALE;
    let (b1, s1) = meter_step(29 * SCALE, 1, 2 * SCALE, total, SCALE);
    assert_eq!(b1, total);
    assert_eq!(s1, -1);
    let (b2, s2) = meter_step(SCALE, -1, 2 * SCALE, total, SCALE);
    assert_eq!(b2, 0);
    assert_eq!(s2, 1);
    let (b3, s3) = meter_step(10 * SCALE, 1, 2 * SCALE, total, SCALE);
    assert_eq!(b3, 12 * SCALE);
    assert_eq!(s3, 1);
}

#[test]
fn sine_is_exact_at_the_quarter_points() {
    assert_eq!(sin_fx(0), 0);
    assert_eq!(sin_fx(PI_FX), 0);
    assert_eq!(sin_fx(HALF_PI_FX), 1023);
    assert_eq!(cos_fx(0), 1023);
    assert_eq!(sin_fx(-HALF_PI_FX), -1023);
    assert_eq!(cos_fx(-HALF_PI_FX), 0);
}

#[test]
fn sine_stays_within_one() {
    let mut a: i64 = -8 * SCALE;
    while a <= 8 * SCALE {
        let s = sin_fx(a);
        assert!(-SCALE <= s && s <= SCALE);
        let c = cos_fx(a);
        assert!(-SCALE <= c && c <= SCALE);
        a += 37;
    }
}

#[test]
fn integer_square_root_brackets_its_input() {
    assert_eq!(isqrt128(0), 0);
    assert_eq!(isqrt128(15), 3);
    assert_eq!(isqrt128(16), 4);
    assert_eq!(isqrt128(1 << 40), 1 << 20);
    let r = isqrt128(12345678901234);
    let r = r as u128;
    assert!(r * r <= 12345678901234);
    assert!(12345678901234 < (r + 1) * (r + 1));
}
