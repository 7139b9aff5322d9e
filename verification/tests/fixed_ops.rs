use softrender::fixed::{Fx, FX_ONE, FX_SAT};
use softrender::trig::{fx_sin, fx_cos, fx_atan2, fx_sigmoid, FX_HALF_PI, FX_PI};

fn fx(i: i64) -> Fx {
    Fx::from_int(i)
}

#[test]
fn add_sub_mul_div_exact() {
    assert_eq!(fx(2).sat_add(fx(3)).to_bits(), 5 * FX_ONE);
    assert_eq!(fx(2).sat_sub(fx(5)).to_bits(), -3 * FX_ONE);
    assert_eq!(fx(2).sat_mul(fx(3)).to_bits(), 6 * FX_ONE);
    assert_eq!(fx(7).sat_div(fx(2)).to_bits(), 7 * FX_ONE / 2);
    assert_eq!(fx(-7).sat_div(fx(2)).to_bits(), -(7 * FX_ONE / 2));
}

#[test]
fn mul_truncates_toward_zero() {
    // (-1/65536) * (1/65536) is below one bit and truncates to zero.
    let tiny = Fx::from_bits(1);
    assert_eq!(tiny.sat_mul(tiny).to_bits(), 0);
    assert_eq!(tiny.sat_neg().sat_mul(tiny).to_bits(), 0);
}

#[test]
fn saturation_caps_at_bounds() {
    let big = Fx::from_bits(FX_SAT);
    assert_eq!(big.sat_add(big).to_bits(), FX_SAT);
    assert_eq!(big.sat_neg().sat_sub(big).to_bits(), -FX_SAT);
    assert_eq!(big.sat_mul(big).to_bits(), FX_SAT);
    assert_eq!(Fx::from_bits(i64::MIN).to_bits(), -FX_SAT);
}

#[test]
fn floor_and_fract() {
    let v = Fx::from_bits(3 * FX_ONE + 1234);
    assert_eq!(v.floor_units(), 3);
    assert_eq!(v.fract_part().to_bits(), 1234);
    let w = Fx::from_bits(-3 * FX_ONE - 1234);
    assert_eq!(w.floor_units(), -4);
    assert_eq!(w.fract_part().to_bits(), FX_ONE - 1234);
}

#[test]
fn rem_euclid_is_nonnegative() {
    let m = fx(8);
    assert_eq!(fx(19).rem_euclid(m).to_bits(), 3 * FX_ONE);
    assert_eq!(fx(-19).rem_euclid(m).to_bits(), 5 * FX_ONE);
}

#[test]
fn sqrt_exact_on_squares() {
    assert_eq!(fx(4).fx_sqrt().to_bits(), 2 * FX_ONE);
    assert_eq!(fx(9).fx_sqrt().to_bits(), 3 * FX_ONE);
    assert_eq!(fx(0).fx_sqrt().to_bits(), 0);
    // sqrt(2) to the precision of the representation
    let r = fx(2).fx_sqrt().to_bits();
    assert!((r - 92681).abs() <= 1, "sqrt(2) was {r}");
}

#[test]
fn clamp_min_max() {
    assert_eq!(fx(5).fx_clamp(fx(0), fx(1)).to_bits(), FX_ONE);
    assert_eq!(fx(-5).fx_clamp(fx(0), fx(1)).to_bits(), 0);
    assert_eq!(fx(3).fx_min(fx(4)).to_bits(), 3 * FX_ONE);
    assert_eq!(fx(3).fx_max(fx(4)).to_bits(), 4 * FX_ONE);
}

#[test]
fn sine_and_cosine_stay_in_range() {
    let mut a: i64 = -1000000;
    while a < 1000000 {
        let s = fx_sin(Fx::from_bits(a)).to_bits();
        let c = fx_cos(Fx::from_bits(a)).to_bits();
        assert!(-FX_ONE <= s && s <= FX_ONE);
        assert!(-FX_ONE <= c && c <= FX_ONE);
        a += 37777;
    }
}

#[test]
fn sine_key_points() {
    assert_eq!(fx_sin(Fx::from_bits(0)).to_bits(), 0);
    // the clamped parabola is exact at the key points: the peak saturates
    // to exactly one, so the cosine of zero is exactly one
    assert_eq!(fx_sin(Fx::from_bits(FX_HALF_PI)).to_bits(), FX_ONE);
    assert_eq!(fx_sin(Fx::from_bits(FX_PI)).to_bits(), 0);
    assert_eq!(fx_sin(Fx::from_bits(FX_PI + FX_HALF_PI)).to_bits(), -FX_ONE);
    assert_eq!(fx_cos(Fx::from_bits(0)).to_bits(), FX_ONE);
}

#[test]
fn atan2_quadrants() {
    let quarter = fx_atan2(fx(1), fx(1)).to_bits();
    assert!((quarter - 51472).abs() <= 600, "atan2(1,1) was {quarter}");
    assert_eq!(fx_atan2(fx(0), fx(0)).to_bits(), 0);
    assert!(fx_atan2(fx(1), fx(-1)).to_bits() > 51472);
    assert!(fx_atan2(fx(-1), fx(1)).to_bits() < 0);
}

#[test]
fn sigmoid_saturates() {
    assert_eq!(fx_sigmoid(fx(0)).to_bits(), 0);
    assert!(fx_sigmoid(fx(10)).to_bits() > 60000);
    assert!(fx_sigmoid(fx(-10)).to_bits() < -60000);
    let one_in = fx_sigmoid(fx(1)).to_bits();
    assert!((one_in - 50972).abs() <= 300, "sigmoid(1) was {one_in}");
}
