use softrender::fixed::{Fx, FX_ONE};
use softrender::noise::{value_noise3, sky_noise3, fbm, fbm3};
use softrender::vec3::V3;

fn p(xb: i64, yb: i64, zb: i64) -> V3 {
    V3 { x: Fx::from_bits(xb), y: Fx::from_bits(yb), z: Fx::from_bits(zb) }
}

#[test]
fn value_noise_deterministic() {
    let q = p(123456, -654321, 98765);
    let a = value_noise3(q).to_bits();
    let b = value_noise3(q).to_bits();
    assert_eq!(a, b);
    let c = sky_noise3(q).to_bits();
    let d = sky_noise3(q).to_bits();
    assert_eq!(c, d);
}

#[test]
fn fbm_deterministic() {
    let q = p(-888888, 777777, 55555);
    let lac = Fx::from_bits(131072);
    let gain = Fx::from_bits(32768);
    assert_eq!(fbm(q, 5, lac, gain).to_bits(), fbm(q, 5, lac, gain).to_bits());
    assert_eq!(fbm3(q, 4, lac, gain).to_bits(), fbm3(q, 4, lac, gain).to_bits());
}

#[test]
fn fbm_zero_octaves_is_zero() {
    let q = p(424242, 171717, -993311);
    let lac = Fx::from_bits(131072);
    let gain = Fx::from_bits(32768);
    assert_eq!(fbm(q, 0, lac, gain).to_bits(), 0);
    assert_eq!(fbm3(q, 0, lac, gain).to_bits(), 0);
}

#[test]
fn noise_stays_in_unit_interval() {
    let mut seed: i64 = 1;
    for _ in 0..200 {
        seed = seed.wrapping_mul(6364136223846793005).wrapping_add(1442695040888963407);
        let x = seed % (50 * FX_ONE);
        let y = (seed / 7) % (50 * FX_ONE);
        let z = (seed / 13) % (50 * FX_ONE);
        let n = value_noise3(p(x, y, z)).to_bits();
        assert!(0 <= n && n <= FX_ONE, "noise out of range: {n}");
        let s = sky_noise3(p(x, y, z)).to_bits();
        assert!(0 <= s && s <= FX_ONE, "sky noise out of range: {s}");
    }
}

#[test]
fn noise_varies_with_position() {
    // the field is not constant: two distant points disagree somewhere
    let mut distinct = false;
    let base = value_noise3(p(0, 0, 0)).to_bits();
    for k in 1..50i64 {
        let v = value_noise3(p(k * FX_ONE / 2 + k, k * 31, -k * 17)).to_bits();
        if v != base {
            distinct = true;
        }
    }
    assert!(distinct);
}

#[test]
fn fbm_single_octave_is_half_noise() {
    // one octave accumulates 0.5 * noise(p) exactly
    let q = p(7 * FX_ONE + 777, -2 * FX_ONE + 123, 3 * FX_ONE);
    let lac = Fx::from_bits(131072);
    let gain = Fx::from_bits(32768);
    let one_oct = fbm(q, 1, lac, gain).to_bits();
    let noise = value_noise3(q).to_bits();
    assert_eq!(one_oct, Fx::from_bits(32768).sat_mul(Fx::from_bits(noise)).to_bits());
}
