use softrender::fixed::{Fx, FX_ONE};
use softrender::fragment::Fragment;
use softrender::shaders::{
    VertexShader, FragmentShader, apply_vertex_shader, fragment_shader, temperature_to_rgb,
};
use softrender::uniforms::Uniforms;
use softrender::vec3::V3;

fn fxb(b: i64) -> Fx {
    Fx::from_bits(b)
}

fn v(xb: i64, yb: i64, zb: i64) -> V3 {
    V3 { x: fxb(xb), y: fxb(yb), z: fxb(zb) }
}

/// A point of the unit sphere from two angles given in 1/1000 radians.
fn sphere_point(theta_m: i64, phi_m: i64) -> V3 {
    let th = theta_m as f32 / 1000.0;
    let ph = phi_m as f32 / 1000.0;
    let x = th.sin() * ph.cos();
    let y = th.cos();
    let z = th.sin() * ph.sin();
    v((x * 65536.0) as i64, (y * 65536.0) as i64, (z * 65536.0) as i64)
}

fn uniforms(time_b: i64, temp_b: i64, intensity_b: i64) -> Uniforms {
    Uniforms::new(
        fxb(time_b),
        Fx::from_int(1300),
        Fx::from_int(600),
        fxb(temp_b),
        fxb(intensity_b),
    )
}

#[test]
fn identity_vertex_shader_returns_input() {
    let p = v(123456, -99999, 424242);
    let out = apply_vertex_shader(p, &VertexShader::Identity, fxb(98765));
    assert_eq!(out, p);
}

#[test]
fn vertex_shaders_are_pure() {
    let shaders = [
        VertexShader::Identity,
        VertexShader::SolarFlare,
        VertexShader::DisplacePlanarY {
            amp: fxb(3932),
            freq: Fx::from_int(6),
            octaves: 3,
            lacunarity: fxb(131072),
            gain: fxb(36045),
            time_amp: fxb(39322),
        },
    ];
    let p = sphere_point(700, 2500);
    let t = fxb(5 * FX_ONE + 4321);
    for s in shaders.iter() {
        let a = apply_vertex_shader(p, s, t);
        let b = apply_vertex_shader(p, s, t);
        assert_eq!(a, b);
    }
}

#[test]
fn solar_flare_displaces_radially() {
    // the flare shader moves a point along its own direction, so some input
    // must move; the zero vector keeps a well-defined fallback direction
    let p = sphere_point(900, 1200);
    let out = apply_vertex_shader(p, &VertexShader::SolarFlare, fxb(77777));
    assert_ne!(out, p);
}

#[test]
fn fragment_shaders_clamp_to_unit_range() {
    let variants = [
        FragmentShader::Star,
        FragmentShader::Solid { color: v(FX_ONE, 0, 0) },
        FragmentShader::Rocky { color: v(0, 32768, FX_ONE) },
        FragmentShader::Strips { angle: fxb(0) },
        FragmentShader::AlienShip,
    ];
    let mut seed: i64 = 42;
    for case in 0..120 {
        seed = seed.wrapping_mul(6364136223846793005).wrapping_add(1442695040888963407);
        let theta = (seed.rem_euclid(3141)) + 1;
        let phi = (seed / 11).rem_euclid(6283);
        let p = sphere_point(theta, phi);
        let time_b = (seed / 17).rem_euclid(100 * FX_ONE);
        let temp_b = (seed / 23).rem_euclid(FX_ONE);
        let intensity_b = 13107 + (seed / 29).rem_euclid(131072 - 13107);
        let u = uniforms(time_b, temp_b, intensity_b);
        let frag = Fragment {
            x: (case % 97) as u32,
            y: (case % 53) as u32,
            depth: fxb(time_b % FX_ONE),
            obj: p,
        };
        for s in variants.iter() {
            let c = fragment_shader(&frag, &u, s);
            for ch in [c.x.to_bits(), c.y.to_bits(), c.z.to_bits()] {
                assert!(0 <= ch && ch <= FX_ONE, "channel out of range: {ch}");
            }
        }
    }
}

#[test]
fn fragment_shaders_are_pure() {
    let u = uniforms(8 * FX_ONE + 123, 32768, 65536);
    let frag = Fragment { x: 10, y: 20, depth: fxb(12345), obj: sphere_point(1100, 4000) };
    let variants = [
        FragmentShader::Star,
        FragmentShader::Solid { color: v(FX_ONE, 0, 0) },
        FragmentShader::Rocky { color: v(39322, 13107, 0) },
        FragmentShader::Strips { angle: fxb(0) },
        FragmentShader::AlienShip,
    ];
    for s in variants.iter() {
        assert_eq!(fragment_shader(&frag, &u, s), fragment_shader(&frag, &u, s));
    }
}

#[test]
fn temperature_gradient_endpoints() {
    let cold = temperature_to_rgb(fxb(0));
    assert_eq!(cold.x.to_bits(), FX_ONE);
    assert_eq!(cold.y.to_bits(), 13107);
    assert_eq!(cold.z.to_bits(), 0);
    let hot = temperature_to_rgb(fxb(FX_ONE));
    assert_eq!(hot.x.to_bits(), FX_ONE);
    assert_eq!(hot.y.to_bits(), FX_ONE);
    assert_eq!(hot.z.to_bits(), 19661);
}

#[test]
fn solid_shader_keeps_red_dominant() {
    // with a pure red base the blended pattern adds equal grey to every
    // channel, so red stays ahead by half
    let u = uniforms(0, 0, 65536);
    let frag = Fragment { x: 33, y: 7, depth: fxb(3000), obj: v(0, 0, 0) };
    let c = fragment_shader(&frag, &u, &FragmentShader::Solid { color: v(FX_ONE, 0, 0) });
    assert!(c.x.to_bits() > c.y.to_bits());
    assert_eq!(c.y.to_bits(), c.z.to_bits());
}

#[test]
fn uniforms_clamp_controls() {
    let u = Uniforms::new(fxb(0), fxb(0), fxb(0), Fx::from_int(5), Fx::from_int(9));
    assert_eq!(u.temp.to_bits(), FX_ONE);
    assert_eq!(u.intensity.to_bits(), 131072);
    let l = Uniforms::new(fxb(0), fxb(0), fxb(0), Fx::from_int(-5), fxb(0));
    assert_eq!(l.temp.to_bits(), 0);
    assert_eq!(l.intensity.to_bits(), 13107);
}
