//! The programmable stages: per-vertex displacement and per-pixel coloring.
//!
//! Each mesh owns one vertex-shader variant and one fragment-shader variant
//! from the closed sets below. Every variant is a pure function of its
//! inputs, specified exactly, and every fragment color is clamped into
//! `[0, 1]` per channel before it is returned.

use vstd::prelude::*;
use crate::fixed::{
    Fx, FX_ONE, clip, fx_add_v, fx_sub_v, fx_mul_v, fx_div_v, fx_abs_v, fx_max_v, fx_clamp_v,
    fx_lerp_v, fx_lerp,
};
use crate::trig::{fx_sin, fx_sin_v, fx_atan2, fx_atan2_v, fx_sigmoid, fx_sigmoid_v, FX_PI};
use crate::vec3::{
    V3, Gv3, v3_add_v, v3_neg_v, v3_scale_v, v3_dot_v, v3_len_v, v3_normalize_or_v, v3_clamp01_v,
};
use crate::noise::{value_noise3, value_noise3_v, fbm, fbm_v, fbm3, fbm3_v};
use crate::fragment::{Fragment, GFragment};
use crate::uniforms::{Uniforms, GUniforms};

verus! {

/// The closed set of vertex-displacement shaders.
#[derive(Clone, Copy, PartialEq, Eq, Structural, Debug)]
pub enum VertexShader {
    /// No displacement.
    Identity,
    /// Radial displacement along the position's own direction by animated
    /// fractal noise (the star surface).
    SolarFlare,
    /// Vertical displacement by fractal noise over the horizontal plane
    /// (the displaced ring).
    DisplacePlanarY { amp: Fx, freq: Fx, octaves: u32, lacunarity: Fx, gain: Fx, time_amp: Fx },
}

/// The closed set of fragment-coloring shaders.
#[derive(Clone, Copy, PartialEq, Eq, Structural, Debug)]
pub enum FragmentShader {
    /// Turbulent emissive star surface driven by the user controls.
    Star,
    /// Flat base color blended with a sine banding pattern.
    Solid { color: V3 },
    /// Fractal rock with craters and origin-light shading.
    Rocky { color: V3 },
    /// Warped latitude bands with clouds, storm spots and origin light.
    Strips { angle: Fx },
    /// Hard two-tone latitude bands, unlit.
    AlienShip,
}

/// Three-stop temperature gradient red, yellow, white.
pub open spec fn temperature_to_rgb_v(t0: int) -> Gv3 {
    let t = fx_clamp_v(t0, 0, 65536);
    if t < 32768 {
        let k = fx_div_v(t, 32768);
        Gv3 { x: 65536, y: fx_lerp_v(13107, 65536, k), z: 0 }
    } else {
        let k = fx_div_v(fx_sub_v(t, 32768), 32768);
        Gv3 { x: 65536, y: 65536, z: fx_lerp_v(0, 19661, k) }
    }
}

/// Map a temperature in `[0, 1]` through the red, yellow, white gradient.
pub fn temperature_to_rgb(t0: Fx) -> (r: V3)
    ensures
        r@ == temperature_to_rgb_v(t0@),
{
    let half = Fx::from_bits(32768);
    let one = Fx::one();
    let t = t0.fx_clamp(Fx::zero(), one);
    if t.fx_lt(half) {
        let k = t.sat_div(half);
        V3 { x: one, y: fx_lerp(Fx::from_bits(13107), one, k), z: Fx::zero() }
    } else {
        let k = t.sat_sub(half).sat_div(half);
        V3 { x: one, y: one, z: fx_lerp(Fx::zero(), Fx::from_bits(19661), k) }
    }
}

/// Lambertian term against a light at the world origin: the dot of the
/// surface direction with the unit vector toward the origin, floored at
/// zero; one when the position sits at the origin itself.
pub open spec fn origin_light_v(obj: Gv3, n: Gv3) -> int {
    let l = v3_neg_v(obj);
    let llen = v3_len_v(l);
    if llen == 0 {
        FX_ONE as int
    } else {
        let lu = Gv3 { x: fx_div_v(l.x, llen), y: fx_div_v(l.y, llen), z: fx_div_v(l.z, llen) };
        fx_max_v(v3_dot_v(n, lu), 0)
    }
}

fn origin_light(obj: V3, n: V3) -> (r: Fx)
    ensures
        r@ == origin_light_v(obj@, n@),
{
    let l = obj.neg();
    let llen = l.length();
    if llen.to_bits() == 0 {
        Fx::one()
    } else {
        let lu = V3 { x: l.x.sat_div(llen), y: l.y.sat_div(llen), z: l.z.sat_div(llen) };
        n.dot(lu).fx_max(Fx::zero())
    }
}

/// Star coloring: turbulence over the time-looped surface direction, a
/// facing core, the temperature gradient, and a noise flicker, clamped.
pub open spec fn star_color_v(obj: Gv3, u: GUniforms) -> Gv3 {
    let dir = v3_normalize_or_v(obj, obj);
    let tloop = fx_div_v(u.time % 524288, 524288);
    let p3 = Gv3 {
        x: fx_mul_v(dir.x, 196608),
        y: fx_mul_v(dir.y, 196608),
        z: fx_mul_v(tloop, 524288),
    };
    let turb = fbm_v(p3, 5, 131072, 36045);
    let base_core = fx_clamp_v(fx_abs_v(dir.z), 0, 65536);
    let intensity = fx_clamp_v(
        fx_mul_v(fx_add_v(fx_mul_v(base_core, 45875), fx_mul_v(turb, 39322)), u.intensity),
        0,
        65536,
    );
    let color_base = temperature_to_rgb_v(
        fx_clamp_v(fx_mul_v(fx_add_v(intensity, fx_mul_v(u.temp, 52429)), 45875), 0, 65536),
    );
    let spike_p = Gv3 {
        x: fx_add_v(fx_mul_v(dir.x, 655360), fx_mul_v(u.time, 111411)),
        y: fx_sub_v(fx_mul_v(dir.y, 655360), fx_mul_v(u.time, 85197)),
        z: fx_mul_v(u.time, 32768),
    };
    let spikes = fx_abs_v(fx_sub_v(fx_mul_v(value_noise3_v(spike_p), 131072), 65536));
    let emission = fx_clamp_v(fx_add_v(fx_mul_v(intensity, 39322), fx_mul_v(spikes, 52429)), 0, 98304);
    v3_clamp01_v(v3_scale_v(color_base, emission))
}

fn star_color(obj: V3, u: &Uniforms) -> (r: V3)
    ensures
        r@ == star_color_v(obj@, u@),
        0 <= r@.x <= FX_ONE as int,
        0 <= r@.y <= FX_ONE as int,
        0 <= r@.z <= FX_ONE as int,
{
    let eight = Fx::from_bits(524288);
    let dir = obj.normalize_or(obj);
    let tloop = u.time.rem_euclid(eight).sat_div(eight);
    let p3 = V3 {
        x: dir.x.sat_mul(Fx::from_bits(196608)),
        y: dir.y.sat_mul(Fx::from_bits(196608)),
        z: tloop.sat_mul(eight),
    };
    let turb = fbm(p3, 5, Fx::from_bits(131072), Fx::from_bits(36045));
    let zero = Fx::zero();
    let one = Fx::one();
    let base_core = dir.z.sat_abs().fx_clamp(zero, one);
    let intensity = base_core
        .sat_mul(Fx::from_bits(45875))
        .sat_add(turb.sat_mul(Fx::from_bits(39322)))
        .sat_mul(u.intensity)
        .fx_clamp(zero, one);
    let color_base = temperature_to_rgb(
        intensity.sat_add(u.temp.sat_mul(Fx::from_bits(52429))).sat_mul(Fx::from_bits(45875))
            .fx_clamp(zero, one),
    );
    let spike_p = V3 {
        x: dir.x.sat_mul(Fx::from_bits(655360)).sat_add(u.time.sat_mul(Fx::from_bits(111411))),
        y: dir.y.sat_mul(Fx::from_bits(655360)).sat_sub(u.time.sat_mul(Fx::from_bits(85197))),
        z: u.time.sat_mul(Fx::from_bits(32768)),
    };
    let spikes = value_noise3(spike_p).sat_mul(Fx::from_bits(131072)).sat_sub(one).sat_abs();
    let emission = intensity
        .sat_mul(Fx::from_bits(39322))
        .sat_add(spikes.sat_mul(Fx::from_bits(52429)))
        .fx_clamp(zero, Fx::from_bits(98304));
    color_base.scale(emission).clamp01()
}

/// Solid coloring: the base color blended half and half with a banding
/// pattern derived from the arctangent of the fragment's screen x over its
/// depth, clamped.
pub open spec fn solid_color_v(f: GFragment, base: Gv3) -> Gv3 {
    let angle = fx_atan2_v(clip(f.x * 65536), f.depth);
    let hue = fx_mul_v(fx_div_v(angle, 131072), FX_PI as int) % 65536;
    let s = fx_abs_v(fx_sin_v(fx_mul_v(hue, 327680)));
    let sh = fx_mul_v(s, 32768);
    v3_clamp01_v(Gv3 {
        x: fx_add_v(fx_mul_v(base.x, 32768), sh),
        y: fx_add_v(fx_mul_v(base.y, 32768), sh),
        z: fx_add_v(fx_mul_v(base.z, 32768), sh),
    })
}

fn solid_color(f: &Fragment, base: V3) -> (r: V3)
    ensures
        r@ == solid_color_v(f@, base@),
        0 <= r@.x <= FX_ONE as int,
        0 <= r@.y <= FX_ONE as int,
        0 <= r@.z <= FX_ONE as int,
{
    let half = Fx::from_bits(32768);
    let angle = fx_atan2(Fx::from_int(f.x as i64), f.depth);
    let hue = angle.sat_div(Fx::from_bits(131072)).sat_mul(Fx::from_bits(FX_PI))
        .rem_euclid(Fx::one());
    let s = fx_sin(hue.sat_mul(Fx::from_bits(327680))).sat_abs();
    let sh = s.sat_mul(half);
    V3 {
        x: base.x.sat_mul(half).sat_add(sh),
        y: base.y.sat_mul(half).sat_add(sh),
        z: base.z.sat_mul(half).sat_add(sh),
    }.clamp01()
}

/// Rocky coloring: two fractal octave sets form a rockiness scalar over the
/// base albedo, craters carve darkening from thresholded high-frequency
/// noise, and the origin light shades the result, clamped.
pub open spec fn rocky_color_v(obj: Gv3, base: Gv3) -> Gv3 {
    let p = v3_normalize_or_v(obj, obj);
    let b1 = fbm_v(v3_scale_v(p, 262144), 4, 131072, 32768);
    let b2 = fbm_v(v3_scale_v(p, 786432), 3, 157286, 36045);
    let rocky = fx_clamp_v(fx_add_v(fx_mul_v(b1, 45875), fx_mul_v(b2, 19661)), 0, 65536);
    let albedo = Gv3 {
        x: fx_add_v(base.x, fx_mul_v(16384, rocky)),
        y: fx_add_v(base.y, fx_mul_v(13107, rocky)),
        z: fx_add_v(base.z, fx_mul_v(9830, rocky)),
    };
    let crater_noise = fbm_v(v3_scale_v(p, 1048576), 3, 144179, 32768);
    let crater_mask = fx_clamp_v(fx_mul_v(fx_sub_v(crater_noise, 36045), 524288), 0, 65536);
    let crater = fx_sub_v(65536, crater_mask);
    let shade = fx_add_v(22938, fx_mul_v(42598, crater));
    let shaded = Gv3 {
        x: fx_mul_v(albedo.x, shade),
        y: fx_mul_v(albedo.y, shade),
        z: fx_mul_v(albedo.z, shade),
    };
    let ndotl = origin_light_v(obj, p);
    let diffuse = fx_add_v(42598, fx_mul_v(22938, ndotl));
    v3_clamp01_v(v3_scale_v(shaded, diffuse))
}

fn rocky_color(obj: V3, base: V3) -> (r: V3)
    ensures
        r@ == rocky_color_v(obj@, base@),
        0 <= r@.x <= FX_ONE as int,
        0 <= r@.y <= FX_ONE as int,
        0 <= r@.z <= FX_ONE as int,
{
    let p = obj.normalize_or(obj);
    let b1 = fbm(p.scale(Fx::from_bits(262144)), 4, Fx::from_bits(131072), Fx::from_bits(32768));
    let b2 = fbm(p.scale(Fx::from_bits(786432)), 3, Fx::from_bits(157286), Fx::from_bits(36045));
    let zero = Fx::zero();
    let one = Fx::one();
    let rocky = b1.sat_mul(Fx::from_bits(45875)).sat_add(b2.sat_mul(Fx::from_bits(19661)))
        .fx_clamp(zero, one);
    let albedo = V3 {
        x: base.x.sat_add(Fx::from_bits(16384).sat_mul(rocky)),
        y: base.y.sat_add(Fx::from_bits(13107).sat_mul(rocky)),
        z: base.z.sat_add(Fx::from_bits(9830).sat_mul(rocky)),
    };
    let crater_noise = fbm(
        p.scale(Fx::from_bits(1048576)), 3, Fx::from_bits(144179), Fx::from_bits(32768));
    let crater_mask = crater_noise.sat_sub(Fx::from_bits(36045)).sat_mul(Fx::from_bits(524288))
        .fx_clamp(zero, one);
    let crater = one.sat_sub(crater_mask);
    let shade = Fx::from_bits(22938).sat_add(Fx::from_bits(42598).sat_mul(crater));
    let shaded = V3 {
        x: albedo.x.sat_mul(shade),
        y: albedo.y.sat_mul(shade),
        z: albedo.z.sat_mul(shade),
    };
    let ndotl = origin_light(obj, p);
    let diffuse = Fx::from_bits(42598).sat_add(Fx::from_bits(22938).sat_mul(ndotl));
    shaded.scale(diffuse).clamp01()
}

/// Strips coloring: latitude bands warped by noise, a saturating band
/// factor, two base colors, a cloud overlay, sparse storm spots, and the
/// origin light, clamped.
pub open spec fn strips_color_v(obj: Gv3, u: GUniforms) -> Gv3 {
    let p = v3_normalize_or_v(obj, obj);
    let t = fx_mul_v(u.time, 9830);
    let warp = fbm_v(
        Gv3 {
            x: fx_mul_v(p.x, 393216),
            y: fx_mul_v(p.y, 393216),
            z: fx_add_v(fx_mul_v(p.z, 393216), t),
        },
        4, 137626, 32768,
    );
    let lat_warped = fx_add_v(p.y, fx_mul_v(fx_sub_v(warp, 32768), 16384));
    let bands = fx_sigmoid_v(fx_mul_v(fx_sin_v(fx_mul_v(917504, lat_warped)), 78643));
    let bands01 = fx_clamp_v(fx_add_v(fx_mul_v(bands, 32768), 32768), 0, 65536);
    let color1 = Gv3 {
        x: fx_add_v(53740, fx_mul_v(fx_sub_v(62259, 53740), bands01)),
        y: fx_add_v(39322, fx_mul_v(fx_sub_v(58982, 39322), bands01)),
        z: fx_add_v(29491, fx_mul_v(fx_sub_v(51118, 29491), bands01)),
    };
    let clouds = fbm_v(
        Gv3 {
            x: fx_add_v(fx_mul_v(p.x, 655360), fx_mul_v(t, 45875)),
            y: fx_mul_v(p.y, 1179648),
            z: fx_sub_v(fx_mul_v(p.z, 655360), fx_mul_v(t, 32768)),
        },
        5, 137626, 32768,
    );
    let clouds_mask = fx_clamp_v(fx_mul_v(fx_max_v(fx_sub_v(clouds, 26214), 0), 117965), 0, 65536);
    let color2 = Gv3 {
        x: fx_add_v(color1.x, fx_mul_v(fx_sub_v(65536, color1.x), clouds_mask)),
        y: fx_add_v(color1.y, fx_mul_v(fx_sub_v(64225, color1.y), clouds_mask)),
        z: fx_add_v(color1.z, fx_mul_v(fx_sub_v(62259, color1.z), clouds_mask)),
    };
    let spots = fbm_v(v3_scale_v(p, 1310720), 3, 131072, 32768);
    let spots_mask = fx_clamp_v(fx_mul_v(fx_sub_v(spots, 49152), 393216), 0, 65536);
    let inv = fx_sub_v(65536, spots_mask);
    let color3 = Gv3 {
        x: fx_add_v(fx_mul_v(color2.x, inv), fx_mul_v(52429, spots_mask)),
        y: fx_add_v(fx_mul_v(color2.y, inv), fx_mul_v(26214, spots_mask)),
        z: fx_add_v(fx_mul_v(color2.z, inv), fx_mul_v(13107, spots_mask)),
    };
    let ndotl = origin_light_v(obj, p);
    let diffuse = fx_add_v(52429, fx_mul_v(13107, ndotl));
    v3_clamp01_v(v3_scale_v(color3, diffuse))
}

fn strips_color(obj: V3, u: &Uniforms) -> (r: V3)
    ensures
        r@ == strips_color_v(obj@, u@),
        0 <= r@.x <= FX_ONE as int,
        0 <= r@.y <= FX_ONE as int,
        0 <= r@.z <= FX_ONE as int,
{
    let zero = Fx::zero();
    let one = Fx::one();
    let p = obj.normalize_or(obj);
    let t = u.time.sat_mul(Fx::from_bits(9830));
    let six = Fx::from_bits(393216);
    let warp = fbm(
        V3 {
            x: p.x.sat_mul(six),
            y: p.y.sat_mul(six),
            z: p.z.sat_mul(six).sat_add(t),
        },
        4, Fx::from_bits(137626), Fx::from_bits(32768),
    );
    let half = Fx::from_bits(32768);
    let lat_warped = p.y.sat_add(warp.sat_sub(half).sat_mul(Fx::from_bits(16384)));
    let bands = fx_sigmoid(
        fx_sin(Fx::from_bits(917504).sat_mul(lat_warped)).sat_mul(Fx::from_bits(78643)));
    let bands01 = bands.sat_mul(half).sat_add(half).fx_clamp(zero, one);
    let color1 = V3 {
        x: Fx::from_bits(53740).sat_add(
            Fx::from_bits(62259).sat_sub(Fx::from_bits(53740)).sat_mul(bands01)),
        y: Fx::from_bits(39322).sat_add(
            Fx::from_bits(58982).sat_sub(Fx::from_bits(39322)).sat_mul(bands01)),
        z: Fx::from_bits(29491).sat_add(
            Fx::from_bits(51118).sat_sub(Fx::from_bits(29491)).sat_mul(bands01)),
    };
    let ten = Fx::from_bits(655360);
    let clouds = fbm(
        V3 {
            x: p.x.sat_mul(ten).sat_add(t.sat_mul(Fx::from_bits(45875))),
            y: p.y.sat_mul(Fx::from_bits(1179648)),
            z: p.z.sat_mul(ten).sat_sub(t.sat_mul(half)),
        },
        5, Fx::from_bits(137626), Fx::from_bits(32768),
    );
    let clouds_mask = clouds.sat_sub(Fx::from_bits(26214)).fx_max(zero)
        .sat_mul(Fx::from_bits(117965)).fx_clamp(zero, one);
    let color2 = V3 {
        x: color1.x.sat_add(one.sat_sub(color1.x).sat_mul(clouds_mask)),
        y: color1.y.sat_add(Fx::from_bits(64225).sat_sub(color1.y).sat_mul(clouds_mask)),
        z: color1.z.sat_add(Fx::from_bits(62259).sat_sub(color1.z).sat_mul(clouds_mask)),
    };
    let spots = fbm(
        p.scale(Fx::from_bits(1310720)), 3, Fx::from_bits(131072), Fx::from_bits(32768));
    let spots_mask = spots.sat_sub(Fx::from_bits(49152)).sat_mul(six).fx_clamp(zero, one);
    let inv = one.sat_sub(spots_mask);
    let color3 = V3 {
        x: color2.x.sat_mul(inv).sat_add(Fx::from_bits(52429).sat_mul(spots_mask)),
        y: color2.y.sat_mul(inv).sat_add(Fx::from_bits(26214).sat_mul(spots_mask)),
        z: color2.z.sat_mul(inv).sat_add(Fx::from_bits(13107).sat_mul(spots_mask)),
    };
    let ndotl = origin_light(obj, p);
    let diffuse = Fx::from_bits(52429).sat_add(Fx::from_bits(13107).sat_mul(ndotl));
    color3.scale(diffuse).clamp01()
}

/// Two-tone hull pattern from hard latitude thresholds, unlit.
pub open spec fn alien_color_v(obj: Gv3) -> Gv3 {
    let p = v3_normalize_or_v(obj, obj);
    if (-32768 <= p.y && p.y <= 17695) || p.y >= 28180 {
        Gv3 { x: 45875, y: 45875, z: 45875 }
    } else {
        Gv3 { x: 0, y: 65536, z: 0 }
    }
}

fn alien_color(obj: V3) -> (r: V3)
    ensures
        r@ == alien_color_v(obj@),
        0 <= r@.x <= FX_ONE as int,
        0 <= r@.y <= FX_ONE as int,
        0 <= r@.z <= FX_ONE as int,
{
    let p = obj.normalize_or(obj);
    let grey = Fx::from_bits(45875);
    let lo = Fx::from_bits(-32768);
    let mid = Fx::from_bits(17695);
    let hi = Fx::from_bits(28180);
    if (lo.fx_le(p.y) && p.y.fx_le(mid)) || hi.fx_le(p.y) {
        V3 { x: grey, y: grey, z: grey }
    } else {
        V3 { x: Fx::zero(), y: Fx::one(), z: Fx::zero() }
    }
}

/// The vertex-displacement stage: a pure function of the variant, the
/// object-space position and the time.
pub open spec fn apply_vertex_shader_v(v: Gv3, shader: VertexShader, time: int) -> Gv3 {
    match shader {
        VertexShader::Identity => v,
        VertexShader::SolarFlare => {
            let dir = v3_normalize_or_v(v, Gv3 { x: 0, y: 0, z: 65536 });
            let p = Gv3 {
                x: fx_mul_v(v.x, 16384),
                y: fx_mul_v(v.y, 16384),
                z: fx_add_v(fx_mul_v(v.z, 16384), fx_mul_v(time, 13107)),
            };
            let n = fbm_v(p, 4, 131072, 32768);
            let flare = fx_mul_v(fx_sub_v(fx_mul_v(n, 131072), 65536), 22938);
            v3_add_v(v, v3_scale_v(dir, flare))
        },
        VertexShader::DisplacePlanarY { amp, freq, octaves, lacunarity, gain, time_amp } => {
            let p = Gv3 {
                x: fx_mul_v(v.x, freq@),
                y: 0,
                z: fx_add_v(fx_mul_v(v.z, freq@), fx_mul_v(time, time_amp@)),
            };
            let h = fbm3_v(p, octaves as nat, lacunarity@, gain@);
            Gv3 { x: v.x, y: fx_add_v(v.y, fx_mul_v(amp@, h)), z: v.z }
        },
    }
}

/// Displace one object-space vertex.
pub fn apply_vertex_shader(v: V3, shader: &VertexShader, time: Fx) -> (r: V3)
    ensures
        r@ == apply_vertex_shader_v(v@, *shader, time@),
{
    match shader {
        VertexShader::Identity => v,
        VertexShader::SolarFlare => {
            let quarter = Fx::from_bits(16384);
            let dir = v.normalize_or(V3 { x: Fx::zero(), y: Fx::zero(), z: Fx::one() });
            let p = V3 {
                x: v.x.sat_mul(quarter),
                y: v.y.sat_mul(quarter),
                z: v.z.sat_mul(quarter).sat_add(time.sat_mul(Fx::from_bits(13107))),
            };
            let n = fbm(p, 4, Fx::from_bits(131072), Fx::from_bits(32768));
            let flare = n.sat_mul(Fx::from_bits(131072)).sat_sub(Fx::one())
                .sat_mul(Fx::from_bits(22938));
            v.add(dir.scale(flare))
        },
        VertexShader::DisplacePlanarY { amp, freq, octaves, lacunarity, gain, time_amp } => {
            let p = V3 {
                x: v.x.sat_mul(*freq),
                y: Fx::zero(),
                z: v.z.sat_mul(*freq).sat_add(time.sat_mul(*time_amp)),
            };
            let h = fbm3(p, *octaves, *lacunarity, *gain);
            V3 { x: v.x, y: v.y.sat_add(amp.sat_mul(h)), z: v.z }
        },
    }
}

/// The fragment-coloring stage: a pure function of the variant, the
/// fragment and the uniforms.
pub open spec fn fragment_shader_v(f: GFragment, u: GUniforms, s: FragmentShader) -> Gv3 {
    match s {
        FragmentShader::Star => star_color_v(f.obj, u),
        FragmentShader::Solid { color } => solid_color_v(f, color@),
        FragmentShader::Rocky { color } => rocky_color_v(f.obj, color@),
        FragmentShader::Strips { angle: _ } => strips_color_v(f.obj, u),
        FragmentShader::AlienShip => alien_color_v(f.obj),
    }
}

/// Color one fragment. Every channel of the result lies in `[0, 1]`.
pub fn fragment_shader(fragment: &Fragment, u: &Uniforms, shader: &FragmentShader) -> (r: V3)
    ensures
        r@ == fragment_shader_v(fragment@, u@, *shader),
        0 <= r@.x <= FX_ONE as int,
        0 <= r@.y <= FX_ONE as int,
        0 <= r@.z <= FX_ONE as int,
{
    match shader {
        FragmentShader::Star => star_color(fragment.obj, u),
        FragmentShader::Solid { color } => solid_color(fragment, *color),
        FragmentShader::Rocky { color } => rocky_color(fragment.obj, *color),
        FragmentShader::Strips { angle: _ } => strips_color(fragment.obj, u),
        FragmentShader::AlienShip => alien_color(fragment.obj),
    }
}

/// The identity vertex shader returns its input position unchanged.
pub proof fn lemma_identity_vertex_shader(v: Gv3, time: int)
    ensures
        apply_vertex_shader_v(v, VertexShader::Identity, time) == v,
{
}

/// Shader purity: for a fixed variant, equal position and time inputs give
/// equal displaced positions.
pub proof fn lemma_vertex_shader_pure(
    v1: Gv3, v2: Gv3, shader: VertexShader, t1: int, t2: int,
)
    requires
        v1 == v2,
        t1 == t2,
    ensures
        apply_vertex_shader_v(v1, shader, t1) == apply_vertex_shader_v(v2, shader, t2),
{
}

/// Fragment purity: for a fixed variant, equal fragment and uniform inputs
/// give equal colors.
pub proof fn lemma_fragment_shader_pure(
    f1: GFragment, f2: GFragment, u1: GUniforms, u2: GUniforms, shader: FragmentShader,
)
    requires
        f1 == f2,
        u1 == u2,
    ensures
        fragment_shader_v(f1, u1, shader) == fragment_shader_v(f2, u2, shader),
{
}

} // verus!
