//! Deterministic 3D value noise and fractal sums in fixed point.
//!
//! A lattice hash maps integer lattice coordinates to a pseudo-random value
//! in `[0, 1)`; value noise interpolates the eight surrounding lattice hashes
//! with a smoothed weight; a fractal sum (fbm) accumulates octaves of value
//! noise at growing frequency and shrinking amplitude. Two independent
//! families are provided: the surface family with a quintic fade, used by the
//! material shaders, and the sky family with a cubic fade, used by the
//! background. Every function is a pure function of its arguments, so equal
//! inputs always give equal outputs.

use vstd::prelude::*;
use vstd::arithmetic::mul::{lemma_mul_inequality, lemma_mul_nonnegative};
use vstd::arithmetic::div_mod::{lemma_div_is_ordered, lemma_div_multiples_vanish};
use crate::fixed::{Fx, FX_ONE, FX_SAT, iabs, fx_add_v, fx_sub_v, fx_mul_v, fx_clamp_v, fx_lerp_v, fx_lerp};
use crate::trig::lemma_fx_mul_nonneg;
use crate::vec3::{V3, Gv3, v3_scale_v};

verus! {

/// Hash of a lattice point for the surface noise family: an affine
/// combination of the offset coordinates, scrambled by a Knuth multiplier
/// modulo a prime, reduced to `[0, 65536)`.
pub open spec fn hash_lattice_v(ix: int, iy: int, iz: int) -> int {
    let a = ix + 0x8000_0000_0000;
    let b = iy + 0x8000_0000_0000;
    let c = iz + 0x8000_0000_0000;
    let n = a * 73856093 + b * 19349663 + c * 83492791;
    ((n * 2654435761) % 4294967291) % (FX_ONE as int)
}

/// Hash of a lattice point for the sky noise family: the same construction
/// with its own coefficients, so the two fields are uncorrelated.
pub open spec fn sky_hash_lattice_v(ix: int, iy: int, iz: int) -> int {
    let a = ix + 0x8000_0000_0000;
    let b = iy + 0x8000_0000_0000;
    let c = iz + 0x8000_0000_0000;
    let n = a * 157 + b * 113 + c * 427;
    ((n * 2246822519) % 4294967279) % (FX_ONE as int)
}

fn hash_lattice(ix: i64, iy: i64, iz: i64) -> (r: Fx)
    requires
        -0x8000_0000_0000 <= ix <= 0x8000_0000_0001,
        -0x8000_0000_0000 <= iy <= 0x8000_0000_0001,
        -0x8000_0000_0000 <= iz <= 0x8000_0000_0001,
    ensures
        r@ == hash_lattice_v(ix as int, iy as int, iz as int),
        0 <= r@ < FX_ONE as int,
{
    let a: u128 = (ix + 0x8000_0000_0000) as u128;
    let b: u128 = (iy + 0x8000_0000_0000) as u128;
    let c: u128 = (iz + 0x8000_0000_0000) as u128;
    let n: u128 = a * 73856093 + b * 19349663 + c * 83492791;
    let h: u128 = (n * 2654435761) % 4294967291;
    Fx::from_bits((h % (FX_ONE as u128)) as i64)
}

pub fn sky_hash_lattice(ix: i64, iy: i64, iz: i64) -> (r: Fx)
    requires
        -0x8000_0000_0000 <= ix <= 0x8000_0000_0001,
        -0x8000_0000_0000 <= iy <= 0x8000_0000_0001,
        -0x8000_0000_0000 <= iz <= 0x8000_0000_0001,
    ensures
        r@ == sky_hash_lattice_v(ix as int, iy as int, iz as int),
        0 <= r@ < FX_ONE as int,
{
    let a: u128 = (ix + 0x8000_0000_0000) as u128;
    let b: u128 = (iy + 0x8000_0000_0000) as u128;
    let c: u128 = (iz + 0x8000_0000_0000) as u128;
    let n: u128 = a * 157 + b * 113 + c * 427;
    let h: u128 = (n * 2246822519) % 4294967279;
    Fx::from_bits((h % (FX_ONE as u128)) as i64)
}

/// Quintic fade `t^3 (t (6 t - 15) + 10)`.
pub open spec fn fade_v(t: int) -> int {
    fx_mul_v(
        fx_mul_v(fx_mul_v(t, t), t),
        fx_add_v(fx_mul_v(t, fx_sub_v(fx_mul_v(t, 393216), 983040)), 655360),
    )
}

/// Quintic fade curve for interpolation weights.
pub fn fade(t: Fx) -> (r: Fx)
    ensures
        r@ == fade_v(t@),
{
    t.sat_mul(t).sat_mul(t).sat_mul(
        t.sat_mul(t.sat_mul(Fx::from_bits(393216)).sat_sub(Fx::from_bits(983040)))
            .sat_add(Fx::from_bits(655360)),
    )
}

/// Cubic smoothstep fade `t^2 (3 - 2 t)`.
pub open spec fn smooth_v(t: int) -> int {
    fx_mul_v(fx_mul_v(t, t), fx_sub_v(196608, fx_mul_v(131072, t)))
}

fn smooth(t: Fx) -> (r: Fx)
    ensures
        r@ == smooth_v(t@),
{
    t.sat_mul(t).sat_mul(Fx::from_bits(196608).sat_sub(Fx::from_bits(131072).sat_mul(t)))
}

/// Trilinear blend of the eight corner values by the faded weights.
pub open spec fn trilerp_v(
    n000: int, n100: int, n010: int, n110: int,
    n001: int, n101: int, n011: int, n111: int,
    ux: int, uy: int, uz: int,
) -> int {
    let nx00 = fx_lerp_v(n000, n100, ux);
    let nx10 = fx_lerp_v(n010, n110, ux);
    let nx01 = fx_lerp_v(n001, n101, ux);
    let nx11 = fx_lerp_v(n011, n111, ux);
    let nxy0 = fx_lerp_v(nx00, nx10, uy);
    let nxy1 = fx_lerp_v(nx01, nx11, uy);
    fx_lerp_v(nxy0, nxy1, uz)
}

/// Surface value noise: the eight lattice hashes around the point, blended
/// by quintic-faded fractional weights, clamped into `[0, 1]`.
pub open spec fn value_noise3_v(p: Gv3) -> int {
    let ix = p.x / (FX_ONE as int);
    let iy = p.y / (FX_ONE as int);
    let iz = p.z / (FX_ONE as int);
    let ux = fade_v(p.x % (FX_ONE as int));
    let uy = fade_v(p.y % (FX_ONE as int));
    let uz = fade_v(p.z % (FX_ONE as int));
    fx_clamp_v(
        trilerp_v(
            hash_lattice_v(ix, iy, iz),
            hash_lattice_v(ix + 1, iy, iz),
            hash_lattice_v(ix, iy + 1, iz),
            hash_lattice_v(ix + 1, iy + 1, iz),
            hash_lattice_v(ix, iy, iz + 1),
            hash_lattice_v(ix + 1, iy, iz + 1),
            hash_lattice_v(ix, iy + 1, iz + 1),
            hash_lattice_v(ix + 1, iy + 1, iz + 1),
            ux, uy, uz,
        ),
        0,
        FX_ONE as int,
    )
}

/// Surface value noise; always within `[0, 1]`.
pub fn value_noise3(p: V3) -> (r: Fx)
    ensures
        r@ == value_noise3_v(p@),
        0 <= r@ <= FX_ONE as int,
{
    let ix = p.x.floor_units();
    let iy = p.y.floor_units();
    let iz = p.z.floor_units();
    let ux = fade(p.x.fract_part());
    let uy = fade(p.y.fract_part());
    let uz = fade(p.z.fract_part());
    let n000 = hash_lattice(ix, iy, iz);
    let n100 = hash_lattice(ix + 1, iy, iz);
    let n010 = hash_lattice(ix, iy + 1, iz);
    let n110 = hash_lattice(ix + 1, iy + 1, iz);
    let n001 = hash_lattice(ix, iy, iz + 1);
    let n101 = hash_lattice(ix + 1, iy, iz + 1);
    let n011 = hash_lattice(ix, iy + 1, iz + 1);
    let n111 = hash_lattice(ix + 1, iy + 1, iz + 1);
    let nx00 = fx_lerp(n000, n100, ux);
    let nx10 = fx_lerp(n010, n110, ux);
    let nx01 = fx_lerp(n001, n101, ux);
    let nx11 = fx_lerp(n011, n111, ux);
    let nxy0 = fx_lerp(nx00, nx10, uy);
    let nxy1 = fx_lerp(nx01, nx11, uy);
    fx_lerp(nxy0, nxy1, uz).fx_clamp(Fx::zero(), Fx::one())
}

/// Sky value noise: as the surface noise, with the sky hash and the cubic
/// smoothstep fade.
pub open spec fn sky_noise3_v(p: Gv3) -> int {
    let ix = p.x / (FX_ONE as int);
    let iy = p.y / (FX_ONE as int);
    let iz = p.z / (FX_ONE as int);
    let ux = smooth_v(p.x % (FX_ONE as int));
    let uy = smooth_v(p.y % (FX_ONE as int));
    let uz = smooth_v(p.z % (FX_ONE as int));
    fx_clamp_v(
        trilerp_v(
            sky_hash_lattice_v(ix, iy, iz),
            sky_hash_lattice_v(ix + 1, iy, iz),
            sky_hash_lattice_v(ix, iy + 1, iz),
            sky_hash_lattice_v(ix + 1, iy + 1, iz),
            sky_hash_lattice_v(ix, iy, iz + 1),
            sky_hash_lattice_v(ix + 1, iy, iz + 1),
            sky_hash_lattice_v(ix, iy + 1, iz + 1),
            sky_hash_lattice_v(ix + 1, iy + 1, iz + 1),
            ux, uy, uz,
        ),
        0,
        FX_ONE as int,
    )
}

/// Sky value noise; always within `[0, 1]`.
pub fn sky_noise3(p: V3) -> (r: Fx)
    ensures
        r@ == sky_noise3_v(p@),
        0 <= r@ <= FX_ONE as int,
{
    let ix = p.x.floor_units();
    let iy = p.y.floor_units();
    let iz = p.z.floor_units();
    let ux = smooth(p.x.fract_part());
    let uy = smooth(p.y.fract_part());
    let uz = smooth(p.z.fract_part());
    let n000 = sky_hash_lattice(ix, iy, iz);
    let n100 = sky_hash_lattice(ix + 1, iy, iz);
    let n010 = sky_hash_lattice(ix, iy + 1, iz);
    let n110 = sky_hash_lattice(ix + 1, iy + 1, iz);
    let n001 = sky_hash_lattice(ix, iy, iz + 1);
    let n101 = sky_hash_lattice(ix + 1, iy, iz + 1);
    let n011 = sky_hash_lattice(ix, iy + 1, iz + 1);
    let n111 = sky_hash_lattice(ix + 1, iy + 1, iz + 1);
    let nx00 = fx_lerp(n000, n100, ux);
    let nx10 = fx_lerp(n010, n110, ux);
    let nx01 = fx_lerp(n001, n101, ux);
    let nx11 = fx_lerp(n011, n111, ux);
    let nxy0 = fx_lerp(nx00, nx10, uy);
    let nxy1 = fx_lerp(nx01, nx11, uy);
    fx_lerp(nxy0, nxy1, uz).fx_clamp(Fx::zero(), Fx::one())
}

/// Fractal accumulation: each octave adds `amp * noise(p * freq)` into the
/// accumulator, then scales the frequency by the lacunarity and the
/// amplitude by the gain.
pub open spec fn fbm_acc_v(p: Gv3, oct: nat, lac: int, gain: int, amp: int, freq: int, acc: int) -> int
    decreases oct,
{
    if oct == 0 {
        acc
    } else {
        fbm_acc_v(
            p,
            (oct - 1) as nat,
            lac,
            gain,
            fx_mul_v(amp, gain),
            fx_mul_v(freq, lac),
            fx_add_v(acc, fx_mul_v(amp, value_noise3_v(v3_scale_v(p, freq)))),
        )
    }
}

/// Surface fractal sum: octaves of surface value noise, starting at
/// amplitude one half and frequency one. Zero octaves give exactly zero.
pub open spec fn fbm_v(p: Gv3, oct: nat, lac: int, gain: int) -> int {
    fbm_acc_v(p, oct, lac, gain, 32768, FX_ONE as int, 0)
}

/// Sky fractal accumulation over the sky value noise.
pub open spec fn fbm3_acc_v(p: Gv3, oct: nat, lac: int, gain: int, amp: int, freq: int, acc: int) -> int
    decreases oct,
{
    if oct == 0 {
        acc
    } else {
        fbm3_acc_v(
            p,
            (oct - 1) as nat,
            lac,
            gain,
            fx_mul_v(amp, gain),
            fx_mul_v(freq, lac),
            fx_add_v(acc, fx_mul_v(amp, sky_noise3_v(v3_scale_v(p, freq)))),
        )
    }
}

/// Sky fractal sum: octaves of sky value noise, starting at amplitude one
/// half and frequency one. Zero octaves give exactly zero.
pub open spec fn fbm3_v(p: Gv3, oct: nat, lac: int, gain: int) -> int {
    fbm3_acc_v(p, oct, lac, gain, 32768, FX_ONE as int, 0)
}

/// Surface fractal sum of `octaves` octaves of value noise.
pub fn fbm(p: V3, octaves: u32, lacunarity: Fx, gain: Fx) -> (r: Fx)
    ensures
        r@ == fbm_v(p@, octaves as nat, lacunarity@, gain@),
{
    let mut sum = Fx::zero();
    let mut amp = Fx::from_bits(32768);
    let mut freq = Fx::one();
    let mut i: u32 = 0;
    while i < octaves
        invariant
            i <= octaves,
            fbm_v(p@, octaves as nat, lacunarity@, gain@) == fbm_acc_v(
                p@, (octaves - i) as nat, lacunarity@, gain@, amp@, freq@, sum@),
        decreases octaves - i,
    {
        sum = sum.sat_add(amp.sat_mul(value_noise3(p.scale(freq))));
        amp = amp.sat_mul(gain);
        freq = freq.sat_mul(lacunarity);
        i = i + 1;
    }
    sum
}

/// Sky fractal sum of `octaves` octaves of sky value noise.
pub fn fbm3(p: V3, octaves: u32, lacunarity: Fx, gain: Fx) -> (r: Fx)
    ensures
        r@ == fbm3_v(p@, octaves as nat, lacunarity@, gain@),
{
    let mut sum = Fx::zero();
    let mut amp = Fx::from_bits(32768);
    let mut freq = Fx::one();
    let mut i: u32 = 0;
    while i < octaves
        invariant
            i <= octaves,
            fbm3_v(p@, octaves as nat, lacunarity@, gain@) == fbm3_acc_v(
                p@, (octaves - i) as nat, lacunarity@, gain@, amp@, freq@, sum@),
        decreases octaves - i,
    {
        sum = sum.sat_add(amp.sat_mul(sky_noise3(p.scale(freq))));
        amp = amp.sat_mul(gain);
        freq = freq.sat_mul(lacunarity);
        i = i + 1;
    }
    sum
}

/// A fractal sum over zero octaves is exactly zero.
pub proof fn lemma_fbm_zero_octaves(p: Gv3, lac: int, gain: int)
    ensures
        fbm_v(p, 0, lac, gain) == 0,
        fbm3_v(p, 0, lac, gain) == 0,
{
}

/// A fixed-point product of a non-negative value with a factor in `[0, 1]`
/// never exceeds the value.
proof fn lemma_fx_mul_le(a: int, b: int)
    requires
        0 <= a <= FX_SAT as int,
        0 <= b <= FX_ONE as int,
    ensures
        0 <= fx_mul_v(a, b) <= a,
{
    lemma_fx_mul_nonneg(a, b);
    lemma_mul_inequality(iabs(b), FX_ONE as int, iabs(a));
    assert(iabs(a) * iabs(b) == iabs(b) * iabs(a)) by (nonlinear_arith);
    assert(iabs(a) * (FX_ONE as int) == (FX_ONE as int) * iabs(a)) by (nonlinear_arith);
    lemma_div_is_ordered(iabs(a) * iabs(b), iabs(a) * (FX_ONE as int), FX_ONE as int);
    lemma_div_multiples_vanish(iabs(a), FX_ONE as int);
}

/// Each accumulated octave adds at least zero and at most the current
/// amplitude, which never grows while the gain is at most one.
proof fn lemma_fbm_acc_bounds(p: Gv3, oct: nat, lac: int, gain: int, amp: int, freq: int, acc: int)
    requires
        0 <= gain <= FX_ONE as int,
        0 <= amp <= FX_SAT as int,
        0 <= acc <= FX_SAT as int,
    ensures
        acc <= fbm_acc_v(p, oct, lac, gain, amp, freq, acc) <= acc + oct * amp,
        acc <= fbm3_acc_v(p, oct, lac, gain, amp, freq, acc) <= acc + oct * amp,
        fbm_acc_v(p, oct, lac, gain, amp, freq, acc) <= FX_SAT as int,
        fbm3_acc_v(p, oct, lac, gain, amp, freq, acc) <= FX_SAT as int,
    decreases oct,
{
    if oct == 0 {
    } else {
        let term = fx_mul_v(amp, value_noise3_v(v3_scale_v(p, freq)));
        let term3 = fx_mul_v(amp, sky_noise3_v(v3_scale_v(p, freq)));
        lemma_fx_mul_le(amp, value_noise3_v(v3_scale_v(p, freq)));
        lemma_fx_mul_le(amp, sky_noise3_v(v3_scale_v(p, freq)));
        lemma_fx_mul_le(amp, gain);
        let amp2 = fx_mul_v(amp, gain);
        let freq2 = fx_mul_v(freq, lac);
        lemma_fbm_acc_bounds(p, (oct - 1) as nat, lac, gain, amp2, freq2, fx_add_v(acc, term));
        lemma_fbm_acc_bounds(p, (oct - 1) as nat, lac, gain, amp2, freq2, fx_add_v(acc, term3));
        assert(((oct - 1) as nat) * amp2 <= ((oct - 1) as nat) * amp) by {
            lemma_mul_inequality(amp2, amp, (oct - 1) as int);
            assert(((oct - 1) as int) * amp2 == amp2 * ((oct - 1) as int)) by (nonlinear_arith);
            assert(((oct - 1) as int) * amp == amp * ((oct - 1) as int)) by (nonlinear_arith);
        }
        assert(oct * amp == ((oct - 1) as nat) * amp + amp) by (nonlinear_arith)
            requires oct >= 1;
        lemma_mul_nonnegative((oct - 1) as int, amp2);
    }
}

/// Amplitude bound: with a gain of at most one, a fractal sum lies between
/// zero and half an octave's unit per octave, since the surface and sky
/// noise values lie in `[0, 1]` and the amplitude starts at one half and
/// never grows.
pub proof fn lemma_fbm_bounds(p: Gv3, oct: nat, lac: int, gain: int)
    requires
        0 <= gain <= FX_ONE as int,
    ensures
        0 <= fbm_v(p, oct, lac, gain) <= oct * 32768,
        0 <= fbm3_v(p, oct, lac, gain) <= oct * 32768,
{
    lemma_fbm_acc_bounds(p, oct, lac, gain, 32768, FX_ONE as int, 0);
}

/// Noise determinism: identical input coordinates always yield identical
/// value-noise and fractal-sum results.
pub proof fn lemma_noise_deterministic(p1: Gv3, p2: Gv3, oct: nat, lac: int, gain: int)
    requires
        p1 == p2,
    ensures
        value_noise3_v(p1) == value_noise3_v(p2),
        sky_noise3_v(p1) == sky_noise3_v(p2),
        fbm_v(p1, oct, lac, gain) == fbm_v(p2, oct, lac, gain),
        fbm3_v(p1, oct, lac, gain) == fbm3_v(p2, oct, lac, gain),
{
}

} // verus!
