//! Barycentric triangle rasterization.
//!
//! Given three clip-surviving screen vertices `(x, y, depth)` the rasterizer
//! scans the triangle's screen bounding box, clamped to the framebuffer
//! extent, and emits one fragment per covered pixel. A pixel is covered when
//! its three edge weights share the sign of the triangle's signed area, so
//! both windings rasterize with the same test; a zero-area triangle covers
//! nothing. Each fragment carries the depth and payload interpolated by the
//! area-normalized weights. The contract pins down the emitted set exactly:
//! a fragment exists for a pixel of the scan box if and only if the pixel is
//! covered, and every fragment equals the interpolation formula at its pixel.

use vstd::prelude::*;
use crate::fixed::{Fx, clip, fx_add_v, fx_sub_v, fx_mul_v, fx_div_v, fx_min_v, fx_max_v};
use crate::vec3::{V3, Gv3};
use crate::fragment::{Fragment, GFragment, SkyFragment, GSkyFragment};

verus! {

/// An integer pixel coordinate as a fixed-point value.
pub open spec fn pix_fx(p: int) -> int {
    clip(p * 65536)
}

/// The edge function: the signed double area of the triangle `(a, b, p)`.
pub open spec fn edge_v(ax: int, ay: int, bx: int, by: int, px: int, py: int) -> int {
    fx_sub_v(
        fx_mul_v(fx_sub_v(bx, ax), fx_sub_v(py, ay)),
        fx_mul_v(fx_sub_v(by, ay), fx_sub_v(px, ax)),
    )
}

fn edge_fn(a: V3, b: V3, px: Fx, py: Fx) -> (r: Fx)
    ensures
        r@ == edge_v(a@.x, a@.y, b@.x, b@.y, px@, py@),
{
    b.x.sat_sub(a.x).sat_mul(py.sat_sub(a.y)).sat_sub(b.y.sat_sub(a.y).sat_mul(px.sat_sub(a.x)))
}

/// Signed double area of the screen triangle.
pub open spec fn tri_area_v(t0: Gv3, t1: Gv3, t2: Gv3) -> int {
    edge_v(t0.x, t0.y, t1.x, t1.y, t2.x, t2.y)
}

/// Pixel coverage: all three edge weights share the sign of the (nonzero)
/// signed area.
pub open spec fn covered_v(t0: Gv3, t1: Gv3, t2: Gv3, px: int, py: int) -> bool {
    let fx = pix_fx(px);
    let fy = pix_fx(py);
    let area = tri_area_v(t0, t1, t2);
    let w0 = edge_v(t1.x, t1.y, t2.x, t2.y, fx, fy);
    let w1 = edge_v(t2.x, t2.y, t0.x, t0.y, fx, fy);
    let w2 = edge_v(t0.x, t0.y, t1.x, t1.y, fx, fy);
    ||| (area > 0 && w0 >= 0 && w1 >= 0 && w2 >= 0)
    ||| (area < 0 && w0 <= 0 && w1 <= 0 && w2 <= 0)
}

/// The area-normalized barycentric weight of corner `i` at a pixel, where
/// `wi` is the raw edge weight of that corner.
pub open spec fn bary_v(t0: Gv3, t1: Gv3, t2: Gv3, w: int) -> int {
    fx_div_v(w, tri_area_v(t0, t1, t2))
}

/// Blend of three scalars by the normalized weights at a pixel.
pub open spec fn blend_v(a0: int, a1: int, a2: int, c0: int, c1: int, c2: int) -> int {
    fx_add_v(fx_add_v(fx_mul_v(a0, c0), fx_mul_v(a1, c1)), fx_mul_v(a2, c2))
}

/// The exact fragment the rasterizer emits at a covered pixel: the pixel
/// coordinates, the blended depth, and the blended object-space position.
pub open spec fn frag_at_v(
    t0: Gv3, t1: Gv3, t2: Gv3, o0: Gv3, o1: Gv3, o2: Gv3, px: int, py: int,
) -> GFragment {
    let fx = pix_fx(px);
    let fy = pix_fx(py);
    let a0 = bary_v(t0, t1, t2, edge_v(t1.x, t1.y, t2.x, t2.y, fx, fy));
    let a1 = bary_v(t0, t1, t2, edge_v(t2.x, t2.y, t0.x, t0.y, fx, fy));
    let a2 = bary_v(t0, t1, t2, edge_v(t0.x, t0.y, t1.x, t1.y, fx, fy));
    GFragment {
        x: px,
        y: py,
        depth: blend_v(a0, a1, a2, t0.z, t1.z, t2.z),
        obj: Gv3 {
            x: blend_v(a0, a1, a2, o0.x, o1.x, o2.x),
            y: blend_v(a0, a1, a2, o0.y, o1.y, o2.y),
            z: blend_v(a0, a1, a2, o0.z, o1.z, o2.z),
        },
    }
}

/// The exact flat-color fragment at a covered pixel for the sky fast path.
pub open spec fn sky_frag_at_v(
    t0: Gv3, t1: Gv3, t2: Gv3, c0: Gv3, c1: Gv3, c2: Gv3, px: int, py: int,
) -> GSkyFragment {
    let fx = pix_fx(px);
    let fy = pix_fx(py);
    let a0 = bary_v(t0, t1, t2, edge_v(t1.x, t1.y, t2.x, t2.y, fx, fy));
    let a1 = bary_v(t0, t1, t2, edge_v(t2.x, t2.y, t0.x, t0.y, fx, fy));
    let a2 = bary_v(t0, t1, t2, edge_v(t0.x, t0.y, t1.x, t1.y, fx, fy));
    GSkyFragment {
        x: px,
        y: py,
        depth: blend_v(a0, a1, a2, t0.z, t1.z, t2.z),
        color: Gv3 {
            x: blend_v(a0, a1, a2, c0.x, c1.x, c2.x),
            y: blend_v(a0, a1, a2, c0.y, c1.y, c2.y),
            z: blend_v(a0, a1, a2, c0.z, c1.z, c2.z),
        },
    }
}

/// First scanned column: the floor of the least vertex x, at least zero.
pub open spec fn scan_x0_v(t0: Gv3, t1: Gv3, t2: Gv3) -> int {
    let m = fx_min_v(t0.x, fx_min_v(t1.x, t2.x)) / 65536;
    if m < 0 {
        0
    } else {
        m
    }
}

/// Last scanned column: the floor of the greatest vertex x, at most the last
/// pixel column.
pub open spec fn scan_x1_v(t0: Gv3, t1: Gv3, t2: Gv3, width: int) -> int {
    let m = fx_max_v(t0.x, fx_max_v(t1.x, t2.x)) / 65536;
    if m > width - 1 {
        width - 1
    } else {
        m
    }
}

/// First scanned row.
pub open spec fn scan_y0_v(t0: Gv3, t1: Gv3, t2: Gv3) -> int {
    let m = fx_min_v(t0.y, fx_min_v(t1.y, t2.y)) / 65536;
    if m < 0 {
        0
    } else {
        m
    }
}

/// Last scanned row.
pub open spec fn scan_y1_v(t0: Gv3, t1: Gv3, t2: Gv3, height: int) -> int {
    let m = fx_max_v(t0.y, fx_max_v(t1.y, t2.y)) / 65536;
    if m > height - 1 {
        height - 1
    } else {
        m
    }
}

/// Row-major emission order: fragment `a` precedes fragment `b`.
pub open spec fn frag_before(a: Fragment, b: Fragment) -> bool {
    a@.y < b@.y || (a@.y == b@.y && a@.x < b@.x)
}

/// Row-major emission order for flat-colored fragments.
pub open spec fn sky_frag_before(a: SkyFragment, b: SkyFragment) -> bool {
    a@.y < b@.y || (a@.y == b@.y && a@.x < b@.x)
}

/// Some fragment in the sequence sits at the given pixel.
pub open spec fn has_frag(s: Seq<Fragment>, px: int, py: int) -> bool {
    exists|i: int| 0 <= i < s.len() && s[i]@.x == px && s[i]@.y == py
}

/// Some sky fragment in the sequence sits at the given pixel.
pub open spec fn has_sky_frag(s: Seq<SkyFragment>, px: int, py: int) -> bool {
    exists|i: int| 0 <= i < s.len() && s[i]@.x == px && s[i]@.y == py
}

proof fn lemma_has_frag_push(s: Seq<Fragment>, f: Fragment, px: int, py: int)
    requires
        has_frag(s, px, py),
    ensures
        has_frag(s.push(f), px, py),
{
    let i = choose|i: int| 0 <= i < s.len() && s[i]@.x == px && s[i]@.y == py;
    assert(s.push(f)[i] == s[i]);
}

proof fn lemma_has_sky_frag_push(s: Seq<SkyFragment>, f: SkyFragment, px: int, py: int)
    requires
        has_sky_frag(s, px, py),
    ensures
        has_sky_frag(s.push(f), px, py),
{
    let i = choose|i: int| 0 <= i < s.len() && s[i]@.x == px && s[i]@.y == py;
    assert(s.push(f)[i] == s[i]);
}

/// Rasterize one triangle for the shaded path: screen vertices `v0 v1 v2`
/// with their matching post-vertex-shader object-space positions
/// `o0 o1 o2`, against a `width x height` pixel extent. The result holds
/// exactly one fragment for each covered pixel of the clamped bounding box,
/// each equal to the interpolation formula at its pixel; a degenerate
/// triangle yields no fragments.
pub fn triangle(
    v0: &V3, v1: &V3, v2: &V3, o0: &V3, o1: &V3, o2: &V3, width: u32, height: u32,
) -> (r: Vec<Fragment>)
    ensures
        forall|i: int| 0 <= i < r@.len() ==> {
            let f = #[trigger] r@[i]@;
            &&& scan_x0_v(v0@, v1@, v2@) <= f.x <= scan_x1_v(v0@, v1@, v2@, width as int)
            &&& scan_y0_v(v0@, v1@, v2@) <= f.y <= scan_y1_v(v0@, v1@, v2@, height as int)
            &&& covered_v(v0@, v1@, v2@, f.x, f.y)
            &&& f == frag_at_v(v0@, v1@, v2@, o0@, o1@, o2@, f.x, f.y)
        },
        forall|px: int, py: int|
            scan_x0_v(v0@, v1@, v2@) <= px <= scan_x1_v(v0@, v1@, v2@, width as int)
                && scan_y0_v(v0@, v1@, v2@) <= py <= scan_y1_v(v0@, v1@, v2@, height as int)
                && #[trigger] covered_v(v0@, v1@, v2@, px, py)
            ==> has_frag(r@, px, py),
        forall|i: int, j: int| #![trigger r@[i], r@[j]]
            0 <= i < j < r@.len() ==> frag_before(r@[i], r@[j]),
        tri_area_v(v0@, v1@, v2@) == 0 ==> r@.len() == 0,
{
    let mut out: Vec<Fragment> = Vec::new();
    let area = edge_fn(*v0, *v1, v2.x, v2.y);
    if area.to_bits() == 0 || width == 0 || height == 0 {
        return out;
    }
    let x0i: i64 = v0.x.fx_min(v1.x.fx_min(v2.x)).floor_units();
    let x1i: i64 = v0.x.fx_max(v1.x.fx_max(v2.x)).floor_units();
    let y0i: i64 = v0.y.fx_min(v1.y.fx_min(v2.y)).floor_units();
    let y1i: i64 = v0.y.fx_max(v1.y.fx_max(v2.y)).floor_units();
    let sx0: i64 = if x0i < 0 { 0 } else { x0i };
    let sx1: i64 = if x1i > (width - 1) as i64 { (width - 1) as i64 } else { x1i };
    let sy0: i64 = if y0i < 0 { 0 } else { y0i };
    let sy1: i64 = if y1i > (height - 1) as i64 { (height - 1) as i64 } else { y1i };
    if sx1 < sx0 || sy1 < sy0 {
        return out;
    }
    let mut py: i64 = sy0;
    while py <= sy1
        invariant
            area@ == tri_area_v(v0@, v1@, v2@),
            area@ != 0,
            sy0 <= py <= sy1 + 1,
            0 <= sx0 <= sx1 <= width - 1,
            0 <= sy0 <= sy1 <= height - 1,
            sx0 as int == scan_x0_v(v0@, v1@, v2@),
            sx1 as int == scan_x1_v(v0@, v1@, v2@, width as int),
            sy0 as int == scan_y0_v(v0@, v1@, v2@),
            sy1 as int == scan_y1_v(v0@, v1@, v2@, height as int),
            forall|i: int| 0 <= i < out@.len() ==> {
                let f = #[trigger] out@[i]@;
                &&& sx0 <= f.x <= sx1
                &&& sy0 <= f.y < py
                &&& covered_v(v0@, v1@, v2@, f.x, f.y)
                &&& f == frag_at_v(v0@, v1@, v2@, o0@, o1@, o2@, f.x, f.y)
            },
            forall|qx: int, qy: int|
                sx0 <= qx <= sx1 && sy0 <= qy < py
                    && #[trigger] covered_v(v0@, v1@, v2@, qx, qy)
                ==> has_frag(out@, qx, qy),
            forall|a: int, b: int| #![trigger out@[a], out@[b]]
                0 <= a < b < out@.len() ==> frag_before(out@[a], out@[b]),
        decreases sy1 - py + 1,
    {
        let pyf = Fx::from_int(py);
        let mut px: i64 = sx0;
        while px <= sx1
            invariant
                area@ == tri_area_v(v0@, v1@, v2@),
                area@ != 0,
                sx0 <= px <= sx1 + 1,
                sy0 <= py <= sy1,
                0 <= sx0 <= sx1 <= width - 1,
                0 <= sy0 <= sy1 <= height - 1,
                sx0 as int == scan_x0_v(v0@, v1@, v2@),
                sx1 as int == scan_x1_v(v0@, v1@, v2@, width as int),
                sy0 as int == scan_y0_v(v0@, v1@, v2@),
                sy1 as int == scan_y1_v(v0@, v1@, v2@, height as int),
                pyf@ == pix_fx(py as int),
                forall|i: int| 0 <= i < out@.len() ==> {
                    let f = #[trigger] out@[i]@;
                    &&& sx0 <= f.x <= sx1
                    &&& sy0 <= f.y <= py
                    &&& (f.y == py ==> f.x < px)
                    &&& covered_v(v0@, v1@, v2@, f.x, f.y)
                    &&& f == frag_at_v(v0@, v1@, v2@, o0@, o1@, o2@, f.x, f.y)
                },
                forall|qx: int, qy: int|
                    sx0 <= qx <= sx1 && sy0 <= qy < py
                        && #[trigger] covered_v(v0@, v1@, v2@, qx, qy)
                    ==> has_frag(out@, qx, qy),
                forall|qx: int|
                    sx0 <= qx < px && #[trigger] covered_v(v0@, v1@, v2@, qx, py as int)
                    ==> has_frag(out@, qx, py as int),
                forall|a: int, b: int| #![trigger out@[a], out@[b]]
                    0 <= a < b < out@.len() ==> frag_before(out@[a], out@[b]),
            decreases sx1 - px + 1,
        {
            let pxf = Fx::from_int(px);
            let w0 = edge_fn(*v1, *v2, pxf, pyf);
            let w1 = edge_fn(*v2, *v0, pxf, pyf);
            let w2 = edge_fn(*v0, *v1, pxf, pyf);
            let inside = if area.to_bits() > 0 {
                w0.to_bits() >= 0 && w1.to_bits() >= 0 && w2.to_bits() >= 0
            } else {
                w0.to_bits() <= 0 && w1.to_bits() <= 0 && w2.to_bits() <= 0
            };
            if inside {
                let a0 = w0.sat_div(area);
                let a1 = w1.sat_div(area);
                let a2 = w2.sat_div(area);
                let depth = a0.sat_mul(v0.z).sat_add(a1.sat_mul(v1.z)).sat_add(a2.sat_mul(v2.z));
                let obj = V3 {
                    x: a0.sat_mul(o0.x).sat_add(a1.sat_mul(o1.x)).sat_add(a2.sat_mul(o2.x)),
                    y: a0.sat_mul(o0.y).sat_add(a1.sat_mul(o1.y)).sat_add(a2.sat_mul(o2.y)),
                    z: a0.sat_mul(o0.z).sat_add(a1.sat_mul(o1.z)).sat_add(a2.sat_mul(o2.z)),
                };
                let frag = Fragment { x: px as u32, y: py as u32, depth, obj };
                let ghost prev = out@;
                out.push(frag);
                proof {
                    assert(out@[prev.len() as int] == frag);
                    assert forall|a: int, b: int| #![trigger out@[a], out@[b]]
                        0 <= a < b < out@.len() implies frag_before(out@[a], out@[b]) by {
                        if b < prev.len() {
                            assert(out@[a] == prev[a] && out@[b] == prev[b]);
                        } else {
                            assert(out@[a] == prev[a] && out@[b] == frag);
                        }
                    }
                    assert forall|qx: int, qy: int|
                        sx0 <= qx <= sx1 && sy0 <= qy < py
                            && #[trigger] covered_v(v0@, v1@, v2@, qx, qy)
                        implies has_frag(out@, qx, qy) by {
                        lemma_has_frag_push(prev, frag, qx, qy);
                    }
                    assert forall|qx: int|
                        sx0 <= qx < px + 1 && #[trigger] covered_v(v0@, v1@, v2@, qx, py as int)
                        implies has_frag(out@, qx, py as int) by {
                        if qx < px {
                            lemma_has_frag_push(prev, frag, qx, py as int);
                        } else {
                            assert(out@[prev.len() as int]@.x == qx);
                        }
                    }
                }
            }
            px = px + 1;
        }
        py = py + 1;
    }
    proof {
        if tri_area_v(v0@, v1@, v2@) == 0 && out@.len() > 0 {
            assert(covered_v(v0@, v1@, v2@, out@[0]@.x, out@[0]@.y));
        }
    }
    out
}

/// Rasterize one triangle for the background fast path: as [`triangle`],
/// but the per-vertex payload is a flat color `c0 c1 c2` and the fragments
/// carry the blended color instead of a surface position.
pub fn triangle_sky(
    v0: &V3, v1: &V3, v2: &V3, c0: &V3, c1: &V3, c2: &V3, width: u32, height: u32,
) -> (r: Vec<SkyFragment>)
    ensures
        forall|i: int| 0 <= i < r@.len() ==> {
            let f = #[trigger] r@[i]@;
            &&& scan_x0_v(v0@, v1@, v2@) <= f.x <= scan_x1_v(v0@, v1@, v2@, width as int)
            &&& scan_y0_v(v0@, v1@, v2@) <= f.y <= scan_y1_v(v0@, v1@, v2@, height as int)
            &&& covered_v(v0@, v1@, v2@, f.x, f.y)
            &&& f == sky_frag_at_v(v0@, v1@, v2@, c0@, c1@, c2@, f.x, f.y)
        },
        forall|px: int, py: int|
            scan_x0_v(v0@, v1@, v2@) <= px <= scan_x1_v(v0@, v1@, v2@, width as int)
                && scan_y0_v(v0@, v1@, v2@) <= py <= scan_y1_v(v0@, v1@, v2@, height as int)
                && #[trigger] covered_v(v0@, v1@, v2@, px, py)
            ==> has_sky_frag(r@, px, py),
        forall|i: int, j: int| #![trigger r@[i], r@[j]]
            0 <= i < j < r@.len() ==> sky_frag_before(r@[i], r@[j]),
        tri_area_v(v0@, v1@, v2@) == 0 ==> r@.len() == 0,
{
    let mut out: Vec<SkyFragment> = Vec::new();
    let area = edge_fn(*v0, *v1, v2.x, v2.y);
    if area.to_bits() == 0 || width == 0 || height == 0 {
        return out;
    }
    let x0i: i64 = v0.x.fx_min(v1.x.fx_min(v2.x)).floor_units();
    let x1i: i64 = v0.x.fx_max(v1.x.fx_max(v2.x)).floor_units();
    let y0i: i64 = v0.y.fx_min(v1.y.fx_min(v2.y)).floor_units();
    let y1i: i64 = v0.y.fx_max(v1.y.fx_max(v2.y)).floor_units();
    let sx0: i64 = if x0i < 0 { 0 } else { x0i };
    let sx1: i64 = if x1i > (width - 1) as i64 { (width - 1) as i64 } else { x1i };
    let sy0: i64 = if y0i < 0 { 0 } else { y0i };
    let sy1: i64 = if y1i > (height - 1) as i64 { (height - 1) as i64 } else { y1i };
    if sx1 < sx0 || sy1 < sy0 {
        return out;
    }
    let mut py: i64 = sy0;
    while py <= sy1
        invariant
            area@ == tri_area_v(v0@, v1@, v2@),
            area@ != 0,
            sy0 <= py <= sy1 + 1,
            0 <= sx0 <= sx1 <= width - 1,
            0 <= sy0 <= sy1 <= height - 1,
            sx0 as int == scan_x0_v(v0@, v1@, v2@),
            sx1 as int == scan_x1_v(v0@, v1@, v2@, width as int),
            sy0 as int == scan_y0_v(v0@, v1@, v2@),
            sy1 as int == scan_y1_v(v0@, v1@, v2@, height as int),
            forall|i: int| 0 <= i < out@.len() ==> {
                let f = #[trigger] out@[i]@;
                &&& sx0 <= f.x <= sx1
                &&& sy0 <= f.y < py
                &&& covered_v(v0@, v1@, v2@, f.x, f.y)
                &&& f == sky_frag_at_v(v0@, v1@, v2@, c0@, c1@, c2@, f.x, f.y)
            },
            forall|qx: int, qy: int|
                sx0 <= qx <= sx1 && sy0 <= qy < py
                    && #[trigger] covered_v(v0@, v1@, v2@, qx, qy)
                ==> has_sky_frag(out@, qx, qy),
            forall|a: int, b: int| #![trigger out@[a], out@[b]]
                0 <= a < b < out@.len() ==> sky_frag_before(out@[a], out@[b]),
        decreases sy1 - py + 1,
    {
        let pyf = Fx::from_int(py);
        let mut px: i64 = sx0;
        while px <= sx1
            invariant
                area@ == tri_area_v(v0@, v1@, v2@),
                area@ != 0,
                sx0 <= px <= sx1 + 1,
                sy0 <= py <= sy1,
                0 <= sx0 <= sx1 <= width - 1,
                0 <= sy0 <= sy1 <= height - 1,
                sx0 as int == scan_x0_v(v0@, v1@, v2@),
                sx1 as int == scan_x1_v(v0@, v1@, v2@, width as int),
                sy0 as int == scan_y0_v(v0@, v1@, v2@),
                sy1 as int == scan_y1_v(v0@, v1@, v2@, height as int),
                pyf@ == pix_fx(py as int),
                forall|i: int| 0 <= i < out@.len() ==> {
                    let f = #[trigger] out@[i]@;
                    &&& sx0 <= f.x <= sx1
                    &&& sy0 <= f.y <= py
                    &&& (f.y == py ==> f.x < px)
                    &&& covered_v(v0@, v1@, v2@, f.x, f.y)
                    &&& f == sky_frag_at_v(v0@, v1@, v2@, c0@, c1@, c2@, f.x, f.y)
                },
                forall|qx: int, qy: int|
                    sx0 <= qx <= sx1 && sy0 <= qy < py
                        && #[trigger] covered_v(v0@, v1@, v2@, qx, qy)
                    ==> has_sky_frag(out@, qx, qy),
                forall|qx: int|
                    sx0 <= qx < px && #[trigger] covered_v(v0@, v1@, v2@, qx, py as int)
                    ==> has_sky_frag(out@, qx, py as int),
                forall|a: int, b: int| #![trigger out@[a], out@[b]]
                    0 <= a < b < out@.len() ==> sky_frag_before(out@[a], out@[b]),
            decreases sx1 - px + 1,
        {
            let pxf = Fx::from_int(px);
            let w0 = edge_fn(*v1, *v2, pxf, pyf);
            let w1 = edge_fn(*v2, *v0, pxf, pyf);
            let w2 = edge_fn(*v0, *v1, pxf, pyf);
            let inside = if area.to_bits() > 0 {
                w0.to_bits() >= 0 && w1.to_bits() >= 0 && w2.to_bits() >= 0
            } else {
                w0.to_bits() <= 0 && w1.to_bits() <= 0 && w2.to_bits() <= 0
            };
            if inside {
                let a0 = w0.sat_div(area);
                let a1 = w1.sat_div(area);
                let a2 = w2.sat_div(area);
                let depth = a0.sat_mul(v0.z).sat_add(a1.sat_mul(v1.z)).sat_add(a2.sat_mul(v2.z));
                let color = V3 {
                    x: a0.sat_mul(c0.x).sat_add(a1.sat_mul(c1.x)).sat_add(a2.sat_mul(c2.x)),
                    y: a0.sat_mul(c0.y).sat_add(a1.sat_mul(c1.y)).sat_add(a2.sat_mul(c2.y)),
                    z: a0.sat_mul(c0.z).sat_add(a1.sat_mul(c1.z)).sat_add(a2.sat_mul(c2.z)),
                };
                let frag = SkyFragment { x: px as u32, y: py as u32, depth, color };
                let ghost prev = out@;
                out.push(frag);
                proof {
                    assert(out@[prev.len() as int] == frag);
                    assert forall|a: int, b: int| #![trigger out@[a], out@[b]]
                        0 <= a < b < out@.len() implies sky_frag_before(out@[a], out@[b]) by {
                        if b < prev.len() {
                            assert(out@[a] == prev[a] && out@[b] == prev[b]);
                        } else {
                            assert(out@[a] == prev[a] && out@[b] == frag);
                        }
                    }
                    assert forall|qx: int, qy: int|
                        sx0 <= qx <= sx1 && sy0 <= qy < py
                            && #[trigger] covered_v(v0@, v1@, v2@, qx, qy)
                        implies has_sky_frag(out@, qx, qy) by {
                        lemma_has_sky_frag_push(prev, frag, qx, qy);
                    }
                    assert forall|qx: int|
                        sx0 <= qx < px + 1 && #[trigger] covered_v(v0@, v1@, v2@, qx, py as int)
                        implies has_sky_frag(out@, qx, py as int) by {
                        if qx < px {
                            lemma_has_sky_frag_push(prev, frag, qx, py as int);
                        } else {
                            assert(out@[prev.len() as int]@.x == qx);
                        }
                    }
                }
            }
            px = px + 1;
        }
        py = py + 1;
    }
    proof {
        if tri_area_v(v0@, v1@, v2@) == 0 && out@.len() > 0 {
            assert(covered_v(v0@, v1@, v2@, out@[0]@.x, out@[0]@.y));
        }
    }
    out
}


} // verus!
