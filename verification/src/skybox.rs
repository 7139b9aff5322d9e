//! The background: a distant nebula sphere with precomputed per-vertex
//! colors, a fixed procedural star field, and a time-driven shooting star.
//!
//! The nebula color of a direction and the star directions and brightness
//! values are exact pure functions; the drawing routines push everything
//! through the core transform, rasterizer and framebuffer, and promise the
//! same compositing discipline as the main renderer.

use vstd::prelude::*;
use crate::fixed::{
    Fx, FX_ONE, clip, fx_add_v, fx_sub_v, fx_mul_v, fx_div_v, fx_clamp_v, fx_sqrt_v, fx_seq_view,
};
use crate::trig::{fx_sin, fx_cos, fx_sin_v, fx_cos_v, lemma_fx_square_nonneg, FX_PI, FX_TWO_PI};
use crate::vec3::{V3, Gv3, v3_add_v, v3_scale_v, v3_normalize_or_v, v3_seq_view};
use crate::noise::{sky_hash_lattice, sky_hash_lattice_v, fbm3, fbm3_v};
use crate::matrix::{M4, Gm4};
use crate::pipeline::{transform, transform_v, v3_opt_view};
use crate::raster::{
    triangle_sky, covered_v, sky_frag_at_v, scan_x0_v, scan_x1_v, scan_y0_v, scan_y1_v,
    has_sky_frag,
};
use crate::framebuffer::{
    Framebuffer, GFramebuffer, Color, fb_wf, write_pixel_v, vec3_to_color, vec3_to_color_v,
    color_to_vec3, color_to_vec3_v, lemma_fb_idx_in_range,
};
use vstd::arithmetic::div_mod::lemma_fundamental_div_mod;
use crate::render::{
    composited_from, lemma_write_preserves_composited, lemma_write_depths_nonincreasing,
};

verus! {

/// A fixed-point value floored to a byte, clamped into `[0, 255]`.
pub open spec fn sky_byte_v(v: int) -> int {
    let b = v / 65536;
    if b < 0 {
        0
    } else if b > 255 {
        255
    } else {
        b
    }
}

fn sky_byte(v: Fx) -> (r: u8)
    ensures
        r as int == sky_byte_v(v@),
{
    let f = v.floor_units();
    if f < 0 {
        0
    } else if f > 255 {
        255
    } else {
        f as u8
    }
}

/// The nebula and star-dot color of a view direction: two fractal layers mix
/// into a blue nebula base; a high-frequency hash paints sparse bright star
/// dots over it in two intensity tiers.
pub open spec fn sample_sky_v(dir: Gv3, time: int) -> Color {
    let d = v3_normalize_or_v(dir, dir);
    let neb = fbm3_v(v3_scale_v(d, 163840), 5, 144179, 36045);
    let neb2 = fbm3_v(
        v3_add_v(v3_scale_v(d, 458752), Gv3 { x: 0, y: fx_mul_v(time, 1966), z: 0 }),
        4, 131072, 32768,
    );
    let neb_mix = fx_clamp_v(fx_add_v(fx_mul_v(neb, 39322), fx_mul_v(neb2, 26214)), 0, 65536);
    let sp = v3_scale_v(d, 7864320);
    let sn = sky_hash_lattice_v(sp.x / 65536, sp.y / 65536, sp.z / 65536);
    if sn > 65438 {
        let a = fx_clamp_v(fx_div_v(fx_sub_v(sn, 65438), 98), 0, 65536);
        let b8 = sky_byte_v(fx_add_v(13762560, fx_mul_v(a, 2949120)));
        let blue = if (b8 * 72090) / 65536 > 255 { 255 } else { (b8 * 72090) / 65536 };
        Color { r: b8 as u8, g: b8 as u8, b: blue as u8 }
    } else if sn > 65208 {
        let b8 = sky_byte_v(
            fx_add_v(10485760, fx_mul_v(fx_div_v(fx_sub_v(sn, 65208), 328), 5242880)));
        let blue = if (b8 * 68813) / 65536 > 255 { 255 } else { (b8 * 68813) / 65536 };
        Color { r: b8 as u8, g: b8 as u8, b: blue as u8 }
    } else {
        Color {
            r: sky_byte_v(fx_add_v(327680, fx_mul_v(neb_mix, 2621440))) as u8,
            g: sky_byte_v(fx_add_v(524288, fx_mul_v(neb_mix, 3932160))) as u8,
            b: sky_byte_v(fx_add_v(1310720, fx_mul_v(neb_mix, 9175040))) as u8,
        }
    }
}

/// Sample the background color of a view direction at a time.
pub fn sample_sky(dir: V3, time: Fx) -> (r: Color)
    ensures
        r == sample_sky_v(dir@, time@),
{
    let d = dir.normalize_or(dir);
    let neb = fbm3(
        d.scale(Fx::from_bits(163840)), 5, Fx::from_bits(144179), Fx::from_bits(36045));
    let neb2 = fbm3(
        d.scale(Fx::from_bits(458752)).add(
            V3 { x: Fx::zero(), y: time.sat_mul(Fx::from_bits(1966)), z: Fx::zero() }),
        4, Fx::from_bits(131072), Fx::from_bits(32768),
    );
    let neb_mix = neb.sat_mul(Fx::from_bits(39322)).sat_add(neb2.sat_mul(Fx::from_bits(26214)))
        .fx_clamp(Fx::zero(), Fx::one());
    let sp = d.scale(Fx::from_bits(7864320));
    let sn = sky_hash_lattice(sp.x.floor_units(), sp.y.floor_units(), sp.z.floor_units());
    if Fx::from_bits(65438).fx_lt(sn) {
        let a = sn.sat_sub(Fx::from_bits(65438)).sat_div(Fx::from_bits(98))
            .fx_clamp(Fx::zero(), Fx::one());
        let b8 = sky_byte(Fx::from_bits(13762560).sat_add(a.sat_mul(Fx::from_bits(2949120))));
        let scaled = ((b8 as u64) * 72090) / 65536;
        let blue = if scaled > 255 { 255 } else { scaled as u8 };
        Color { r: b8, g: b8, b: blue }
    } else if Fx::from_bits(65208).fx_lt(sn) {
        let b8 = sky_byte(
            Fx::from_bits(10485760).sat_add(
                sn.sat_sub(Fx::from_bits(65208)).sat_div(Fx::from_bits(328))
                    .sat_mul(Fx::from_bits(5242880)),
            ),
        );
        let scaled = ((b8 as u64) * 68813) / 65536;
        let blue = if scaled > 255 { 255 } else { scaled as u8 };
        Color { r: b8, g: b8, b: blue }
    } else {
        Color {
            r: sky_byte(Fx::from_bits(327680).sat_add(neb_mix.sat_mul(Fx::from_bits(2621440)))),
            g: sky_byte(Fx::from_bits(524288).sat_add(neb_mix.sat_mul(Fx::from_bits(3932160)))),
            b: sky_byte(Fx::from_bits(1310720).sat_add(neb_mix.sat_mul(Fx::from_bits(9175040)))),
        }
    }
}

/// The sky sample depends on the view direction only through its truncated
/// normalization: two directions that normalize alike sample alike. (Exact
/// invariance under positive scaling does not survive fixed-point
/// truncation, so this is the form that holds.)
pub proof fn lemma_sample_sky_direction_only(d1: Gv3, d2: Gv3, time: int)
    requires
        v3_normalize_or_v(d1, d1) == v3_normalize_or_v(d2, d2),
    ensures
        sample_sky_v(d1, time) == sample_sky_v(d2, time),
{
}

/// The unit direction of star `i`: spherical angles drawn from sines of the
/// star's index, with straight up as the degenerate fallback.
pub open spec fn star_dir_v(i: int) -> Gv3 {
    let fi = clip((i + 1) * 65536);
    let theta = fx_mul_v(fx_sin_v(fx_mul_v(fi, 851306)), FX_PI as int);
    let phi = fx_mul_v(fx_sin_v(fx_mul_v(fi, 5127078)), FX_TWO_PI as int);
    v3_normalize_or_v(
        Gv3 {
            x: fx_mul_v(fx_sin_v(theta), fx_cos_v(phi)),
            y: fx_cos_v(theta),
            z: fx_mul_v(fx_sin_v(theta), fx_sin_v(phi)),
        },
        Gv3 { x: 0, y: 65536, z: 0 },
    )
}

/// The brightness of star `i`, in `[0.6, 1.0]` of one unit.
pub open spec fn star_brightness_v(i: int) -> int {
    let fi = clip((i + 1) * 65536);
    fx_add_v(
        39322,
        fx_mul_v(26214, fx_add_v(fx_mul_v(fx_sin_v(fx_mul_v(fi, 207749)), 32768), 32768)),
    )
}

fn star_dir_at(i: u32) -> (r: V3)
    ensures
        r@ == star_dir_v(i as int),
{
    let fi = Fx::from_int((i as i64) + 1);
    let theta = fx_sin(fi.sat_mul(Fx::from_bits(851306))).sat_mul(Fx::from_bits(FX_PI));
    let phi = fx_sin(fi.sat_mul(Fx::from_bits(5127078))).sat_mul(Fx::from_bits(FX_TWO_PI));
    let st = fx_sin(theta);
    V3 { x: st.sat_mul(fx_cos(phi)), y: fx_cos(theta), z: st.sat_mul(fx_sin(phi)) }
        .normalize_or(V3 { x: Fx::zero(), y: Fx::one(), z: Fx::zero() })
}

fn star_brightness_at(i: u32) -> (r: Fx)
    ensures
        r@ == star_brightness_v(i as int),
{
    let fi = Fx::from_int((i as i64) + 1);
    Fx::from_bits(39322).sat_add(
        Fx::from_bits(26214).sat_mul(
            fx_sin(fi.sat_mul(Fx::from_bits(207749))).sat_mul(Fx::from_bits(32768))
                .sat_add(Fx::from_bits(32768)),
        ),
    )
}

/// The precomputed background: the nebula sphere mesh with one color per
/// vertex, and the fixed star field.
pub struct Skybox {
    pub vertices: Vec<V3>,
    pub colors: Vec<V3>,
    pub star_dirs: Vec<V3>,
    pub star_brightness: Vec<Fx>,
}

/// The color list matches the mesh and the star lists match each other.
pub open spec fn skybox_wf(sb: Skybox) -> bool {
    &&& sb.colors@.len() == sb.vertices@.len()
    &&& sb.star_brightness@.len() == sb.star_dirs@.len()
}

impl Skybox {
    /// Precompute the background for a given nebula sphere mesh: one nebula
    /// color per vertex, sampled at time zero, and 600 procedural stars.
    pub fn new(vertices: Vec<V3>) -> (r: Skybox)
        ensures
            skybox_wf(r),
            r.vertices@ == vertices@,
            r.colors@.len() == vertices@.len(),
            forall|i: int| 0 <= i < vertices@.len()
                ==> #[trigger] r.colors@[i]@ == color_to_vec3_v(sample_sky_v(vertices@[i]@, 0)),
            r.star_dirs@.len() == 600,
            forall|i: int| 0 <= i < 600 ==> #[trigger] r.star_dirs@[i]@ == star_dir_v(i),
            forall|i: int| 0 <= i < 600
                ==> #[trigger] r.star_brightness@[i]@ == star_brightness_v(i),
    {
        let n = vertices.len();
        let mut colors: Vec<V3> = Vec::new();
        let mut i: usize = 0;
        while i < n
            invariant
                i <= n,
                n == vertices@.len(),
                colors@.len() == i,
                forall|j: int| 0 <= j < i
                    ==> #[trigger] colors@[j]@ == color_to_vec3_v(sample_sky_v(vertices@[j]@, 0)),
            decreases n - i,
        {
            colors.push(color_to_vec3(sample_sky(vertices[i], Fx::zero())));
            i = i + 1;
        }
        let mut star_dirs: Vec<V3> = Vec::new();
        let mut star_brightness: Vec<Fx> = Vec::new();
        let mut k: u32 = 0;
        while k < 600
            invariant
                k <= 600,
                star_dirs@.len() == k,
                star_brightness@.len() == k,
                forall|j: int| 0 <= j < k ==> #[trigger] star_dirs@[j]@ == star_dir_v(j),
                forall|j: int| 0 <= j < k
                    ==> #[trigger] star_brightness@[j]@ == star_brightness_v(j),
            decreases 600 - k,
        {
            star_dirs.push(star_dir_at(k));
            star_brightness.push(star_brightness_at(k));
            k = k + 1;
        }
        Skybox { vertices, colors, star_dirs, star_brightness }
    }
}

/// The screen position of sky vertex `i`: the identity placement pushed
/// through the camera; `None` when it is invisible.
#[verifier::opaque]
pub open spec fn sky_screen_vertex_v(
    vertices: Seq<Gv3>, view: Gm4, proj: Gm4, viewport: Gm4, i: int,
) -> Option<Gv3> {
    transform_v(
        vertices[i],
        Gv3 { x: 0, y: 0, z: 0 },
        FX_ONE as int,
        Gv3 { x: 0, y: 0, z: 0 },
        view, proj, viewport,
    )
}

/// All three vertices of sky triangle `t` survive clipping.
pub open spec fn sky_tri_fully_visible(
    vertices: Seq<Gv3>, view: Gm4, proj: Gm4, viewport: Gm4, t: int,
) -> bool {
    &&& sky_screen_vertex_v(vertices, view, proj, viewport, 3 * t) is Some
    &&& sky_screen_vertex_v(vertices, view, proj, viewport, 3 * t + 1) is Some
    &&& sky_screen_vertex_v(vertices, view, proj, viewport, 3 * t + 2) is Some
}

/// Depth-buffer correctness at one pixel for one sky triangle: a covered
/// pixel of a fully visible triangle, within its clamped scan box, stores a
/// depth no farther than the triangle's interpolated depth.
pub open spec fn sky_pixel_depth_bounded(
    fb: GFramebuffer, vertices: Seq<Gv3>, colors: Seq<Gv3>,
    view: Gm4, proj: Gm4, viewport: Gm4, t: int, px: int, py: int,
) -> bool {
    let s0 = sky_screen_vertex_v(vertices, view, proj, viewport, 3 * t).unwrap();
    let s1 = sky_screen_vertex_v(vertices, view, proj, viewport, 3 * t + 1).unwrap();
    let s2 = sky_screen_vertex_v(vertices, view, proj, viewport, 3 * t + 2).unwrap();
    (sky_tri_fully_visible(vertices, view, proj, viewport, t)
        && scan_x0_v(s0, s1, s2) <= px <= scan_x1_v(s0, s1, s2, fb.width)
        && scan_y0_v(s0, s1, s2) <= py <= scan_y1_v(s0, s1, s2, fb.height)
        && covered_v(s0, s1, s2, px, py))
        ==> fb.depths[py * fb.width + px]@ <= sky_frag_at_v(
            s0, s1, s2, colors[3 * t], colors[3 * t + 1], colors[3 * t + 2], px, py,
        ).depth
}

/// One changed cell explained for the sky pass: pixel `(px, py)` of cell
/// `i` is covered by the fully visible sky triangle `t` within its clamped
/// scan box, and the cell holds that triangle's interpolated flat-color
/// fragment: its depth, and its color quantized to a byte color.
pub open spec fn sky_write_at(
    cur: GFramebuffer, vertices: Seq<Gv3>, colors: Seq<Gv3>,
    view: Gm4, proj: Gm4, viewport: Gm4, t: int, px: int, py: int, i: int,
) -> bool {
    let s0 = sky_screen_vertex_v(vertices, view, proj, viewport, 3 * t).unwrap();
    let s1 = sky_screen_vertex_v(vertices, view, proj, viewport, 3 * t + 1).unwrap();
    let s2 = sky_screen_vertex_v(vertices, view, proj, viewport, 3 * t + 2).unwrap();
    let frag = sky_frag_at_v(
        s0, s1, s2, colors[3 * t], colors[3 * t + 1], colors[3 * t + 2], px, py);
    &&& 0 <= t
    &&& 3 * t + 2 < vertices.len()
    &&& sky_tri_fully_visible(vertices, view, proj, viewport, t)
    &&& scan_x0_v(s0, s1, s2) <= px <= scan_x1_v(s0, s1, s2, cur.width)
    &&& scan_y0_v(s0, s1, s2) <= py <= scan_y1_v(s0, s1, s2, cur.height)
    &&& covered_v(s0, s1, s2, px, py)
    &&& i == py * cur.width + px
    &&& cur.depths[i]@ == frag.depth
    &&& cur.colors[i] == vec3_to_color_v(frag.color)
}

/// Write confinement for the sky pass: every cell whose depth changed
/// carries a flat-color fragment of this pass.
pub open spec fn sky_writes_from(
    orig: GFramebuffer, cur: GFramebuffer, vertices: Seq<Gv3>, colors: Seq<Gv3>,
    view: Gm4, proj: Gm4, viewport: Gm4,
) -> bool {
    forall|i: int|
        0 <= i < cur.depths.len() && #[trigger] cur.depths[i]@ != orig.depths[i]@
            ==> exists|t: int, px: int, py: int|
                sky_write_at(cur, vertices, colors, view, proj, viewport, t, px, py, i)
}

/// Draw the nebula sphere: transform every mesh vertex with an identity
/// placement, assemble triangles whose vertices all survived clipping,
/// rasterize them on the flat-color fast path, and composite. Afterwards
/// every pixel covered by a fully visible sky triangle stores a depth at
/// least as near as that triangle's interpolated depth.
#[verifier::rlimit(60)]
pub fn draw_sky_sphere(
    framebuffer: &mut Framebuffer, skybox: &Skybox, view: &M4, viewport: &M4, projection: &M4,
)
    requires
        fb_wf(old(framebuffer)@),
        old(framebuffer)@.width <= u32::MAX,
        old(framebuffer)@.height <= u32::MAX,
        skybox_wf(*skybox),
    ensures
        fb_wf(final(framebuffer)@),
        composited_from(old(framebuffer)@, final(framebuffer)@),
        sky_writes_from(
            old(framebuffer)@, final(framebuffer)@,
            v3_seq_view(skybox.vertices@), v3_seq_view(skybox.colors@),
            view@, projection@, viewport@,
        ),
        forall|t: int, px: int, py: int|
            0 <= t && 3 * t + 2 < skybox.vertices@.len()
                ==> #[trigger] sky_pixel_depth_bounded(
                    final(framebuffer)@,
                    v3_seq_view(skybox.vertices@),
                    v3_seq_view(skybox.colors@),
                    view@, projection@, viewport@, t, px, py,
                ),
{
    let ghost verts = v3_seq_view(skybox.vertices@);
    let ghost cols = v3_seq_view(skybox.colors@);
    let width = framebuffer.width() as u32;
    let height = framebuffer.height() as u32;
    let n = skybox.vertices.len();
    let mut transformed: Vec<Option<V3>> = Vec::new();
    let mut i: usize = 0;
    while i < n
        invariant
            i <= n,
            n == skybox.vertices@.len(),
            transformed@.len() == i,
            verts == v3_seq_view(skybox.vertices@),
            forall|j: int| 0 <= j < i
                ==> v3_opt_view(transformed@[j])
                    == #[trigger] sky_screen_vertex_v(verts, view@, projection@, viewport@, j),
        decreases n - i,
    {
        let tv = transform(
            skybox.vertices[i], V3::zero(), Fx::one(), V3::zero(), view, projection, viewport);
        proof {
            reveal(sky_screen_vertex_v);
            assert(v3_opt_view(tv)
                == sky_screen_vertex_v(verts, view@, projection@, viewport@, i as int));
        }
        transformed.push(tv);
        i = i + 1;
    }
    let tris = n / 3;
    let mut t: usize = 0;
    while t < tris
        invariant
            t <= tris,
            tris == n / 3,
            n == skybox.vertices@.len(),
            n == transformed@.len(),
            n == skybox.colors@.len(),
            width as int == old(framebuffer)@.width,
            height as int == old(framebuffer)@.height,
            fb_wf(framebuffer@),
            composited_from(old(framebuffer)@, framebuffer@),
            verts == v3_seq_view(skybox.vertices@),
            cols == v3_seq_view(skybox.colors@),
            forall|j: int| 0 <= j < n
                ==> v3_opt_view(transformed@[j])
                    == #[trigger] sky_screen_vertex_v(verts, view@, projection@, viewport@, j),
            forall|q: int, px: int, py: int| 0 <= q < t
                ==> #[trigger] sky_pixel_depth_bounded(
                    framebuffer@, verts, cols, view@, projection@, viewport@, q, px, py),
            sky_writes_from(
                old(framebuffer)@, framebuffer@, verts, cols, view@, projection@, viewport@),
        decreases tris - t,
    {
        let base = 3 * t;
        if let (Some(v0), Some(v1), Some(v2)) =
            (transformed[base], transformed[base + 1], transformed[base + 2]) {
            let frags = triangle_sky(
                &v0, &v1, &v2,
                &skybox.colors[base], &skybox.colors[base + 1], &skybox.colors[base + 2],
                width, height,
            );
            let ghost s0 = v0@;
            let ghost s1 = v1@;
            let ghost s2 = v2@;
            let ghost c0 = skybox.colors@[base as int]@;
            let ghost c1 = skybox.colors@[base as int + 1]@;
            let ghost c2 = skybox.colors@[base as int + 2]@;
            proof {
                assert(sky_screen_vertex_v(verts, view@, projection@, viewport@, 3 * (t as int))
                    == Some(s0));
                assert(sky_screen_vertex_v(
                    verts, view@, projection@, viewport@, 3 * (t as int) + 1) == Some(s1));
                assert(sky_screen_vertex_v(
                    verts, view@, projection@, viewport@, 3 * (t as int) + 2) == Some(s2));
                assert(cols[3 * (t as int)] == c0);
                assert(cols[3 * (t as int) + 1] == c1);
                assert(cols[3 * (t as int) + 2] == c2);
                lemma_fundamental_div_mod(n as int, 3);
            }
            let m = frags.len();
            let mut k: usize = 0;
            while k < m
                invariant
                    k <= m,
                    m == frags@.len(),
                    t < tris,
                    tris == n / 3,
                    n == skybox.vertices@.len(),
                    verts == v3_seq_view(skybox.vertices@),
                    width as int == old(framebuffer)@.width,
                    height as int == old(framebuffer)@.height,
                    fb_wf(framebuffer@),
                    composited_from(old(framebuffer)@, framebuffer@),
                    sky_screen_vertex_v(verts, view@, projection@, viewport@, 3 * (t as int))
                        == Some(s0),
                    sky_screen_vertex_v(verts, view@, projection@, viewport@, 3 * (t as int) + 1)
                        == Some(s1),
                    sky_screen_vertex_v(verts, view@, projection@, viewport@, 3 * (t as int) + 2)
                        == Some(s2),
                    cols[3 * (t as int)] == c0,
                    cols[3 * (t as int) + 1] == c1,
                    cols[3 * (t as int) + 2] == c2,
                    3 * (t as int) + 2 < n,
                    n == verts.len(),
                    sky_writes_from(
                        old(framebuffer)@, framebuffer@, verts, cols,
                        view@, projection@, viewport@),
                    forall|j: int| 0 <= j < m ==> {
                        let f = #[trigger] frags@[j]@;
                        &&& scan_x0_v(s0, s1, s2) <= f.x <= scan_x1_v(s0, s1, s2, width as int)
                        &&& scan_y0_v(s0, s1, s2) <= f.y <= scan_y1_v(s0, s1, s2, height as int)
                        &&& covered_v(s0, s1, s2, f.x, f.y)
                        &&& f == sky_frag_at_v(s0, s1, s2, c0, c1, c2, f.x, f.y)
                    },
                    forall|px: int, py: int|
                        scan_x0_v(s0, s1, s2) <= px <= scan_x1_v(s0, s1, s2, width as int)
                            && scan_y0_v(s0, s1, s2) <= py <= scan_y1_v(
                                s0, s1, s2, height as int)
                            && #[trigger] covered_v(s0, s1, s2, px, py)
                        ==> has_sky_frag(frags@, px, py),
                    forall|q: int, px: int, py: int| 0 <= q < t
                        ==> #[trigger] sky_pixel_depth_bounded(
                            framebuffer@, verts, cols, view@, projection@, viewport@, q, px, py),
                    forall|j: int| 0 <= j < k ==> {
                        let f = #[trigger] frags@[j]@;
                        framebuffer@.depths[f.y * framebuffer@.width + f.x]@ <= f.depth
                    },
                decreases m - k,
            {
                let frag = frags[k];
                let col = vec3_to_color(frag.color);
                let ghost before = framebuffer@;
                proof {
                    lemma_write_preserves_composited(
                        old(framebuffer)@, framebuffer@,
                        frag.x as int, frag.y as int, frag.depth, col,
                    );
                    lemma_write_depths_nonincreasing(
                        framebuffer@, frag.x as int, frag.y as int, frag.depth, col);
                }
                framebuffer.set_pixel(frag.x, frag.y, frag.depth, col);
                proof {
                    // every changed cell carries one of this pass's fragments
                    let ghost fk = frags@[k as int]@;
                    assert(fk == frag@);
                    assert(fk == sky_frag_at_v(s0, s1, s2, c0, c1, c2, fk.x, fk.y));
                    lemma_fb_idx_in_range(before, fk.x, fk.y);
                    assert(write_pixel_v(
                        before, frag.x as int, frag.y as int, frag.depth, col,
                    ) == framebuffer@);
                    assert forall|ii: int|
                        0 <= ii < framebuffer@.depths.len()
                            && #[trigger] framebuffer@.depths[ii]@
                                != old(framebuffer)@.depths[ii]@
                        implies exists|q: int, qx: int, qy: int| sky_write_at(
                            framebuffer@, verts, cols, view@, projection@, viewport@,
                            q, qx, qy, ii) by {
                        if framebuffer@.depths[ii] == before.depths[ii] {
                            assert(framebuffer@.colors[ii] == before.colors[ii]);
                            assert(before.depths[ii]@ != old(framebuffer)@.depths[ii]@);
                            let (q, qx, qy) = choose|q: int, qx: int, qy: int|
                                sky_write_at(
                                    before, verts, cols, view@, projection@, viewport@,
                                    q, qx, qy, ii);
                            assert(sky_write_at(
                                framebuffer@, verts, cols, view@, projection@, viewport@,
                                q, qx, qy, ii));
                        } else {
                            assert(ii == fk.y * before.width + fk.x);
                            assert(sky_write_at(
                                framebuffer@, verts, cols, view@, projection@, viewport@,
                                t as int, fk.x, fk.y, ii));
                        }
                    }
                    assert forall|q: int, px: int, py: int| 0 <= q < t
                        implies #[trigger] sky_pixel_depth_bounded(
                            framebuffer@, verts, cols, view@, projection@, viewport@, q, px, py,
                        ) by {
                        let sq0 = sky_screen_vertex_v(
                            verts, view@, projection@, viewport@, 3 * q).unwrap();
                        let sq1 = sky_screen_vertex_v(
                            verts, view@, projection@, viewport@, 3 * q + 1).unwrap();
                        let sq2 = sky_screen_vertex_v(
                            verts, view@, projection@, viewport@, 3 * q + 2).unwrap();
                        if sky_tri_fully_visible(verts, view@, projection@, viewport@, q)
                            && scan_x0_v(sq0, sq1, sq2) <= px <= scan_x1_v(
                                sq0, sq1, sq2, framebuffer@.width)
                            && scan_y0_v(sq0, sq1, sq2) <= py <= scan_y1_v(
                                sq0, sq1, sq2, framebuffer@.height)
                            && covered_v(sq0, sq1, sq2, px, py) {
                            assert(sky_pixel_depth_bounded(
                                before, verts, cols, view@, projection@, viewport@, q, px, py));
                            lemma_fb_idx_in_range(before, px, py);
                        }
                    }
                    assert forall|j: int| 0 <= j < k + 1 implies {
                        let f = #[trigger] frags@[j]@;
                        framebuffer@.depths[f.y * framebuffer@.width + f.x]@ <= f.depth
                    } by {
                        let f = frags@[j]@;
                        lemma_fb_idx_in_range(before, f.x, f.y);
                        assert(write_pixel_v(
                            before, frag.x as int, frag.y as int, frag.depth, col,
                        ) == framebuffer@);
                        if j < k {
                            assert(before.depths[f.y * before.width + f.x]@ <= f.depth);
                        } else {
                            lemma_fb_idx_in_range(before, frag.x as int, frag.y as int);
                        }
                    }
                }
                k = k + 1;
            }
            proof {
                assert forall|px: int, py: int| true
                    implies #[trigger] sky_pixel_depth_bounded(
                        framebuffer@, verts, cols, view@, projection@, viewport@,
                        t as int, px, py,
                    ) by {
                    let sq0 = sky_screen_vertex_v(
                        verts, view@, projection@, viewport@, 3 * (t as int)).unwrap();
                    let sq1 = sky_screen_vertex_v(
                        verts, view@, projection@, viewport@, 3 * (t as int) + 1).unwrap();
                    let sq2 = sky_screen_vertex_v(
                        verts, view@, projection@, viewport@, 3 * (t as int) + 2).unwrap();
                    assert(sq0 == s0 && sq1 == s1 && sq2 == s2);
                    if sky_tri_fully_visible(verts, view@, projection@, viewport@, t as int)
                        && scan_x0_v(s0, s1, s2) <= px <= scan_x1_v(
                            s0, s1, s2, framebuffer@.width)
                        && scan_y0_v(s0, s1, s2) <= py <= scan_y1_v(
                            s0, s1, s2, framebuffer@.height)
                        && covered_v(s0, s1, s2, px, py) {
                        assert(has_sky_frag(frags@, px, py));
                        let j = choose|j: int|
                            0 <= j < frags@.len() && frags@[j]@.x == px && frags@[j]@.y == py;
                        assert(frags@[j]@ == sky_frag_at_v(s0, s1, s2, c0, c1, c2, px, py));
                    }
                }
                assert forall|q: int, px: int, py: int| 0 <= q < t + 1
                    implies #[trigger] sky_pixel_depth_bounded(
                        framebuffer@, verts, cols, view@, projection@, viewport@, q, px, py,
                    ) by {
                    if q == t {
                        assert(sky_pixel_depth_bounded(
                            framebuffer@, verts, cols, view@, projection@, viewport@,
                            t as int, px, py));
                    }
                }
            }
        } else {
            proof {
                assert forall|q: int, px: int, py: int| 0 <= q < t + 1
                    implies #[trigger] sky_pixel_depth_bounded(
                        framebuffer@, verts, cols, view@, projection@, viewport@, q, px, py,
                    ) by {
                    if q == t {
                        assert(v3_opt_view(transformed@[3 * q])
                            == sky_screen_vertex_v(verts, view@, projection@, viewport@, 3 * q));
                        assert(v3_opt_view(transformed@[3 * q + 1])
                            == sky_screen_vertex_v(
                                verts, view@, projection@, viewport@, 3 * q + 1));
                        assert(v3_opt_view(transformed@[3 * q + 2])
                            == sky_screen_vertex_v(
                                verts, view@, projection@, viewport@, 3 * q + 2));
                        assert(!sky_tri_fully_visible(verts, view@, projection@, viewport@, q));
                    }
                }
            }
        }
        t = t + 1;
    }
    proof {
        assert forall|q: int, px: int, py: int| 0 <= q && 3 * q + 2 < skybox.vertices@.len()
            implies #[trigger] sky_pixel_depth_bounded(
                framebuffer@, verts, cols, view@, projection@, viewport@, q, px, py,
            ) by {
            assert(q < tris);
        }
    }
}

/// The screen position of star `i`, pushed out to the star-shell radius
/// just inside the nebula sphere; `None` when it is invisible.
#[verifier::opaque]
pub open spec fn star_screen_v(
    dirs: Seq<Gv3>, view: Gm4, proj: Gm4, viewport: Gm4, i: int,
) -> Option<Gv3> {
    transform_v(
        v3_scale_v(dirs[i], 622592000),
        Gv3 { x: 0, y: 0, z: 0 },
        FX_ONE as int,
        Gv3 { x: 0, y: 0, z: 0 },
        view, proj, viewport,
    )
}

/// Depth-buffer correctness for one cell of a star's 3x3 dot: an in-range
/// cell of a visible star stores a depth no farther than the star's depth,
/// one step nearer than the nebula surface behind it.
pub open spec fn star_pixel_depth_bounded(
    fb: GFramebuffer, dirs: Seq<Gv3>, view: Gm4, proj: Gm4, viewport: Gm4,
    i: int, dx: int, dy: int,
) -> bool {
    let so = star_screen_v(dirs, view, proj, viewport, i);
    let s = so.unwrap();
    let x = s.x / 65536 + dx;
    let y = s.y / 65536 + dy;
    (so is Some && -1 <= dx <= 1 && -1 <= dy <= 1 && 0 <= x < fb.width && 0 <= y < fb.height)
        ==> fb.depths[y * fb.width + x]@ <= fx_sub_v(s.z, 66)
}

/// One changed cell explained for the star pass: cell `i` is the in-range
/// cell `(dx, dy)` of visible star `si`'s 3x3 dot, holding the star's depth
/// (one step nearer than the nebula) and its brightness-scaled blue-white
/// color.
pub open spec fn star_write_at(
    cur: GFramebuffer, dirs: Seq<Gv3>, brights: Seq<int>,
    view: Gm4, proj: Gm4, viewport: Gm4, si: int, dx: int, dy: int, i: int,
) -> bool {
    let so = star_screen_v(dirs, view, proj, viewport, si);
    let s = so.unwrap();
    let x = s.x / 65536 + dx;
    let y = s.y / 65536 + dy;
    let b = sky_byte_v(fx_mul_v(brights[si], 16711680));
    &&& 0 <= si < dirs.len()
    &&& so is Some
    &&& -1 <= dx <= 1
    &&& -1 <= dy <= 1
    &&& 0 <= x < cur.width
    &&& 0 <= y < cur.height
    &&& i == y * cur.width + x
    &&& cur.depths[i]@ == fx_sub_v(s.z, 66)
    &&& cur.colors[i] == (Color { r: b as u8, g: b as u8, b: 255 })
}

/// Write confinement for the star pass: every cell whose depth changed is a
/// cell of some visible star's dot.
pub open spec fn star_writes_from(
    orig: GFramebuffer, cur: GFramebuffer, dirs: Seq<Gv3>, brights: Seq<int>,
    view: Gm4, proj: Gm4, viewport: Gm4,
) -> bool {
    forall|i: int|
        0 <= i < cur.depths.len() && #[trigger] cur.depths[i]@ != orig.depths[i]@
            ==> exists|si: int, dx: int, dy: int|
                star_write_at(cur, dirs, brights, view, proj, viewport, si, dx, dy, i)
}

/// Draw the star field: each star direction is pushed to a distance just
/// inside the nebula sphere, transformed, and painted as a 3x3 dot slightly
/// nearer than the nebula. Afterwards every in-range cell of every visible
/// star's dot stores a depth at least as near as that star's.
pub fn draw_sky_stars(
    framebuffer: &mut Framebuffer, skybox: &Skybox, view: &M4, viewport: &M4, projection: &M4,
)
    requires
        fb_wf(old(framebuffer)@),
        old(framebuffer)@.width <= u32::MAX,
        old(framebuffer)@.height <= u32::MAX,
        skybox_wf(*skybox),
    ensures
        fb_wf(final(framebuffer)@),
        composited_from(old(framebuffer)@, final(framebuffer)@),
        star_writes_from(
            old(framebuffer)@, final(framebuffer)@,
            v3_seq_view(skybox.star_dirs@), fx_seq_view(skybox.star_brightness@),
            view@, projection@, viewport@,
        ),
        forall|i: int, dx: int, dy: int| 0 <= i < skybox.star_dirs@.len()
            ==> #[trigger] star_pixel_depth_bounded(
                final(framebuffer)@, v3_seq_view(skybox.star_dirs@),
                view@, projection@, viewport@, i, dx, dy,
            ),
{
    let ghost dirs = v3_seq_view(skybox.star_dirs@);
    let ghost brights = fx_seq_view(skybox.star_brightness@);
    let radius = Fx::from_int(9500);
    let n = skybox.star_dirs.len();
    let mut i: usize = 0;
    while i < n
        invariant
            i <= n,
            n == skybox.star_dirs@.len(),
            n == skybox.star_brightness@.len(),
            radius@ == 622592000,
            dirs == v3_seq_view(skybox.star_dirs@),
            brights == fx_seq_view(skybox.star_brightness@),
            framebuffer@.width <= u32::MAX,
            framebuffer@.height <= u32::MAX,
            fb_wf(framebuffer@),
            composited_from(old(framebuffer)@, framebuffer@),
            forall|j: int, dx: int, dy: int| 0 <= j < i
                ==> #[trigger] star_pixel_depth_bounded(
                    framebuffer@, dirs, view@, projection@, viewport@, j, dx, dy),
            star_writes_from(
                old(framebuffer)@, framebuffer@, dirs, brights, view@, projection@, viewport@),
        decreases n - i,
    {
        let world = skybox.star_dirs[i].scale(radius);
        let tv = transform(
            world, V3::zero(), Fx::one(), V3::zero(), view, projection, viewport);
        proof {
            reveal(star_screen_v);
            assert(v3_opt_view(tv)
                == star_screen_v(dirs, view@, projection@, viewport@, i as int));
        }
        if let Some(screen) = tv {
            let sx = screen.x.floor_units();
            let sy = screen.y.floor_units();
            let depth = screen.z.sat_sub(Fx::from_bits(66));
            let intensity = sky_byte(
                skybox.star_brightness[i].sat_mul(Fx::from_bits(16711680)));
            let col = Color { r: intensity, g: intensity, b: 255 };
            let ghost s = screen@;
            let mut dy: i64 = -1;
            while dy <= 1
                invariant
                    -1 <= dy <= 2,
                    i < n,
                    n == dirs.len(),
                    -0x8000_0000_0000 <= sx <= 0x8000_0000_0000,
                    -0x8000_0000_0000 <= sy <= 0x8000_0000_0000,
                    framebuffer@.width <= u32::MAX,
                    framebuffer@.height <= u32::MAX,
                    fb_wf(framebuffer@),
                    composited_from(old(framebuffer)@, framebuffer@),
                    star_screen_v(dirs, view@, projection@, viewport@, i as int) == Some(s),
                    sx as int == s.x / 65536,
                    sy as int == s.y / 65536,
                    depth@ == fx_sub_v(s.z, 66),
                    intensity as int == sky_byte_v(fx_mul_v(brights[i as int], 16711680)),
                    col == (Color { r: intensity, g: intensity, b: 255 }),
                    star_writes_from(
                        old(framebuffer)@, framebuffer@, dirs, brights,
                        view@, projection@, viewport@),
                    forall|j: int, qx: int, qy: int| 0 <= j < i
                        ==> #[trigger] star_pixel_depth_bounded(
                            framebuffer@, dirs, view@, projection@, viewport@, j, qx, qy),
                    forall|qx: int, qy: int| -1 <= qy < dy
                        ==> #[trigger] star_pixel_depth_bounded(
                            framebuffer@, dirs, view@, projection@, viewport@,
                            i as int, qx, qy),
                decreases 2 - dy,
            {
                let mut dx: i64 = -1;
                while dx <= 1
                    invariant
                        -1 <= dx <= 2,
                        -1 <= dy <= 1,
                        i < n,
                        n == dirs.len(),
                        -0x8000_0000_0000 <= sx <= 0x8000_0000_0000,
                        -0x8000_0000_0000 <= sy <= 0x8000_0000_0000,
                        framebuffer@.width <= u32::MAX,
                        framebuffer@.height <= u32::MAX,
                        fb_wf(framebuffer@),
                        composited_from(old(framebuffer)@, framebuffer@),
                        star_screen_v(dirs, view@, projection@, viewport@, i as int) == Some(s),
                        sx as int == s.x / 65536,
                        sy as int == s.y / 65536,
                        depth@ == fx_sub_v(s.z, 66),
                        intensity as int == sky_byte_v(fx_mul_v(brights[i as int], 16711680)),
                        col == (Color { r: intensity, g: intensity, b: 255 }),
                        star_writes_from(
                            old(framebuffer)@, framebuffer@, dirs, brights,
                            view@, projection@, viewport@),
                        forall|j: int, qx: int, qy: int| 0 <= j < i
                            ==> #[trigger] star_pixel_depth_bounded(
                                framebuffer@, dirs, view@, projection@, viewport@, j, qx, qy),
                        forall|qx: int, qy: int| -1 <= qy < dy
                            ==> #[trigger] star_pixel_depth_bounded(
                                framebuffer@, dirs, view@, projection@, viewport@,
                                i as int, qx, qy),
                        forall|qx: int| -1 <= qx < dx
                            ==> #[trigger] star_pixel_depth_bounded(
                                framebuffer@, dirs, view@, projection@, viewport@,
                                i as int, qx, dy as int),
                    decreases 2 - dx,
                {
                    let x = sx + dx;
                    let y = sy + dy;
                    let ghost before = framebuffer@;
                    if 0 <= x && x <= u32::MAX as i64 && 0 <= y && y <= u32::MAX as i64 {
                        proof {
                            lemma_write_preserves_composited(
                                old(framebuffer)@, framebuffer@, x as int, y as int, depth, col,
                            );
                            lemma_write_depths_nonincreasing(
                                framebuffer@, x as int, y as int, depth, col);
                        }
                        framebuffer.set_pixel(x as u32, y as u32, depth, col);
                        proof {
                            // every changed cell is a star-dot cell
                            assert(write_pixel_v(
                                before, x as int, y as int, depth, col,
                            ) == framebuffer@);
                            if 0 <= (x as int) < before.width
                                && 0 <= (y as int) < before.height {
                                lemma_fb_idx_in_range(before, x as int, y as int);
                            }
                            assert forall|ii: int|
                                0 <= ii < framebuffer@.depths.len()
                                    && #[trigger] framebuffer@.depths[ii]@
                                        != old(framebuffer)@.depths[ii]@
                                implies exists|si: int, qx: int, qy: int| star_write_at(
                                    framebuffer@, dirs, brights, view@, projection@, viewport@,
                                    si, qx, qy, ii) by {
                                if framebuffer@.depths[ii] == before.depths[ii] {
                                    assert(framebuffer@.colors[ii] == before.colors[ii]);
                                    assert(before.depths[ii]@
                                        != old(framebuffer)@.depths[ii]@);
                                    let (si, qx, qy) = choose|si: int, qx: int, qy: int|
                                        star_write_at(
                                            before, dirs, brights, view@, projection@,
                                            viewport@, si, qx, qy, ii);
                                    assert(star_write_at(
                                        framebuffer@, dirs, brights, view@, projection@,
                                        viewport@, si, qx, qy, ii));
                                } else {
                                    assert(ii == (y as int) * before.width + (x as int));
                                    assert(star_write_at(
                                        framebuffer@, dirs, brights, view@, projection@,
                                        viewport@, i as int, dx as int, dy as int, ii));
                                }
                            }
                            assert forall|j: int, qx: int, qy: int| 0 <= j < i
                                implies #[trigger] star_pixel_depth_bounded(
                                    framebuffer@, dirs, view@, projection@, viewport@,
                                    j, qx, qy,
                                ) by {
                                star_bound_preserved(
                                    before, framebuffer@, dirs, view@, projection@, viewport@,
                                    j, qx, qy);
                            }
                            assert forall|qx: int, qy: int| -1 <= qy < dy
                                implies #[trigger] star_pixel_depth_bounded(
                                    framebuffer@, dirs, view@, projection@, viewport@,
                                    i as int, qx, qy,
                                ) by {
                                star_bound_preserved(
                                    before, framebuffer@, dirs, view@, projection@, viewport@,
                                    i as int, qx, qy);
                            }
                            assert forall|qx: int| -1 <= qx < dx + 1
                                implies #[trigger] star_pixel_depth_bounded(
                                    framebuffer@, dirs, view@, projection@, viewport@,
                                    i as int, qx, dy as int,
                                ) by {
                                if qx < dx {
                                    star_bound_preserved(
                                        before, framebuffer@, dirs, view@, projection@,
                                        viewport@, i as int, qx, dy as int);
                                } else {
                                    if 0 <= (x as int) < before.width
                                        && 0 <= (y as int) < before.height {
                                        lemma_fb_idx_in_range(before, x as int, y as int);
                                    }
                                }
                            }
                        }
                    } else {
                        proof {
                            assert forall|qx: int| -1 <= qx < dx + 1
                                implies #[trigger] star_pixel_depth_bounded(
                                    framebuffer@, dirs, view@, projection@, viewport@,
                                    i as int, qx, dy as int,
                                ) by {
                            }
                        }
                    }
                    dx = dx + 1;
                }
                dy = dy + 1;
            }
            proof {
                assert forall|j: int, qx: int, qy: int| 0 <= j < i + 1
                    implies #[trigger] star_pixel_depth_bounded(
                        framebuffer@, dirs, view@, projection@, viewport@, j, qx, qy,
                    ) by {
                    if j == i {
                        if -1 <= qy <= 1 {
                            assert(star_pixel_depth_bounded(
                                framebuffer@, dirs, view@, projection@, viewport@, j, qx, qy));
                        }
                    }
                }
            }
        } else {
            proof {
                assert forall|j: int, qx: int, qy: int| 0 <= j < i + 1
                    implies #[trigger] star_pixel_depth_bounded(
                        framebuffer@, dirs, view@, projection@, viewport@, j, qx, qy,
                    ) by {
                    if j == i {
                        assert(star_screen_v(dirs, view@, projection@, viewport@, j) is None);
                    }
                }
            }
        }
        i = i + 1;
    }
}

/// An already-achieved star cell bound survives a depth-tested write.
proof fn star_bound_preserved(
    before: GFramebuffer, after: GFramebuffer, dirs: Seq<Gv3>,
    view: Gm4, proj: Gm4, viewport: Gm4, i: int, dx: int, dy: int,
)
    requires
        fb_wf(before),
        star_pixel_depth_bounded(before, dirs, view, proj, viewport, i, dx, dy),
        after.width == before.width,
        after.height == before.height,
        after.depths.len() == before.depths.len(),
        forall|k: int| 0 <= k < before.depths.len()
            ==> #[trigger] after.depths[k]@ <= before.depths[k]@,
    ensures
        star_pixel_depth_bounded(after, dirs, view, proj, viewport, i, dx, dy),
{
    let so = star_screen_v(dirs, view, proj, viewport, i);
    if so is Some {
        let sv = so.unwrap();
        let x = sv.x / 65536 + dx;
        let y = sv.y / 65536 + dy;
        if -1 <= dx <= 1 && -1 <= dy <= 1 && 0 <= x < before.width && 0 <= y < before.height {
            lemma_fb_idx_in_range(before, x, y);
        }
    }
}

/// Whether the shooting star is on screen at a time: only the first four
/// fifths of each cycle show a trail.
pub open spec fn shooting_star_active_v(time: int) -> bool {
    fx_div_v(time % 491520, 491520) <= 52429
}

/// The start point and heading of the trail at a time, for a given screen
/// size: `(start_x, start_y, dir_x, dir_y)` in fixed point.
#[verifier::opaque]
pub open spec fn trail_start_dir_v(time: int, width: int, height: int) -> (int, int, int, int) {
    let phase = fx_div_v(time % 491520, 491520);
    let k = fx_div_v(time, 491520) / 65536;
    let kk = if k < 0x8000_0000_0000 { k + 1 } else { k };
    let seed = clip(kk * 65536);
    let sx = fx_mul_v(
        fx_sin_v(fx_mul_v(fx_sin_v(fx_mul_v(seed, 851306)), 5127078)), 2867956633) % 65536;
    let sy = fx_mul_v(
        fx_sin_v(fx_mul_v(fx_sin_v(fx_mul_v(seed, 6159715)), 3088253)), 809086415) % 65536;
    let angle = fx_sub_v(fx_mul_v(fx_sin_v(fx_mul_v(seed, 157286)), 52429), 26214);
    let ca = fx_cos_v(angle);
    let sa = fx_sin_v(angle);
    let len = fx_sqrt_v(fx_add_v(fx_mul_v(ca, ca), fx_mul_v(sa, sa)));
    let dirx = if len == 0 { 65536 } else { fx_div_v(ca, len) };
    let diry = if len == 0 { 0 } else { fx_div_v(sa, len) };
    let travel = fx_mul_v(fx_mul_v(phase, clip(width * 65536)), 91750);
    (
        fx_sub_v(fx_mul_v(sx, clip(width * 65536)), fx_mul_v(dirx, travel)),
        fx_sub_v(fx_mul_v(sy, clip(height * 65536)), fx_mul_v(diry, travel)),
        dirx,
        diry,
    )
}

/// The pixel of trail step `i` at a time.
pub open spec fn trail_pixel_v(time: int, width: int, height: int, i: int) -> (int, int) {
    let sd = trail_start_dir_v(time, width, height);
    (
        fx_add_v(sd.0, fx_mul_v(sd.2, clip(i * 65536))) / 65536,
        fx_add_v(sd.1, fx_mul_v(sd.3, clip(i * 65536))) / 65536,
    )
}

/// Depth-buffer correctness for one trail step: while the trail is active,
/// an in-range trail pixel stores a depth no farther than the trail's fixed
/// near-background depth.
pub open spec fn trail_pixel_depth_bounded(
    fb: GFramebuffer, time: int, width: int, height: int, i: int,
) -> bool {
    let p = trail_pixel_v(time, width, height, i);
    (shooting_star_active_v(time) && 0 <= i < 25
        && 0 <= p.0 < fb.width && 0 <= p.1 < fb.height)
        ==> fb.depths[p.1 * fb.width + p.0]@ <= 52429
}

/// The trail byte at step `i`: the brightness fades with the squared
/// remaining fraction of the 25-step trail.
pub open spec fn trail_byte_v(i: int) -> int {
    let t = fx_div_v(clip(i * 65536), 1638400);
    let f = fx_sub_v(65536, t);
    sky_byte_v(fx_add_v(13107200, fx_mul_v(fx_mul_v(f, f), 3604480)))
}

/// One changed cell explained for the shooting star: cell `i` is the
/// in-range pixel of trail step `i25` of an active trail, holding the
/// trail's fixed near-background depth and the step's fading color.
pub open spec fn trail_write_at(
    cur: GFramebuffer, time: int, width: int, height: int, i25: int, i: int,
) -> bool {
    let p = trail_pixel_v(time, width, height, i25);
    let b = trail_byte_v(i25);
    &&& shooting_star_active_v(time)
    &&& 0 <= i25 < 25
    &&& 0 <= p.0 < cur.width
    &&& 0 <= p.1 < cur.height
    &&& i == p.1 * cur.width + p.0
    &&& cur.depths[i]@ == 52429
    &&& cur.colors[i] == (Color { r: b as u8, g: b as u8, b: 255 })
}

/// Write confinement for the shooting star: every cell whose depth changed
/// is an in-range pixel of the active trail.
pub open spec fn trail_writes_from(
    orig: GFramebuffer, cur: GFramebuffer, time: int, width: int, height: int,
) -> bool {
    forall|i: int|
        0 <= i < cur.depths.len() && #[trigger] cur.depths[i]@ != orig.depths[i]@
            ==> exists|i25: int| trail_write_at(cur, time, width, height, i25, i)
}

/// An already-achieved trail bound survives a depth-tested write.
proof fn trail_bound_preserved(
    before: GFramebuffer, after: GFramebuffer, time: int, width: int, height: int, i: int,
)
    requires
        fb_wf(before),
        trail_pixel_depth_bounded(before, time, width, height, i),
        after.width == before.width,
        after.height == before.height,
        after.depths.len() == before.depths.len(),
        forall|k: int| 0 <= k < before.depths.len()
            ==> #[trigger] after.depths[k]@ <= before.depths[k]@,
    ensures
        trail_pixel_depth_bounded(after, time, width, height, i),
{
    let p = trail_pixel_v(time, width, height, i);
    if shooting_star_active_v(time) && 0 <= i < 25
        && 0 <= p.0 < before.width && 0 <= p.1 < before.height {
        lemma_fb_idx_in_range(before, p.0, p.1);
    }
}

/// Draw the shooting star: a deterministic function of the time alone. In
/// part of each cycle a bright 25-pixel trail moves diagonally across the
/// screen, slightly in front of the background; its start point, heading and
/// fading tail are drawn from sine hashes of the cycle index. Afterwards
/// every in-range trail pixel stores a depth at least as near as the
/// trail's.
pub fn draw_shooting_star(framebuffer: &mut Framebuffer, time: Fx, width: u32, height: u32)
    requires
        fb_wf(old(framebuffer)@),
        old(framebuffer)@.width <= u32::MAX,
        old(framebuffer)@.height <= u32::MAX,
    ensures
        fb_wf(final(framebuffer)@),
        composited_from(old(framebuffer)@, final(framebuffer)@),
        trail_writes_from(
            old(framebuffer)@, final(framebuffer)@, time@, width as int, height as int),
        !shooting_star_active_v(time@) ==> final(framebuffer)@ == old(framebuffer)@,
        forall|i: int| #![trigger trail_pixel_depth_bounded(
            final(framebuffer)@, time@, width as int, height as int, i)]
            trail_pixel_depth_bounded(
                final(framebuffer)@, time@, width as int, height as int, i),
{
    let period = Fx::from_bits(491520);
    let phase = time.rem_euclid(period).sat_div(period);
    if Fx::from_bits(52429).fx_lt(phase) {
        return;
    }
    let k = time.sat_div(period).floor_units();
    let seed = Fx::from_int(if k < 0x8000_0000_0000 { k + 1 } else { k });
    let sx = fx_sin(
        fx_sin(seed.sat_mul(Fx::from_bits(851306))).sat_mul(Fx::from_bits(5127078)))
        .sat_mul(Fx::from_bits(2867956633)).fract_part();
    let sy = fx_sin(
        fx_sin(seed.sat_mul(Fx::from_bits(6159715))).sat_mul(Fx::from_bits(3088253)))
        .sat_mul(Fx::from_bits(809086415)).fract_part();
    let mut start_x = sx.sat_mul(Fx::from_int(width as i64));
    let mut start_y = sy.sat_mul(Fx::from_int(height as i64));
    let angle = fx_sin(seed.sat_mul(Fx::from_bits(157286))).sat_mul(Fx::from_bits(52429))
        .sat_sub(Fx::from_bits(26214));
    let ca = fx_cos(angle);
    let sa = fx_sin(angle);
    proof {
        lemma_fx_square_nonneg(ca@);
        lemma_fx_square_nonneg(sa@);
    }
    let len = ca.sat_mul(ca).sat_add(sa.sat_mul(sa)).fx_sqrt();
    let (dir_x, dir_y) = if len.to_bits() == 0 {
        (Fx::one(), Fx::zero())
    } else {
        (ca.sat_div(len), sa.sat_div(len))
    };
    let travel = phase.sat_mul(Fx::from_int(width as i64)).sat_mul(Fx::from_bits(91750));
    start_x = start_x.sat_sub(dir_x.sat_mul(travel));
    start_y = start_y.sat_sub(dir_y.sat_mul(travel));
    proof {
        reveal(trail_start_dir_v);
        assert((start_x@, start_y@, dir_x@, dir_y@)
            == trail_start_dir_v(time@, width as int, height as int));
    }
    let depth = Fx::from_bits(52429);
    let mut i: u32 = 0;
    while i < 25
        invariant
            i <= 25,
            framebuffer@.width <= u32::MAX,
            framebuffer@.height <= u32::MAX,
            fb_wf(framebuffer@),
            composited_from(old(framebuffer)@, framebuffer@),
            shooting_star_active_v(time@),
            depth@ == 52429,
            (start_x@, start_y@, dir_x@, dir_y@)
                == trail_start_dir_v(time@, width as int, height as int),
            forall|j: int| 0 <= j < i
                ==> #[trigger] trail_pixel_depth_bounded(
                    framebuffer@, time@, width as int, height as int, j),
            trail_writes_from(
                old(framebuffer)@, framebuffer@, time@, width as int, height as int),
        decreases 25 - i,
    {
        let t = Fx::from_int(i as i64).sat_div(Fx::from_int(25));
        let px = start_x.sat_add(dir_x.sat_mul(Fx::from_int(i as i64)));
        let py = start_y.sat_add(dir_y.sat_mul(Fx::from_int(i as i64)));
        let xi = px.floor_units();
        let yi = py.floor_units();
        proof {
            assert((xi as int, yi as int)
                == trail_pixel_v(time@, width as int, height as int, i as int));
        }
        let ghost before = framebuffer@;
        if 0 <= xi && xi <= u32::MAX as i64 && 0 <= yi && yi <= u32::MAX as i64 {
            let fade = Fx::one().sat_sub(t);
            let alpha = fade.sat_mul(fade);
            let b8 = sky_byte(
                Fx::from_bits(13107200).sat_add(alpha.sat_mul(Fx::from_bits(3604480))));
            let col = Color { r: b8, g: b8, b: 255 };
            proof {
                lemma_write_preserves_composited(
                    old(framebuffer)@, framebuffer@, xi as int, yi as int, depth, col,
                );
                lemma_write_depths_nonincreasing(
                    framebuffer@, xi as int, yi as int, depth, col);
            }
            framebuffer.set_pixel(xi as u32, yi as u32, depth, col);
            proof {
                // every changed cell is a trail pixel
                assert(write_pixel_v(before, xi as int, yi as int, depth, col) == framebuffer@);
                assert(b8 as int == trail_byte_v(i as int));
                if 0 <= (xi as int) < before.width && 0 <= (yi as int) < before.height {
                    lemma_fb_idx_in_range(before, xi as int, yi as int);
                }
                assert forall|ii: int|
                    0 <= ii < framebuffer@.depths.len()
                        && #[trigger] framebuffer@.depths[ii]@ != old(framebuffer)@.depths[ii]@
                    implies exists|i25: int| trail_write_at(
                        framebuffer@, time@, width as int, height as int, i25, ii) by {
                    if framebuffer@.depths[ii] == before.depths[ii] {
                        assert(framebuffer@.colors[ii] == before.colors[ii]);
                        assert(before.depths[ii]@ != old(framebuffer)@.depths[ii]@);
                        let i25 = choose|i25: int| trail_write_at(
                            before, time@, width as int, height as int, i25, ii);
                        assert(trail_write_at(
                            framebuffer@, time@, width as int, height as int, i25, ii));
                    } else {
                        assert(ii == (yi as int) * before.width + (xi as int));
                        assert(trail_write_at(
                            framebuffer@, time@, width as int, height as int, i as int, ii));
                    }
                }
                assert forall|j: int| 0 <= j < i + 1
                    implies #[trigger] trail_pixel_depth_bounded(
                        framebuffer@, time@, width as int, height as int, j,
                    ) by {
                    if j < i {
                        trail_bound_preserved(
                            before, framebuffer@, time@, width as int, height as int, j);
                    } else {
                        if 0 <= (xi as int) < before.width && 0 <= (yi as int) < before.height {
                            lemma_fb_idx_in_range(before, xi as int, yi as int);
                        }
                    }
                }
            }
        } else {
            proof {
                assert forall|j: int| 0 <= j < i + 1
                    implies #[trigger] trail_pixel_depth_bounded(
                        framebuffer@, time@, width as int, height as int, j,
                    ) by {
                }
            }
        }
        i = i + 1;
    }
}

} // verus!
