//! The per-mesh frame driver: vertex shading, transform, triangle assembly,
//! rasterization, fragment shading, and depth-tested compositing into the
//! framebuffer.
//!
//! The contract pins the frame three ways: compositing discipline (the
//! buffer keeps its shape and background, no stored depth ever moves
//! farther, a pixel whose depth did not change keeps its color), write
//! confinement (every changed pixel holds exactly one of this call's
//! fragments: a covered pixel of a fully visible triangle, with the
//! fragment's interpolated depth and its quantized shaded color), and
//! coverage (every pixel covered by a fully visible triangle ends at least
//! as near as that triangle's interpolated depth).

use vstd::prelude::*;
use crate::fixed::Fx;
use crate::vec3::{V3, Gv3};
use crate::matrix::{M4, Gm4};
use crate::uniforms::{Uniforms, GUniforms};
use crate::shaders::{
    VertexShader, FragmentShader, apply_vertex_shader, apply_vertex_shader_v, fragment_shader,
    fragment_shader_v,
};
use crate::pipeline::{
    transform, transform_with_basis, transform_v, transform_with_basis_v, v3_opt_view,
};
use crate::raster::{
    triangle, covered_v, frag_at_v, scan_x0_v, scan_x1_v, scan_y0_v, scan_y1_v, has_frag,
};
use crate::framebuffer::{
    Framebuffer, GFramebuffer, Color, fb_wf, write_pixel_v, lemma_fb_idx_in_range, vec3_to_color,
    vec3_to_color_v,
};
use vstd::arithmetic::div_mod::lemma_fundamental_div_mod;

verus! {

/// Ghost image of one draw call: the placement, the mesh, the two shader
/// variants, the camera matrices and the frame uniforms.
pub ghost struct GDrawCall {
    pub translation: Gv3,
    pub scale: int,
    pub rotation: Gv3,
    pub basis: Option<(Gv3, Gv3, Gv3)>,
    pub vertices: Seq<Gv3>,
    pub vshader: VertexShader,
    pub fshader: FragmentShader,
    pub view: Gm4,
    pub proj: Gm4,
    pub viewport: Gm4,
    pub uniforms: GUniforms,
}

/// The ghost draw call assembled from the arguments of [`render`].
pub open spec fn draw_call_v(
    translation: V3, scale: Fx, rotation: V3, basis: Option<(V3, V3, V3)>,
    vertex_array: Seq<V3>, vshader: VertexShader, fshader: FragmentShader,
    view: M4, proj: M4, viewport: M4, uniforms: Uniforms,
) -> GDrawCall {
    GDrawCall {
        translation: translation@,
        scale: scale@,
        rotation: rotation@,
        basis: match basis {
            Some((r, u, f)) => Some((r@, u@, f@)),
            None => None,
        },
        vertices: vertex_array.map_values(|v: V3| v@),
        vshader,
        fshader,
        view: view@,
        proj: proj@,
        viewport: viewport@,
        uniforms: uniforms@,
    }
}

/// The object-space position of input vertex `i` after the vertex shader.
#[verifier::opaque]
pub open spec fn obj_vertex_v(call: GDrawCall, i: int) -> Gv3 {
    apply_vertex_shader_v(call.vertices[i], call.vshader, call.uniforms.time)
}

/// The screen position of input vertex `i` after the vertex shader and the
/// transform of this draw call's placement; `None` when it is invisible.
#[verifier::opaque]
pub open spec fn screen_vertex_v(call: GDrawCall, i: int) -> Option<Gv3> {
    let vobj = obj_vertex_v(call, i);
    match call.basis {
        Some(b) => transform_with_basis_v(
            vobj, call.translation, call.scale, b.0, b.1, b.2,
            call.view, call.proj, call.viewport),
        None => transform_v(
            vobj, call.translation, call.scale, call.rotation,
            call.view, call.proj, call.viewport),
    }
}

/// All three vertices of triangle `t` (input vertices `3t .. 3t+2`) survive
/// clipping.
pub open spec fn tri_fully_visible(call: GDrawCall, t: int) -> bool {
    &&& screen_vertex_v(call, 3 * t) is Some
    &&& screen_vertex_v(call, 3 * t + 1) is Some
    &&& screen_vertex_v(call, 3 * t + 2) is Some
}

/// Depth-buffer correctness at one pixel for one triangle of a draw call:
/// if the triangle is fully visible and covers the pixel within its clamped
/// scan box, then the framebuffer stores a depth no farther than the
/// triangle's interpolated depth there.
pub open spec fn pixel_depth_bounded(
    fb: GFramebuffer, call: GDrawCall, t: int, px: int, py: int,
) -> bool {
    let s0 = screen_vertex_v(call, 3 * t).unwrap();
    let s1 = screen_vertex_v(call, 3 * t + 1).unwrap();
    let s2 = screen_vertex_v(call, 3 * t + 2).unwrap();
    (tri_fully_visible(call, t)
        && scan_x0_v(s0, s1, s2) <= px <= scan_x1_v(s0, s1, s2, fb.width)
        && scan_y0_v(s0, s1, s2) <= py <= scan_y1_v(s0, s1, s2, fb.height)
        && covered_v(s0, s1, s2, px, py))
        ==> fb.depths[py * fb.width + px]@ <= frag_at_v(
            s0, s1, s2,
            obj_vertex_v(call, 3 * t),
            obj_vertex_v(call, 3 * t + 1),
            obj_vertex_v(call, 3 * t + 2),
            px, py,
        ).depth
}

/// One changed cell explained: pixel `(px, py)` of cell index `i` is covered
/// by the fully visible triangle `t` within its clamped scan box, and the
/// cell holds exactly that triangle's interpolated fragment: its depth, and
/// its shaded color quantized to a byte color.
pub open spec fn draw_write_at(
    cur: GFramebuffer, call: GDrawCall, t: int, px: int, py: int, i: int,
) -> bool {
    let s0 = screen_vertex_v(call, 3 * t).unwrap();
    let s1 = screen_vertex_v(call, 3 * t + 1).unwrap();
    let s2 = screen_vertex_v(call, 3 * t + 2).unwrap();
    let frag = frag_at_v(
        s0, s1, s2,
        obj_vertex_v(call, 3 * t),
        obj_vertex_v(call, 3 * t + 1),
        obj_vertex_v(call, 3 * t + 2),
        px, py,
    );
    &&& 0 <= t
    &&& 3 * t + 2 < call.vertices.len()
    &&& tri_fully_visible(call, t)
    &&& scan_x0_v(s0, s1, s2) <= px <= scan_x1_v(s0, s1, s2, cur.width)
    &&& scan_y0_v(s0, s1, s2) <= py <= scan_y1_v(s0, s1, s2, cur.height)
    &&& covered_v(s0, s1, s2, px, py)
    &&& i == py * cur.width + px
    &&& cur.depths[i]@ == frag.depth
    &&& cur.colors[i] == vec3_to_color_v(fragment_shader_v(frag, call.uniforms, call.fshader))
}

/// Write confinement: every cell whose depth changed carries a fragment this
/// draw call emitted there. With [`composited_from`] (unchanged depths keep
/// their colors) this pins every write of the call: writes come only from
/// covered pixels of fully visible triangles, and each stores the fragment's
/// interpolated depth and its quantized shaded color.
pub open spec fn writes_from_draw(
    orig: GFramebuffer, cur: GFramebuffer, call: GDrawCall,
) -> bool {
    forall|i: int|
        0 <= i < cur.depths.len() && #[trigger] cur.depths[i]@ != orig.depths[i]@
            ==> exists|t: int, px: int, py: int| draw_write_at(cur, call, t, px, py, i)
}

/// What a frame's compositing is allowed to do to a framebuffer: keep its
/// shape and background, never move a stored depth farther, and keep the
/// color of every pixel whose depth did not change.
pub open spec fn composited_from(orig: GFramebuffer, cur: GFramebuffer) -> bool {
    &&& cur.width == orig.width
    &&& cur.height == orig.height
    &&& cur.background == orig.background
    &&& cur.colors.len() == orig.colors.len()
    &&& cur.depths.len() == orig.depths.len()
    &&& forall|i: int| 0 <= i < cur.depths.len() ==> #[trigger] cur.depths[i]@ <= orig.depths[i]@
    &&& forall|i: int|
        0 <= i < cur.depths.len() && #[trigger] cur.depths[i]@ == orig.depths[i]@
            ==> cur.colors[i] == orig.colors[i]
}

/// A depth-tested pixel write preserves the compositing relation.
pub proof fn lemma_write_preserves_composited(
    orig: GFramebuffer, cur: GFramebuffer, x: int, y: int, d: Fx, c: Color,
)
    requires
        fb_wf(cur),
        composited_from(orig, cur),
    ensures
        fb_wf(write_pixel_v(cur, x, y, d, c)),
        composited_from(orig, write_pixel_v(cur, x, y, d, c)),
{
    if 0 <= x < cur.width && 0 <= y < cur.height {
        lemma_fb_idx_in_range(cur, x, y);
    }
}

/// A depth-tested pixel write keeps the buffer shape and never moves any
/// stored depth farther.
pub proof fn lemma_write_depths_nonincreasing(
    cur: GFramebuffer, x: int, y: int, d: Fx, c: Color,
)
    requires
        fb_wf(cur),
    ensures
        ({
            let w = write_pixel_v(cur, x, y, d, c);
            &&& w.width == cur.width
            &&& w.height == cur.height
            &&& w.depths.len() == cur.depths.len()
            &&& forall|i: int|
                0 <= i < cur.depths.len() ==> #[trigger] w.depths[i]@ <= cur.depths[i]@
        }),
{
    if 0 <= x < cur.width && 0 <= y < cur.height {
        lemma_fb_idx_in_range(cur, x, y);
    }
}

/// Render one drawable: apply the vertex shader and the transform to every
/// vertex, assemble consecutive triples into triangles (dropping a trailing
/// partial triangle and any triangle with an invisible vertex), rasterize,
/// shade each fragment, and composite with the depth test. Afterwards every
/// changed pixel holds one of this call's shaded fragments, and every pixel
/// covered by a fully visible triangle stores a depth at least as near as
/// that triangle's interpolated depth; degenerate triangles, triangles with
/// a clipped vertex, and trailing stray vertices therefore contribute no
/// writes at all.
pub fn render(
    framebuffer: &mut Framebuffer,
    translation: V3,
    scale: Fx,
    rotation: V3,
    basis: Option<(V3, V3, V3)>,
    vertex_array: &Vec<V3>,
    vshader: &VertexShader,
    fshader: &FragmentShader,
    view: &M4,
    projection: &M4,
    viewport: &M4,
    uniforms: &Uniforms,
)
    requires
        fb_wf(old(framebuffer)@),
        old(framebuffer)@.width <= u32::MAX,
        old(framebuffer)@.height <= u32::MAX,
    ensures
        fb_wf(final(framebuffer)@),
        composited_from(old(framebuffer)@, final(framebuffer)@),
        writes_from_draw(
            old(framebuffer)@,
            final(framebuffer)@,
            draw_call_v(
                translation, scale, rotation, basis, vertex_array@,
                *vshader, *fshader, *view, *projection, *viewport, *uniforms),
        ),
        forall|t: int, px: int, py: int|
            0 <= t && 3 * t + 2 < vertex_array@.len()
                ==> #[trigger] pixel_depth_bounded(
                    final(framebuffer)@,
                    draw_call_v(
                        translation, scale, rotation, basis, vertex_array@,
                        *vshader, *fshader, *view, *projection, *viewport, *uniforms),
                    t, px, py,
                ),
{
    let ghost call = draw_call_v(
        translation, scale, rotation, basis, vertex_array@,
        *vshader, *fshader, *view, *projection, *viewport, *uniforms);
    let width = framebuffer.width() as u32;
    let height = framebuffer.height() as u32;

    // Vertex stage: displace, then transform each vertex.
    let n = vertex_array.len();
    let mut transformed: Vec<Option<V3>> = Vec::new();
    let mut obj_post: Vec<V3> = Vec::new();
    let mut i: usize = 0;
    while i < n
        invariant
            i <= n,
            n == vertex_array@.len(),
            transformed@.len() == i,
            obj_post@.len() == i,
            call == draw_call_v(
                translation, scale, rotation, basis, vertex_array@,
                *vshader, *fshader, *view, *projection, *viewport, *uniforms),
            forall|j: int| 0 <= j < i
                ==> v3_opt_view(transformed@[j]) == #[trigger] screen_vertex_v(call, j),
            forall|j: int| 0 <= j < i ==> obj_post@[j]@ == #[trigger] obj_vertex_v(call, j),
        decreases n - i,
    {
        let v_obj = apply_vertex_shader(vertex_array[i], vshader, uniforms.time);
        let tv = match basis {
            Some((right, up, forward)) => transform_with_basis(
                v_obj, translation, scale, right, up, forward, view, projection, viewport),
            None => transform(v_obj, translation, scale, rotation, view, projection, viewport),
        };
        proof {
            reveal(obj_vertex_v);
            reveal(screen_vertex_v);
            assert(v_obj@ == obj_vertex_v(call, i as int));
            assert(v3_opt_view(tv) == screen_vertex_v(call, i as int));
        }
        obj_post.push(v_obj);
        transformed.push(tv);
        i = i + 1;
    }

    // Assembly, rasterization, shading and compositing, triangle by triangle.
    let tris = n / 3;
    let mut t: usize = 0;
    while t < tris
        invariant
            t <= tris,
            tris == n / 3,
            n == vertex_array@.len(),
            n == transformed@.len(),
            n == obj_post@.len(),
            width as int == old(framebuffer)@.width,
            height as int == old(framebuffer)@.height,
            fb_wf(framebuffer@),
            composited_from(old(framebuffer)@, framebuffer@),
            call == draw_call_v(
                translation, scale, rotation, basis, vertex_array@,
                *vshader, *fshader, *view, *projection, *viewport, *uniforms),
            forall|j: int| 0 <= j < n
                ==> v3_opt_view(transformed@[j]) == #[trigger] screen_vertex_v(call, j),
            forall|j: int| 0 <= j < n ==> obj_post@[j]@ == #[trigger] obj_vertex_v(call, j),
            forall|q: int, px: int, py: int| 0 <= q < t
                ==> #[trigger] pixel_depth_bounded(framebuffer@, call, q, px, py),
            writes_from_draw(old(framebuffer)@, framebuffer@, call),
        decreases tris - t,
    {
        let base = 3 * t;
        if let (Some(v0), Some(v1), Some(v2)) =
            (transformed[base], transformed[base + 1], transformed[base + 2]) {
            let frags = triangle(
                &v0, &v1, &v2,
                &obj_post[base], &obj_post[base + 1], &obj_post[base + 2],
                width, height,
            );
            let ghost s0 = v0@;
            let ghost s1 = v1@;
            let ghost s2 = v2@;
            let ghost o0 = obj_post@[base as int]@;
            let ghost o1 = obj_post@[base as int + 1]@;
            let ghost o2 = obj_post@[base as int + 2]@;
            proof {
                assert(screen_vertex_v(call, 3 * (t as int)) == Some(s0));
                assert(screen_vertex_v(call, 3 * (t as int) + 1) == Some(s1));
                assert(screen_vertex_v(call, 3 * (t as int) + 2) == Some(s2));
                lemma_fundamental_div_mod(n as int, 3);
            }
            let m = frags.len();
            let mut k: usize = 0;
            while k < m
                invariant
                    k <= m,
                    m == frags@.len(),
                    t < tris,
                    tris == n / 3,
                    n == vertex_array@.len(),
                    width as int == old(framebuffer)@.width,
                    height as int == old(framebuffer)@.height,
                    fb_wf(framebuffer@),
                    composited_from(old(framebuffer)@, framebuffer@),
                    call == draw_call_v(
                        translation, scale, rotation, basis, vertex_array@,
                        *vshader, *fshader, *view, *projection, *viewport, *uniforms),
                    screen_vertex_v(call, 3 * (t as int)) == Some(s0),
                    screen_vertex_v(call, 3 * (t as int) + 1) == Some(s1),
                    screen_vertex_v(call, 3 * (t as int) + 2) == Some(s2),
                    obj_vertex_v(call, 3 * (t as int)) == o0,
                    obj_vertex_v(call, 3 * (t as int) + 1) == o1,
                    obj_vertex_v(call, 3 * (t as int) + 2) == o2,
                    3 * (t as int) + 2 < n,
                    writes_from_draw(old(framebuffer)@, framebuffer@, call),
                    forall|j: int| 0 <= j < m ==> {
                        let f = #[trigger] frags@[j]@;
                        &&& scan_x0_v(s0, s1, s2) <= f.x <= scan_x1_v(s0, s1, s2, width as int)
                        &&& scan_y0_v(s0, s1, s2) <= f.y <= scan_y1_v(s0, s1, s2, height as int)
                        &&& covered_v(s0, s1, s2, f.x, f.y)
                        &&& f == frag_at_v(s0, s1, s2, o0, o1, o2, f.x, f.y)
                    },
                    forall|px: int, py: int|
                        scan_x0_v(s0, s1, s2) <= px <= scan_x1_v(s0, s1, s2, width as int)
                            && scan_y0_v(s0, s1, s2) <= py <= scan_y1_v(
                                s0, s1, s2, height as int)
                            && #[trigger] covered_v(s0, s1, s2, px, py)
                        ==> has_frag(frags@, px, py),
                    forall|q: int, px: int, py: int| 0 <= q < t
                        ==> #[trigger] pixel_depth_bounded(framebuffer@, call, q, px, py),
                    forall|j: int| 0 <= j < k ==> {
                        let f = #[trigger] frags@[j]@;
                        framebuffer@.depths[f.y * framebuffer@.width + f.x]@ <= f.depth
                    },
                decreases m - k,
            {
                let frag = frags[k];
                let rgb = fragment_shader(&frag, uniforms, fshader);
                let col = vec3_to_color(rgb);
                let ghost before = framebuffer@;
                proof {
                    lemma_write_preserves_composited(
                        old(framebuffer)@, framebuffer@,
                        frag.x as int, frag.y as int, frag.depth, col,
                    );
                    lemma_write_depths_nonincreasing(
                        framebuffer@, frag.x as int, frag.y as int, frag.depth, col);
                }
                framebuffer.set_pixel(frag.x, frag.y, frag.depth, col);
                proof {
                    // every changed cell carries one of this call's fragments
                    let ghost fk = frags@[k as int]@;
                    assert(fk == frag@);
                    assert(fk == frag_at_v(s0, s1, s2, o0, o1, o2, fk.x, fk.y));
                    lemma_fb_idx_in_range(before, fk.x, fk.y);
                    assert(write_pixel_v(
                        before, frag.x as int, frag.y as int, frag.depth, col,
                    ) == framebuffer@);
                    assert forall|ii: int|
                        0 <= ii < framebuffer@.depths.len()
                            && #[trigger] framebuffer@.depths[ii]@
                                != old(framebuffer)@.depths[ii]@
                        implies exists|q: int, qx: int, qy: int|
                            draw_write_at(framebuffer@, call, q, qx, qy, ii) by {
                        if framebuffer@.depths[ii] == before.depths[ii] {
                            assert(framebuffer@.colors[ii] == before.colors[ii]);
                            assert(before.depths[ii]@ != old(framebuffer)@.depths[ii]@);
                            let (q, qx, qy) = choose|q: int, qx: int, qy: int|
                                draw_write_at(before, call, q, qx, qy, ii);
                            assert(draw_write_at(framebuffer@, call, q, qx, qy, ii));
                        } else {
                            assert(ii == fk.y * before.width + fk.x);
                            assert(call.vertices.len() == n);
                            assert(draw_write_at(framebuffer@, call, t as int, fk.x, fk.y, ii));
                        }
                    }
                    // the past triangles keep their bounds under the write
                    assert forall|q: int, px: int, py: int| 0 <= q < t
                        implies #[trigger] pixel_depth_bounded(framebuffer@, call, q, px, py) by {
                        let sq0 = screen_vertex_v(call, 3 * q).unwrap();
                        let sq1 = screen_vertex_v(call, 3 * q + 1).unwrap();
                        let sq2 = screen_vertex_v(call, 3 * q + 2).unwrap();
                        if tri_fully_visible(call, q)
                            && scan_x0_v(sq0, sq1, sq2) <= px <= scan_x1_v(
                                sq0, sq1, sq2, framebuffer@.width)
                            && scan_y0_v(sq0, sq1, sq2) <= py <= scan_y1_v(
                                sq0, sq1, sq2, framebuffer@.height)
                            && covered_v(sq0, sq1, sq2, px, py) {
                            assert(pixel_depth_bounded(before, call, q, px, py));
                            lemma_fb_idx_in_range(before, px, py);
                        }
                    }
                    // the fragments already written keep theirs, and the new
                    // write establishes its own bound
                    assert forall|j: int| 0 <= j < k + 1 implies {
                        let f = #[trigger] frags@[j]@;
                        framebuffer@.depths[f.y * framebuffer@.width + f.x]@ <= f.depth
                    } by {
                        let f = frags@[j]@;
                        lemma_fb_idx_in_range(before, f.x, f.y);
                        assert(write_pixel_v(
                            before, frag.x as int, frag.y as int, frag.depth, col,
                        ) == framebuffer@);
                        if j < k {
                            assert(before.depths[f.y * before.width + f.x]@ <= f.depth);
                        } else {
                            lemma_fb_idx_in_range(before, frag.x as int, frag.y as int);
                        }
                    }
                }
                k = k + 1;
            }
            proof {
                // completeness plus soundness of the rasterizer give the
                // depth bound for this triangle at every covered pixel
                assert forall|px: int, py: int| true
                    implies #[trigger] pixel_depth_bounded(framebuffer@, call, t as int, px, py)
                    by {
                    let sq0 = screen_vertex_v(call, 3 * (t as int)).unwrap();
                    let sq1 = screen_vertex_v(call, 3 * (t as int) + 1).unwrap();
                    let sq2 = screen_vertex_v(call, 3 * (t as int) + 2).unwrap();
                    assert(sq0 == s0 && sq1 == s1 && sq2 == s2);
                    if tri_fully_visible(call, t as int)
                        && scan_x0_v(s0, s1, s2) <= px <= scan_x1_v(
                            s0, s1, s2, framebuffer@.width)
                        && scan_y0_v(s0, s1, s2) <= py <= scan_y1_v(
                            s0, s1, s2, framebuffer@.height)
                        && covered_v(s0, s1, s2, px, py) {
                        assert(has_frag(frags@, px, py));
                        let j = choose|j: int|
                            0 <= j < frags@.len() && frags@[j]@.x == px && frags@[j]@.y == py;
                        assert(frags@[j]@ == frag_at_v(s0, s1, s2, o0, o1, o2, px, py));
                    }
                }
                assert forall|q: int, px: int, py: int| 0 <= q < t + 1
                    implies #[trigger] pixel_depth_bounded(framebuffer@, call, q, px, py) by {
                    if q < t {
                    } else {
                        assert(pixel_depth_bounded(framebuffer@, call, t as int, px, py));
                    }
                }
            }
        } else {
            proof {
                // a triangle with an invisible vertex is dropped whole: its
                // bound holds vacuously
                assert forall|q: int, px: int, py: int| 0 <= q < t + 1
                    implies #[trigger] pixel_depth_bounded(framebuffer@, call, q, px, py) by {
                    if q == t {
                        assert(v3_opt_view(transformed@[3 * q]) == screen_vertex_v(call, 3 * q));
                        assert(v3_opt_view(transformed@[3 * q + 1])
                            == screen_vertex_v(call, 3 * q + 1));
                        assert(v3_opt_view(transformed@[3 * q + 2])
                            == screen_vertex_v(call, 3 * q + 2));
                        assert(!tri_fully_visible(call, q));
                    }
                }
            }
        }
        t = t + 1;
    }
    proof {
        assert forall|q: int, px: int, py: int| 0 <= q && 3 * q + 2 < vertex_array@.len()
            implies #[trigger] pixel_depth_bounded(framebuffer@, call, q, px, py) by {
            assert(q < tris);
        }
    }
}

} // verus!
