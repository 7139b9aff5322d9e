//! The per-vertex transform pipeline: model placement, view and projection,
//! clip rejection, perspective divide, and the viewport map.
//!
//! A vertex is invisible (`None`) exactly when its clip-space `w` is not
//! positive or its NDC coordinates leave the device cube on the near side
//! (`x` or `y` outside `[-1, 1]`, or `z < -1`; `z > 1` is deliberately
//! tolerated). Otherwise the result is the viewport-mapped screen position
//! with the NDC depth carried in `z`.

use vstd::prelude::*;
use crate::fixed::{Fx, FX_ONE, FX_SAT, fx_div_v};
use crate::vec3::{V3, Gv3, Gv4, V4};
use crate::matrix::{
    M4, Gm4, m4_mul_v4_v, create_model_matrix, create_model_matrix_v, create_basis_model_matrix,
    model_basis_v, multiply_matrix_vector4, lemma_zero_rotation_model,
};

verus! {

/// Ghost image of an optional screen vertex.
pub open spec fn v3_opt_view(r: Option<V3>) -> Option<Gv3> {
    match r {
        Some(v) => Some(v@),
        None => None,
    }
}

/// The clip-space position of a vertex under model, view and projection.
pub open spec fn clip_vertex_v(vertex: Gv3, model: Gm4, view: Gm4, proj: Gm4) -> Gv4 {
    m4_mul_v4_v(
        proj,
        m4_mul_v4_v(
            view,
            m4_mul_v4_v(model, Gv4 { x: vertex.x, y: vertex.y, z: vertex.z, w: FX_ONE as int }),
        ),
    )
}

/// The whole per-vertex stage for a given model matrix: clip test,
/// perspective divide, NDC cube test, viewport map.
pub open spec fn transform_pipe_v(
    vertex: Gv3, model: Gm4, view: Gm4, proj: Gm4, viewport: Gm4,
) -> Option<Gv3> {
    let clip = clip_vertex_v(vertex, model, view, proj);
    if clip.w <= 0 {
        None
    } else {
        let nx = fx_div_v(clip.x, clip.w);
        let ny = fx_div_v(clip.y, clip.w);
        let nz = fx_div_v(clip.z, clip.w);
        if nx < -(FX_ONE as int) || nx > FX_ONE as int || ny < -(FX_ONE as int)
            || ny > FX_ONE as int || nz < -(FX_ONE as int) {
            None
        } else {
            let screen = m4_mul_v4_v(viewport, Gv4 { x: nx, y: ny, z: nz, w: FX_ONE as int });
            Some(Gv3 { x: screen.x, y: screen.y, z: nz })
        }
    }
}

/// The Euler-placement transform.
pub open spec fn transform_v(
    vertex: Gv3, translation: Gv3, scale: int, rotation: Gv3,
    view: Gm4, proj: Gm4, viewport: Gm4,
) -> Option<Gv3> {
    transform_pipe_v(
        vertex, create_model_matrix_v(translation, scale, rotation), view, proj, viewport)
}

/// The basis-placement transform.
pub open spec fn transform_with_basis_v(
    vertex: Gv3, translation: Gv3, scale: int, right: Gv3, up: Gv3, forward: Gv3,
    view: Gm4, proj: Gm4, viewport: Gm4,
) -> Option<Gv3> {
    transform_pipe_v(
        vertex, model_basis_v(translation, scale, right, up, forward), view, proj, viewport)
}

fn transform_pipe(vertex: V3, model: &M4, view: &M4, projection: &M4, viewport: &M4)
    -> (r: Option<V3>)
    ensures
        v3_opt_view(r) == transform_pipe_v(vertex@, model@, view@, projection@, viewport@),
{
    let v4 = V4::from_point(vertex);
    let world = multiply_matrix_vector4(model, &v4);
    let viewed = multiply_matrix_vector4(view, &world);
    let clip = multiply_matrix_vector4(projection, &viewed);
    if clip.w.to_bits() <= 0 {
        return None;
    }
    let nx = clip.x.sat_div(clip.w);
    let ny = clip.y.sat_div(clip.w);
    let nz = clip.z.sat_div(clip.w);
    let one = Fx::one();
    let neg_one = one.sat_neg();
    if nx.fx_lt(neg_one) || one.fx_lt(nx) || ny.fx_lt(neg_one) || one.fx_lt(ny)
        || nz.fx_lt(neg_one) {
        return None;
    }
    let screen = multiply_matrix_vector4(viewport, &V4 { x: nx, y: ny, z: nz, w: one });
    Some(V3 { x: screen.x, y: screen.y, z: nz })
}

/// Transform one vertex placed by translation, uniform scale and Euler
/// rotation; `None` means the vertex is invisible this frame.
pub fn transform(
    vertex: V3, translation: V3, scale: Fx, rotation: V3,
    view: &M4, projection: &M4, viewport: &M4,
) -> (r: Option<V3>)
    ensures
        v3_opt_view(r) == transform_v(
            vertex@, translation@, scale@, rotation@, view@, projection@, viewport@),
{
    let model = create_model_matrix(translation, scale, rotation);
    transform_pipe(vertex, &model, view, projection, viewport)
}

/// Transform one vertex placed by translation, uniform scale and an explicit
/// right/up/forward basis; `None` means the vertex is invisible this frame.
pub fn transform_with_basis(
    vertex: V3, translation: V3, scale: Fx, right: V3, up: V3, forward: V3,
    view: &M4, projection: &M4, viewport: &M4,
) -> (r: Option<V3>)
    ensures
        v3_opt_view(r) == transform_with_basis_v(
            vertex@, translation@, scale@, right@, up@, forward@,
            view@, projection@, viewport@),
{
    let model = create_basis_model_matrix(translation, scale, right, up, forward);
    transform_pipe(vertex, &model, view, projection, viewport)
}

/// The identity-basis placement coincides with the zero-Euler-rotation
/// placement: for every vertex, transforming with the axis-aligned unit
/// basis gives exactly the result of transforming with rotation zero.
pub proof fn lemma_identity_basis_matches_zero_rotation(
    vertex: Gv3, translation: Gv3, scale: int, view: Gm4, proj: Gm4, viewport: Gm4,
)
    requires
        -(FX_SAT as int) <= translation.x <= FX_SAT as int,
        -(FX_SAT as int) <= translation.y <= FX_SAT as int,
        -(FX_SAT as int) <= translation.z <= FX_SAT as int,
        -(FX_SAT as int) <= scale <= FX_SAT as int,
    ensures
        transform_with_basis_v(
            vertex, translation, scale,
            Gv3 { x: FX_ONE as int, y: 0, z: 0 },
            Gv3 { x: 0, y: FX_ONE as int, z: 0 },
            Gv3 { x: 0, y: 0, z: FX_ONE as int },
            view, proj, viewport,
        ) == transform_v(
            vertex, translation, scale, Gv3 { x: 0, y: 0, z: 0 }, view, proj, viewport),
{
    lemma_zero_rotation_model(translation, scale);
}

/// Clip rejection. A vertex whose clip-space `w` is not positive is
/// invisible; a vertex with positive `w` whose NDC position lies within the
/// accepted cube maps to exactly the viewport-mapped screen position with
/// its NDC depth.
pub proof fn lemma_clip_rejection(
    vertex: Gv3, model: Gm4, view: Gm4, proj: Gm4, viewport: Gm4,
)
    ensures
        clip_vertex_v(vertex, model, view, proj).w <= 0
            ==> transform_pipe_v(vertex, model, view, proj, viewport) is None,
        ({
            let clip = clip_vertex_v(vertex, model, view, proj);
            let nx = fx_div_v(clip.x, clip.w);
            let ny = fx_div_v(clip.y, clip.w);
            let nz = fx_div_v(clip.z, clip.w);
            clip.w > 0 && -(FX_ONE as int) <= nx <= FX_ONE as int
                && -(FX_ONE as int) <= ny <= FX_ONE as int && nz >= -(FX_ONE as int)
                ==> transform_pipe_v(vertex, model, view, proj, viewport) == Some(Gv3 {
                    x: m4_mul_v4_v(viewport, Gv4 { x: nx, y: ny, z: nz, w: FX_ONE as int }).x,
                    y: m4_mul_v4_v(viewport, Gv4 { x: nx, y: ny, z: nz, w: FX_ONE as int }).y,
                    z: nz,
                })
        }),
{
}

} // verus!
