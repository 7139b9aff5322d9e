use softrender::fixed::{Fx, FX_ONE};
use softrender::matrix::{M4, create_viewport_matrix, create_view_matrix, multiply_matrix_vector4};
use softrender::pipeline::{transform, transform_with_basis};
use softrender::vec3::{V3, V4};

fn fxb(b: i64) -> Fx {
    Fx::from_bits(b)
}

fn v3b(x: i64, y: i64, z: i64) -> V3 {
    V3 { x: fxb(x), y: fxb(y), z: fxb(z) }
}

/// The identity matrix.
fn identity() -> M4 {
    let z = fxb(0);
    let one = Fx::one();
    M4 {
        m0: one, m1: z, m2: z, m3: z,
        m4: z, m5: one, m6: z, m7: z,
        m8: z, m9: z, m10: one, m11: z,
        m12: z, m13: z, m14: z, m15: one,
    }
}

/// A projection whose clip w is the vertex's z coordinate.
fn w_from_z() -> M4 {
    let z = fxb(0);
    let one = Fx::one();
    M4 {
        m0: one, m1: z, m2: z, m3: z,
        m4: z, m5: one, m6: z, m7: z,
        m8: z, m9: z, m10: one, m11: one,
        m12: z, m13: z, m14: z, m15: z,
    }
}

fn unit_basis() -> (V3, V3, V3) {
    (v3b(FX_ONE, 0, 0), v3b(0, FX_ONE, 0), v3b(0, 0, FX_ONE))
}

#[test]
fn nonpositive_w_is_invisible() {
    let view = identity();
    let proj = w_from_z();
    let viewport = create_viewport_matrix(fxb(0), fxb(0), Fx::from_int(100), Fx::from_int(100));
    let (r, u, f) = unit_basis();
    // clip w equals the vertex's z here: behind the camera means w <= 0
    let behind = transform_with_basis(
        v3b(0, 0, -2 * FX_ONE), V3::zero(), Fx::one(), r, u, f, &view, &proj, &viewport);
    assert!(behind.is_none());
    let on_plane = transform_with_basis(
        v3b(0, 0, 0), V3::zero(), Fx::one(), r, u, f, &view, &proj, &viewport);
    assert!(on_plane.is_none());
}

#[test]
fn in_cube_vertex_maps_to_exact_pixel() {
    let view = identity();
    let proj = identity();
    let viewport = create_viewport_matrix(fxb(0), fxb(0), Fx::from_int(100), Fx::from_int(100));
    let (r, u, f) = unit_basis();
    // ndc (0.5, 0.5, 0.5): x maps to 50 + 25, y flips to 50 - 25
    let out = transform_with_basis(
        v3b(32768, 32768, 32768), V3::zero(), Fx::one(), r, u, f, &view, &proj, &viewport);
    let s = out.expect("vertex inside the cube is visible");
    assert_eq!(s.x.to_bits(), 75 * FX_ONE);
    assert_eq!(s.y.to_bits(), 25 * FX_ONE);
    assert_eq!(s.z.to_bits(), 32768);
}

#[test]
fn ndc_outside_cube_is_invisible() {
    let view = identity();
    let proj = identity();
    let viewport = create_viewport_matrix(fxb(0), fxb(0), Fx::from_int(100), Fx::from_int(100));
    let (r, u, f) = unit_basis();
    let right = transform_with_basis(
        v3b(2 * FX_ONE, 0, 0), V3::zero(), Fx::one(), r, u, f, &view, &proj, &viewport);
    assert!(right.is_none());
    let near = transform_with_basis(
        v3b(0, 0, -2 * FX_ONE), V3::zero(), Fx::one(), r, u, f, &view, &proj, &viewport);
    assert!(near.is_none());
    // beyond the far face of the cube is deliberately tolerated
    let far = transform_with_basis(
        v3b(0, 0, 2 * FX_ONE), V3::zero(), Fx::one(), r, u, f, &view, &proj, &viewport);
    assert!(far.is_some());
}

#[test]
fn euler_transform_accepts_centered_vertex() {
    let view = identity();
    let proj = identity();
    let viewport = create_viewport_matrix(fxb(0), fxb(0), Fx::from_int(100), Fx::from_int(100));
    let out = transform(
        v3b(0, 0, 0), V3::zero(), Fx::one(), V3::zero(), &view, &proj, &viewport);
    let s = out.expect("origin is visible");
    assert_eq!(s.x.to_bits(), 50 * FX_ONE);
    assert_eq!(s.y.to_bits(), 50 * FX_ONE);
}

#[test]
fn look_at_axis_aligned_is_identity_rotation() {
    // eye on the +z axis looking at the origin gives the exact axis basis
    let view = create_view_matrix(
        v3b(0, 0, 10 * FX_ONE), V3::zero(), v3b(0, FX_ONE, 0));
    assert_eq!(view.m0.to_bits(), FX_ONE);
    assert_eq!(view.m5.to_bits(), FX_ONE);
    assert_eq!(view.m10.to_bits(), FX_ONE);
    assert_eq!(view.m14.to_bits(), -10 * FX_ONE);
    // the eye itself maps to view-space depth -10
    let p = multiply_matrix_vector4(&view, &V4::from_point(V3::zero()));
    assert_eq!(p.z.to_bits(), -10 * FX_ONE);
}

#[test]
fn viewport_maps_cube_corners() {
    let vp = create_viewport_matrix(fxb(0), fxb(0), Fx::from_int(200), Fx::from_int(100));
    let c = multiply_matrix_vector4(
        &vp, &V4 { x: fxb(-FX_ONE), y: fxb(FX_ONE), z: fxb(0), w: Fx::one() });
    // (-1, 1) is the top-left corner before the flip, so it maps to (0, 0)
    assert_eq!(c.x.to_bits(), 0);
    assert_eq!(c.y.to_bits(), 0);
    let d = multiply_matrix_vector4(
        &vp, &V4 { x: fxb(FX_ONE), y: fxb(-FX_ONE), z: fxb(0), w: Fx::one() });
    assert_eq!(d.x.to_bits(), 200 * FX_ONE);
    assert_eq!(d.y.to_bits(), 100 * FX_ONE);
}

#[test]
fn identity_basis_matches_zero_rotation() {
    // the basis placement with the axis-aligned unit basis and the Euler
    // placement with rotation zero give exactly the same screen vertex
    let view = identity();
    let proj = identity();
    let viewport = create_viewport_matrix(fxb(0), fxb(0), Fx::from_int(100), Fx::from_int(100));
    let (r, u, f) = unit_basis();
    let translation = v3b(FX_ONE, 2 * FX_ONE, 3 * FX_ONE);
    let scale = fxb(FX_ONE / 2);
    let samples = [
        v3b(0, 0, 0),
        v3b(32768, -32768, 16384),
        v3b(-FX_ONE, FX_ONE, -FX_ONE),
        v3b(12345, 54321, -23456),
    ];
    for vtx in samples {
        let via_basis = transform_with_basis(
            vtx, translation, scale, r, u, f, &view, &proj, &viewport);
        let via_euler = transform(
            vtx, translation, scale, V3::zero(), &view, &proj, &viewport);
        assert_eq!(via_basis, via_euler);
    }
}
