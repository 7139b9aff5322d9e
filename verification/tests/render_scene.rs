use softrender::fixed::{Fx, FX_ONE, FX_SAT};
use softrender::framebuffer::{Framebuffer, Color};
use softrender::matrix::{
    create_projection_matrix, create_view_matrix, create_viewport_matrix, M4,
};
use softrender::render::render;
use softrender::shaders::{VertexShader, FragmentShader};
use softrender::uniforms::Uniforms;
use softrender::vec3::V3;

fn fxb(b: i64) -> Fx {
    Fx::from_bits(b)
}

fn vf(x: f32, y: f32, z: f32) -> V3 {
    V3 {
        x: fxb((x * 65536.0) as i64),
        y: fxb((y * 65536.0) as i64),
        z: fxb((z * 65536.0) as i64),
    }
}

/// A UV sphere as a plain triangle list, three vertices per triangle.
fn uv_sphere(radius: f32, stacks: u32, sectors: u32) -> Vec<V3> {
    let pi = std::f32::consts::PI;
    let point = |i: u32, j: u32| -> V3 {
        let theta = pi * i as f32 / stacks as f32;
        let phi = 2.0 * pi * j as f32 / sectors as f32;
        vf(
            radius * theta.sin() * phi.cos(),
            radius * theta.cos(),
            radius * theta.sin() * phi.sin(),
        )
    };
    let mut verts = Vec::new();
    for i in 0..stacks {
        for j in 0..sectors {
            let p00 = point(i, j);
            let p10 = point(i + 1, j);
            let p11 = point(i + 1, j + 1);
            let p01 = point(i, j + 1);
            verts.push(p00);
            verts.push(p10);
            verts.push(p11);
            verts.push(p00);
            verts.push(p11);
            verts.push(p01);
        }
    }
    verts
}

#[test]
fn head_on_unit_sphere_paints_a_centered_red_disc() {
    let black = Color { r: 0, g: 0, b: 0 };
    let mut fb = Framebuffer::new(100, 100, black);

    let view = create_view_matrix(
        V3 { x: fxb(0), y: fxb(0), z: Fx::from_int(10) },
        V3::zero(),
        V3 { x: fxb(0), y: fxb(FX_ONE), z: fxb(0) },
    );
    // 60 degree vertical field of view, square aspect, near 0.5, far 100
    let projection = create_projection_matrix(
        fxb(68629), Fx::one(), fxb(32768), Fx::from_int(100));
    let viewport = create_viewport_matrix(fxb(0), fxb(0), Fx::from_int(100), Fx::from_int(100));

    let mesh = uv_sphere(1.0, 12, 16);
    let uniforms = Uniforms::new(
        fxb(0), Fx::from_int(100), Fx::from_int(100), fxb(0), Fx::one());

    render(
        &mut fb,
        V3::zero(),
        Fx::one(),
        V3::zero(),
        Some((
            V3 { x: fxb(FX_ONE), y: fxb(0), z: fxb(0) },
            V3 { x: fxb(0), y: fxb(FX_ONE), z: fxb(0) },
            V3 { x: fxb(0), y: fxb(0), z: fxb(FX_ONE) },
        )),
        &mesh,
        &VertexShader::Identity,
        &FragmentShader::Solid { color: V3 { x: fxb(FX_ONE), y: fxb(0), z: fxb(0) } },
        &view,
        &projection,
        &viewport,
        &uniforms,
    );

    // the screen center must be painted, and painted red-dominant
    let center = fb.get_color(50, 50);
    assert!(fb.get_depth(50, 50).to_bits() < FX_SAT, "center pixel was not painted");
    assert!(center.r > center.g, "center pixel is not red-tinted: {center:?}");
    assert_eq!(center.g, center.b);

    // every painted pixel sits within a small disc around the center, and
    // the painted region is roughly symmetric about the vertical midline
    let mut min_x: i64 = i64::MAX;
    let mut max_x: i64 = i64::MIN;
    let mut painted = 0u32;
    for y in 0..100u32 {
        for x in 0..100u32 {
            if fb.get_depth(x, y).to_bits() < FX_SAT {
                painted += 1;
                let dx = x as i64 - 50;
                let dy = y as i64 - 50;
                assert!(
                    dx * dx + dy * dy <= 15 * 15,
                    "painted pixel too far from center: ({x}, {y})"
                );
                min_x = min_x.min(x as i64);
                max_x = max_x.max(x as i64);
            }
        }
    }
    assert!(painted > 20, "too few painted pixels: {painted}");
    assert!(
        (min_x + max_x - 100).abs() <= 3,
        "painted region is not horizontally centered: [{min_x}, {max_x}]"
    );
}

#[test]
fn partial_trailing_triangle_is_discarded() {
    let black = Color { r: 0, g: 0, b: 0 };
    let mut fb = Framebuffer::new(16, 16, black);
    let view = create_view_matrix(
        V3 { x: fxb(0), y: fxb(0), z: Fx::from_int(10) },
        V3::zero(),
        V3 { x: fxb(0), y: fxb(FX_ONE), z: fxb(0) },
    );
    let projection = create_projection_matrix(
        fxb(68629), Fx::one(), fxb(32768), Fx::from_int(100));
    let viewport = create_viewport_matrix(fxb(0), fxb(0), Fx::from_int(16), Fx::from_int(16));
    let uniforms = Uniforms::new(fxb(0), Fx::from_int(16), Fx::from_int(16), fxb(0), Fx::one());
    // two stray vertices do not form a triangle: nothing may be painted
    let mesh = vec![vf(0.0, 0.0, 0.0), vf(1.0, 0.0, 0.0)];
    render(
        &mut fb, V3::zero(), Fx::one(), V3::zero(), None, &mesh,
        &VertexShader::Identity,
        &FragmentShader::Solid { color: V3 { x: fxb(FX_ONE), y: fxb(0), z: fxb(0) } },
        &view, &projection, &viewport, &uniforms,
    );
    for y in 0..16u32 {
        for x in 0..16u32 {
            assert_eq!(fb.get_depth(x, y).to_bits(), FX_SAT);
        }
    }
}

/// The identity matrix.
fn identity() -> M4 {
    let z = fxb(0);
    let one = Fx::one();
    M4 {
        m0: one, m1: z, m2: z, m3: z,
        m4: z, m5: one, m6: z, m7: z,
        m8: z, m9: z, m10: one, m11: z,
        m12: z, m13: z, m14: z, m15: one,
    }
}

fn unit_basis() -> Option<(V3, V3, V3)> {
    Some((
        V3 { x: fxb(65536), y: fxb(0), z: fxb(0) },
        V3 { x: fxb(0), y: fxb(65536), z: fxb(0) },
        V3 { x: fxb(0), y: fxb(0), z: fxb(65536) },
    ))
}

#[test]
fn driver_writes_exact_blended_depth_at_covered_pixel() {
    // identity view and projection; the viewport maps ndc (x, y) to
    // ((x+1)*4, (1-y)*4), so these three vertices land on screen at
    // (0,0), (4,0), (0,4) with depths 0, 0.4, 0.8; pixel (1,1) has
    // barycentric weights (1/2, 1/4, 1/4)
    let black = Color { r: 0, g: 0, b: 0 };
    let mut fb = Framebuffer::new(8, 8, black);
    let view = identity();
    let proj = identity();
    let viewport = create_viewport_matrix(fxb(0), fxb(0), Fx::from_int(8), Fx::from_int(8));
    let mesh = vec![
        V3 { x: fxb(-65536), y: fxb(65536), z: fxb(0) },
        V3 { x: fxb(0), y: fxb(65536), z: fxb(26214) },
        V3 { x: fxb(-65536), y: fxb(0), z: fxb(52429) },
    ];
    let uniforms = Uniforms::new(fxb(0), Fx::from_int(8), Fx::from_int(8), fxb(0), Fx::one());
    render(
        &mut fb, V3::zero(), Fx::one(), V3::zero(), unit_basis(), &mesh,
        &VertexShader::Identity,
        &FragmentShader::Solid { color: V3 { x: fxb(65536), y: fxb(0), z: fxb(0) } },
        &view, &proj, &viewport, &uniforms,
    );
    // the covered pixel carries exactly the blended depth and a shaded color
    assert_eq!(fb.get_depth(1, 1).to_bits(), 26214 / 4 + 52429 / 4);
    let c = fb.get_color(1, 1);
    assert!(c.r > c.g, "shaded color is not red-dominant: {c:?}");
    assert_eq!(c.g, c.b);
    // pixels away from the triangle stay untouched
    assert_eq!(fb.get_depth(7, 7).to_bits(), FX_SAT);
    assert_eq!(fb.get_color(7, 7), black);
}

#[test]
fn driver_degenerate_triangle_writes_nothing() {
    // collinear screen vertices: zero signed area, so no pixel changes
    let black = Color { r: 0, g: 0, b: 0 };
    let mut fb = Framebuffer::new(16, 16, black);
    let view = identity();
    let proj = identity();
    let viewport = create_viewport_matrix(fxb(0), fxb(0), Fx::from_int(16), Fx::from_int(16));
    let mesh = vec![
        V3 { x: fxb(-65536), y: fxb(65536), z: fxb(0) },
        V3 { x: fxb(0), y: fxb(0), z: fxb(0) },
        V3 { x: fxb(65536), y: fxb(-65536), z: fxb(0) },
    ];
    let uniforms = Uniforms::new(fxb(0), Fx::from_int(16), Fx::from_int(16), fxb(0), Fx::one());
    render(
        &mut fb, V3::zero(), Fx::one(), V3::zero(), unit_basis(), &mesh,
        &VertexShader::Identity,
        &FragmentShader::Solid { color: V3 { x: fxb(65536), y: fxb(0), z: fxb(0) } },
        &view, &proj, &viewport, &uniforms,
    );
    for y in 0..16u32 {
        for x in 0..16u32 {
            assert_eq!(fb.get_depth(x, y).to_bits(), FX_SAT);
            assert_eq!(fb.get_color(x, y), black);
        }
    }
}
