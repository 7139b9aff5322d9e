use softrender::fixed::{Fx, FX_ONE, FX_SAT};
use softrender::framebuffer::{Framebuffer, Color};
use softrender::matrix::{create_projection_matrix, create_view_matrix, create_viewport_matrix};
use softrender::skybox::{Skybox, sample_sky, draw_sky_sphere, draw_sky_stars, draw_shooting_star};
use softrender::vec3::V3;

fn fxb(b: i64) -> Fx {
    Fx::from_bits(b)
}

fn vf(x: f32, y: f32, z: f32) -> V3 {
    V3 {
        x: fxb((x * 65536.0) as i64),
        y: fxb((y * 65536.0) as i64),
        z: fxb((z * 65536.0) as i64),
    }
}

fn small_sphere() -> Vec<V3> {
    let pi = std::f32::consts::PI;
    let point = |i: u32, j: u32| -> V3 {
        let theta = pi * i as f32 / 8.0;
        let phi = 2.0 * pi * j as f32 / 12.0;
        vf(
            100.0 * theta.sin() * phi.cos(),
            100.0 * theta.cos(),
            100.0 * theta.sin() * phi.sin(),
        )
    };
    let mut verts = Vec::new();
    for i in 0..8u32 {
        for j in 0..12u32 {
            verts.push(point(i, j));
            verts.push(point(i + 1, j));
            verts.push(point(i + 1, j + 1));
            verts.push(point(i, j));
            verts.push(point(i + 1, j + 1));
            verts.push(point(i, j + 1));
        }
    }
    verts
}

#[test]
fn sample_sky_is_deterministic() {
    let d = vf(0.3, -0.8, 0.5);
    let t = fxb(7 * FX_ONE + 999);
    assert_eq!(sample_sky(d, t), sample_sky(d, t));
}

#[test]
fn skybox_precomputes_matching_lists() {
    let mesh = small_sphere();
    let n = mesh.len();
    let sb = Skybox::new(mesh);
    assert_eq!(sb.vertices.len(), n);
    assert_eq!(sb.colors.len(), n);
    assert_eq!(sb.star_dirs.len(), 600);
    assert_eq!(sb.star_brightness.len(), 600);
    for b in sb.star_brightness.iter() {
        let bits = b.to_bits();
        assert!(39322 <= bits && bits <= FX_ONE + 1, "brightness out of range: {bits}");
    }
    for d in sb.star_dirs.iter() {
        let len2 = d.dot(*d).to_bits();
        assert!((len2 - FX_ONE).abs() <= 2500, "star direction is not unit: {len2}");
    }
}

#[test]
fn sky_drawing_never_moves_depths_farther() {
    let black = Color { r: 0, g: 0, b: 0 };
    let mut fb = Framebuffer::new(32, 32, black);
    let view = create_view_matrix(
        V3::zero(),
        V3 { x: fxb(0), y: fxb(0), z: fxb(-FX_ONE) },
        V3 { x: fxb(0), y: fxb(FX_ONE), z: fxb(0) },
    );
    let projection = create_projection_matrix(
        fxb(68629), Fx::one(), fxb(32768), Fx::from_int(20000));
    let viewport = create_viewport_matrix(fxb(0), fxb(0), Fx::from_int(32), Fx::from_int(32));
    let sb = Skybox::new(small_sphere());

    draw_sky_sphere(&mut fb, &sb, &view, &viewport, &projection);
    let mut depths = Vec::new();
    for y in 0..32u32 {
        for x in 0..32u32 {
            depths.push(fb.get_depth(x, y).to_bits());
        }
    }
    draw_sky_stars(&mut fb, &sb, &view, &viewport, &projection);
    draw_shooting_star(&mut fb, fxb(3 * FX_ONE), 32, 32);
    let mut k: usize = 0;
    for y in 0..32u32 {
        for x in 0..32u32 {
            assert!(fb.get_depth(x, y).to_bits() <= depths[k]);
            k += 1;
        }
    }
}

#[test]
fn sky_sphere_paints_the_background() {
    let black = Color { r: 0, g: 0, b: 0 };
    let mut fb = Framebuffer::new(32, 32, black);
    let view = create_view_matrix(
        V3::zero(),
        V3 { x: fxb(0), y: fxb(0), z: fxb(-FX_ONE) },
        V3 { x: fxb(0), y: fxb(FX_ONE), z: fxb(0) },
    );
    let projection = create_projection_matrix(
        fxb(68629), Fx::one(), fxb(32768), Fx::from_int(20000));
    let viewport = create_viewport_matrix(fxb(0), fxb(0), Fx::from_int(32), Fx::from_int(32));
    let sb = Skybox::new(small_sphere());
    draw_sky_sphere(&mut fb, &sb, &view, &viewport, &projection);
    let mut painted: u32 = 0;
    for y in 0..32u32 {
        for x in 0..32u32 {
            if fb.get_depth(x, y).to_bits() < FX_SAT {
                painted += 1;
            }
        }
    }
    assert!(painted > 0, "the sky sphere painted nothing");
}

#[test]
fn inactive_shooting_star_changes_nothing() {
    // at 7 seconds the cycle phase is past four fifths, so the drawer
    // returns without touching the framebuffer
    let black = Color { r: 0, g: 0, b: 0 };
    let mut fb = Framebuffer::new(16, 16, black);
    fb.set_pixel(3, 3, fxb(777), Color { r: 9, g: 9, b: 9 });
    draw_shooting_star(&mut fb, fxb(7 * FX_ONE), 16, 16);
    for y in 0..16u32 {
        for x in 0..16u32 {
            if x == 3 && y == 3 {
                assert_eq!(fb.get_depth(x, y).to_bits(), 777);
                assert_eq!(fb.get_color(x, y), Color { r: 9, g: 9, b: 9 });
            } else {
                assert_eq!(fb.get_depth(x, y).to_bits(), FX_SAT);
                assert_eq!(fb.get_color(x, y), black);
            }
        }
    }
}
