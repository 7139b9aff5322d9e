use softrender::fixed::{Fx, FX_ONE, FX_SAT};
use softrender::framebuffer::{Framebuffer, Color, vec3_to_color};
use softrender::raster::{triangle, triangle_sky};
use softrender::vec3::V3;

fn fxb(b: i64) -> Fx {
    Fx::from_bits(b)
}

fn v(x: i64, y: i64, zb: i64) -> V3 {
    V3 { x: Fx::from_int(x), y: Fx::from_int(y), z: fxb(zb) }
}

#[test]
fn coverage_and_depth_blend_at_interior_pixel() {
    // triangle (0,0) (4,0) (0,4); pixel (1,1) has barycentric weights
    // (1/2, 1/4, 1/4), so its depth is the exact blend of the vertex depths
    let v0 = v(0, 0, 1000);
    let v1 = v(4, 0, 2000);
    let v2 = v(0, 4, 3000);
    let o = V3 { x: fxb(0), y: fxb(0), z: fxb(0) };
    let frags = triangle(&v0, &v1, &v2, &o, &o, &o, 16, 16);
    let hit = frags.iter().find(|f| f.x == 1 && f.y == 1).expect("pixel (1,1) must be covered");
    assert_eq!(hit.depth.to_bits(), 500 + 500 + 750);
}

#[test]
fn interior_payload_blend() {
    // object positions at the corners blend with the same weights as depth
    let v0 = v(0, 0, 0);
    let v1 = v(4, 0, 0);
    let v2 = v(0, 4, 0);
    let o0 = V3 { x: Fx::from_int(8), y: fxb(0), z: fxb(0) };
    let o1 = V3 { x: fxb(0), y: Fx::from_int(8), z: fxb(0) };
    let o2 = V3 { x: fxb(0), y: fxb(0), z: Fx::from_int(8) };
    let frags = triangle(&v0, &v1, &v2, &o0, &o1, &o2, 16, 16);
    let hit = frags.iter().find(|f| f.x == 1 && f.y == 1).unwrap();
    assert_eq!(hit.obj.x.to_bits(), 4 * FX_ONE);
    assert_eq!(hit.obj.y.to_bits(), 2 * FX_ONE);
    assert_eq!(hit.obj.z.to_bits(), 2 * FX_ONE);
}

#[test]
fn degenerate_triangle_emits_nothing() {
    // collinear vertices give zero signed area
    let v0 = v(0, 0, 1000);
    let v1 = v(4, 0, 2000);
    let v2 = v(8, 0, 3000);
    let o = V3 { x: fxb(0), y: fxb(0), z: fxb(0) };
    let frags = triangle(&v0, &v1, &v2, &o, &o, &o, 16, 16);
    assert!(frags.is_empty());
}

#[test]
fn both_windings_rasterize() {
    let o = V3 { x: fxb(0), y: fxb(0), z: fxb(0) };
    let ccw = triangle(&v(0, 0, 0), &v(4, 0, 0), &v(0, 4, 0), &o, &o, &o, 16, 16);
    let cw = triangle(&v(0, 0, 0), &v(0, 4, 0), &v(4, 0, 0), &o, &o, &o, 16, 16);
    assert!(ccw.iter().any(|f| f.x == 1 && f.y == 1));
    assert!(cw.iter().any(|f| f.x == 1 && f.y == 1));
}

#[test]
fn fragments_stay_inside_the_extent() {
    let o = V3 { x: fxb(0), y: fxb(0), z: fxb(0) };
    let frags = triangle(&v(-5, -5, 0), &v(20, 0, 0), &v(0, 20, 0), &o, &o, &o, 8, 6);
    assert!(!frags.is_empty());
    for f in frags.iter() {
        assert!(f.x < 8 && f.y < 6);
    }
}

#[test]
fn sky_path_blends_color() {
    let v0 = v(0, 0, 0);
    let v1 = v(4, 0, 0);
    let v2 = v(0, 4, 0);
    let red = V3 { x: Fx::from_int(8), y: fxb(0), z: fxb(0) };
    let frags = triangle_sky(&v0, &v1, &v2, &red, &red, &red, 16, 16);
    let hit = frags.iter().find(|f| f.x == 1 && f.y == 1).unwrap();
    assert_eq!(hit.color.x.to_bits(), 8 * FX_ONE);
    assert_eq!(hit.color.y.to_bits(), 0);
}

#[test]
fn depth_write_rejects_farther_then_accepts_nearer() {
    let black = Color { r: 0, g: 0, b: 0 };
    let red = Color { r: 255, g: 0, b: 0 };
    let green = Color { r: 0, g: 255, b: 0 };
    let mut fb = Framebuffer::new(4, 4, black);

    // near first: the farther second write must change nothing
    fb.set_pixel(1, 1, fxb(1000), red);
    fb.set_pixel(1, 1, fxb(2000), green);
    assert_eq!(fb.get_color(1, 1), red);
    assert_eq!(fb.get_depth(1, 1).to_bits(), 1000);

    // far first: the nearer second write must update both
    fb.set_pixel(2, 2, fxb(2000), green);
    fb.set_pixel(2, 2, fxb(1000), red);
    assert_eq!(fb.get_color(2, 2), red);
    assert_eq!(fb.get_depth(2, 2).to_bits(), 1000);
}

#[test]
fn equal_depth_write_is_rejected() {
    // the comparison is strict, so a tie leaves the stored pixel in place
    let black = Color { r: 0, g: 0, b: 0 };
    let red = Color { r: 255, g: 0, b: 0 };
    let green = Color { r: 0, g: 255, b: 0 };
    let mut fb = Framebuffer::new(4, 4, black);
    fb.set_pixel(0, 0, fxb(500), red);
    fb.set_pixel(0, 0, fxb(500), green);
    assert_eq!(fb.get_color(0, 0), red);
}

#[test]
fn out_of_range_write_is_a_no_op() {
    let black = Color { r: 0, g: 0, b: 0 };
    let red = Color { r: 255, g: 0, b: 0 };
    let mut fb = Framebuffer::new(4, 4, black);
    fb.set_pixel(4, 0, fxb(0), red);
    fb.set_pixel(0, 4, fxb(0), red);
    fb.set_pixel(700, 700, fxb(0), red);
    for y in 0..4 {
        for x in 0..4 {
            assert_eq!(fb.get_color(x, y), black);
            assert_eq!(fb.get_depth(x, y).to_bits(), FX_SAT);
        }
    }
}

#[test]
fn clear_resets_colors_and_depths() {
    let black = Color { r: 0, g: 0, b: 0 };
    let navy = Color { r: 4, g: 12, b: 36 };
    let red = Color { r: 255, g: 0, b: 0 };
    let mut fb = Framebuffer::new(3, 2, black);
    fb.set_pixel(1, 1, fxb(10), red);
    fb.set_background_color(navy);
    fb.clear();
    for y in 0..2 {
        for x in 0..3 {
            assert_eq!(fb.get_color(x, y), navy);
            assert_eq!(fb.get_depth(x, y).to_bits(), FX_SAT);
        }
    }
}

#[test]
fn color_quantization() {
    let c = vec3_to_color(V3 { x: fxb(FX_ONE), y: fxb(0), z: fxb(32768) });
    assert_eq!(c, Color { r: 255, g: 0, b: 127 });
    // values outside the unit range clamp before quantization
    let d = vec3_to_color(V3 { x: Fx::from_int(7), y: Fx::from_int(-7), z: fxb(0) });
    assert_eq!(d, Color { r: 255, g: 0, b: 0 });
}

#[test]
fn fragments_come_in_row_major_order() {
    let o = V3 { x: fxb(0), y: fxb(0), z: fxb(0) };
    let frags = triangle(&v(0, 0, 0), &v(6, 0, 0), &v(0, 6, 0), &o, &o, &o, 16, 16);
    assert!(frags.len() > 1);
    for pair in frags.windows(2) {
        let earlier = (pair[0].y, pair[0].x);
        let later = (pair[1].y, pair[1].x);
        assert!(earlier < later, "fragments out of order: {earlier:?} then {later:?}");
    }
}
