//! The owned color + depth target.
//!
//! A framebuffer holds a `width x height` color array and a parallel depth
//! array. A pixel write is accepted only when its depth is strictly nearer
//! than the stored depth; out-of-range writes and losing depths are silent
//! no-ops. Clearing resets every color to the background and every depth to
//! the far sentinel.

use vstd::prelude::*;
use vstd::arithmetic::mul::lemma_mul_inequality;
use crate::fixed::{Fx, FX_SAT, fx_clamp_v};
use crate::vec3::{V3, Gv3};

verus! {

/// An 8-bit RGB color.
#[derive(Clone, Copy, PartialEq, Eq, Structural, Debug)]
pub struct Color {
    pub r: u8,
    pub g: u8,
    pub b: u8,
}

/// Ghost image of a framebuffer.
pub ghost struct GFramebuffer {
    pub width: int,
    pub height: int,
    pub background: Color,
    pub colors: Seq<Color>,
    pub depths: Seq<Fx>,
}

/// The color + depth render target.
pub struct Framebuffer {
    width: usize,
    height: usize,
    background: Color,
    colors: Vec<Color>,
    depths: Vec<Fx>,
}

impl View for Framebuffer {
    type V = GFramebuffer;

    closed spec fn view(&self) -> GFramebuffer {
        GFramebuffer {
            width: self.width as int,
            height: self.height as int,
            background: self.background,
            colors: self.colors@,
            depths: self.depths@,
        }
    }
}

/// Both arrays cover exactly `width * height` cells.
pub open spec fn fb_wf(fb: GFramebuffer) -> bool {
    &&& fb.colors.len() == fb.width * fb.height
    &&& fb.depths.len() == fb.width * fb.height
    &&& 0 <= fb.width
    &&& 0 <= fb.height
}

/// Row-major cell index of a pixel.
pub open spec fn fb_idx(fb: GFramebuffer, x: int, y: int) -> int {
    y * fb.width + x
}

/// The depth-tested pixel write: both cells update exactly when the pixel is
/// in range and the new depth is strictly nearer than the stored one;
/// otherwise nothing changes.
pub open spec fn write_pixel_v(
    fb: GFramebuffer, x: int, y: int, depth: Fx, color: Color,
) -> GFramebuffer {
    let idx = fb_idx(fb, x, y);
    if 0 <= x < fb.width && 0 <= y < fb.height && depth@ < fb.depths[idx]@ {
        GFramebuffer {
            colors: fb.colors.update(idx, color),
            depths: fb.depths.update(idx, depth),
            ..fb
        }
    } else {
        fb
    }
}

/// A pixel index stays within both arrays.
pub proof fn lemma_fb_idx_in_range(fb: GFramebuffer, x: int, y: int)
    requires
        fb_wf(fb),
        0 <= x < fb.width,
        0 <= y < fb.height,
    ensures
        0 <= fb_idx(fb, x, y) < fb.colors.len(),
        0 <= fb_idx(fb, x, y) < fb.depths.len(),
{
    lemma_mul_inequality(y, fb.height - 1, fb.width);
    assert((fb.height - 1) * fb.width + fb.width == fb.height * fb.width) by (nonlinear_arith);
    assert(fb.height * fb.width == fb.width * fb.height) by (nonlinear_arith);
    assert(y * fb.width >= 0) by (nonlinear_arith)
        requires y >= 0, fb.width >= 0;
}

impl Framebuffer {
    /// Allocate a `width x height` buffer, every color the background and
    /// every depth the far sentinel.
    pub fn new(width: u32, height: u32, background: Color) -> (r: Framebuffer)
        requires
            width * height <= usize::MAX,
        ensures
            fb_wf(r@),
            r@.width == width as int,
            r@.height == height as int,
            r@.background == background,
            forall|i: int| 0 <= i < r@.colors.len() ==> r@.colors[i] == background,
            forall|i: int| 0 <= i < r@.depths.len() ==> r@.depths[i]@ == FX_SAT as int,
    {
        let len: usize = (width as usize) * (height as usize);
        let far = Fx::from_bits(FX_SAT);
        let mut colors: Vec<Color> = Vec::new();
        let mut depths: Vec<Fx> = Vec::new();
        let mut i: usize = 0;
        while i < len
            invariant
                i <= len,
                colors@.len() == i,
                depths@.len() == i,
                forall|j: int| 0 <= j < i ==> colors@[j] == background,
                forall|j: int| 0 <= j < i ==> depths@[j]@ == FX_SAT as int,
                far@ == FX_SAT as int,
            decreases len - i,
        {
            colors.push(background);
            depths.push(far);
            i = i + 1;
        }
        Framebuffer { width: width as usize, height: height as usize, background, colors, depths }
    }

    pub fn width(&self) -> (r: usize)
        ensures
            r as int == self@.width,
    {
        self.width
    }

    pub fn height(&self) -> (r: usize)
        ensures
            r as int == self@.height,
    {
        self.height
    }

    /// Replace the background color used by the next clear.
    pub fn set_background_color(&mut self, background: Color)
        ensures
            final(self)@ == (GFramebuffer { background, ..old(self)@ }),
    {
        self.background = background;
    }

    /// Read one stored color.
    pub fn get_color(&self, x: u32, y: u32) -> (r: Color)
        requires
            fb_wf(self@),
            (x as int) < self@.width,
            (y as int) < self@.height,
        ensures
            r == self@.colors[fb_idx(self@, x as int, y as int)],
    {
        let _n = self.colors.len();
        proof {
            lemma_fb_idx_in_range(self@, x as int, y as int);
        }
        self.colors[(y as usize) * self.width + (x as usize)]
    }

    /// Read one stored depth.
    pub fn get_depth(&self, x: u32, y: u32) -> (r: Fx)
        requires
            fb_wf(self@),
            (x as int) < self@.width,
            (y as int) < self@.height,
        ensures
            r == self@.depths[fb_idx(self@, x as int, y as int)],
    {
        let _n = self.depths.len();
        proof {
            lemma_fb_idx_in_range(self@, x as int, y as int);
        }
        self.depths[(y as usize) * self.width + (x as usize)]
    }

    /// The whole color plane, row-major, for presentation to a display
    /// surface.
    pub fn color_data(&self) -> (r: &Vec<Color>)
        ensures
            r@ == self@.colors,
    {
        &self.colors
    }

    /// Reset every color to the background and every depth to the far
    /// sentinel.
    pub fn clear(&mut self)
        requires
            fb_wf(old(self)@),
        ensures
            fb_wf(final(self)@),
            final(self)@.width == old(self)@.width,
            final(self)@.height == old(self)@.height,
            final(self)@.background == old(self)@.background,
            final(self)@.colors.len() == old(self)@.colors.len(),
            final(self)@.depths.len() == old(self)@.depths.len(),
            forall|i: int| 0 <= i < final(self)@.colors.len()
                ==> final(self)@.colors[i] == old(self)@.background,
            forall|i: int| 0 <= i < final(self)@.depths.len()
                ==> final(self)@.depths[i]@ == FX_SAT as int,
    {
        let far = Fx::from_bits(FX_SAT);
        let len = self.colors.len();
        let bg = self.background;
        let mut i: usize = 0;
        while i < len
            invariant
                i <= len,
                self.colors@.len() == len,
                self.depths@.len() == len,
                self.width == old(self).width,
                self.height == old(self).height,
                self.background == old(self).background,
                bg == old(self).background,
                far@ == FX_SAT as int,
                forall|j: int| 0 <= j < i ==> self.colors@[j] == bg,
                forall|j: int| 0 <= j < i ==> self.depths@[j]@ == FX_SAT as int,
            decreases len - i,
        {
            self.colors[i] = bg;
            self.depths[i] = far;
            i = i + 1;
        }
    }

    /// Depth-tested write of one pixel with an explicit color.
    pub fn set_pixel(&mut self, x: u32, y: u32, depth: Fx, color: Color)
        requires
            fb_wf(old(self)@),
        ensures
            fb_wf(final(self)@),
            final(self)@ == write_pixel_v(old(self)@, x as int, y as int, depth, color),
    {
        let xi = x as usize;
        let yi = y as usize;
        if xi < self.width && yi < self.height {
            let _n = self.colors.len();
            proof {
                lemma_fb_idx_in_range(self@, xi as int, yi as int);
            }
            let idx = yi * self.width + xi;
            if depth.fx_lt(self.depths[idx]) {
                self.colors[idx] = color;
                self.depths[idx] = depth;
            }
        }
    }
}

/// One color channel from a fixed-point value: clamped into `[0, 1]`, then
/// scaled to `[0, 255]` with truncation.
pub open spec fn channel_v(c: int) -> int {
    (fx_clamp_v(c, 0, 65536) * 255) / 65536
}

/// A linear RGB vector in `[0, 1]` cubed, quantized to one byte per channel.
pub open spec fn vec3_to_color_v(v: Gv3) -> Color {
    Color { r: channel_v(v.x) as u8, g: channel_v(v.y) as u8, b: channel_v(v.z) as u8 }
}

/// One fixed-point channel from a byte: `c / 255` of one unit.
pub open spec fn channel_fx_v(c: int) -> int {
    (c * 65536) / 255
}

/// A byte color as a linear RGB vector in `[0, 1]` cubed.
pub open spec fn color_to_vec3_v(c: Color) -> Gv3 {
    Gv3 { x: channel_fx_v(c.r as int), y: channel_fx_v(c.g as int), z: channel_fx_v(c.b as int) }
}

fn channel(c: Fx) -> (r: u8)
    ensures
        r as int == channel_v(c@),
{
    let cc = c.fx_clamp(Fx::zero(), Fx::one()).to_bits();
    (((cc as u64) * 255) / 65536) as u8
}

/// Quantize a linear RGB vector to a byte color.
pub fn vec3_to_color(v: V3) -> (r: Color)
    ensures
        r == vec3_to_color_v(v@),
{
    Color { r: channel(v.x), g: channel(v.y), b: channel(v.z) }
}

/// Widen a byte color to a linear RGB vector in `[0, 1]` cubed.
pub fn color_to_vec3(c: Color) -> (r: V3)
    ensures
        r@ == color_to_vec3_v(c),
{
    V3 {
        x: Fx::from_bits((((c.r as u64) * 65536) / 255) as i64),
        y: Fx::from_bits((((c.g as u64) * 65536) / 255) as i64),
        z: Fx::from_bits((((c.b as u64) * 65536) / 255) as i64),
    }
}

/// Depth monotonicity. Writing a nearer depth and then an equal or farther
/// one to the same pixel leaves the buffer exactly as after the first write;
/// writing a farther depth that lands and then a nearer one updates both the
/// color and the depth to the second write's values.
pub proof fn lemma_depth_write_monotonic(
    fb: GFramebuffer, x: int, y: int, c1: Color, c2: Color, d1: Fx, d2: Fx,
)
    requires
        fb_wf(fb),
        0 <= x < fb.width,
        0 <= y < fb.height,
        d1@ < d2@,
    ensures
        write_pixel_v(write_pixel_v(fb, x, y, d1, c1), x, y, d2, c2)
            == write_pixel_v(fb, x, y, d1, c1),
        d2@ < fb.depths[fb_idx(fb, x, y)]@ ==> {
            let after = write_pixel_v(write_pixel_v(fb, x, y, d2, c2), x, y, d1, c1);
            &&& after.colors[fb_idx(fb, x, y)] == c1
            &&& after.depths[fb_idx(fb, x, y)] == d1
        },
{
    lemma_fb_idx_in_range(fb, x, y);
}

} // verus!
