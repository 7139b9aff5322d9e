//! Three- and four-component fixed-point vectors with exact component-wise
//! contracts. The view of a vector is a ghost record of mathematical
//! integers, one per component, so every geometric operation is specified by
//! a spec function over those records.

use vstd::prelude::*;
use crate::fixed::{
    Fx, fx_add_v, fx_sub_v, fx_neg_v, fx_mul_v, fx_div_v, fx_sqrt_v, fx_clamp_v, fx_lerp_v,
    fx_lerp, FX_ONE,
};
use crate::trig::lemma_fx_square_nonneg;

verus! {

/// Ghost image of a three-component vector.
pub ghost struct Gv3 {
    pub x: int,
    pub y: int,
    pub z: int,
}

/// Ghost image of a four-component vector.
pub ghost struct Gv4 {
    pub x: int,
    pub y: int,
    pub z: int,
    pub w: int,
}

/// A three-component fixed-point vector.
#[derive(Clone, Copy, PartialEq, Eq, Structural, Debug)]
pub struct V3 {
    pub x: Fx,
    pub y: Fx,
    pub z: Fx,
}

/// A four-component fixed-point vector.
#[derive(Clone, Copy, PartialEq, Eq, Structural, Debug)]
pub struct V4 {
    pub x: Fx,
    pub y: Fx,
    pub z: Fx,
    pub w: Fx,
}

impl View for V3 {
    type V = Gv3;

    open spec fn view(&self) -> Gv3 {
        Gv3 { x: self.x@, y: self.y@, z: self.z@ }
    }
}

impl View for V4 {
    type V = Gv4;

    open spec fn view(&self) -> Gv4 {
        Gv4 { x: self.x@, y: self.y@, z: self.z@, w: self.w@ }
    }
}

pub open spec fn v3_add_v(a: Gv3, b: Gv3) -> Gv3 {
    Gv3 { x: fx_add_v(a.x, b.x), y: fx_add_v(a.y, b.y), z: fx_add_v(a.z, b.z) }
}

pub open spec fn v3_sub_v(a: Gv3, b: Gv3) -> Gv3 {
    Gv3 { x: fx_sub_v(a.x, b.x), y: fx_sub_v(a.y, b.y), z: fx_sub_v(a.z, b.z) }
}

pub open spec fn v3_neg_v(a: Gv3) -> Gv3 {
    Gv3 { x: fx_neg_v(a.x), y: fx_neg_v(a.y), z: fx_neg_v(a.z) }
}

pub open spec fn v3_scale_v(a: Gv3, s: int) -> Gv3 {
    Gv3 { x: fx_mul_v(a.x, s), y: fx_mul_v(a.y, s), z: fx_mul_v(a.z, s) }
}

/// Dot product, folded left to right.
pub open spec fn v3_dot_v(a: Gv3, b: Gv3) -> int {
    fx_add_v(fx_add_v(fx_mul_v(a.x, b.x), fx_mul_v(a.y, b.y)), fx_mul_v(a.z, b.z))
}

pub open spec fn v3_cross_v(a: Gv3, b: Gv3) -> Gv3 {
    Gv3 {
        x: fx_sub_v(fx_mul_v(a.y, b.z), fx_mul_v(a.z, b.y)),
        y: fx_sub_v(fx_mul_v(a.z, b.x), fx_mul_v(a.x, b.z)),
        z: fx_sub_v(fx_mul_v(a.x, b.y), fx_mul_v(a.y, b.x)),
    }
}

/// Euclidean length: square root of the self dot product.
pub open spec fn v3_len_v(a: Gv3) -> int {
    fx_sqrt_v(v3_dot_v(a, a))
}

/// Normalization with a fallback direction for the zero vector.
pub open spec fn v3_normalize_or_v(a: Gv3, d: Gv3) -> Gv3 {
    let len = v3_len_v(a);
    if len == 0 {
        d
    } else {
        Gv3 { x: fx_div_v(a.x, len), y: fx_div_v(a.y, len), z: fx_div_v(a.z, len) }
    }
}

/// Component-wise linear interpolation.
pub open spec fn v3_lerp_v(a: Gv3, b: Gv3, t: int) -> Gv3 {
    Gv3 { x: fx_lerp_v(a.x, b.x, t), y: fx_lerp_v(a.y, b.y, t), z: fx_lerp_v(a.z, b.z, t) }
}

/// Component-wise clamp into `[0, 1]`.
pub open spec fn v3_clamp01_v(a: Gv3) -> Gv3 {
    Gv3 {
        x: fx_clamp_v(a.x, 0, FX_ONE as int),
        y: fx_clamp_v(a.y, 0, FX_ONE as int),
        z: fx_clamp_v(a.z, 0, FX_ONE as int),
    }
}

/// The ghost image of a vector sequence: one ghost record per element.
pub open spec fn v3_seq_view(s: Seq<V3>) -> Seq<Gv3> {
    s.map_values(|v: V3| v@)
}

/// The self dot product is non-negative.
pub proof fn lemma_v3_dot_self_nonneg(a: Gv3)
    ensures
        v3_dot_v(a, a) >= 0,
{
    lemma_fx_square_nonneg(a.x);
    lemma_fx_square_nonneg(a.y);
    lemma_fx_square_nonneg(a.z);
}

impl V3 {
    pub fn new(x: Fx, y: Fx, z: Fx) -> (r: V3)
        ensures
            r@ == (Gv3 { x: x@, y: y@, z: z@ }),
    {
        V3 { x, y, z }
    }

    /// The zero vector.
    pub fn zero() -> (r: V3)
        ensures
            r@ == (Gv3 { x: 0, y: 0, z: 0 }),
    {
        V3 { x: Fx::zero(), y: Fx::zero(), z: Fx::zero() }
    }

    pub fn add(self, o: V3) -> (r: V3)
        ensures
            r@ == v3_add_v(self@, o@),
    {
        V3 { x: self.x.sat_add(o.x), y: self.y.sat_add(o.y), z: self.z.sat_add(o.z) }
    }

    pub fn sub(self, o: V3) -> (r: V3)
        ensures
            r@ == v3_sub_v(self@, o@),
    {
        V3 { x: self.x.sat_sub(o.x), y: self.y.sat_sub(o.y), z: self.z.sat_sub(o.z) }
    }

    pub fn neg(self) -> (r: V3)
        ensures
            r@ == v3_neg_v(self@),
    {
        V3 { x: self.x.sat_neg(), y: self.y.sat_neg(), z: self.z.sat_neg() }
    }

    pub fn scale(self, s: Fx) -> (r: V3)
        ensures
            r@ == v3_scale_v(self@, s@),
    {
        V3 { x: self.x.sat_mul(s), y: self.y.sat_mul(s), z: self.z.sat_mul(s) }
    }

    pub fn dot(self, o: V3) -> (r: Fx)
        ensures
            r@ == v3_dot_v(self@, o@),
    {
        self.x.sat_mul(o.x).sat_add(self.y.sat_mul(o.y)).sat_add(self.z.sat_mul(o.z))
    }

    pub fn cross(self, o: V3) -> (r: V3)
        ensures
            r@ == v3_cross_v(self@, o@),
    {
        V3 {
            x: self.y.sat_mul(o.z).sat_sub(self.z.sat_mul(o.y)),
            y: self.z.sat_mul(o.x).sat_sub(self.x.sat_mul(o.z)),
            z: self.x.sat_mul(o.y).sat_sub(self.y.sat_mul(o.x)),
        }
    }

    /// Euclidean length; never negative.
    pub fn length(self) -> (r: Fx)
        ensures
            r@ == v3_len_v(self@),
            r@ >= 0,
    {
        proof {
            lemma_v3_dot_self_nonneg(self@);
        }
        let d = self.dot(self);
        d.fx_sqrt()
    }

    /// Normalize, or return the fallback `d` when the length rounds to zero.
    pub fn normalize_or(self, d: V3) -> (r: V3)
        ensures
            r@ == v3_normalize_or_v(self@, d@),
    {
        let len = self.length();
        if len.to_bits() == 0 {
            d
        } else {
            V3 { x: self.x.sat_div(len), y: self.y.sat_div(len), z: self.z.sat_div(len) }
        }
    }

    /// Component-wise clamp into `[0, 1]`.
    pub fn clamp01(self) -> (r: V3)
        ensures
            r@ == v3_clamp01_v(self@),
    {
        let zero = Fx::zero();
        let one = Fx::one();
        V3 {
            x: self.x.fx_clamp(zero, one),
            y: self.y.fx_clamp(zero, one),
            z: self.z.fx_clamp(zero, one),
        }
    }
}

/// Component-wise linear interpolation of two vectors.
pub fn v3_lerp(a: V3, b: V3, t: Fx) -> (r: V3)
    ensures
        r@ == v3_lerp_v(a@, b@, t@),
{
    V3 { x: fx_lerp(a.x, b.x, t), y: fx_lerp(a.y, b.y, t), z: fx_lerp(a.z, b.z, t) }
}

impl V4 {
    pub fn new(x: Fx, y: Fx, z: Fx, w: Fx) -> (r: V4)
        ensures
            r@ == (Gv4 { x: x@, y: y@, z: z@, w: w@ }),
    {
        V4 { x, y, z, w }
    }

    /// Extend a three-vector into homogeneous coordinates with `w = 1`.
    pub fn from_point(p: V3) -> (r: V4)
        ensures
            r@ == (Gv4 { x: p@.x, y: p@.y, z: p@.z, w: FX_ONE as int }),
    {
        V4 { x: p.x, y: p.y, z: p.z, w: Fx::one() }
    }
}

} // verus!
