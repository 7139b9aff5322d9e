//! Column-major 4x4 fixed-point matrices: composition, matrix-vector
//! application, and the standard builders of the pipeline (model, look-at
//! view, perspective projection, viewport). Every builder and product is
//! specified exactly over the fixed-point operations.

use vstd::prelude::*;
use crate::fixed::{
    Fx, FX_ONE, FX_SAT, fx_add_v, fx_sub_v, fx_neg_v, fx_mul_v, fx_div_v, lemma_fx_mul_one,
};
use crate::trig::{fx_sin, fx_cos, fx_sin_v, fx_cos_v, sin_parab_v, FX_HALF_PI};
use crate::vec3::{V3, Gv3, v3_scale_v, v3_sub_v, v3_cross_v, v3_normalize_or_v, v3_dot_v, Gv4, V4};

verus! {

/// Ghost image of a column-major 4x4 matrix. Field `mN` holds column
/// `N / 4`, row `N % 4`, as in the exec type.
pub ghost struct Gm4 {
    pub m0: int,
    pub m1: int,
    pub m2: int,
    pub m3: int,
    pub m4: int,
    pub m5: int,
    pub m6: int,
    pub m7: int,
    pub m8: int,
    pub m9: int,
    pub m10: int,
    pub m11: int,
    pub m12: int,
    pub m13: int,
    pub m14: int,
    pub m15: int,
}

/// A column-major 4x4 fixed-point matrix: `m0..m3` is the first column.
#[derive(Clone, Copy, PartialEq, Eq, Structural, Debug)]
pub struct M4 {
    pub m0: Fx,
    pub m1: Fx,
    pub m2: Fx,
    pub m3: Fx,
    pub m4: Fx,
    pub m5: Fx,
    pub m6: Fx,
    pub m7: Fx,
    pub m8: Fx,
    pub m9: Fx,
    pub m10: Fx,
    pub m11: Fx,
    pub m12: Fx,
    pub m13: Fx,
    pub m14: Fx,
    pub m15: Fx,
}

impl View for M4 {
    type V = Gm4;

    open spec fn view(&self) -> Gm4 {
        Gm4 {
            m0: self.m0@,
            m1: self.m1@,
            m2: self.m2@,
            m3: self.m3@,
            m4: self.m4@,
            m5: self.m5@,
            m6: self.m6@,
            m7: self.m7@,
            m8: self.m8@,
            m9: self.m9@,
            m10: self.m10@,
            m11: self.m11@,
            m12: self.m12@,
            m13: self.m13@,
            m14: self.m14@,
            m15: self.m15@,
        }
    }
}

/// Four-term inner product, folded as two pairs.
pub open spec fn rowcol_v(
    a0: int, a1: int, a2: int, a3: int, b0: int, b1: int, b2: int, b3: int,
) -> int {
    fx_add_v(
        fx_add_v(fx_mul_v(a0, b0), fx_mul_v(a1, b1)),
        fx_add_v(fx_mul_v(a2, b2), fx_mul_v(a3, b3)),
    )
}

fn rowcol(a0: Fx, a1: Fx, a2: Fx, a3: Fx, b0: Fx, b1: Fx, b2: Fx, b3: Fx) -> (r: Fx)
    ensures
        r@ == rowcol_v(a0@, a1@, a2@, a3@, b0@, b1@, b2@, b3@),
{
    a0.sat_mul(b0).sat_add(a1.sat_mul(b1)).sat_add(a2.sat_mul(b2).sat_add(a3.sat_mul(b3)))
}

/// Matrix times homogeneous vector.
pub open spec fn m4_mul_v4_v(m: Gm4, v: Gv4) -> Gv4 {
    Gv4 {
        x: rowcol_v(m.m0, m.m4, m.m8, m.m12, v.x, v.y, v.z, v.w),
        y: rowcol_v(m.m1, m.m5, m.m9, m.m13, v.x, v.y, v.z, v.w),
        z: rowcol_v(m.m2, m.m6, m.m10, m.m14, v.x, v.y, v.z, v.w),
        w: rowcol_v(m.m3, m.m7, m.m11, m.m15, v.x, v.y, v.z, v.w),
    }
}

/// Matrix product `a * b`.
pub open spec fn m4_mul_m4_v(a: Gm4, b: Gm4) -> Gm4 {
    Gm4 {
        m0: rowcol_v(a.m0, a.m4, a.m8, a.m12, b.m0, b.m1, b.m2, b.m3),
        m1: rowcol_v(a.m1, a.m5, a.m9, a.m13, b.m0, b.m1, b.m2, b.m3),
        m2: rowcol_v(a.m2, a.m6, a.m10, a.m14, b.m0, b.m1, b.m2, b.m3),
        m3: rowcol_v(a.m3, a.m7, a.m11, a.m15, b.m0, b.m1, b.m2, b.m3),
        m4: rowcol_v(a.m0, a.m4, a.m8, a.m12, b.m4, b.m5, b.m6, b.m7),
        m5: rowcol_v(a.m1, a.m5, a.m9, a.m13, b.m4, b.m5, b.m6, b.m7),
        m6: rowcol_v(a.m2, a.m6, a.m10, a.m14, b.m4, b.m5, b.m6, b.m7),
        m7: rowcol_v(a.m3, a.m7, a.m11, a.m15, b.m4, b.m5, b.m6, b.m7),
        m8: rowcol_v(a.m0, a.m4, a.m8, a.m12, b.m8, b.m9, b.m10, b.m11),
        m9: rowcol_v(a.m1, a.m5, a.m9, a.m13, b.m8, b.m9, b.m10, b.m11),
        m10: rowcol_v(a.m2, a.m6, a.m10, a.m14, b.m8, b.m9, b.m10, b.m11),
        m11: rowcol_v(a.m3, a.m7, a.m11, a.m15, b.m8, b.m9, b.m10, b.m11),
        m12: rowcol_v(a.m0, a.m4, a.m8, a.m12, b.m12, b.m13, b.m14, b.m15),
        m13: rowcol_v(a.m1, a.m5, a.m9, a.m13, b.m12, b.m13, b.m14, b.m15),
        m14: rowcol_v(a.m2, a.m6, a.m10, a.m14, b.m12, b.m13, b.m14, b.m15),
        m15: rowcol_v(a.m3, a.m7, a.m11, a.m15, b.m12, b.m13, b.m14, b.m15),
    }
}

/// Apply a matrix to a homogeneous vector.
pub fn multiply_matrix_vector4(m: &M4, v: &V4) -> (r: V4)
    ensures
        r@ == m4_mul_v4_v(m@, v@),
{
    V4 {
        x: rowcol(m.m0, m.m4, m.m8, m.m12, v.x, v.y, v.z, v.w),
        y: rowcol(m.m1, m.m5, m.m9, m.m13, v.x, v.y, v.z, v.w),
        z: rowcol(m.m2, m.m6, m.m10, m.m14, v.x, v.y, v.z, v.w),
        w: rowcol(m.m3, m.m7, m.m11, m.m15, v.x, v.y, v.z, v.w),
    }
}

/// Multiply two matrices.
pub fn multiply_matrix(a: &M4, b: &M4) -> (r: M4)
    ensures
        r@ == m4_mul_m4_v(a@, b@),
{
    M4 {
        m0: rowcol(a.m0, a.m4, a.m8, a.m12, b.m0, b.m1, b.m2, b.m3),
        m1: rowcol(a.m1, a.m5, a.m9, a.m13, b.m0, b.m1, b.m2, b.m3),
        m2: rowcol(a.m2, a.m6, a.m10, a.m14, b.m0, b.m1, b.m2, b.m3),
        m3: rowcol(a.m3, a.m7, a.m11, a.m15, b.m0, b.m1, b.m2, b.m3),
        m4: rowcol(a.m0, a.m4, a.m8, a.m12, b.m4, b.m5, b.m6, b.m7),
        m5: rowcol(a.m1, a.m5, a.m9, a.m13, b.m4, b.m5, b.m6, b.m7),
        m6: rowcol(a.m2, a.m6, a.m10, a.m14, b.m4, b.m5, b.m6, b.m7),
        m7: rowcol(a.m3, a.m7, a.m11, a.m15, b.m4, b.m5, b.m6, b.m7),
        m8: rowcol(a.m0, a.m4, a.m8, a.m12, b.m8, b.m9, b.m10, b.m11),
        m9: rowcol(a.m1, a.m5, a.m9, a.m13, b.m8, b.m9, b.m10, b.m11),
        m10: rowcol(a.m2, a.m6, a.m10, a.m14, b.m8, b.m9, b.m10, b.m11),
        m11: rowcol(a.m3, a.m7, a.m11, a.m15, b.m8, b.m9, b.m10, b.m11),
        m12: rowcol(a.m0, a.m4, a.m8, a.m12, b.m12, b.m13, b.m14, b.m15),
        m13: rowcol(a.m1, a.m5, a.m9, a.m13, b.m12, b.m13, b.m14, b.m15),
        m14: rowcol(a.m2, a.m6, a.m10, a.m14, b.m12, b.m13, b.m14, b.m15),
        m15: rowcol(a.m3, a.m7, a.m11, a.m15, b.m12, b.m13, b.m14, b.m15),
    }
}

/// Ghost constant: the all-zero matrix with ones where a builder places them.
pub open spec fn gm4_zero() -> Gm4 {
    Gm4 {
        m0: 0, m1: 0, m2: 0, m3: 0,
        m4: 0, m5: 0, m6: 0, m7: 0,
        m8: 0, m9: 0, m10: 0, m11: 0,
        m12: 0, m13: 0, m14: 0, m15: 0,
    }
}

/// Rotation about X from a sine and cosine pair.
pub open spec fn rot_x_v(s: int, c: int) -> Gm4 {
    Gm4 {
        m0: FX_ONE as int, m5: c, m6: s, m9: fx_neg_v(s), m10: c, m15: FX_ONE as int,
        ..gm4_zero()
    }
}

/// Rotation about Y from a sine and cosine pair.
pub open spec fn rot_y_v(s: int, c: int) -> Gm4 {
    Gm4 {
        m0: c, m2: fx_neg_v(s), m5: FX_ONE as int, m8: s, m10: c, m15: FX_ONE as int,
        ..gm4_zero()
    }
}

/// Rotation about Z from a sine and cosine pair.
pub open spec fn rot_z_v(s: int, c: int) -> Gm4 {
    Gm4 {
        m0: c, m1: s, m4: fx_neg_v(s), m5: c, m10: FX_ONE as int, m15: FX_ONE as int,
        ..gm4_zero()
    }
}

/// Uniform scale.
pub open spec fn scale_m4_v(s: int) -> Gm4 {
    Gm4 { m0: s, m5: s, m10: s, m15: FX_ONE as int, ..gm4_zero() }
}

/// Translation.
pub open spec fn translate_m4_v(t: Gv3) -> Gm4 {
    Gm4 {
        m0: FX_ONE as int, m5: FX_ONE as int, m10: FX_ONE as int,
        m12: t.x, m13: t.y, m14: t.z, m15: FX_ONE as int,
        ..gm4_zero()
    }
}

/// Model matrix from translation, uniform scale and Euler angles: the vertex
/// is scaled, rotated by pitch about X, then yaw about Y, then roll about Z,
/// then translated.
pub open spec fn create_model_matrix_v(t: Gv3, s: int, rot: Gv3) -> Gm4 {
    let rx = rot_x_v(fx_sin_v(rot.x), fx_cos_v(rot.x));
    let ry = rot_y_v(fx_sin_v(rot.y), fx_cos_v(rot.y));
    let rz = rot_z_v(fx_sin_v(rot.z), fx_cos_v(rot.z));
    let rm = m4_mul_m4_v(rz, m4_mul_m4_v(ry, rx));
    m4_mul_m4_v(translate_m4_v(t), m4_mul_m4_v(rm, scale_m4_v(s)))
}

/// Model matrix from an explicit basis: the columns are the scaled right, up
/// and forward axes and the translation.
pub open spec fn model_basis_v(t: Gv3, s: int, right: Gv3, up: Gv3, forward: Gv3) -> Gm4 {
    let rs = v3_scale_v(right, s);
    let us = v3_scale_v(up, s);
    let fs = v3_scale_v(forward, s);
    Gm4 {
        m0: rs.x, m1: rs.y, m2: rs.z, m3: 0,
        m4: us.x, m5: us.y, m6: us.z, m7: 0,
        m8: fs.x, m9: fs.y, m10: fs.z, m11: 0,
        m12: t.x, m13: t.y, m14: t.z, m15: FX_ONE as int,
    }
}

/// Look-at view matrix with a fallback basis when eye and target coincide.
pub open spec fn create_view_matrix_v(eye: Gv3, target: Gv3, up: Gv3) -> Gm4 {
    let za = v3_normalize_or_v(v3_sub_v(eye, target), Gv3 { x: 0, y: 0, z: FX_ONE as int });
    let xa = v3_normalize_or_v(v3_cross_v(up, za), Gv3 { x: FX_ONE as int, y: 0, z: 0 });
    let ya = v3_cross_v(za, xa);
    Gm4 {
        m0: xa.x, m1: ya.x, m2: za.x, m3: 0,
        m4: xa.y, m5: ya.y, m6: za.y, m7: 0,
        m8: xa.z, m9: ya.z, m10: za.z, m11: 0,
        m12: fx_neg_v(v3_dot_v(xa, eye)),
        m13: fx_neg_v(v3_dot_v(ya, eye)),
        m14: fx_neg_v(v3_dot_v(za, eye)),
        m15: FX_ONE as int,
    }
}

/// Perspective projection from a vertical field of view (radians), aspect
/// ratio, near and far planes. The focal term is the cotangent of half the
/// field of view, saturated when the approximate sine rounds to zero.
pub open spec fn create_projection_matrix_v(fov_y: int, aspect: int, near: int, far: int) -> Gm4 {
    let half = fx_mul_v(fov_y, 32768);
    let s = fx_sin_v(half);
    let f = if s == 0 { FX_SAT as int } else { fx_div_v(fx_cos_v(half), s) };
    let inv_range = fx_sub_v(near, far);
    Gm4 {
        m0: fx_div_v(f, aspect),
        m5: f,
        m10: fx_div_v(fx_add_v(far, near), inv_range),
        m11: fx_neg_v(FX_ONE as int),
        m14: fx_div_v(fx_mul_v(fx_mul_v(131072, far), near), inv_range),
        m15: 0,
        ..gm4_zero()
    }
}

/// Viewport matrix mapping NDC `[-1,1]^2` to `[x0, x0+w] x [y0, y0+h]` with
/// a Y flip; depth passes through.
pub open spec fn create_viewport_matrix_v(x0: int, y0: int, w: int, h: int) -> Gm4 {
    let hw = fx_mul_v(w, 32768);
    let hh = fx_mul_v(h, 32768);
    Gm4 {
        m0: hw,
        m5: fx_neg_v(hh),
        m10: FX_ONE as int,
        m12: fx_add_v(x0, hw),
        m13: fx_add_v(y0, hh),
        m15: FX_ONE as int,
        ..gm4_zero()
    }
}

/// The ghost identity matrix.
pub open spec fn gm4_identity() -> Gm4 {
    Gm4 {
        m0: FX_ONE as int, m5: FX_ONE as int, m10: FX_ONE as int, m15: FX_ONE as int,
        ..gm4_zero()
    }
}

/// The sine of zero is exactly zero and the cosine of zero exactly one.
pub proof fn lemma_sin_cos_zero()
    ensures
        fx_sin_v(0) == 0,
        fx_cos_v(0) == FX_ONE as int,
{
    lemma_fx_mul_one(0);
    lemma_fx_mul_one(fx_sub_v(205887, 0));
    assert(fx_sin_v(0) == 0);
    assert(fx_cos_v(0) == fx_sin_v(FX_HALF_PI as int));
    assert(102944int * 102943 == 10597364192) by (nonlinear_arith);
    assert(10597364192int / 65536 == 161702);
    assert(fx_mul_v(102944, 102943) == 161702);
    assert(161702int * 26562 == 4295128524) by (nonlinear_arith);
    assert(4295128524int / 65536 == 65538);
    assert(fx_mul_v(161702, 26562) == 65538);
    assert(sin_parab_v(102944) == 65538);
    assert(fx_sin_v(FX_HALF_PI as int) == FX_ONE as int);
}

/// Multiplying by the identity matrix changes nothing, for matrices whose
/// entries are representable.
pub proof fn lemma_identity_mul(b: Gm4)
    requires
        -(FX_SAT as int) <= b.m0 <= FX_SAT as int,
        -(FX_SAT as int) <= b.m1 <= FX_SAT as int,
        -(FX_SAT as int) <= b.m2 <= FX_SAT as int,
        -(FX_SAT as int) <= b.m3 <= FX_SAT as int,
        -(FX_SAT as int) <= b.m4 <= FX_SAT as int,
        -(FX_SAT as int) <= b.m5 <= FX_SAT as int,
        -(FX_SAT as int) <= b.m6 <= FX_SAT as int,
        -(FX_SAT as int) <= b.m7 <= FX_SAT as int,
        -(FX_SAT as int) <= b.m8 <= FX_SAT as int,
        -(FX_SAT as int) <= b.m9 <= FX_SAT as int,
        -(FX_SAT as int) <= b.m10 <= FX_SAT as int,
        -(FX_SAT as int) <= b.m11 <= FX_SAT as int,
        -(FX_SAT as int) <= b.m12 <= FX_SAT as int,
        -(FX_SAT as int) <= b.m13 <= FX_SAT as int,
        -(FX_SAT as int) <= b.m14 <= FX_SAT as int,
        -(FX_SAT as int) <= b.m15 <= FX_SAT as int,
    ensures
        m4_mul_m4_v(gm4_identity(), b) == b,
{
    lemma_fx_mul_one(b.m0);
    lemma_fx_mul_one(b.m1);
    lemma_fx_mul_one(b.m2);
    lemma_fx_mul_one(b.m3);
    lemma_fx_mul_one(b.m4);
    lemma_fx_mul_one(b.m5);
    lemma_fx_mul_one(b.m6);
    lemma_fx_mul_one(b.m7);
    lemma_fx_mul_one(b.m8);
    lemma_fx_mul_one(b.m9);
    lemma_fx_mul_one(b.m10);
    lemma_fx_mul_one(b.m11);
    lemma_fx_mul_one(b.m12);
    lemma_fx_mul_one(b.m13);
    lemma_fx_mul_one(b.m14);
    lemma_fx_mul_one(b.m15);
}

/// A zero Euler rotation is exactly the identity placement: the Euler-mode
/// model matrix with rotation zero equals the basis-mode model matrix with
/// the axis-aligned unit basis, for every representable translation and
/// scale.
pub proof fn lemma_zero_rotation_model(t: Gv3, s: int)
    requires
        -(FX_SAT as int) <= t.x <= FX_SAT as int,
        -(FX_SAT as int) <= t.y <= FX_SAT as int,
        -(FX_SAT as int) <= t.z <= FX_SAT as int,
        -(FX_SAT as int) <= s <= FX_SAT as int,
    ensures
        create_model_matrix_v(t, s, Gv3 { x: 0, y: 0, z: 0 }) == model_basis_v(
            t, s,
            Gv3 { x: FX_ONE as int, y: 0, z: 0 },
            Gv3 { x: 0, y: FX_ONE as int, z: 0 },
            Gv3 { x: 0, y: 0, z: FX_ONE as int },
        ),
{
    lemma_sin_cos_zero();
    lemma_fx_mul_one(0);
    lemma_fx_mul_one(FX_ONE as int);
    lemma_fx_mul_one(s);
    lemma_fx_mul_one(t.x);
    lemma_fx_mul_one(t.y);
    lemma_fx_mul_one(t.z);
    assert(rot_x_v(fx_sin_v(0), fx_cos_v(0)) == gm4_identity());
    assert(rot_y_v(fx_sin_v(0), fx_cos_v(0)) == gm4_identity());
    assert(rot_z_v(fx_sin_v(0), fx_cos_v(0)) == gm4_identity());
    lemma_identity_mul(gm4_identity());
    lemma_identity_mul(scale_m4_v(s));
    let ms = m4_mul_m4_v(gm4_identity(), scale_m4_v(s));
    assert(ms == scale_m4_v(s));
    let model = m4_mul_m4_v(translate_m4_v(t), scale_m4_v(s));
    assert(model.m0 == s);
    assert(model.m5 == s);
    assert(model.m10 == s);
    assert(model.m12 == t.x);
    assert(model.m13 == t.y);
    assert(model.m14 == t.z);
    assert(model.m15 == FX_ONE as int);
    assert(model == model_basis_v(
        t, s,
        Gv3 { x: FX_ONE as int, y: 0, z: 0 },
        Gv3 { x: 0, y: FX_ONE as int, z: 0 },
        Gv3 { x: 0, y: 0, z: FX_ONE as int },
    ));
}

impl M4 {
    /// The matrix with every entry zero.
    fn zero() -> (r: M4)
        ensures
            r@ == gm4_zero(),
    {
        let z = Fx::zero();
        M4 {
            m0: z, m1: z, m2: z, m3: z,
            m4: z, m5: z, m6: z, m7: z,
            m8: z, m9: z, m10: z, m11: z,
            m12: z, m13: z, m14: z, m15: z,
        }
    }
}

fn rot_x(s: Fx, c: Fx) -> (r: M4)
    ensures
        r@ == rot_x_v(s@, c@),
{
    let one = Fx::one();
    M4 { m0: one, m5: c, m6: s, m9: s.sat_neg(), m10: c, m15: one, ..M4::zero() }
}

fn rot_y(s: Fx, c: Fx) -> (r: M4)
    ensures
        r@ == rot_y_v(s@, c@),
{
    let one = Fx::one();
    M4 { m0: c, m2: s.sat_neg(), m5: one, m8: s, m10: c, m15: one, ..M4::zero() }
}

fn rot_z(s: Fx, c: Fx) -> (r: M4)
    ensures
        r@ == rot_z_v(s@, c@),
{
    let one = Fx::one();
    M4 { m0: c, m1: s, m4: s.sat_neg(), m5: c, m10: one, m15: one, ..M4::zero() }
}

/// Build the Euler-mode model matrix.
pub fn create_model_matrix(translation: V3, scale: Fx, rotation: V3) -> (r: M4)
    ensures
        r@ == create_model_matrix_v(translation@, scale@, rotation@),
{
    let one = Fx::one();
    let rx = rot_x(fx_sin(rotation.x), fx_cos(rotation.x));
    let ry = rot_y(fx_sin(rotation.y), fx_cos(rotation.y));
    let rz = rot_z(fx_sin(rotation.z), fx_cos(rotation.z));
    let rm = multiply_matrix(&rz, &multiply_matrix(&ry, &rx));
    let sm = M4 { m0: scale, m5: scale, m10: scale, m15: one, ..M4::zero() };
    let tm = M4 {
        m0: one, m5: one, m10: one,
        m12: translation.x, m13: translation.y, m14: translation.z, m15: one,
        ..M4::zero()
    };
    multiply_matrix(&tm, &multiply_matrix(&rm, &sm))
}

/// Build the basis-mode model matrix.
pub fn create_basis_model_matrix(
    translation: V3, scale: Fx, right: V3, up: V3, forward: V3,
) -> (r: M4)
    ensures
        r@ == model_basis_v(translation@, scale@, right@, up@, forward@),
{
    let z = Fx::zero();
    let rs = right.scale(scale);
    let us = up.scale(scale);
    let fs = forward.scale(scale);
    M4 {
        m0: rs.x, m1: rs.y, m2: rs.z, m3: z,
        m4: us.x, m5: us.y, m6: us.z, m7: z,
        m8: fs.x, m9: fs.y, m10: fs.z, m11: z,
        m12: translation.x, m13: translation.y, m14: translation.z, m15: Fx::one(),
    }
}

/// Build the look-at view matrix.
pub fn create_view_matrix(eye: V3, target: V3, up: V3) -> (r: M4)
    ensures
        r@ == create_view_matrix_v(eye@, target@, up@),
{
    let z = Fx::zero();
    let one = Fx::one();
    let za = eye.sub(target).normalize_or(V3 { x: z, y: z, z: one });
    let xa = up.cross(za).normalize_or(V3 { x: one, y: z, z: z });
    let ya = za.cross(xa);
    M4 {
        m0: xa.x, m1: ya.x, m2: za.x, m3: z,
        m4: xa.y, m5: ya.y, m6: za.y, m7: z,
        m8: xa.z, m9: ya.z, m10: za.z, m11: z,
        m12: xa.dot(eye).sat_neg(),
        m13: ya.dot(eye).sat_neg(),
        m14: za.dot(eye).sat_neg(),
        m15: one,
    }
}

/// Build the perspective projection matrix.
pub fn create_projection_matrix(fov_y: Fx, aspect: Fx, near: Fx, far: Fx) -> (r: M4)
    requires
        aspect@ != 0,
        near@ != far@,
    ensures
        r@ == create_projection_matrix_v(fov_y@, aspect@, near@, far@),
{
    let half = fov_y.sat_mul(Fx::from_bits(32768));
    let s = fx_sin(half);
    let f = if s.to_bits() == 0 {
        Fx::from_bits(FX_SAT)
    } else {
        fx_cos(half).sat_div(s)
    };
    let inv_range = near.sat_sub(far);
    M4 {
        m0: f.sat_div(aspect),
        m5: f,
        m10: far.sat_add(near).sat_div(inv_range),
        m11: Fx::one().sat_neg(),
        m14: Fx::from_bits(131072).sat_mul(far).sat_mul(near).sat_div(inv_range),
        ..M4::zero()
    }
}

/// Build the viewport matrix.
pub fn create_viewport_matrix(x0: Fx, y0: Fx, w: Fx, h: Fx) -> (r: M4)
    ensures
        r@ == create_viewport_matrix_v(x0@, y0@, w@, h@),
{
    let half = Fx::from_bits(32768);
    let hw = w.sat_mul(half);
    let hh = h.sat_mul(half);
    M4 {
        m0: hw,
        m5: hh.sat_neg(),
        m10: Fx::one(),
        m12: x0.sat_add(hw),
        m13: y0.sat_add(hh),
        m15: Fx::one(),
        ..M4::zero()
    }
}

} // verus!
