//! Fixed-point trigonometric and saturating nonlinear functions.
//!
//! Sine is the classic parabola approximation `sin x ~ (4/pi^2) x (pi - x)`
//! on `[0, pi)`, mirrored on `[pi, 2 pi)`; cosine is the shifted sine;
//! `atan2` reduces to the first octant and applies a linear-corrected
//! arctangent; the saturating sigmoid is the Pade form `x (27 + x^2) /
//! (27 + 9 x^2)`. Every function is clamped into its mathematical range and
//! specified exactly over the fixed-point operations it is built from.

use vstd::prelude::*;
use vstd::arithmetic::mul::lemma_mul_nonnegative;
use vstd::arithmetic::div_mod::lemma_div_pos_is_pos;
use crate::fixed::{
    Fx, FX_ONE, iabs, fx_add_v, fx_sub_v, fx_neg_v, fx_abs_v, fx_mul_v, fx_div_v, fx_clamp_v,
};

verus! {

/// pi in 16.16 fixed point.
pub const FX_PI: i64 = 205887;

/// 2 pi in 16.16 fixed point.
pub const FX_TWO_PI: i64 = 411775;

/// pi / 2 in 16.16 fixed point.
pub const FX_HALF_PI: i64 = 102944;

/// pi / 4 in 16.16 fixed point.
pub const FX_QUARTER_PI: i64 = 51472;

/// 4 / pi^2 in 16.16 fixed point, rounded up so that the clamped parabola
/// reaches exactly one at the peak: sin(pi/2) and cos(0) are then exactly
/// one, and a zero Euler rotation is exactly the identity placement.
pub const FX_4_OVER_PI_SQ: i64 = 26562;

/// Arctangent correction coefficient 0.273 in 16.16 fixed point.
pub const FX_ATAN_K: i64 = 17892;

/// 27 in 16.16 fixed point.
pub const FX_27: i64 = 1769472;

/// 9 in 16.16 fixed point.
pub const FX_9: i64 = 589824;

/// A fixed-point product of two non-negative values is non-negative.
pub proof fn lemma_fx_mul_nonneg(a: int, b: int)
    requires
        a >= 0,
        b >= 0,
    ensures
        fx_mul_v(a, b) >= 0,
{
    lemma_mul_nonnegative(iabs(a), iabs(b));
    lemma_div_pos_is_pos(iabs(a) * iabs(b), FX_ONE as int);
}

/// A fixed-point square is non-negative.
pub proof fn lemma_fx_square_nonneg(a: int)
    ensures
        fx_mul_v(a, a) >= 0,
{
    lemma_mul_nonnegative(iabs(a), iabs(a));
    lemma_div_pos_is_pos(iabs(a) * iabs(a), FX_ONE as int);
}

/// The parabola `(4/pi^2) x (pi - x)` on one half period.
pub open spec fn sin_parab_v(x: int) -> int {
    fx_mul_v(fx_mul_v(x, fx_sub_v(FX_PI as int, x)), FX_4_OVER_PI_SQ as int)
}

/// Fixed-point sine: the argument reduced into `[0, 2 pi)`, the parabola
/// applied on each half period, the result clamped into `[-1, 1]`.
pub open spec fn fx_sin_v(a: int) -> int {
    let x = a % (FX_TWO_PI as int);
    let raw = if x < FX_PI as int {
        sin_parab_v(x)
    } else {
        fx_neg_v(sin_parab_v(fx_sub_v(x, FX_PI as int)))
    };
    fx_clamp_v(raw, -(FX_ONE as int), FX_ONE as int)
}

/// Fixed-point cosine: the sine shifted a quarter period.
pub open spec fn fx_cos_v(a: int) -> int {
    fx_sin_v(fx_add_v(a, FX_HALF_PI as int))
}

/// Saturating sigmoid `x (27 + x^2) / (27 + 9 x^2)`, clamped into `[-1, 1]`.
pub open spec fn fx_sigmoid_v(a: int) -> int {
    let x2 = fx_mul_v(a, a);
    let num = fx_mul_v(a, fx_add_v(FX_27 as int, x2));
    let den = fx_add_v(FX_27 as int, fx_mul_v(FX_9 as int, x2));
    fx_clamp_v(fx_div_v(num, den), -(FX_ONE as int), FX_ONE as int)
}

/// First-octant arctangent of a ratio in `[0, 1]`:
/// `q * (pi/4 + 0.273 * (1 - q))`.
pub open spec fn atan01_v(q: int) -> int {
    fx_mul_v(
        q,
        fx_add_v(
            FX_QUARTER_PI as int,
            fx_mul_v(FX_ATAN_K as int, fx_sub_v(FX_ONE as int, q)),
        ),
    )
}

/// Fixed-point two-argument arctangent, by octant reduction; zero when both
/// arguments are zero.
pub open spec fn fx_atan2_v(y: int, x: int) -> int {
    if y == 0 && x == 0 {
        0
    } else {
        let ay = fx_abs_v(y);
        let ax = fx_abs_v(x);
        let core = if ay <= ax {
            atan01_v(fx_div_v(ay, ax))
        } else {
            fx_sub_v(FX_HALF_PI as int, atan01_v(fx_div_v(ax, ay)))
        };
        let quad = if x >= 0 {
            core
        } else {
            fx_sub_v(FX_PI as int, core)
        };
        if y >= 0 {
            quad
        } else {
            fx_neg_v(quad)
        }
    }
}

fn sin_parab(x: Fx) -> (r: Fx)
    ensures
        r@ == sin_parab_v(x@),
{
    x.sat_mul(Fx::from_bits(FX_PI).sat_sub(x)).sat_mul(Fx::from_bits(FX_4_OVER_PI_SQ))
}

/// Fixed-point sine; always within `[-1, 1]`.
pub fn fx_sin(a: Fx) -> (r: Fx)
    ensures
        r@ == fx_sin_v(a@),
        -(FX_ONE as int) <= r@ <= FX_ONE as int,
{
    let pi = Fx::from_bits(FX_PI);
    let x = a.rem_euclid(Fx::from_bits(FX_TWO_PI));
    let raw = if x.fx_lt(pi) {
        sin_parab(x)
    } else {
        sin_parab(x.sat_sub(pi)).sat_neg()
    };
    let one = Fx::one();
    raw.fx_clamp(one.sat_neg(), one)
}

/// Fixed-point cosine; always within `[-1, 1]`.
pub fn fx_cos(a: Fx) -> (r: Fx)
    ensures
        r@ == fx_cos_v(a@),
        -(FX_ONE as int) <= r@ <= FX_ONE as int,
{
    fx_sin(a.sat_add(Fx::from_bits(FX_HALF_PI)))
}

/// Saturating sigmoid; always within `[-1, 1]`.
pub fn fx_sigmoid(a: Fx) -> (r: Fx)
    ensures
        r@ == fx_sigmoid_v(a@),
        -(FX_ONE as int) <= r@ <= FX_ONE as int,
{
    let x2 = a.sat_mul(a);
    proof {
        lemma_fx_square_nonneg(a@);
        lemma_fx_mul_nonneg(FX_9 as int, x2@);
    }
    let k27 = Fx::from_bits(FX_27);
    let num = a.sat_mul(k27.sat_add(x2));
    let den = k27.sat_add(Fx::from_bits(FX_9).sat_mul(x2));
    let one = Fx::one();
    num.sat_div(den).fx_clamp(one.sat_neg(), one)
}

fn atan01(q: Fx) -> (r: Fx)
    ensures
        r@ == atan01_v(q@),
{
    q.sat_mul(
        Fx::from_bits(FX_QUARTER_PI).sat_add(
            Fx::from_bits(FX_ATAN_K).sat_mul(Fx::one().sat_sub(q)),
        ),
    )
}

/// Fixed-point two-argument arctangent of `y` over `x`.
pub fn fx_atan2(y: Fx, x: Fx) -> (r: Fx)
    ensures
        r@ == fx_atan2_v(y@, x@),
{
    let zero = Fx::zero();
    if y.to_bits() == 0 && x.to_bits() == 0 {
        return zero;
    }
    let ay = y.sat_abs();
    let ax = x.sat_abs();
    let core = if ay.fx_le(ax) {
        atan01(ay.sat_div(ax))
    } else {
        Fx::from_bits(FX_HALF_PI).sat_sub(atan01(ax.sat_div(ay)))
    };
    let quad = if !x.is_neg() {
        core
    } else {
        Fx::from_bits(FX_PI).sat_sub(core)
    };
    if !y.is_neg() {
        quad
    } else {
        quad.sat_neg()
    }
}

} // verus!
