//! Signed 16.16 fixed-point scalars with saturating arithmetic.
//!
//! A real number `r` is represented by `bits == r * 65536`, truncated toward
//! zero. Every operation widens internally, truncates its mathematical result
//! toward zero where it divides, and saturates to `[-FX_SAT, FX_SAT]`, so no
//! operation panics or wraps. The spec functions below state each operation
//! exactly over mathematical integers.

use vstd::prelude::*;
use vstd::arithmetic::div_mod::{
    lemma_fundamental_div_mod, lemma_fundamental_div_mod_converse, lemma_div_multiples_vanish,
};
use vstd::arithmetic::mul::lemma_mul_upper_bound;

verus! {

/// Number of bits units per real unit: the representation of 1.0.
pub const FX_ONE: i64 = 65536;

/// Saturation bound: every `Fx` holds bits in `[-FX_SAT, FX_SAT]`.
pub const FX_SAT: i64 = 0x7fff_ffff_ffff_ffff;

/// Absolute value of a mathematical integer.
pub open spec fn iabs(a: int) -> int {
    if a >= 0 {
        a
    } else {
        -a
    }
}

/// Saturation of a mathematical integer to the representable range.
pub open spec fn clip(a: int) -> int {
    if a > FX_SAT as int {
        FX_SAT as int
    } else if a < -(FX_SAT as int) {
        -(FX_SAT as int)
    } else {
        a
    }
}

pub open spec fn fx_add_v(a: int, b: int) -> int {
    clip(a + b)
}

pub open spec fn fx_sub_v(a: int, b: int) -> int {
    clip(a - b)
}

pub open spec fn fx_neg_v(a: int) -> int {
    clip(-a)
}

pub open spec fn fx_abs_v(a: int) -> int {
    clip(iabs(a))
}

/// Fixed-point product: the integer product rescaled by one unit,
/// truncated toward zero, then saturated.
pub open spec fn fx_mul_v(a: int, b: int) -> int {
    let q = (iabs(a) * iabs(b)) / (FX_ONE as int);
    if (a < 0) != (b < 0) {
        clip(-q)
    } else {
        clip(q)
    }
}

/// Fixed-point quotient (for `b != 0`): the dividend is pre-scaled by one
/// unit, the quotient truncated toward zero, then saturated.
pub open spec fn fx_div_v(a: int, b: int) -> int {
    let q = (iabs(a) * (FX_ONE as int)) / iabs(b);
    if (a < 0) != (b < 0) {
        clip(-q)
    } else {
        clip(q)
    }
}

pub open spec fn fx_min_v(a: int, b: int) -> int {
    if a <= b {
        a
    } else {
        b
    }
}

pub open spec fn fx_max_v(a: int, b: int) -> int {
    if a >= b {
        a
    } else {
        b
    }
}

pub open spec fn fx_clamp_v(a: int, lo: int, hi: int) -> int {
    if a < lo {
        lo
    } else if a > hi {
        hi
    } else {
        a
    }
}

/// Linear interpolation `a + t * (b - a)` over the saturating operations.
pub open spec fn fx_lerp_v(a: int, b: int, t: int) -> int {
    fx_add_v(a, fx_mul_v(t, fx_sub_v(b, a)))
}

/// The largest lattice integer at or below the represented value
/// (mathematical floor of `a / 65536`).
pub open spec fn fx_floor_units_v(a: int) -> int {
    a / (FX_ONE as int)
}

/// The fractional part `a - 65536 * floor(a / 65536)`, always in `[0, 65536)`.
pub open spec fn fx_fract_v(a: int) -> int {
    a % (FX_ONE as int)
}

/// Integer square root, defined by counting up; characterized exactly by
/// [`lemma_isqrt_bounds`] and [`lemma_isqrt_unique`].
pub open spec fn isqrt_v(n: nat) -> nat
    decreases n,
{
    if n == 0 {
        0
    } else {
        let p = isqrt_v((n - 1) as nat);
        if (p + 1) * (p + 1) <= n {
            (p + 1) as nat
        } else {
            p
        }
    }
}

/// Fixed-point square root of a non-negative value: the integer square root
/// of the value rescaled by one unit.
pub open spec fn fx_sqrt_v(a: int) -> int {
    isqrt_v((a * (FX_ONE as int)) as nat) as int
}

pub proof fn lemma_isqrt_bounds(n: nat)
    ensures
        isqrt_v(n) * isqrt_v(n) <= n,
        n < (isqrt_v(n) + 1) * (isqrt_v(n) + 1),
    decreases n,
{
    if n == 0 {
        assert(isqrt_v(n) == 0);
        assert(n < (isqrt_v(n) + 1) * (isqrt_v(n) + 1)) by (nonlinear_arith)
            requires n == 0, isqrt_v(n) == 0;
    } else {
        lemma_isqrt_bounds((n - 1) as nat);
        let p = isqrt_v((n - 1) as nat);
        if (p + 1) * (p + 1) <= n {
            assert(isqrt_v(n) == p + 1);
            assert(n <= (p + 1) * (p + 1));
            assert(isqrt_v(n) * isqrt_v(n) <= n) by (nonlinear_arith)
                requires isqrt_v(n) == p + 1, (p + 1) * (p + 1) <= n, p >= 0;
            assert(n < (isqrt_v(n) + 1) * (isqrt_v(n) + 1)) by (nonlinear_arith)
                requires isqrt_v(n) == p + 1, n <= (p + 1) * (p + 1), p >= 0;
        } else {
            assert(isqrt_v(n) == p);
            assert(p * p <= n);
            assert(isqrt_v(n) * isqrt_v(n) <= n) by (nonlinear_arith)
                requires isqrt_v(n) == p, p * p <= n;
            assert(n < (isqrt_v(n) + 1) * (isqrt_v(n) + 1)) by (nonlinear_arith)
                requires isqrt_v(n) == p, n < (p + 1) * (p + 1);
        }
    }
}

pub proof fn lemma_isqrt_unique(n: nat, r: nat)
    requires
        r * r <= n,
        n < (r + 1) * (r + 1),
    ensures
        r == isqrt_v(n),
{
    lemma_isqrt_bounds(n);
    let s = isqrt_v(n);
    if r < s {
        assert((r + 1) * (r + 1) <= s * s) by (nonlinear_arith)
            requires 0 <= r, r < s;
        assert(false);
    }
    if s < r {
        assert((s + 1) * (s + 1) <= r * r) by (nonlinear_arith)
            requires 0 <= s, s < r;
        assert(false);
    }
}

/// Multiplying by exactly one is the identity, and multiplying by zero
/// gives zero, on every representable value.
pub proof fn lemma_fx_mul_one(a: int)
    requires
        -(FX_SAT as int) <= a <= FX_SAT as int,
    ensures
        fx_mul_v(a, FX_ONE as int) == a,
        fx_mul_v(FX_ONE as int, a) == a,
        fx_mul_v(a, 0) == 0,
        fx_mul_v(0, a) == 0,
{
    lemma_div_multiples_vanish(iabs(a), FX_ONE as int);
    assert(iabs(a) * (FX_ONE as int) == (FX_ONE as int) * iabs(a)) by (nonlinear_arith);
    assert(iabs(a) * 0 == 0) by (nonlinear_arith);
    assert(0 * iabs(a) == 0) by (nonlinear_arith);
}

/// The ghost image of a scalar sequence: the view of each element.
pub open spec fn fx_seq_view(s: Seq<Fx>) -> Seq<int> {
    s.map_values(|f: Fx| f@)
}

/// A signed 16.16 fixed-point scalar.
#[derive(Clone, Copy, PartialEq, Eq, Structural, Debug)]
pub struct Fx {
    bits: i64,
}

impl View for Fx {
    type V = int;

    closed spec fn view(&self) -> int {
        self.bits as int
    }
}

/// Saturate an `i128` into the `Fx` bit range.
fn clip_i128(x: i128) -> (r: i64)
    ensures
        r as int == clip(x as int),
{
    if x > FX_SAT as i128 {
        FX_SAT
    } else if x < -(FX_SAT as i128) {
        -FX_SAT
    } else {
        x as i64
    }
}

/// Magnitude of an `i64` as an unsigned value (total, also at `i64::MIN`).
fn mag_i64(x: i64) -> (m: u64)
    ensures
        m as int == iabs(x as int),
{
    if x >= 0 {
        x as u64
    } else {
        (-(x as i128)) as u64
    }
}

/// Reapply a sign to an unsigned magnitude and saturate.
fn sign_clip(q: u128, neg: bool) -> (r: i64)
    ensures
        r as int == if neg { clip(-(q as int)) } else { clip(q as int) },
{
    if q > FX_SAT as u128 {
        if neg {
            -FX_SAT
        } else {
            FX_SAT
        }
    } else if neg {
        -(q as i64)
    } else {
        q as i64
    }
}

/// Integer square root by binary search.
fn isqrt_u128(n: u128) -> (r: u128)
    requires
        n < 0x40000_0000_0000_0000_0000,  // 2^82
    ensures
        r * r <= n as int,
        n < (r + 1) * (r + 1),
{
    let mut lo: u128 = 0;
    let mut hi: u128 = 0x200_0000_0000;  // 2^41, and 2^41 squared is 2^82
    while lo < hi
        invariant
            lo <= hi,
            hi <= 0x200_0000_0000,
            lo * lo <= n as int,
            n < (hi + 1) * (hi + 1),
        decreases hi - lo,
    {
        let mid: u128 = lo + (hi - lo + 1) / 2;
        proof {
            lemma_mul_upper_bound(mid as int, 0x200_0000_0000, mid as int, 0x200_0000_0000);
        }
        if mid * mid <= n {
            lo = mid;
        } else {
            hi = mid - 1;
        }
    }
    lo
}

impl Fx {
    /// The value zero.
    pub fn zero() -> (r: Fx)
        ensures
            r@ == 0,
    {
        Fx { bits: 0 }
    }

    /// The value one.
    pub fn one() -> (r: Fx)
        ensures
            r@ == FX_ONE as int,
    {
        Fx { bits: FX_ONE }
    }

    /// Raw bits accessor; the view of an `Fx` is exactly its bits.
    pub fn to_bits(self) -> (r: i64)
        ensures
            r as int == self@,
    {
        self.bits
    }

    /// Build from raw bits, saturating `i64::MIN` to the symmetric range.
    pub fn from_bits(b: i64) -> (r: Fx)
        ensures
            r@ == clip(b as int),
    {
        if b == i64::MIN {
            Fx { bits: -FX_SAT }
        } else {
            Fx { bits: b }
        }
    }

    /// Build from a whole number of units.
    pub fn from_int(i: i64) -> (r: Fx)
        ensures
            r@ == clip(i * (FX_ONE as int)),
    {
        Fx { bits: clip_i128((i as i128) * 65536) }
    }

    pub fn is_neg(self) -> (r: bool)
        ensures
            r == (self@ < 0),
    {
        self.bits < 0
    }

    pub fn fx_lt(self, o: Fx) -> (r: bool)
        ensures
            r == (self@ < o@),
    {
        self.bits < o.bits
    }

    pub fn fx_le(self, o: Fx) -> (r: bool)
        ensures
            r == (self@ <= o@),
    {
        self.bits <= o.bits
    }

    pub fn sat_add(self, o: Fx) -> (r: Fx)
        ensures
            r@ == fx_add_v(self@, o@),
    {
        Fx { bits: clip_i128(self.bits as i128 + o.bits as i128) }
    }

    pub fn sat_sub(self, o: Fx) -> (r: Fx)
        ensures
            r@ == fx_sub_v(self@, o@),
    {
        Fx { bits: clip_i128(self.bits as i128 - o.bits as i128) }
    }

    pub fn sat_neg(self) -> (r: Fx)
        ensures
            r@ == fx_neg_v(self@),
    {
        Fx { bits: clip_i128(-(self.bits as i128)) }
    }

    pub fn sat_abs(self) -> (r: Fx)
        ensures
            r@ == fx_abs_v(self@),
    {
        if self.bits < 0 {
            Fx { bits: clip_i128(-(self.bits as i128)) }
        } else {
            self
        }
    }

    pub fn sat_mul(self, o: Fx) -> (r: Fx)
        ensures
            r@ == fx_mul_v(self@, o@),
    {
        let ma = mag_i64(self.bits);
        let mb = mag_i64(o.bits);
        proof {
            lemma_mul_upper_bound(
                ma as int,
                0x8000_0000_0000_0000,
                mb as int,
                0x8000_0000_0000_0000,
            );
        }
        let q: u128 = ((ma as u128) * (mb as u128)) / (FX_ONE as u128);
        let neg = (self.bits < 0) != (o.bits < 0);
        Fx { bits: sign_clip(q, neg) }
    }

    pub fn sat_div(self, o: Fx) -> (r: Fx)
        requires
            o@ != 0,
        ensures
            r@ == fx_div_v(self@, o@),
    {
        let ma = mag_i64(self.bits);
        let mb = mag_i64(o.bits);
        let q: u128 = ((ma as u128) * (FX_ONE as u128)) / (mb as u128);
        let neg = (self.bits < 0) != (o.bits < 0);
        Fx { bits: sign_clip(q, neg) }
    }

    pub fn fx_min(self, o: Fx) -> (r: Fx)
        ensures
            r@ == fx_min_v(self@, o@),
    {
        if self.bits <= o.bits {
            self
        } else {
            o
        }
    }

    pub fn fx_max(self, o: Fx) -> (r: Fx)
        ensures
            r@ == fx_max_v(self@, o@),
    {
        if self.bits >= o.bits {
            self
        } else {
            o
        }
    }

    pub fn fx_clamp(self, lo: Fx, hi: Fx) -> (r: Fx)
        ensures
            r@ == fx_clamp_v(self@, lo@, hi@),
    {
        if self.bits < lo.bits {
            lo
        } else if self.bits > hi.bits {
            hi
        } else {
            self
        }
    }

    /// Mathematical floor of the represented value, as a lattice integer.
    pub fn floor_units(self) -> (r: i64)
        ensures
            r as int == fx_floor_units_v(self@),
            -0x8000_0000_0000 <= r <= 0x8000_0000_0000,
    {
        if self.bits >= 0 {
            ((self.bits as u64) / (FX_ONE as u64)) as i64
        } else {
            let m = mag_i64(self.bits);
            let q = m / (FX_ONE as u64);
            let rem = m % (FX_ONE as u64);
            proof {
                lemma_fundamental_div_mod(m as int, FX_ONE as int);
                if rem == 0 {
                    lemma_fundamental_div_mod_converse(
                        self.bits as int, FX_ONE as int, -(q as int), 0);
                } else {
                    lemma_fundamental_div_mod_converse(
                        self.bits as int,
                        FX_ONE as int,
                        -(q as int) - 1,
                        (FX_ONE as int) - (rem as int),
                    );
                }
            }
            if rem == 0 {
                -(q as i64)
            } else {
                -(q as i64) - 1
            }
        }
    }

    /// Fractional bits of the represented value, in `[0, 65536)`.
    pub fn fract_part(self) -> (r: Fx)
        ensures
            r@ == fx_fract_v(self@),
            0 <= r@ < FX_ONE as int,
    {
        if self.bits >= 0 {
            Fx { bits: ((self.bits as u64) % (FX_ONE as u64)) as i64 }
        } else {
            let m = mag_i64(self.bits);
            let q = m / (FX_ONE as u64);
            let rem = m % (FX_ONE as u64);
            proof {
                lemma_fundamental_div_mod(m as int, FX_ONE as int);
                if rem == 0 {
                    lemma_fundamental_div_mod_converse(
                        self.bits as int, FX_ONE as int, -(q as int), 0);
                } else {
                    lemma_fundamental_div_mod_converse(
                        self.bits as int,
                        FX_ONE as int,
                        -(q as int) - 1,
                        (FX_ONE as int) - (rem as int),
                    );
                }
            }
            if rem == 0 {
                Fx { bits: 0 }
            } else {
                Fx { bits: FX_ONE - (rem as i64) }
            }
        }
    }

    /// Euclidean remainder by a positive modulus: the result is in `[0, m)`.
    pub fn rem_euclid(self, m: Fx) -> (r: Fx)
        requires
            m@ > 0,
        ensures
            r@ == self@ % m@,
            0 <= r@ < m@,
    {
        let md = m.bits as u64;
        if self.bits >= 0 {
            Fx { bits: ((self.bits as u64) % md) as i64 }
        } else {
            let mg = mag_i64(self.bits);
            let q = mg / md;
            let rem = mg % md;
            proof {
                let qi = q as int;
                let mdi = md as int;
                lemma_fundamental_div_mod(mg as int, mdi);
                assert(mg as int == mdi * qi + rem as int);
                if rem == 0 {
                    assert((-qi) * mdi == -(mdi * qi)) by (nonlinear_arith);
                    lemma_fundamental_div_mod_converse(self.bits as int, mdi, -qi, 0);
                } else {
                    assert((-qi - 1) * mdi == -(mdi * qi) - mdi) by (nonlinear_arith);
                    lemma_fundamental_div_mod_converse(
                        self.bits as int,
                        mdi,
                        -qi - 1,
                        mdi - rem as int,
                    );
                }
            }
            if rem == 0 {
                Fx { bits: 0 }
            } else {
                Fx { bits: (md - rem) as i64 }
            }
        }
    }

    /// Fixed-point square root of a non-negative value.
    pub fn fx_sqrt(self) -> (r: Fx)
        requires
            self@ >= 0,
        ensures
            r@ == fx_sqrt_v(self@),
            r@ >= 0,
    {
        let n: u128 = (self.bits as u128) * (FX_ONE as u128);
        let s = isqrt_u128(n);
        proof {
            lemma_isqrt_unique(n as nat, s as nat);
            assert(s < 0x100_0000_0000) by (nonlinear_arith)
                requires s * s <= n as int, n < 0x10000_0000_0000_0000_0000;  // 2^80
        }
        Fx { bits: s as i64 }
    }
}

/// Linear interpolation `a + t * (b - a)`.
pub fn fx_lerp(a: Fx, b: Fx, t: Fx) -> (r: Fx)
    ensures
        r@ == fx_lerp_v(a@, b@, t@),
{
    a.sat_add(t.sat_mul(b.sat_sub(a)))
}

} // verus!
