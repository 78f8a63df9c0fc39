//! Exact fixed-point scalars.
//!
//! The renderer's real-valued coordinates are carried as 64-bit fixed-point
//! numbers with 32 fractional bits: a [`Fixed`] with raw value `r` stands for
//! the real number `r / 2^32`. Multiplication and division round toward zero
//! and every operation saturates at the `i64` range, so each operation is a
//! total, exactly specified function of its operands.

use vstd::prelude::*;

verus! {

/// Raw value of the scalar one: `2^32`.
pub const FP_ONE: i64 = 0x1_0000_0000;

/// A fixed-point scalar; the value represented is `raw / 2^32`.
#[derive(Clone, Copy, Debug, PartialEq, Eq, Structural)]
pub struct Fixed {
    pub raw: i64,
}

/// Clamps an unbounded integer into the `i64` range.
pub open spec fn sat64(x: int) -> int {
    if x > i64::MAX as int {
        i64::MAX as int
    } else if x < i64::MIN as int {
        i64::MIN as int
    } else {
        x
    }
}

/// Integer division rounding toward zero (the divisor must not be 0).
pub open spec fn rtz_div(p: int, q: int) -> int {
    let m = (if p >= 0 { p } else { -p }) / (if q >= 0 { q } else { -q });
    if (p >= 0) == (q >= 0) {
        m
    } else {
        -m
    }
}

/// Clamps an `i128` intermediate into the `i64` range.
fn sat_from_i128(x: i128) -> (r: i64)
    ensures
        r as int == sat64(x as int),
{
    if x > i64::MAX as i128 {
        i64::MAX
    } else if x < i64::MIN as i128 {
        i64::MIN
    } else {
        x as i64
    }
}

impl Fixed {
    /// The scalar zero.
    pub fn zero() -> (r: Fixed)
        ensures
            r == (Fixed { raw: 0i64 }),
    {
        Fixed { raw: 0 }
    }

    /// The scalar one.
    pub fn one() -> (r: Fixed)
        ensures
            r == (Fixed { raw: FP_ONE }),
    {
        Fixed { raw: FP_ONE }
    }

    /// The value of an integer, clamped into the representable range.
    pub open spec fn spec_from_int(v: int) -> Fixed {
        Fixed { raw: sat64(v * FP_ONE) as i64 }
    }

    /// Converts a small signed integer exactly.
    pub fn from_i32(v: i32) -> (r: Fixed)
        ensures
            r == Self::spec_from_int(v as int),
    {
        let w: i128 = v as i128;
        proof {
            lemma_small_times_one(w as int);
        }
        Fixed { raw: sat_from_i128(w * (FP_ONE as i128)) }
    }

    /// Converts a small unsigned integer (a pixel size, a tile index).
    pub fn from_u32(v: u32) -> (r: Fixed)
        ensures
            r == Self::spec_from_int(v as int),
    {
        let w: i128 = v as i128;
        proof {
            lemma_small_times_one(w as int);
        }
        Fixed { raw: sat_from_i128(w * (FP_ONE as i128)) }
    }

    /// Saturating addition.
    pub open spec fn spec_add(a: Fixed, b: Fixed) -> Fixed {
        Fixed { raw: sat64(a.raw + b.raw) as i64 }
    }

    pub fn add(self, o: Fixed) -> (r: Fixed)
        ensures
            r == Self::spec_add(self, o),
    {
        Fixed { raw: sat_from_i128(self.raw as i128 + o.raw as i128) }
    }

    /// Saturating subtraction.
    pub open spec fn spec_sub(a: Fixed, b: Fixed) -> Fixed {
        Fixed { raw: sat64(a.raw - b.raw) as i64 }
    }

    pub fn sub(self, o: Fixed) -> (r: Fixed)
        ensures
            r == Self::spec_sub(self, o),
    {
        Fixed { raw: sat_from_i128(self.raw as i128 - o.raw as i128) }
    }

    /// Saturating negation.
    pub open spec fn spec_neg(a: Fixed) -> Fixed {
        Fixed { raw: sat64(-a.raw) as i64 }
    }

    pub fn neg(self) -> (r: Fixed)
        ensures
            r == Self::spec_neg(self),
    {
        Fixed { raw: sat_from_i128(-(self.raw as i128)) }
    }

    /// Saturating multiplication; the product's extra fractional bits are
    /// dropped toward zero.
    pub open spec fn spec_mul(a: Fixed, b: Fixed) -> Fixed {
        Fixed { raw: sat64(rtz_div(a.raw * b.raw, FP_ONE as int)) as i64 }
    }

    pub fn mul(self, o: Fixed) -> (r: Fixed)
        ensures
            r == Self::spec_mul(self, o),
    {
        let a: i128 = self.raw as i128;
        let b: i128 = o.raw as i128;
        proof {
            assert(a * b <= 0x4000_0000_0000_0000_0000_0000_0000_0000int
                && a * b >= -0x4000_0000_0000_0000_0000_0000_0000_0000int) by (nonlinear_arith)
                requires
                    -0x8000_0000_0000_0000i128 <= a <= 0x7fff_ffff_ffff_ffffi128,
                    -0x8000_0000_0000_0000i128 <= b <= 0x7fff_ffff_ffff_ffffi128,
            ;
        }
        let p: i128 = a * b;
        let q: Option<i128> = p.checked_div(FP_ONE as i128);
        proof {
            lemma_rtz_in_range(p as int, FP_ONE as int);
        }
        Fixed { raw: sat_from_i128(q.unwrap()) }
    }

    /// Saturating division, rounding toward zero.
    pub open spec fn spec_div(a: Fixed, b: Fixed) -> Fixed {
        Fixed { raw: sat64(rtz_div(a.raw * FP_ONE, b.raw as int)) as i64 }
    }

    pub fn div(self, o: Fixed) -> (r: Fixed)
        requires
            o.raw != 0,
        ensures
            r == Self::spec_div(self, o),
    {
        let w: i128 = self.raw as i128;
        proof {
            lemma_small_times_one(w as int);
        }
        let p: i128 = w * (FP_ONE as i128);
        let q: Option<i128> = p.checked_div(o.raw as i128);
        proof {
            lemma_rtz_in_range(p as int, o.raw as int);
        }
        Fixed { raw: sat_from_i128(q.unwrap()) }
    }

    /// Rounding down to the nearest integer value.
    pub open spec fn spec_floor(a: Fixed) -> Fixed {
        Fixed { raw: ((a.raw as int / FP_ONE as int) * FP_ONE) as i64 }
    }

    /// Floor of a non-negative scalar (the only case the mesher needs).
    pub fn floor(self) -> (r: Fixed)
        requires
            self.raw >= 0,
        ensures
            r == Self::spec_floor(self),
    {
        let ru: u64 = self.raw as u64;
        let q: u64 = ru / (FP_ONE as u64);
        proof {
            vstd::arithmetic::div_mod::lemma_fundamental_div_mod(ru as int, FP_ONE as int);
            vstd::arithmetic::div_mod::lemma_mod_bound(ru as int, FP_ONE as int);
            assert(q * (FP_ONE as u64) <= ru);
        }
        Fixed { raw: (q * (FP_ONE as u64)) as i64 }
    }
}

/// The product of non-negative scalars is non-negative.
pub proof fn lemma_mul_nonneg(a: Fixed, b: Fixed)
    requires
        a.raw >= 0,
        b.raw >= 0,
    ensures
        Fixed::spec_mul(a, b).raw >= 0,
{
    assert(a.raw * b.raw >= 0) by (nonlinear_arith)
        requires
            a.raw >= 0,
            b.raw >= 0,
    ;
    vstd::arithmetic::div_mod::lemma_div_pos_is_pos(a.raw * b.raw, FP_ONE as int);
}

/// The quotient of a non-negative scalar by a positive one is non-negative.
pub proof fn lemma_div_nonneg(a: Fixed, b: Fixed)
    requires
        a.raw >= 0,
        b.raw > 0,
    ensures
        Fixed::spec_div(a, b).raw >= 0,
{
    vstd::arithmetic::div_mod::lemma_div_pos_is_pos(a.raw * (FP_ONE as int), b.raw as int);
}

/// Conversion of a non-negative integer gives a non-negative scalar, and a
/// positive integer a scalar of at least one.
pub proof fn lemma_from_int_nonneg(v: int)
    requires
        v >= 0,
    ensures
        Fixed::spec_from_int(v).raw >= 0,
        v >= 1 ==> Fixed::spec_from_int(v).raw >= FP_ONE,
{
    assert(v * (FP_ONE as int) >= 0 && (v >= 1 ==> v * (FP_ONE as int) >= FP_ONE as int))
        by (nonlinear_arith)
        requires
            v >= 0,
    ;
}

/// Multiplying an `i64`-range value by the raw one keeps the product well
/// inside the `i128` range.
proof fn lemma_small_times_one(w: int)
    requires
        -0x1_0000_0000_0000_0000 <= w <= 0x1_0000_0000_0000_0000,
    ensures
        -0x4000_0000_0000_0000_0000_0000_0000_0000 <= w * (FP_ONE as int)
            <= 0x4000_0000_0000_0000_0000_0000_0000_0000,
{
    assert(-0x4000_0000_0000_0000_0000_0000_0000_0000 <= w * 0x1_0000_0000
        <= 0x4000_0000_0000_0000_0000_0000_0000_0000) by (nonlinear_arith)
        requires
            -0x1_0000_0000_0000_0000 <= w <= 0x1_0000_0000_0000_0000,
    ;
}

/// Truncating division of a bounded dividend stays in bounds, so
/// `checked_div` by a non-zero divisor returns a value, and that value is
/// exactly division rounded toward zero.
proof fn lemma_rtz_in_range(p: int, d: int)
    requires
        d != 0,
        -0x4000_0000_0000_0000_0000_0000_0000_0000 <= p
            <= 0x4000_0000_0000_0000_0000_0000_0000_0000,
    ensures
        i128::MIN as int <= rtz_div(p, d) <= i128::MAX as int,
{
    let pa = if p >= 0 { p } else { -p };
    let da = if d >= 0 { d } else { -d };
    assert(da >= 1);
    vstd::arithmetic::div_mod::lemma_div_nonincreasing(pa, da);
    assert(pa / da <= pa);
    vstd::arithmetic::div_mod::lemma_div_pos_is_pos(pa, da);
}

} // verus!
