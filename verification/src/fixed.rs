//! Signed fixed-point scalars with 32 fractional bits.
//!
//! A `Fixed` holds `bits`, and stands for the real number `bits / 2^32`.
//! Every operation is defined exactly over the bit representation:
//! products are truncated toward zero at the 32nd fractional bit, and
//! results outside the `i64` range saturate. The contracts below state
//! those bit-level semantics, so callers can reason about a computation
//! down to the last bit.

use vstd::prelude::*;

verus! {

/// The representation of 1.0: one shifted left by the 32 fractional bits.
pub const FX_ONE_BITS: i64 = 0x1_0000_0000;

/// Clamp a mathematical integer into the `i64` range.
pub open spec fn fx_sat(x: int) -> int {
    if x > i64::MAX as int {
        i64::MAX as int
    } else if x < i64::MIN as int {
        i64::MIN as int
    } else {
        x
    }
}

/// Division truncated toward zero, the rounding of Rust's integer `/`.
pub open spec fn fx_tdiv(a: int, b: int) -> int {
    if a >= 0 {
        a / b
    } else {
        -((-a) / b)
    }
}

/// The bits of the sum of two fixed-point values.
pub open spec fn fx_add_bits(a: int, b: int) -> int {
    fx_sat(a + b)
}

/// The bits of the difference of two fixed-point values.
pub open spec fn fx_sub_bits(a: int, b: int) -> int {
    fx_sat(a - b)
}

/// The bits of the product of two fixed-point values: the full product
/// carries 64 fractional bits, 32 of which are truncated away.
pub open spec fn fx_mul_bits(a: int, b: int) -> int {
    fx_sat(fx_tdiv(a * b, FX_ONE_BITS as int))
}

/// A real number represented as `bits / 2^32`.
#[derive(Clone, Copy, PartialEq, Eq, Structural, Debug)]
pub struct Fixed {
    pub bits: i64,
}

proof fn lemma_i64_product_in_i128(a: int, b: int)
    requires
        i64::MIN as int <= a <= i64::MAX as int,
        i64::MIN as int <= b <= i64::MAX as int,
    ensures
        -0x40000000000000000000000000000000 <= a * b
            <= 0x40000000000000000000000000000000,
{
    assert(-0x40000000000000000000000000000000 <= a * b
        <= 0x40000000000000000000000000000000) by (nonlinear_arith)
        requires
            -0x8000000000000000 <= a <= 0x7fffffffffffffff,
            -0x8000000000000000 <= b <= 0x7fffffffffffffff,
    ;
}

/// Truncating division on `i128`, implemented over magnitudes because the
/// result must match `fx_tdiv` exactly.
pub(crate) fn tdiv_i128(a: i128, b: i128) -> (q: i128)
    requires
        b > 0,
        a > i128::MIN,
    ensures
        q == fx_tdiv(a as int, b as int),
{
    if a >= 0 {
        let ua: u128 = a as u128;
        let ub: u128 = b as u128;
        let uq: u128 = ua / ub;
        proof {
            assert(uq <= ua) by (nonlinear_arith)
                requires
                    uq == ua / ub,
                    ub >= 1,
            ;
        }
        uq as i128
    } else {
        let ua: u128 = (-a) as u128;
        let ub: u128 = b as u128;
        let uq: u128 = ua / ub;
        proof {
            assert(uq <= ua) by (nonlinear_arith)
                requires
                    uq == ua / ub,
                    ub >= 1,
            ;
        }
        -(uq as i128)
    }
}

/// Clamp an `i128` into `i64`, matching `fx_sat`.
pub(crate) fn sat_to_i64(x: i128) -> (r: i64)
    ensures
        r as int == fx_sat(x as int),
{
    if x > i64::MAX as i128 {
        i64::MAX
    } else if x < i64::MIN as i128 {
        i64::MIN
    } else {
        x as i64
    }
}

impl Fixed {
    /// The value whose representation is exactly `bits`.
    pub fn from_bits(bits: i64) -> (r: Fixed)
        ensures
            r.bits == bits,
    {
        Fixed { bits }
    }

    /// The fixed-point image of a small integer.
    pub fn from_int(n: i32) -> (r: Fixed)
        ensures
            r.bits as int == n as int * FX_ONE_BITS as int,
    {
        Fixed { bits: (n as i64) * FX_ONE_BITS }
    }

    /// Componentwise saturating sum.
    pub fn add(self, other: Fixed) -> (r: Fixed)
        ensures
            r.bits as int == fx_add_bits(self.bits as int, other.bits as int),
    {
        let s: i128 = self.bits as i128 + other.bits as i128;
        Fixed { bits: sat_to_i64(s) }
    }

    /// Saturating difference.
    pub fn sub(self, other: Fixed) -> (r: Fixed)
        ensures
            r.bits as int == fx_sub_bits(self.bits as int, other.bits as int),
    {
        let s: i128 = self.bits as i128 - other.bits as i128;
        Fixed { bits: sat_to_i64(s) }
    }

    /// Truncating, saturating product.
    pub fn mul(self, other: Fixed) -> (r: Fixed)
        ensures
            r.bits as int == fx_mul_bits(self.bits as int, other.bits as int),
    {
        let a: i128 = self.bits as i128;
        let b: i128 = other.bits as i128;
        proof {
            lemma_i64_product_in_i128(self.bits as int, other.bits as int);
        }
        let p: i128 = a * b;
        let q: i128 = tdiv_i128(p, FX_ONE_BITS as i128);
        Fixed { bits: sat_to_i64(q) }
    }
}

} // verus!
