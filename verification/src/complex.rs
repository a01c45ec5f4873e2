//! Complex numbers over fixed-point reals, limited to what the
//! escape-time iteration needs: sum, product, square and squared
//! magnitude. All operations are pure and return new values.
//!
//! Divergence tests compare the squared magnitude against the squared
//! escape radius, which is equivalent to comparing magnitudes for
//! non-negative radii and avoids a square root.

use vstd::prelude::*;
use crate::fixed::{Fixed, fx_add_bits, fx_mul_bits, fx_sub_bits};

verus! {

/// Real part of the complex product `(ar + ai*i) * (br + bi*i)`.
pub open spec fn complex_mul_re(ar: int, ai: int, br: int, bi: int) -> int {
    fx_sub_bits(fx_mul_bits(ar, br), fx_mul_bits(ai, bi))
}

/// Imaginary part of the complex product.
pub open spec fn complex_mul_im(ar: int, ai: int, br: int, bi: int) -> int {
    fx_add_bits(fx_mul_bits(ar, bi), fx_mul_bits(ai, br))
}

/// Squared magnitude `re*re + im*im` over the bit representation.
pub open spec fn complex_norm_squared(re: int, im: int) -> int {
    fx_add_bits(fx_mul_bits(re, re), fx_mul_bits(im, im))
}

/// A point of the complex plane with fixed-point coordinates.
#[derive(Clone, Copy, PartialEq, Eq, Structural, Debug)]
pub struct Complex {
    pub real: Fixed,
    pub imag: Fixed,
}

impl Complex {
    pub fn new(re: Fixed, im: Fixed) -> (r: Complex)
        ensures
            r.real == re,
            r.imag == im,
    {
        Complex { real: re, imag: im }
    }

    /// Componentwise sum.
    pub fn add(&self, other: Complex) -> (r: Complex)
        ensures
            r.real.bits as int == fx_add_bits(self.real.bits as int, other.real.bits as int),
            r.imag.bits as int == fx_add_bits(self.imag.bits as int, other.imag.bits as int),
    {
        Complex { real: self.real.add(other.real), imag: self.imag.add(other.imag) }
    }

    /// Standard complex product `(a*c - b*d, a*d + b*c)`.
    pub fn multiply(&self, other: Complex) -> (r: Complex)
        ensures
            r.real.bits as int == complex_mul_re(
                self.real.bits as int,
                self.imag.bits as int,
                other.real.bits as int,
                other.imag.bits as int,
            ),
            r.imag.bits as int == complex_mul_im(
                self.real.bits as int,
                self.imag.bits as int,
                other.real.bits as int,
                other.imag.bits as int,
            ),
    {
        let re = self.real.mul(other.real).sub(self.imag.mul(other.imag));
        let im = self.real.mul(other.imag).add(self.imag.mul(other.real));
        Complex { real: re, imag: im }
    }

    /// The complex square, as the product of the value with itself.
    pub fn square(&self) -> (r: Complex)
        ensures
            r.real.bits as int == complex_mul_re(
                self.real.bits as int,
                self.imag.bits as int,
                self.real.bits as int,
                self.imag.bits as int,
            ),
            r.imag.bits as int == complex_mul_im(
                self.real.bits as int,
                self.imag.bits as int,
                self.real.bits as int,
                self.imag.bits as int,
            ),
    {
        self.multiply(*self)
    }

    /// Squared Euclidean magnitude.
    pub fn norm_squared(&self) -> (r: Fixed)
        ensures
            r.bits as int == complex_norm_squared(self.real.bits as int, self.imag.bits as int),
    {
        self.real.mul(self.real).add(self.imag.mul(self.imag))
    }
}

} // verus!
