//! The samples a buffer can hold: real and complex numbers in single and
//! double precision.
//!
//! A real sample is carried as its IEEE 754 bit pattern, so that every
//! statement about it is a statement about integers. Equality is the
//! numeric one of IEEE 754: a NaN equals nothing, itself included, and the
//! two zeros equal each other.

use vstd::prelude::*;
use vstd::std_specs::cmp::PartialEqSpecImpl;

verus! {

/// A single-precision real sample: sign (1 bit), exponent (8 bits),
/// fraction (23 bits).
#[derive(Clone, Copy, Debug)]
pub struct Real32 {
    pub bits: u32,
}

/// A double-precision real sample: sign (1 bit), exponent (11 bits),
/// fraction (52 bits).
#[derive(Clone, Copy, Debug)]
pub struct Real64 {
    pub bits: u64,
}

/// A single-precision complex sample.
#[derive(Clone, Copy, Debug)]
pub struct Complex32 {
    pub re: Real32,
    pub im: Real32,
}

/// A double-precision complex sample.
#[derive(Clone, Copy, Debug)]
pub struct Complex64 {
    pub re: Real64,
    pub im: Real64,
}

impl Real32 {
    /// The biased exponent field.
    pub open spec fn exponent(self) -> int {
        (self.bits as int / 0x80_0000) % 0x100
    }

    /// The fraction field.
    pub open spec fn fraction(self) -> int {
        self.bits as int % 0x80_0000
    }

    /// Not a number: the exponent is all ones and the fraction is not zero.
    pub open spec fn spec_is_nan(self) -> bool {
        self.exponent() == 0xFF && self.fraction() != 0
    }

    /// Positive or negative zero: exponent and fraction are both zero.
    pub open spec fn spec_is_zero(self) -> bool {
        self.exponent() == 0 && self.fraction() == 0
    }

    /// Numeric equality of two samples.
    pub open spec fn same_number(self, other: Self) -> bool {
        &&& !self.spec_is_nan()
        &&& !other.spec_is_nan()
        &&& (self.bits == other.bits || (self.spec_is_zero() && other.spec_is_zero()))
    }

    /// The sample with the given bit pattern.
    pub fn from_bits(bits: u32) -> (r: Self)
        ensures
            r.bits == bits,
    {
        Real32 { bits }
    }

    /// The bit pattern of the sample.
    pub fn to_bits(self) -> (bits: u32)
        ensures
            bits == self.bits,
    {
        self.bits
    }

    /// Whether the sample is not a number.
    #[verifier::when_used_as_spec(spec_is_nan)]
    pub fn is_nan(self) -> (r: bool)
        ensures
            r == self.spec_is_nan(),
    {
        let bits: u32 = self.bits;
        assert(((bits & 0x7FFF_FFFF) > 0x7F80_0000) <==> ((bits / 0x80_0000) % 0x100 == 0xFF && bits
            % 0x80_0000 != 0)) by (bit_vector);
        (bits & 0x7FFF_FFFF) > 0x7F80_0000
    }

    /// Whether the sample is positive or negative zero.
    #[verifier::when_used_as_spec(spec_is_zero)]
    pub fn is_zero(self) -> (r: bool)
        ensures
            r == self.spec_is_zero(),
    {
        let bits: u32 = self.bits;
        assert(((bits & 0x7FFF_FFFF) == 0) <==> ((bits / 0x80_0000) % 0x100 == 0 && bits
            % 0x80_0000 == 0)) by (bit_vector);
        (bits & 0x7FFF_FFFF) == 0
    }
}

/// `==` is the equality of numbers, not that of bit patterns.
impl PartialEq for Real32 {
    fn eq(&self, other: &Self) -> (r: bool) {
        !self.is_nan() && !other.is_nan() && (self.bits == other.bits || (self.is_zero()
            && other.is_zero()))
    }
}

impl PartialEqSpecImpl for Real32 {
    open spec fn obeys_eq_spec() -> bool {
        true
    }

    open spec fn eq_spec(&self, other: &Self) -> bool {
        self.same_number(*other)
    }
}

impl Real64 {
    /// The biased exponent field.
    pub open spec fn exponent(self) -> int {
        (self.bits as int / 0x10_0000_0000_0000) % 0x800
    }

    /// The fraction field.
    pub open spec fn fraction(self) -> int {
        self.bits as int % 0x10_0000_0000_0000
    }

    /// Not a number: the exponent is all ones and the fraction is not zero.
    pub open spec fn spec_is_nan(self) -> bool {
        self.exponent() == 0x7FF && self.fraction() != 0
    }

    /// Positive or negative zero: exponent and fraction are both zero.
    pub open spec fn spec_is_zero(self) -> bool {
        self.exponent() == 0 && self.fraction() == 0
    }

    /// Numeric equality of two samples.
    pub open spec fn same_number(self, other: Self) -> bool {
        &&& !self.spec_is_nan()
        &&& !other.spec_is_nan()
        &&& (self.bits == other.bits || (self.spec_is_zero() && other.spec_is_zero()))
    }

    /// The sample with the given bit pattern.
    pub fn from_bits(bits: u64) -> (r: Self)
        ensures
            r.bits == bits,
    {
        Real64 { bits }
    }

    /// The bit pattern of the sample.
    pub fn to_bits(self) -> (bits: u64)
        ensures
            bits == self.bits,
    {
        self.bits
    }

    /// Whether the sample is not a number.
    #[verifier::when_used_as_spec(spec_is_nan)]
    pub fn is_nan(self) -> (r: bool)
        ensures
            r == self.spec_is_nan(),
    {
        let bits: u64 = self.bits;
        assert(((bits & 0x7FFF_FFFF_FFFF_FFFF) > 0x7FF0_0000_0000_0000) <==> ((bits
            / 0x10_0000_0000_0000) % 0x800 == 0x7FF && bits % 0x10_0000_0000_0000 != 0))
            by (bit_vector);
        (bits & 0x7FFF_FFFF_FFFF_FFFF) > 0x7FF0_0000_0000_0000
    }

    /// Whether the sample is positive or negative zero.
    #[verifier::when_used_as_spec(spec_is_zero)]
    pub fn is_zero(self) -> (r: bool)
        ensures
            r == self.spec_is_zero(),
    {
        let bits: u64 = self.bits;
        assert(((bits & 0x7FFF_FFFF_FFFF_FFFF) == 0) <==> ((bits / 0x10_0000_0000_0000) % 0x800
            == 0 && bits % 0x10_0000_0000_0000 == 0)) by (bit_vector);
        (bits & 0x7FFF_FFFF_FFFF_FFFF) == 0
    }
}

/// `==` is the equality of numbers, not that of bit patterns.
impl PartialEq for Real64 {
    fn eq(&self, other: &Self) -> (r: bool) {
        !self.is_nan() && !other.is_nan() && (self.bits == other.bits || (self.is_zero()
            && other.is_zero()))
    }
}

impl PartialEqSpecImpl for Real64 {
    open spec fn obeys_eq_spec() -> bool {
        true
    }

    open spec fn eq_spec(&self, other: &Self) -> bool {
        self.same_number(*other)
    }
}

impl Complex32 {
    /// Equality of both parts.
    pub open spec fn same_number(self, other: Self) -> bool {
        self.re.same_number(other.re) && self.im.same_number(other.im)
    }

    /// Either part is not a number.
    pub open spec fn spec_is_nan(self) -> bool {
        self.re.spec_is_nan() || self.im.spec_is_nan()
    }

    /// The sample with the given parts.
    pub fn new(re: Real32, im: Real32) -> (c: Self)
        ensures
            c.re == re,
            c.im == im,
    {
        Complex32 { re, im }
    }

    /// Whether either part is not a number.
    #[verifier::when_used_as_spec(spec_is_nan)]
    pub fn is_nan(self) -> (r: bool)
        ensures
            r == self.spec_is_nan(),
    {
        self.re.is_nan() || self.im.is_nan()
    }
}

/// `==` is the equality of numbers in both parts.
impl PartialEq for Complex32 {
    fn eq(&self, other: &Self) -> (r: bool) {
        self.re == other.re && self.im == other.im
    }
}

impl PartialEqSpecImpl for Complex32 {
    open spec fn obeys_eq_spec() -> bool {
        true
    }

    open spec fn eq_spec(&self, other: &Self) -> bool {
        self.same_number(*other)
    }
}

impl Complex64 {
    /// Equality of both parts.
    pub open spec fn same_number(self, other: Self) -> bool {
        self.re.same_number(other.re) && self.im.same_number(other.im)
    }

    /// Either part is not a number.
    pub open spec fn spec_is_nan(self) -> bool {
        self.re.spec_is_nan() || self.im.spec_is_nan()
    }

    /// The sample with the given parts.
    pub fn new(re: Real64, im: Real64) -> (c: Self)
        ensures
            c.re == re,
            c.im == im,
    {
        Complex64 { re, im }
    }

    /// Whether either part is not a number.
    #[verifier::when_used_as_spec(spec_is_nan)]
    pub fn is_nan(self) -> (r: bool)
        ensures
            r == self.spec_is_nan(),
    {
        self.re.is_nan() || self.im.is_nan()
    }
}

/// `==` is the equality of numbers in both parts.
impl PartialEq for Complex64 {
    fn eq(&self, other: &Self) -> (r: bool) {
        self.re == other.re && self.im == other.im
    }
}

impl PartialEqSpecImpl for Complex64 {
    open spec fn obeys_eq_spec() -> bool {
        true
    }

    open spec fn eq_spec(&self, other: &Self) -> bool {
        self.same_number(*other)
    }
}

} // verus!
