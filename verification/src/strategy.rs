//! Which allocation primitive serves which sample type, and how much
//! storage a block of samples takes.

use vstd::prelude::*;
use vstd::std_specs::cmp::PartialEqSpec;
use crate::element::Complex32;
use crate::element::Complex64;
use crate::element::Real32;
use crate::element::Real64;

verus! {

/// The allocation primitives of FFTW. Blocks from any of them are released
/// by the one primitive `fftw_free`.
#[derive(Clone, Copy, Debug, PartialEq, Eq, Structural)]
pub enum AllocPrimitive {
    /// `fftwf_alloc_real`
    SingleReal,
    /// `fftw_alloc_real`
    DoubleReal,
    /// `fftwf_alloc_complex`
    SingleComplex,
    /// `fftw_alloc_complex`
    DoubleComplex,
}

impl AllocPrimitive {
    /// Bytes taken by one sample.
    pub open spec fn spec_footprint(self) -> nat {
        match self {
            AllocPrimitive::SingleReal => 4,
            AllocPrimitive::DoubleReal => 8,
            AllocPrimitive::SingleComplex => 8,
            AllocPrimitive::DoubleComplex => 16,
        }
    }

    /// Bytes taken by a block of `n` samples.
    pub open spec fn spec_block_bytes(self, n: nat) -> nat {
        n * self.spec_footprint()
    }

    /// Bytes taken by one sample.
    pub fn footprint(self) -> (bytes: usize)
        ensures
            bytes == self.spec_footprint(),
    {
        match self {
            AllocPrimitive::SingleReal => 4,
            AllocPrimitive::DoubleReal => 8,
            AllocPrimitive::SingleComplex => 8,
            AllocPrimitive::DoubleComplex => 16,
        }
    }

    /// The size of a block of `n` samples, or `None` where that size is more
    /// than the allocator's size argument can express.
    pub fn block_bytes(self, n: usize) -> (bytes: Option<usize>)
        ensures
            match bytes {
                Some(b) => b == self.spec_block_bytes(n as nat),
                None => self.spec_block_bytes(n as nat) > usize::MAX,
            },
    {
        n.checked_mul(self.footprint())
    }
}

/// A sample type that the aligned allocator serves.
///
/// Each type has its own primitive, fixed by its impl and not chosen at run
/// time. Its `==` is the equality of numbers: it says what `eq_spec` says,
/// it does not depend on the side, and a sample equals itself exactly when
/// it is a number.
pub trait AlignedAllocable: Copy + Sized + PartialEq {
    /// The additive identity of the type.
    spec fn zero_spec() -> Self;

    /// The primitive that allocates blocks of this type.
    spec fn primitive_spec() -> AllocPrimitive;

    /// The sample is a number, as opposed to a NaN.
    spec fn is_number(self) -> bool;

    /// The additive identity of the type.
    fn zero() -> (z: Self)
        ensures
            z == Self::zero_spec(),
    ;

    /// The primitive that allocates blocks of this type.
    fn primitive() -> (p: AllocPrimitive)
        ensures
            p == Self::primitive_spec(),
    ;

    /// `==` on samples computes `eq_spec`.
    proof fn lemma_equality_is_specified()
        ensures
            Self::obeys_eq_spec(),
    ;

    /// A sample equals itself exactly when it is a number.
    proof fn lemma_equality_reflexive(a: Self)
        ensures
            a.eq_spec(&a) <==> a.is_number(),
    ;

    /// Whether two samples are equal does not depend on which of them is
    /// asked.
    proof fn lemma_equality_symmetric(a: Self, b: Self)
        ensures
            a.eq_spec(&b) == b.eq_spec(&a),
    ;

    /// Zero is a number.
    proof fn lemma_zero_is_number()
        ensures
            Self::zero_spec().is_number(),
    ;
}

impl AlignedAllocable for Real32 {
    open spec fn zero_spec() -> Self {
        Real32 { bits: 0 }
    }

    open spec fn primitive_spec() -> AllocPrimitive {
        AllocPrimitive::SingleReal
    }

    open spec fn is_number(self) -> bool {
        !self.spec_is_nan()
    }

    fn zero() -> (z: Self) {
        Real32 { bits: 0 }
    }

    fn primitive() -> (p: AllocPrimitive) {
        AllocPrimitive::SingleReal
    }

    proof fn lemma_equality_is_specified() {
    }

    proof fn lemma_equality_reflexive(a: Self) {
    }

    proof fn lemma_equality_symmetric(a: Self, b: Self) {
    }

    proof fn lemma_zero_is_number() {
    }
}

impl AlignedAllocable for Real64 {
    open spec fn zero_spec() -> Self {
        Real64 { bits: 0 }
    }

    open spec fn primitive_spec() -> AllocPrimitive {
        AllocPrimitive::DoubleReal
    }

    open spec fn is_number(self) -> bool {
        !self.spec_is_nan()
    }

    fn zero() -> (z: Self) {
        Real64 { bits: 0 }
    }

    fn primitive() -> (p: AllocPrimitive) {
        AllocPrimitive::DoubleReal
    }

    proof fn lemma_equality_is_specified() {
    }

    proof fn lemma_equality_reflexive(a: Self) {
    }

    proof fn lemma_equality_symmetric(a: Self, b: Self) {
    }

    proof fn lemma_zero_is_number() {
    }
}

impl AlignedAllocable for Complex32 {
    open spec fn zero_spec() -> Self {
        Complex32 { re: Real32 { bits: 0 }, im: Real32 { bits: 0 } }
    }

    open spec fn primitive_spec() -> AllocPrimitive {
        AllocPrimitive::SingleComplex
    }

    open spec fn is_number(self) -> bool {
        !self.spec_is_nan()
    }

    fn zero() -> (z: Self) {
        Complex32 { re: Real32 { bits: 0 }, im: Real32 { bits: 0 } }
    }

    fn primitive() -> (p: AllocPrimitive) {
        AllocPrimitive::SingleComplex
    }

    proof fn lemma_equality_is_specified() {
    }

    proof fn lemma_equality_reflexive(a: Self) {
    }

    proof fn lemma_equality_symmetric(a: Self, b: Self) {
    }

    proof fn lemma_zero_is_number() {
    }
}

impl AlignedAllocable for Complex64 {
    open spec fn zero_spec() -> Self {
        Complex64 { re: Real64 { bits: 0 }, im: Real64 { bits: 0 } }
    }

    open spec fn primitive_spec() -> AllocPrimitive {
        AllocPrimitive::DoubleComplex
    }

    open spec fn is_number(self) -> bool {
        !self.spec_is_nan()
    }

    fn zero() -> (z: Self) {
        Complex64 { re: Real64 { bits: 0 }, im: Real64 { bits: 0 } }
    }

    fn primitive() -> (p: AllocPrimitive) {
        AllocPrimitive::DoubleComplex
    }

    proof fn lemma_equality_is_specified() {
    }

    proof fn lemma_equality_reflexive(a: Self) {
    }

    proof fn lemma_equality_symmetric(a: Self, b: Self) {
    }

    proof fn lemma_zero_is_number() {
    }
}

} // verus!
