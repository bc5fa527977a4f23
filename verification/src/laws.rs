//! What holds of the equality of buffers, whatever they contain.
//!
//! Equality of samples is the equality of numbers, and a NaN is not a
//! number: it equals nothing, itself included. So a buffer that holds a NaN
//! does not equal itself, nor its clone. That is the one exception to the
//! laws below.

use vstd::prelude::*;
use vstd::std_specs::cmp::PartialEqSpec;
use crate::array::zeros;
use crate::array::AlignedVec;
use crate::strategy::AlignedAllocable;

verus! {

/// Every sample of `s` is a number.
pub open spec fn all_numbers<T: AlignedAllocable>(s: Seq<T>) -> bool {
    forall|i: int| 0 <= i < s.len() ==> (#[trigger] s[i]).is_number()
}

/// A buffer equals itself exactly when all its samples are numbers.
pub proof fn lemma_eq_reflexive<T: AlignedAllocable>(a: AlignedVec<T>)
    ensures
        a.eq_spec(&a) <==> all_numbers(a@),
{
    assert forall|i: int| 0 <= i < a@.len() implies ((#[trigger] a@[i]).eq_spec(&a@[i])
        <==> a@[i].is_number()) by {
        T::lemma_equality_reflexive(a@[i]);
    }
}

/// Whether two buffers are equal does not depend on which of them is asked.
pub proof fn lemma_eq_symmetric<T: AlignedAllocable>(a: AlignedVec<T>, b: AlignedVec<T>)
    ensures
        a.eq_spec(&b) == b.eq_spec(&a),
{
    if a@.len() == b@.len() {
        assert forall|i: int| 0 <= i < a@.len() implies (#[trigger] a@[i]).eq_spec(&b@[i])
            == (#[trigger] b@[i]).eq_spec(&a@[i]) by {
            T::lemma_equality_symmetric(a@[i], b@[i]);
        }
    }
}

/// Buffers of different lengths are never equal, whatever they hold.
pub proof fn lemma_eq_length_sensitive<T: PartialEq>(a: AlignedVec<T>, b: AlignedVec<T>)
    requires
        a@.len() != b@.len(),
    ensures
        !a.eq_spec(&b),
        !b.eq_spec(&a),
{
}

/// A clone equals the buffer it was made from, in both directions, exactly
/// when all the samples are numbers. `c` stands for the clone: all that is
/// known of it is what `clone` promises.
pub proof fn lemma_clone_equals_source<T: AlignedAllocable>(a: AlignedVec<T>, c: AlignedVec<T>)
    requires
        c@ == a@,
    ensures
        c.eq_spec(&a) <==> all_numbers(a@),
        a.eq_spec(&c) <==> all_numbers(a@),
{
    lemma_eq_reflexive(a);
    lemma_eq_reflexive(c);
}

/// Two new buffers of one length are equal.
pub proof fn lemma_new_buffers_equal<T: AlignedAllocable>(a: AlignedVec<T>, b: AlignedVec<T>)
    requires
        a@ == zeros::<T>(a@.len()),
        b@ == zeros::<T>(a@.len()),
    ensures
        a.eq_spec(&b),
{
    T::lemma_zero_is_number();
    T::lemma_equality_reflexive(T::zero_spec());
}

} // verus!
