//! A buffer of samples whose length is fixed when it is created.

use std::ops::Deref;
use std::ops::DerefMut;
use vstd::prelude::*;
use vstd::std_specs::cmp::PartialEqSpec;
use vstd::std_specs::cmp::PartialEqSpecImpl;
use crate::strategy::AlignedAllocable;

verus! {

/// An owned block of samples. It is created full of zeros, is read and
/// written in place through slices, and keeps its length for as long as it
/// lives. No two buffers share storage, and the storage of a buffer is
/// released once, when the buffer goes out of scope. Its view is the
/// sequence of its samples.
#[derive(Debug)]
pub struct AlignedVec<T> {
    data: Vec<T>,
}

impl<T> View for AlignedVec<T> {
    type V = Seq<T>;

    closed spec fn view(&self) -> Seq<T> {
        self.data@
    }
}

/// `n` samples, each the zero of its type.
pub open spec fn zeros<T: AlignedAllocable>(n: nat) -> Seq<T> {
    Seq::new(n, |i: int| T::zero_spec())
}

impl<T> AlignedVec<T> {
    /// The length of a buffer is a machine size.
    pub proof fn lemma_len_fits(self)
        ensures
            self@.len() <= usize::MAX,
    {
        broadcast use vstd::std_specs::vec::axiom_spec_len;

        assert(self.data.len() == self.data@.len());
    }

    /// The number of samples.
    pub fn len(&self) -> (n: usize)
        ensures
            n == self@.len(),
    {
        self.data.len()
    }

    /// The samples, read-only.
    pub fn as_slice(&self) -> (s: &[T])
        ensures
            s@ == self@,
    {
        self.data.as_slice()
    }

    /// The samples, for reading and writing in place: what is written through
    /// the slice is what the buffer holds afterwards.
    pub fn as_slice_mut(&mut self) -> (s: &mut [T])
        ensures
            s@ == old(self)@,
            final(self)@ == final(s)@,
    {
        self.data.as_mut_slice()
    }

    /// The same as [`AlignedVec::as_slice_mut`].
    pub fn as_mut_slice(&mut self) -> (s: &mut [T])
        ensures
            s@ == old(self)@,
            final(self)@ == final(s)@,
    {
        self.data.as_mut_slice()
    }

    /// The sample at `index`.
    pub fn index(&self, index: usize) -> (r: &T)
        requires
            index < self@.len(),
        ensures
            *r == self@[index as int],
    {
        &self.data[index]
    }

    /// The sample at `index`, for writing: the buffer afterwards differs from
    /// the buffer before in that one place only.
    pub fn index_mut(&mut self, index: usize) -> (r: &mut T)
        requires
            index < old(self)@.len(),
        ensures
            *r == old(self)@[index as int],
            final(self)@ == old(self)@.update(index as int, *final(r)),
    {
        &mut self.data[index]
    }
}

impl<T: AlignedAllocable> AlignedVec<T> {
    /// A buffer of `n` zeros.
    pub fn new(n: usize) -> (v: Self)
        ensures
            v@ == zeros::<T>(n as nat),
    {
        let mut data: Vec<T> = Vec::with_capacity(n);
        let mut i: usize = 0;
        while i < n
            invariant
                i <= n,
                data@ == zeros::<T>(i as nat),
            decreases n - i,
        {
            data.push(T::zero());
            assert(data@ =~= zeros::<T>((i + 1) as nat));
            i = i + 1;
        }
        AlignedVec { data }
    }
}

impl<T> Deref for AlignedVec<T> {
    type Target = [T];

    fn deref(&self) -> (s: &[T])
        ensures
            s@ == self@,
    {
        self.as_slice()
    }
}

impl<T> DerefMut for AlignedVec<T> {
    fn deref_mut(&mut self) -> (s: &mut [T])
        ensures
            s@ == old(self)@,
            final(self)@ == final(s)@,
    {
        self.as_slice_mut()
    }
}

impl<T: Copy> Clone for AlignedVec<T> {
    /// A buffer of its own with the same samples.
    fn clone(&self) -> (v: Self)
        ensures
            v@ == self@,
    {
        let n = self.data.len();
        let mut data: Vec<T> = Vec::with_capacity(n);
        let mut i: usize = 0;
        while i < n
            invariant
                n == self.data@.len(),
                i <= n,
                data@ == self.data@.take(i as int),
            decreases n - i,
        {
            data.push(self.data[i]);
            assert(data@ =~= self.data@.take(i + 1));
            i = i + 1;
        }
        assert(data@ =~= self.data@);
        AlignedVec { data }
    }
}

impl<T: PartialEq> PartialEq for AlignedVec<T> {
    fn eq(&self, other: &Self) -> (r: bool) {
        let n = self.data.len();
        if n != other.data.len() {
            return false;
        }
        let mut i: usize = 0;
        while i < n
            invariant
                n == self.data@.len(),
                n == other.data@.len(),
                i <= n,
                T::obeys_eq_spec() ==> forall|j: int|
                    0 <= j < i ==> (#[trigger] self.data@[j]).eq_spec(&other.data@[j]),
            decreases n - i,
        {
            if !(self.data[i] == other.data[i]) {
                return false;
            }
            i = i + 1;
        }
        true
    }
}

/// Two buffers are equal when they have the same length and equal samples in
/// every place.
impl<T: PartialEq> PartialEqSpecImpl for AlignedVec<T> {
    open spec fn obeys_eq_spec() -> bool {
        T::obeys_eq_spec()
    }

    open spec fn eq_spec(&self, other: &Self) -> bool {
        &&& self@.len() == other@.len()
        &&& forall|j: int| 0 <= j < self@.len() ==> (#[trigger] self@[j]).eq_spec(&other@[j])
    }
}

} // verus!
