//! A buffer as a plain sequence of samples: what it announces to a store,
//! and how it is built again from what a store gives back.
//!
//! A stored buffer is the ordered sequence of its samples and nothing else.
//! To build one again, the number of samples has to be known before the
//! first of them is read: the buffer is created with that length and then
//! filled in order.

use vstd::prelude::*;
use crate::array::AlignedVec;
use crate::error::SerializationFormatError;
use crate::strategy::AlignedAllocable;

verus! {

/// The samples of the buffer built from a sequence that announced
/// `size_hint` samples and then gave `items`, or the reason why there is no
/// such buffer.
pub open spec fn decode<T>(size_hint: Option<usize>, items: Seq<T>) -> Result<
    Seq<T>,
    SerializationFormatError,
> {
    match size_hint {
        None => Err(SerializationFormatError::MissingSizeHint),
        Some(n) => if items.len() < n {
            Err(SerializationFormatError::MissingElement)
        } else {
            Ok(items.take(n as int))
        },
    }
}

/// A buffer that is being filled from a sequence and still has room.
pub struct SeqDecoder<T> {
    buffer: AlignedVec<T>,
    filled: usize,
}

/// Where the building of a buffer stands.
pub enum Decoding<T> {
    /// The next sample of the sequence is wanted.
    NeedElement(SeqDecoder<T>),
    /// Every announced sample has arrived.
    Complete(AlignedVec<T>),
}

impl<T> SeqDecoder<T> {
    #[verifier::type_invariant]
    spec fn has_room(self) -> bool {
        self.filled < self.buffer@.len()
    }

    /// The number of samples that the sequence announced.
    pub closed spec fn expected(self) -> nat {
        self.buffer@.len()
    }

    /// The samples taken so far, in order.
    pub closed spec fn received(self) -> Seq<T> {
        self.buffer@.take(self.filled as int)
    }

    /// Takes what the sequence gave next: a sample, or `None` at its end.
    /// A sample goes behind those taken before. The end is an error, since
    /// the decoder still has room.
    pub fn accept(self, item: Option<T>) -> (r: Result<Decoding<T>, SerializationFormatError>)
        ensures
            match item {
                None => r == Err::<Decoding<T>, _>(SerializationFormatError::MissingElement),
                Some(x) => r matches Ok(next) && next.expected() == self.expected()
                    && next.received() == self.received().push(x) && (next is Complete
                    <==> next.received().len() == next.expected()),
            },
    {
        proof {
            use_type_invariant(&self);
        }
        let SeqDecoder { buffer, filled } = self;
        let mut buffer = buffer;
        let n = buffer.len();
        match item {
            None => Err(SerializationFormatError::MissingElement),
            Some(x) => {
                *buffer.index_mut(filled) = x;
                let filled: usize = filled + 1;
                assert(buffer@.take(filled as int) =~= self.received().push(x));
                if filled == n {
                    assert(buffer@.take(filled as int) =~= buffer@);
                    Ok(Decoding::Complete(buffer))
                } else {
                    Ok(Decoding::NeedElement(SeqDecoder { buffer, filled }))
                }
            },
        }
    }
}

impl<T> Decoding<T> {
    /// The number of samples that the sequence announced.
    pub open spec fn expected(self) -> nat {
        match self {
            Decoding::NeedElement(d) => d.expected(),
            Decoding::Complete(v) => v@.len(),
        }
    }

    /// The samples taken so far, in order.
    pub open spec fn received(self) -> Seq<T> {
        match self {
            Decoding::NeedElement(d) => d.received(),
            Decoding::Complete(v) => v@,
        }
    }
}

impl<T: AlignedAllocable> Decoding<T> {
    /// Starts to build a buffer for a sequence that announced `size_hint`
    /// samples. Without an announced number there is no buffer to fill; with
    /// zero the buffer is complete at once.
    pub fn begin(size_hint: Option<usize>) -> (r: Result<Self, SerializationFormatError>)
        ensures
            match size_hint {
                None => r == Err::<Self, _>(SerializationFormatError::MissingSizeHint),
                Some(n) => r matches Ok(state) && state.expected() == n
                    && state.received() == Seq::<T>::empty() && (state is Complete <==> n == 0),
            },
    {
        match size_hint {
            None => Err(SerializationFormatError::MissingSizeHint),
            Some(n) => {
                let buffer = AlignedVec::<T>::new(n);
                if n == 0 {
                    assert(buffer@ =~= Seq::<T>::empty());
                    Ok(Decoding::Complete(buffer))
                } else {
                    assert(buffer@.take(0) =~= Seq::<T>::empty());
                    Ok(Decoding::NeedElement(SeqDecoder { buffer, filled: 0 }))
                }
            },
        }
    }
}

impl<T> AlignedVec<T> {
    /// The number of samples that the buffer announces before it gives them
    /// in order.
    pub fn size_hint(&self) -> (hint: Option<usize>)
        ensures
            hint == Some(self@.len() as usize),
            self@.len() <= usize::MAX,
    {
        Some(self.len())
    }
}

impl<T: AlignedAllocable> AlignedVec<T> {
    /// Builds a buffer from a sequence that announced `size_hint` samples
    /// and then gave `items`: the first `size_hint` of them, where there are
    /// as many. What follows them is not read.
    pub fn from_sequence(size_hint: Option<usize>, items: &[T]) -> (r: Result<
        Self,
        SerializationFormatError,
    >)
        ensures
            match r {
                Ok(v) => decode(size_hint, items@) == Ok::<Seq<T>, SerializationFormatError>(v@),
                Err(e) => decode(size_hint, items@) == Err::<Seq<T>, SerializationFormatError>(e),
            },
    {
        let mut state = match Decoding::<T>::begin(size_hint) {
            Ok(state) => state,
            Err(e) => {
                return Err(e);
            },
        };
        let ghost n: nat = state.expected();
        let mut i: usize = 0;
        loop
            invariant
                size_hint == Some(n as usize),
                n <= usize::MAX,
                state.expected() == n,
                i <= n,
                i <= items@.len(),
                state.received() == items@.take(i as int),
                state is Complete <==> i == n,
            decreases n - i,
        {
            match state {
                Decoding::Complete(v) => {
                    return Ok(v);
                },
                Decoding::NeedElement(decoder) => {
                    let item = if i < items.len() {
                        Some(items[i])
                    } else {
                        None
                    };
                    match decoder.accept(item) {
                        Ok(next) => {
                            assert(items@.take(i as int).push(items@[i as int]) =~= items@.take(
                                i + 1,
                            ));
                            state = next;
                            i = i + 1;
                        },
                        Err(e) => {
                            return Err(e);
                        },
                    }
                },
            }
        }
    }
}

/// A buffer built from the sequence of a buffer's own samples, announced
/// with its own length, holds the same samples.
pub proof fn lemma_sequence_round_trip<T>(v: AlignedVec<T>)
    ensures
        decode(Some(v@.len() as usize), v@) == Ok::<Seq<T>, SerializationFormatError>(v@),
{
    v.lemma_len_fits();
    assert(v@.take(v@.len() as int) =~= v@);
}

} // verus!
