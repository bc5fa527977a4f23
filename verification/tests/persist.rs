use std::fmt;
use std::marker::PhantomData;

use fftw_array::array::AlignedVec;
use fftw_array::element::Complex32;
use fftw_array::element::Complex64;
use fftw_array::element::Real32;
use fftw_array::element::Real64;
use fftw_array::error::SerializationFormatError;
use fftw_array::sequence::Decoding;
use fftw_array::strategy::AlignedAllocable;
use serde::de::Error;
use serde::de::SeqAccess;
use serde::de::Visitor;
use serde::ser::SerializeSeq;
use serde::Deserialize;
use serde::Deserializer;
use serde::Serialize;
use serde::Serializer;
use serde_test::assert_de_tokens_error;
use serde_test::assert_tokens;
use serde_test::Token;

/// A sample of the library and the number that a store writes for it.
trait Stored: AlignedAllocable + PartialEq + fmt::Debug {
    type Plain: Serialize + for<'de> Deserialize<'de>;

    fn plain(&self) -> Self::Plain;

    fn stored(plain: Self::Plain) -> Self;
}

impl Stored for Real32 {
    type Plain = f32;

    fn plain(&self) -> f32 {
        f32::from_bits(self.to_bits())
    }

    fn stored(plain: f32) -> Self {
        Real32::from_bits(plain.to_bits())
    }
}

impl Stored for Real64 {
    type Plain = f64;

    fn plain(&self) -> f64 {
        f64::from_bits(self.to_bits())
    }

    fn stored(plain: f64) -> Self {
        Real64::from_bits(plain.to_bits())
    }
}

impl Stored for Complex32 {
    type Plain = num_complex::Complex32;

    fn plain(&self) -> num_complex::Complex32 {
        num_complex::Complex32::new(self.re.plain(), self.im.plain())
    }

    fn stored(plain: num_complex::Complex32) -> Self {
        Complex32::new(Real32::stored(plain.re), Real32::stored(plain.im))
    }
}

impl Stored for Complex64 {
    type Plain = num_complex::Complex64;

    fn plain(&self) -> num_complex::Complex64 {
        num_complex::Complex64::new(self.re.plain(), self.im.plain())
    }

    fn stored(plain: num_complex::Complex64) -> Self {
        Complex64::new(Real64::stored(plain.re), Real64::stored(plain.im))
    }
}

/// A buffer as a store sees it: a sequence that announces its length.
struct Persisted<T: Stored>(AlignedVec<T>);

impl<T: Stored> PartialEq for Persisted<T> {
    fn eq(&self, other: &Self) -> bool {
        self.0 == other.0
    }
}

impl<T: Stored> fmt::Debug for Persisted<T> {
    fn fmt(&self, f: &mut fmt::Formatter) -> fmt::Result {
        f.debug_list().entries(self.0.as_slice()).finish()
    }
}

impl<T: Stored> Serialize for Persisted<T> {
    fn serialize<S>(&self, serializer: S) -> Result<S::Ok, S::Error>
    where
        S: Serializer,
    {
        let mut seq = serializer.serialize_seq(self.0.size_hint())?;
        for e in self.0.as_slice() {
            seq.serialize_element(&e.plain())?;
        }
        seq.end()
    }
}

struct PersistedVisitor<T>(PhantomData<T>);

impl<'de, T: Stored> Visitor<'de> for PersistedVisitor<T> {
    type Value = Persisted<T>;

    fn expecting(&self, formatter: &mut fmt::Formatter) -> fmt::Result {
        formatter.write_str("AlignedVec<T>")
    }

    fn visit_seq<A>(self, seq: A) -> Result<Self::Value, A::Error>
    where
        A: SeqAccess<'de>,
    {
        let mut seq = seq;
        let mut state =
            Decoding::<T>::begin(seq.size_hint()).map_err(|e| A::Error::custom(e.message()))?;
        loop {
            match state {
                Decoding::Complete(buffer) => return Ok(Persisted(buffer)),
                Decoding::NeedElement(decoder) => {
                    let item: Option<T::Plain> = seq.next_element()?;
                    state = decoder
                        .accept(item.map(T::stored))
                        .map_err(|e| A::Error::custom(e.message()))?;
                }
            }
        }
    }
}

impl<'de, T: Stored> Deserialize<'de> for Persisted<T> {
    fn deserialize<D>(deserializer: D) -> Result<Self, D::Error>
    where
        D: Deserializer<'de>,
    {
        deserializer.deserialize_seq(PersistedVisitor(PhantomData))
    }
}

fn c32(re: f32, im: f32) -> Complex32 {
    Complex32::stored(num_complex::Complex32::new(re, im))
}

fn c64(re: f64, im: f64) -> Complex64 {
    Complex64::stored(num_complex::Complex64::new(re, im))
}

#[test]
fn test_ser_de_empty_c32() {
    let vec: AlignedVec<Complex32> = AlignedVec::new(0);

    assert_eq!(vec.size_hint(), Some(0));
    assert_tokens(&Persisted(vec), &[Token::Seq { len: Some(0) }, Token::SeqEnd]);
}

#[test]
fn test_ser_de_empty_c64() {
    let vec: AlignedVec<Complex64> = AlignedVec::new(0);

    assert_eq!(vec.size_hint(), Some(0));
    assert_tokens(&Persisted(vec), &[Token::Seq { len: Some(0) }, Token::SeqEnd]);
}

#[test]
fn test_ser_de_c32() {
    let mut vec = AlignedVec::new(3);
    vec[0] = c32(1., 2.);
    vec[1] = c32(3., 4.);
    vec[2] = c32(5., 6.);

    assert_tokens(
        &Persisted(vec),
        &[
            Token::Seq { len: Some(3) },
            Token::Tuple { len: 2 },
            Token::F32(1.),
            Token::F32(2.),
            Token::TupleEnd,
            Token::Tuple { len: 2 },
            Token::F32(3.),
            Token::F32(4.),
            Token::TupleEnd,
            Token::Tuple { len: 2 },
            Token::F32(5.),
            Token::F32(6.),
            Token::TupleEnd,
            Token::SeqEnd,
        ],
    );
}

#[test]
fn test_ser_de_c64() {
    let mut vec = AlignedVec::new(3);
    vec[0] = c64(1., 2.);
    vec[1] = c64(3., 4.);
    vec[2] = c64(5., 6.);

    assert_tokens(
        &Persisted(vec),
        &[
            Token::Seq { len: Some(3) },
            Token::Tuple { len: 2 },
            Token::F64(1.),
            Token::F64(2.),
            Token::TupleEnd,
            Token::Tuple { len: 2 },
            Token::F64(3.),
            Token::F64(4.),
            Token::TupleEnd,
            Token::Tuple { len: 2 },
            Token::F64(5.),
            Token::F64(6.),
            Token::TupleEnd,
            Token::SeqEnd,
        ],
    );
}

#[test]
fn test_ser_de_real() {
    let mut vec = AlignedVec::new(2);
    vec[0] = Real64::stored(1.5);
    vec[1] = Real64::stored(-2.5);

    assert_tokens(
        &Persisted(vec),
        &[Token::Seq { len: Some(2) }, Token::F64(1.5), Token::F64(-2.5), Token::SeqEnd],
    );

    let mut vec = AlignedVec::new(1);
    vec[0] = Real32::stored(0.25);

    assert_tokens(&Persisted(vec), &[Token::Seq { len: Some(1) }, Token::F32(0.25), Token::SeqEnd]);
}

#[test]
fn a_sequence_that_ends_early_is_an_error() {
    assert_de_tokens_error::<Persisted<Complex32>>(
        &[
            Token::Seq { len: Some(3) },
            Token::Tuple { len: 2 },
            Token::F32(1.),
            Token::F32(2.),
            Token::TupleEnd,
            Token::Tuple { len: 2 },
            Token::F32(3.),
            Token::F32(4.),
            Token::TupleEnd,
            Token::SeqEnd,
        ],
        "Failed to retrieve the next element",
    );
}

#[test]
fn a_sequence_without_a_length_is_an_error() {
    assert_de_tokens_error::<Persisted<Complex64>>(
        &[Token::Seq { len: None }, Token::SeqEnd],
        "Failed to retrieve the size of the AlignedVec.",
    );
}

#[test]
fn from_sequence_round_trip() {
    let mut vec = AlignedVec::<Complex32>::new(3);
    vec[0] = c32(1., 2.);
    vec[1] = c32(3., 4.);
    vec[2] = c32(5., 6.);

    let hint = vec.size_hint();
    assert_eq!(hint, Some(3));
    let items: Vec<Complex32> = vec.as_slice().to_vec();
    let back = AlignedVec::from_sequence(hint, &items);
    assert!(back.is_ok());
    let back = back.unwrap();
    assert!(back == vec);
    assert_eq!(back.len(), 3);
    assert_eq!(back[2].plain(), num_complex::Complex32::new(5., 6.));
}

#[test]
fn from_sequence_fails_after_two_of_three() {
    let items = vec![c32(1., 2.), c32(3., 4.)];
    let back = AlignedVec::from_sequence(Some(3), &items);
    assert_eq!(back.err(), Some(SerializationFormatError::MissingElement));
    let none: Vec<Complex32> = Vec::new();
    let back = AlignedVec::from_sequence(Some(1), &none);
    assert_eq!(back.err(), Some(SerializationFormatError::MissingElement));
}

#[test]
fn from_sequence_needs_the_length_first() {
    let items = vec![c64(1., 2.), c64(3., 4.)];
    let back = AlignedVec::from_sequence(None, &items);
    assert_eq!(back.err(), Some(SerializationFormatError::MissingSizeHint));
    let none: Vec<Complex64> = Vec::new();
    let back = AlignedVec::from_sequence(None, &none);
    assert_eq!(back.err(), Some(SerializationFormatError::MissingSizeHint));
}

#[test]
fn from_sequence_reads_no_more_than_was_announced() {
    let items = vec![Real64::stored(1.), Real64::stored(2.), Real64::stored(3.)];
    let back = AlignedVec::from_sequence(Some(2), &items).unwrap();
    assert_eq!(back.len(), 2);
    assert_eq!(back[0].plain(), 1.);
    assert_eq!(back[1].plain(), 2.);
    let back = AlignedVec::from_sequence(Some(0), &items).unwrap();
    assert_eq!(back.len(), 0);
}

#[test]
fn decoding_takes_the_samples_one_by_one() {
    let state = Decoding::<Real32>::begin(Some(2)).unwrap();
    let decoder = match state {
        Decoding::NeedElement(decoder) => decoder,
        Decoding::Complete(_) => panic!("two samples are still to come"),
    };
    let state = decoder.accept(Some(Real32::stored(1.))).unwrap();
    let decoder = match state {
        Decoding::NeedElement(decoder) => decoder,
        Decoding::Complete(_) => panic!("one sample is still to come"),
    };
    let state = decoder.accept(Some(Real32::stored(2.))).unwrap();
    match state {
        Decoding::NeedElement(_) => panic!("both samples have arrived"),
        Decoding::Complete(buffer) => {
            assert_eq!(buffer.len(), 2);
            assert_eq!(buffer[0].plain(), 1.);
            assert_eq!(buffer[1].plain(), 2.);
        }
    }
}

#[test]
fn decoding_ends_at_once_for_an_empty_sequence() {
    assert!(matches!(Decoding::<Real32>::begin(Some(0)), Ok(Decoding::Complete(_))));
    assert!(matches!(Decoding::<Real32>::begin(Some(1)), Ok(Decoding::NeedElement(_))));
    assert!(matches!(
        Decoding::<Real32>::begin(None),
        Err(SerializationFormatError::MissingSizeHint)
    ));
}

#[test]
fn decoding_fails_at_the_end_of_the_sequence() {
    let state = Decoding::<Real64>::begin(Some(1)).unwrap();
    match state {
        Decoding::NeedElement(decoder) => {
            assert!(matches!(decoder.accept(None), Err(SerializationFormatError::MissingElement)));
        }
        Decoding::Complete(_) => panic!("one sample is still to come"),
    }
}

#[test]
fn format_errors_have_their_texts() {
    assert_eq!(
        SerializationFormatError::MissingSizeHint.message(),
        "Failed to retrieve the size of the AlignedVec."
    );
    assert_eq!(
        SerializationFormatError::MissingElement.message(),
        "Failed to retrieve the next element"
    );
}
