//! Fixed-length, zero-initialised buffers of real and complex samples, as
//! FFTW takes them.
//!
//! - [`array`]: the buffer itself, [`array::AlignedVec`].
//! - [`element`]: the four sample types.
//! - [`strategy`]: which allocation primitive of FFTW serves which sample
//!   type.
//! - [`gateway`]: what to ask of the allocator, and what to make of its
//!   answer.
//! - [`sequence`]: a buffer as a plain sequence of samples, for storing it
//!   and for building it again.
//! - [`laws`]: what holds of the equality of buffers.
//! - [`error`]: the failures.
//!
//! Nothing here calls FFTW or touches memory by address. A buffer keeps its
//! samples in storage of its own; a caller that needs them in a block from
//! FFTW's allocator asks [`gateway`] what to request, makes the call, and
//! copies.

pub mod array;
pub mod element;
pub mod error;
pub mod gateway;
pub mod laws;
pub mod sequence;
pub mod strategy;
