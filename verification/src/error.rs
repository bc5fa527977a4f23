//! What can go wrong around a buffer.

use vstd::prelude::*;

verus! {

/// Why a sequence of samples could not be turned into a buffer.
#[derive(Clone, Copy, Debug, PartialEq, Eq, Structural)]
pub enum SerializationFormatError {
    /// The sequence did not say in advance how many samples it holds.
    MissingSizeHint,
    /// The sequence ended before it had given as many samples as it said.
    MissingElement,
}

/// Why no block was obtained from the allocator. Either way the operation
/// that asked for the block ends: nothing is retried, and no other block
/// stands in for the one that was asked for.
#[derive(Clone, Copy, Debug, PartialEq, Eq, Structural)]
pub enum GatewayError {
    /// The allocator could not provide the block.
    AllocationFailure,
    /// The lock in front of the allocator is unusable, because a holder of it
    /// failed.
    GatePoisoned,
}

impl SerializationFormatError {
    /// The text of the error.
    pub open spec fn spec_message(self) -> Seq<char> {
        match self {
            SerializationFormatError::MissingSizeHint => "Failed to retrieve the size of the AlignedVec."@,
            SerializationFormatError::MissingElement => "Failed to retrieve the next element"@,
        }
    }

    /// The text of the error.
    pub fn message(&self) -> (text: &'static str)
        ensures
            text@ == self.spec_message(),
    {
        match self {
            SerializationFormatError::MissingSizeHint => "Failed to retrieve the size of the AlignedVec.",
            SerializationFormatError::MissingElement => "Failed to retrieve the next element",
        }
    }
}

impl GatewayError {
    /// The text of the error.
    pub open spec fn spec_message(self) -> Seq<char> {
        match self {
            GatewayError::AllocationFailure => "Cannot allocate the aligned block"@,
            GatewayError::GatePoisoned => "Cannot get lock"@,
        }
    }

    /// The text of the error.
    pub fn message(&self) -> (text: &'static str)
        ensures
            text@ == self.spec_message(),
    {
        match self {
            GatewayError::AllocationFailure => "Cannot allocate the aligned block",
            GatewayError::GatePoisoned => "Cannot get lock",
        }
    }
}

} // verus!
