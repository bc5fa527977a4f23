//! The decisions around a call of the aligned allocator: what to ask of it,
//! and what to make of its answer.
//!
//! The call itself is not made here, nor is the lock held here that keeps
//! such calls apart. Whoever makes the call takes that lock, asks for `count`
//! samples from `primitive` while holding it, and reports what happened.

use vstd::prelude::*;
use crate::error::GatewayError;
use crate::strategy::AlignedAllocable;
use crate::strategy::AllocPrimitive;

verus! {

/// A request for one block.
#[derive(Clone, Copy, Debug, PartialEq, Eq, Structural)]
pub struct AllocRequest {
    /// The primitive to call.
    pub primitive: AllocPrimitive,
    /// The number of samples to ask for.
    pub count: usize,
    /// The size of the block in bytes.
    pub bytes: usize,
}

/// What happened when a request was put to the allocator.
#[derive(Clone, Copy, Debug, PartialEq, Eq, Structural)]
pub enum AllocAnswer {
    /// The lock could not be taken, because a holder of it had failed. The
    /// allocator was not called.
    LockPoisoned,
    /// The allocator was called and gave a null pointer.
    Null,
    /// The allocator was called and gave a block.
    Block,
}

impl AllocRequest {
    /// The request for a block of `n` samples of type `T`.
    pub open spec fn spec_plan<T: AlignedAllocable>(n: usize) -> Result<AllocRequest, GatewayError> {
        let primitive = T::primitive_spec();
        let bytes = primitive.spec_block_bytes(n as nat);
        if bytes <= usize::MAX {
            Ok(AllocRequest { primitive, count: n, bytes: bytes as usize })
        } else {
            Err(GatewayError::AllocationFailure)
        }
    }

    /// What the answer to this request means. A poisoned lock is a failure:
    /// the allocator is never called without the lock. A null pointer is a
    /// failure of the allocation, except where no sample was asked for.
    pub open spec fn spec_outcome(self, answer: AllocAnswer) -> Result<(), GatewayError> {
        match answer {
            AllocAnswer::LockPoisoned => Err(GatewayError::GatePoisoned),
            AllocAnswer::Null => if self.count > 0 {
                Err(GatewayError::AllocationFailure)
            } else {
                Ok(())
            },
            AllocAnswer::Block => Ok(()),
        }
    }

    /// The request for a block of `n` samples of type `T`. A block whose size
    /// in bytes is more than the allocator's size argument can express is
    /// not asked for: that is a failure of the allocation.
    pub fn plan<T: AlignedAllocable>(n: usize) -> (r: Result<AllocRequest, GatewayError>)
        ensures
            r == Self::spec_plan::<T>(n),
    {
        let primitive = T::primitive();
        match primitive.block_bytes(n) {
            Some(bytes) => Ok(AllocRequest { primitive, count: n, bytes }),
            None => Err(GatewayError::AllocationFailure),
        }
    }

    /// Judges the answer to this request.
    pub fn outcome(&self, answer: AllocAnswer) -> (r: Result<(), GatewayError>)
        ensures
            r == self.spec_outcome(answer),
    {
        match answer {
            AllocAnswer::LockPoisoned => Err(GatewayError::GatePoisoned),
            AllocAnswer::Null => if self.count > 0 {
                Err(GatewayError::AllocationFailure)
            } else {
                Ok(())
            },
            AllocAnswer::Block => Ok(()),
        }
    }
}

} // verus!
