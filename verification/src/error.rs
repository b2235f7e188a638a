//! The ways a call can fail.

use vstd::prelude::*;

verus! {

/// Why a call was turned down. A call that is turned down leaves everything as it was.
#[derive(Clone, Copy, Debug, PartialEq, Eq, Structural)]
pub enum MessageError {
    /// An identity that has to sign the call did not.
    AuthenticationError,
    /// No slot could be reserved: the slot already holds a record, or the author
    /// cannot pay what the allocator charges.
    AllocationError,
    /// The content does not fit into the space that a slot has.
    CapacityError,
    /// The slot holds no record to rewrite.
    NotFoundError,
    /// The host's clock could not be read, so the call has no time to stamp.
    ClockUnavailable,
}

/// The answer of a call that was turned down for `error`.
pub open spec fn refused(error: MessageError) -> Result<(), MessageError> {
    Err(error)
}

} // verus!
