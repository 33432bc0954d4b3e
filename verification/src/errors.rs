//! The error taxonomy of the messaging core.
//!
//! Every fallible operation returns a discriminated result; none of the
//! operations of this core panic on ordinary runtime conditions.

use vstd::prelude::*;

verus! {

/// Why a loan could not be served.
#[derive(Clone, Copy, PartialEq, Eq, Structural, Debug)]
pub enum LoanError {
    /// No free chunk of sufficient size is left in the pool.  Recoverable:
    /// the caller may retry after other samples were sent or released.
    PoolExhausted,
    /// The requested slice length exceeds the pool's configured maximum
    /// slice length.  A configuration error of the caller; not retryable
    /// without reconfiguring the publisher.
    InvalidLength,
}

/// Why a send could not be performed.
#[derive(Clone, Copy, PartialEq, Eq, Structural, Debug)]
pub enum SendError {
    /// The underlying transport reported no deliverable path.  Zero connected
    /// subscribers is not a failure — it resolves to a delivered count of
    /// zero.
    SendFailed,
}

/// Why a node could not be created.
#[derive(Clone, Copy, PartialEq, Eq, Structural, Debug)]
pub enum NodeCreationError {
    /// The registry entry could not be written.  Fatal to node creation.
    RegistrationFailed,
}

} // verus!
