//! Failure taxonomy of the repository layer.
//!
//! Every store failure is one tagged `StoreFault`; the router maps all of
//! them to the same status today, but the taxonomy keeps finer handling
//! possible without changing the wire contract.

use vstd::prelude::*;

verus! {

/// Sub-kinds of a store failure. The router collapses all of them to one
/// HTTP status; the tags exist so finer-grained handling can be added at
/// the repository boundary without touching the wire contract.
#[derive(Clone, Copy, PartialEq, Eq, Structural)]
pub enum StoreFault {
    /// Connectivity to the store was lost or could not be established.
    ConnectionLost,
    /// The store rejected the statement for violating a constraint.
    ConstraintViolation,
    /// The store did not answer in time.
    Timeout,
    /// Any other store-reported failure.
    Other,
}

/// Rejection of a request body by the validation policy. The baseline
/// policy accepts every body, so it never produces a value of this type;
/// the type exists so a stricter policy can reject without new wiring.
#[derive(Clone, Copy, PartialEq, Eq, Structural)]
pub enum ValidationError {
    /// The body was rejected by the policy in force.
    Rejected,
}

/// Outcome taxonomy of a repository operation that can fail.
#[derive(Clone, Copy, PartialEq, Eq, Structural)]
pub enum RepoError {
    /// A single-row lookup matched zero rows. Surfaced only by
    /// select-by-id; mapped to HTTP 404.
    NotFound,
    /// The store reported a failure. Mapped to HTTP 500 for all five
    /// operations.
    Store(StoreFault),
}

} // verus!
