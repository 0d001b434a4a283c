//! The failures that the services tell apart.

use vstd::prelude::*;

verus! {

/// Why an operation did not succeed. `NotFound` and `Conflict` are refusals
/// by the rules of the protocol; `Internal` and `Unavailable` are failures of
/// what the operation depends on.
#[derive(Debug)]
pub enum ServiceError {
    /// The driver or card that the request names is not in the store.
    NotFound,
    /// The card already has an active record in the permanent registry.
    Conflict,
    /// The store or the transport failed; the text is its diagnostic.
    Internal(String),
    /// The operation needs the real-time layer, and none is configured.
    Unavailable,
}

impl ServiceError {
    /// The failure is a refusal by the rules of the protocol, which a caller
    /// is told in an ordinary response.
    pub open spec fn is_refusal(self) -> bool {
        self is NotFound || self is Conflict
    }

    /// Tells whether the failure is a refusal by the rules of the protocol.
    pub fn refusal(&self) -> (refusal: bool)
        ensures
            refusal == self.is_refusal(),
    {
        match self {
            ServiceError::NotFound => true,
            ServiceError::Conflict => true,
            _ => false,
        }
    }
}

} // verus!
