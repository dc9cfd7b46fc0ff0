//! The error taxonomy every remote operation reports.

use vstd::prelude::*;

verus! {

/// Classification of everything that can go wrong during a remote
/// operation. Every failure is returned to the caller; none is
/// swallowed, none aborts the process.
#[derive(Debug)]
pub enum SyncError {
    /// The transport could not deliver the request or the response
    /// (network, timeout, connection failure). Carries the transport's
    /// own description of the failure.
    TransportError(String),
    /// The response arrived with a success status but its body does not
    /// have the expected shape. Carries the offending body text.
    DecodeError(String),
    /// The remote endpoint answered with a non-success status. Carries
    /// the raw response body verbatim, so server-supplied diagnostics
    /// reach the caller unaltered.
    ServiceError(String),
}

impl SyncError {
    /// The diagnostic text the error carries.
    pub open spec fn spec_text(self) -> Seq<char> {
        match self {
            SyncError::TransportError(t) => t@,
            SyncError::DecodeError(t) => t@,
            SyncError::ServiceError(t) => t@,
        }
    }

    /// The diagnostic text the error carries.
    pub fn text(&self) -> (r: &String)
        ensures
            r@ == self.spec_text(),
    {
        match self {
            SyncError::TransportError(t) => t,
            SyncError::DecodeError(t) => t,
            SyncError::ServiceError(t) => t,
        }
    }
}

} // verus!
