//! The error taxonomy: one error kind per interface group, one variant
//! per endpoint, each carrying a human-readable diagnostic message.
//!
//! Every failure of a call — a transport failure as much as a malformed
//! payload — collapses into the variant of the endpoint that made the
//! call. There is no lower layer that recovers: an error is terminal for
//! the call that produced it and is surfaced directly to the caller.

use vstd::prelude::*;

verus! {

/// Failures of the published-file-service endpoints.
#[derive(Debug, Clone, PartialEq)]
pub enum PublishedFileServiceError {
    /// A failure of the `QueryFiles` endpoint.
    QueryFiles(String),
    /// A failure of the `GetDetails` endpoint.
    GetDetails(String),
}

impl PublishedFileServiceError {
    /// The diagnostic message the error carries.
    pub fn message(&self) -> (r: &str)
        ensures
            (match self {
                PublishedFileServiceError::QueryFiles(m) => r@ == m@,
                PublishedFileServiceError::GetDetails(m) => r@ == m@,
            }),
    {
        match self {
            PublishedFileServiceError::QueryFiles(m) => m.as_str(),
            PublishedFileServiceError::GetDetails(m) => m.as_str(),
        }
    }
}

} // verus!
