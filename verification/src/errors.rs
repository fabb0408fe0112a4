//! The error taxonomy of the fetch pipeline: transport failures, non-success
//! HTTP statuses (carrying the status text) and malformed response bodies.

use vstd::prelude::*;

verus! {

/// A failure of a registry, listing or download call. Per-asset metadata
/// lookups never produce one: their failures are downgraded to absence.
#[derive(Debug)]
pub enum FetchError {
    /// The request could not be sent or its body could not be read.
    Transport(String),
    /// The call returned a non-success HTTP status; the payload is the
    /// status text, e.g. `404 Not Found`.
    Status(String),
    /// A response body that must parse (collection list, asset listing)
    /// did not.
    MalformedResponse,
}

impl FetchError {
    /// A human-readable description, in place of a `Display` impl.
    pub fn message(&self) -> (r: String)
        ensures
            match self {
                FetchError::Transport(t) => r@ == t@,
                FetchError::Status(t) => r@ == t@,
                FetchError::MalformedResponse => r@ == "malformed response body"@,
            },
    {
        match self {
            FetchError::Transport(t) => t.clone(),
            FetchError::Status(t) => t.clone(),
            FetchError::MalformedResponse => "malformed response body".to_owned(),
        }
    }
}

} // verus!
