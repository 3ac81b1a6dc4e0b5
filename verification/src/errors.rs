//! The error taxonomy of the provisioning workflow.

use vstd::prelude::*;

verus! {

/// Every way a provisioning step can fail.
///
/// - `TransportError`: the HTTP layer failed; polls may be retried a bounded
///   number of times, mutating submits surface it immediately.
/// - `DecodeError`: a response body did not match the operation shape; fatal
///   for the step, never retried.
/// - `MalformedUrl`: a self-link did not parse or lacked the expected path
///   segments; fatal, it indicates a construction bug.
/// - `Timeout`: an operation never reached its terminal status within the
///   overall deadline.
/// - `CredentialError`: no bearer token could be obtained; nothing proceeds.
#[derive(Clone, Copy, Debug, PartialEq, Eq, Structural)]
pub enum LroError {
    TransportError,
    DecodeError,
    MalformedUrl,
    Timeout,
    CredentialError,
}

impl LroError {
    /// A short human-readable description of the error.
    pub fn describe(&self) -> (r: &'static str)
        ensures
            r@ == self.spec_describe(),
    {
        match self {
            LroError::TransportError => "transport failure",
            LroError::DecodeError => "response did not decode as an operation",
            LroError::MalformedUrl => "malformed self-link",
            LroError::Timeout => "operation did not finish before the deadline",
            LroError::CredentialError => "could not obtain a credential",
        }
    }

    /// What `describe` returns for each variant.
    pub open spec fn spec_describe(self) -> Seq<char> {
        match self {
            LroError::TransportError => "transport failure"@,
            LroError::DecodeError => "response did not decode as an operation"@,
            LroError::MalformedUrl => "malformed self-link"@,
            LroError::Timeout => "operation did not finish before the deadline"@,
            LroError::CredentialError => "could not obtain a credential"@,
        }
    }
}

} // verus!
