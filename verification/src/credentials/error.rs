//! Failures of the credentials.

use vstd::prelude::*;

verus! {

/// Why the credentials could not be used.
#[derive(Debug, Clone, Copy, PartialEq, Eq, Structural)]
pub enum CredentialsError {
    /// The project identifier or the key material could not be resolved.
    Internal,
}

impl CredentialsError {
    /// Human-readable description of the error.
    pub fn message(&self) -> (text: &'static str)
        ensures
            text@ == "Failed to resolve the credentials"@,
    {
        "Failed to resolve the credentials"
    }
}

} // verus!
