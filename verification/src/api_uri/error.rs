//! Error raised while assembling an API URI.

use vstd::prelude::*;

verus! {

/// The parts handed to a URI builder do not form a valid absolute URI.
#[derive(Debug, Clone, Copy, PartialEq, Eq, Structural)]
pub struct InvalidApiUriError;

impl InvalidApiUriError {
    /// Human-readable description of the error.
    pub fn message(&self) -> (text: &'static str)
        ensures
            text@ == "Invalid API URI"@,
    {
        "Invalid API URI"
    }
}

} // verus!
