//! Credentials of an app that talks to a local emulator.

use vstd::prelude::*;

verus! {

/// Credentials without key material: calls against an emulator are
/// unauthenticated.
#[derive(Debug, Clone, Copy, PartialEq, Eq, Structural, Default)]
pub struct EmulatorCredentials {}

impl EmulatorCredentials {
    /// The token that these credentials grant for `scopes`: always none.
    pub open spec fn granted(self, scopes: Seq<Seq<char>>) -> Option<Seq<char>> {
        None
    }

    /// Asks for a token that is valid for `scopes`. An emulator needs none,
    /// whatever the scopes.
    pub fn token_for(&self, scopes: &Vec<String>) -> (token: Option<String>)
        ensures
            token is None,
            self.granted(scopes.deep_view()) is None,
    {
        None
    }
}

} // verus!
