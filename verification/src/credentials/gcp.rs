//! Credentials of an app that talks to the live services.

use vstd::prelude::*;
use vstd::std_specs::convert::FromSpecImpl;

verus! {

/// Service-account credentials. The provider holds the key material and
/// grants the tokens; it is carried here and never read.
#[derive(Debug)]
pub struct GcpCredentials<ProviderT> {
    pub provider: ProviderT,
}

impl<ProviderT> GcpCredentials<ProviderT> {
    pub fn new(provider: ProviderT) -> (credentials: Self)
        ensures
            credentials.provider == provider,
    {
        Self { provider }
    }
}

impl<ProviderT> From<ProviderT> for GcpCredentials<ProviderT> {
    fn from(provider: ProviderT) -> (credentials: Self) {
        Self { provider }
    }
}

impl<ProviderT> FromSpecImpl<ProviderT> for GcpCredentials<ProviderT> {
    open spec fn obeys_from_spec() -> bool {
        true
    }

    open spec fn from_spec(provider: ProviderT) -> Self {
        Self { provider }
    }
}

} // verus!
