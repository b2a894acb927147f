//! The token verifiers that an app hands out.

use vstd::prelude::*;

verus! {

/// Where the public keys for ID tokens are published.
pub const GOOGLE_PUB_KEY_URI: &'static str =
    "https://www.googleapis.com/robot/v1/metadata/x509/securetoken@system.gserviceaccount.com";

/// Where the public keys for session cookies are published.
pub const GOOGLE_COOKIE_PUB_KEY_URI: &'static str =
    "https://www.googleapis.com/identitytoolkit/v3/relyingparty/publicKeys";

/// Why a token verifier could not be made.
#[derive(Debug, Clone, Copy, PartialEq, Eq, Structural)]
pub enum TokenVerificationError {
    /// The public keys could not be fetched.
    FailedGettingKeys,
}

/// What a live verifier checks tokens of.
#[derive(Debug, Clone, Copy, PartialEq, Eq, Structural)]
pub enum TokenKind {
    IdToken,
    SessionCookie,
}

impl TokenKind {
    /// Where the public keys for this kind of token are published.
    pub fn key_uri(&self) -> (uri: &'static str)
        ensures
            uri == match *self {
                TokenKind::IdToken => GOOGLE_PUB_KEY_URI,
                TokenKind::SessionCookie => GOOGLE_COOKIE_PUB_KEY_URI,
            },
    {
        match self {
            TokenKind::IdToken => GOOGLE_PUB_KEY_URI,
            TokenKind::SessionCookie => GOOGLE_COOKIE_PUB_KEY_URI,
        }
    }
}

/// Verifier of the unsigned tokens that an emulator issues for a project.
#[derive(Debug)]
pub struct EmulatedTokenVerifier {
    project_id: String,
}

impl EmulatedTokenVerifier {
    pub closed spec fn project_id_of(&self) -> Seq<char> {
        self.project_id@
    }

    pub fn new(project_id: String) -> (verifier: Self)
        ensures
            verifier.project_id_of() == project_id@,
    {
        Self { project_id }
    }

    pub fn project_id(&self) -> (project_id: &str)
        ensures
            project_id@ == self.project_id_of(),
    {
        self.project_id.as_str()
    }
}

/// Verifier of the signed tokens of a live project, bound to the cache that
/// holds the public keys.
#[derive(Debug)]
pub struct LiveTokenVerifier<CacheT> {
    project_id: String,
    kind: TokenKind,
    key_cache: CacheT,
}

impl<CacheT> LiveTokenVerifier<CacheT> {
    pub closed spec fn project_id_of(&self) -> Seq<char> {
        self.project_id@
    }

    pub closed spec fn kind_of(&self) -> TokenKind {
        self.kind
    }

    pub closed spec fn key_cache_of(&self) -> CacheT {
        self.key_cache
    }

    /// Verifier of ID tokens
    pub fn new_id_verifier(project_id: String, key_cache: CacheT) -> (verifier: Self)
        ensures
            verifier.project_id_of() == project_id@,
            verifier.kind_of() == TokenKind::IdToken,
            verifier.key_cache_of() == key_cache,
    {
        Self { project_id, kind: TokenKind::IdToken, key_cache }
    }

    /// Verifier of session cookies
    pub fn new_cookie_verifier(project_id: String, key_cache: CacheT) -> (verifier: Self)
        ensures
            verifier.project_id_of() == project_id@,
            verifier.kind_of() == TokenKind::SessionCookie,
            verifier.key_cache_of() == key_cache,
    {
        Self { project_id, kind: TokenKind::SessionCookie, key_cache }
    }

    pub fn project_id(&self) -> (project_id: &str)
        ensures
            project_id@ == self.project_id_of(),
    {
        self.project_id.as_str()
    }

    pub fn kind(&self) -> (kind: TokenKind)
        ensures
            kind == self.kind_of(),
    {
        self.kind
    }

    pub fn key_cache(&self) -> (key_cache: &CacheT)
        ensures
            *key_cache == self.key_cache_of(),
    {
        &self.key_cache
    }
}

} // verus!
