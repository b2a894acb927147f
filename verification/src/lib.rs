//! Administrative client core for Firebase services: endpoint URIs, request
//! preparation and the error taxonomy of the authenticated request pipeline.

pub mod api_uri;
pub mod auth;
pub mod client;
pub mod credentials;
pub mod fcm;

use crate::api_uri::uri::{Authority, Scheme};
use crate::api_uri::ApiUriBuilderView;
use crate::auth::token::{EmulatedTokenVerifier, LiveTokenVerifier, TokenKind, TokenVerificationError};
use crate::auth::{emulated_auth_prefix, emulator_admin_prefix, live_auth_prefix, auth_authority, FirebaseAuth};
use crate::client::ApiClient;
use crate::credentials::emulator::EmulatorCredentials;
use crate::credentials::error::CredentialsError;
use crate::credentials::gcp::GcpCredentials;
use crate::fcm::{live_fcm_builder, FirebaseFcm};
use std::sync::Arc;
use vstd::prelude::*;

verus! {

/// Default Firebase Auth admin manager
pub type LiveAuthAdmin<ProviderT> = FirebaseAuth<ApiClient<GcpCredentials<ProviderT>>>;

/// Default Firebase Auth Emulator admin manager
pub type EmulatorAuthAdmin = FirebaseAuth<ApiClient<EmulatorCredentials>>;

/// Default Firebase Cloud Messaging admin manager
pub type LiveFcmAdmin<ProviderT> = FirebaseFcm<ApiClient<GcpCredentials<ProviderT>>>;

/// Makes another handle to the value that `handle` shares, with
/// `Arc::clone`.
#[verifier::external_body]
fn share<T>(handle: &Arc<T>) -> (shared: Arc<T>)
    ensures
        shared == *handle,
{
    Arc::clone(handle)
}

/// Base privileged manager for Firebase
#[derive(Debug)]
pub struct App<CredentialsT> {
    credentials: Arc<CredentialsT>,
    project_id: String,
}

impl<CredentialsT> App<CredentialsT> {
    /// The credentials that every manager of this app shares.
    pub closed spec fn credentials_of(&self) -> Arc<CredentialsT> {
        self.credentials
    }

    /// The identifier of the project, resolved once when the app was made.
    pub closed spec fn project_id_of(&self) -> Seq<char> {
        self.project_id@
    }

    pub fn credentials(&self) -> (credentials: &Arc<CredentialsT>)
        ensures
            *credentials == self.credentials_of(),
    {
        &self.credentials
    }

    pub fn project_id(&self) -> (project_id: &str)
        ensures
            project_id@ == self.project_id_of(),
    {
        self.project_id.as_str()
    }
}

impl App<EmulatorCredentials> {
    /// Firebase app backend by emulator
    pub fn emulated(project_id: String) -> (app: Self)
        ensures
            app.project_id_of() == project_id@,
    {
        Self { credentials: Arc::new(EmulatorCredentials {  }), project_id }
    }

    /// Firebase authentication manager for emulator
    pub fn auth(&self, emulator_auth: Authority) -> (auth: EmulatorAuthAdmin)
        ensures
            auth.client_of().credentials_of() == self.credentials_of(),
            auth.uri_builder_of() == (ApiUriBuilderView {
                scheme: Scheme::Http,
                authority: emulator_auth@,
                path_prefix: Some(emulated_auth_prefix(self.project_id_of())),
            }),
            auth.emulator_uri_builder_of() == Some(
                ApiUriBuilderView {
                    scheme: Scheme::Http,
                    authority: emulator_auth@,
                    path_prefix: Some(emulator_admin_prefix(self.project_id_of())),
                },
            ),
    {
        let client = ApiClient::new(share(&self.credentials));
        FirebaseAuth::emulated(emulator_auth, self.project_id.as_str(), client)
    }

    /// OIDC token verifier for emulator
    pub fn id_token_verifier(&self) -> (verifier: EmulatedTokenVerifier)
        ensures
            verifier.project_id_of() == self.project_id_of(),
    {
        EmulatedTokenVerifier::new(self.project_id.clone())
    }
}

impl<ProviderT> App<GcpCredentials<ProviderT>> {
    /// Create instance of Firebase app for live project from the outcome of
    /// resolving the project identifier of `credentials`.
    pub fn live<ErrorT>(credentials: GcpCredentials<ProviderT>, project_id: Result<
        String,
        ErrorT,
    >) -> (app: Result<Self, CredentialsError>)
        ensures
            app is Ok <==> project_id is Ok,
            app matches Err(e) ==> e == CredentialsError::Internal,
            app matches Ok(live) ==> {
                &&& *live.credentials_of() == credentials
                &&& project_id matches Ok(id)
                &&& live.project_id_of() == id@
            },
    {
        Self::live_shared(Arc::new(credentials), project_id)
    }

    /// Create instance of Firebase app for live project around credentials
    /// that are shared already. The app exists only where the project
    /// identifier was resolved; it keeps the identifier for its lifetime.
    pub fn live_shared<ErrorT>(credentials: Arc<GcpCredentials<ProviderT>>, project_id: Result<
        String,
        ErrorT,
    >) -> (app: Result<Self, CredentialsError>)
        ensures
            app is Ok <==> project_id is Ok,
            app matches Err(e) ==> e == CredentialsError::Internal,
            app matches Ok(live) ==> {
                &&& live.credentials_of() == credentials
                &&& project_id matches Ok(id)
                &&& live.project_id_of() == id@
            },
    {
        match project_id {
            Ok(project_id) => Ok(Self { credentials, project_id }),
            Err(_) => Err(CredentialsError::Internal),
        }
    }

    /// Create Firebase authentication manager
    pub fn auth(&self) -> (auth: LiveAuthAdmin<ProviderT>)
        ensures
            auth.client_of().credentials_of() == self.credentials_of(),
            auth.uri_builder_of() == (ApiUriBuilderView {
                scheme: Scheme::Https,
                authority: auth_authority(),
                path_prefix: Some(live_auth_prefix(self.project_id_of())),
            }),
            auth.emulator_uri_builder_of() is None,
    {
        let client = ApiClient::new(share(&self.credentials));
        FirebaseAuth::live(self.project_id.as_str(), client)
    }

    /// Create Firebase FCM manager
    pub fn fcm(&self) -> (fcm: LiveFcmAdmin<ProviderT>)
        ensures
            fcm.client_of().credentials_of() == self.credentials_of(),
            fcm.uri_builder_of() == live_fcm_builder(self.project_id_of()),
    {
        let client = ApiClient::new(share(&self.credentials));
        FirebaseFcm::live(self.project_id.as_str(), client)
    }

    /// Create OIDC token verifier from the outcome of fetching the public
    /// keys for ID tokens.
    pub fn id_token_verifier<CacheT, ErrorT>(&self, key_cache: Result<CacheT, ErrorT>) -> (verifier:
        Result<LiveTokenVerifier<CacheT>, TokenVerificationError>)
        ensures
            verifier is Ok <==> key_cache is Ok,
            verifier matches Err(e) ==> e == TokenVerificationError::FailedGettingKeys,
            verifier matches Ok(v) ==> {
                &&& v.project_id_of() == self.project_id_of()
                &&& v.kind_of() == TokenKind::IdToken
                &&& key_cache matches Ok(cache)
                &&& v.key_cache_of() == cache
            },
    {
        match key_cache {
            Ok(cache) => Ok(LiveTokenVerifier::new_id_verifier(self.project_id.clone(), cache)),
            Err(_) => Err(TokenVerificationError::FailedGettingKeys),
        }
    }

    /// Create cookie token verifier from the outcome of fetching the public
    /// keys for session cookies.
    pub fn cookie_token_verifier<CacheT, ErrorT>(&self, key_cache: Result<CacheT, ErrorT>) -> (verifier:
        Result<LiveTokenVerifier<CacheT>, TokenVerificationError>)
        ensures
            verifier is Ok <==> key_cache is Ok,
            verifier matches Err(e) ==> e == TokenVerificationError::FailedGettingKeys,
            verifier matches Ok(v) ==> {
                &&& v.project_id_of() == self.project_id_of()
                &&& v.kind_of() == TokenKind::SessionCookie
                &&& key_cache matches Ok(cache)
                &&& v.key_cache_of() == cache
            },
    {
        match key_cache {
            Ok(cache) => Ok(
                LiveTokenVerifier::new_cookie_verifier(self.project_id.clone(), cache),
            ),
            Err(_) => Err(TokenVerificationError::FailedGettingKeys),
        }
    }
}

} // verus!
