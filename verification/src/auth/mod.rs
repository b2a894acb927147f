//! Firebase Auth: the endpoints of the user-management API, live and
//! emulated.

pub mod token;

use crate::api_uri::uri::{Authority, Scheme};
use crate::api_uri::{ApiUriBuilder, ApiUriBuilderView};
use vstd::prelude::*;
use vstd::string::StringExecFns;

verus! {

/// The authority of the live Auth REST API.
pub open spec fn auth_authority() -> Seq<char> {
    "identitytoolkit.googleapis.com"@
}

/// The OAuth2 scopes that an Auth call needs.
pub open spec fn auth_scopes() -> Seq<Seq<char>> {
    seq![
        "https://www.googleapis.com/auth/cloud-platform"@,
        "https://www.googleapis.com/auth/userinfo.email"@,
    ]
}

/// The path prefix of a project's Auth endpoints on the live API.
pub open spec fn live_auth_prefix(project_id: Seq<char>) -> Seq<char> {
    "/v1/projects/"@ + project_id
}

/// The path prefix of a project's Auth endpoints on an emulator.
pub open spec fn emulated_auth_prefix(project_id: Seq<char>) -> Seq<char> {
    "/identitytoolkit.googleapis.com/v1/projects/"@ + project_id
}

/// The path prefix of a project's administrative endpoints, which only an
/// emulator has.
pub open spec fn emulator_admin_prefix(project_id: Seq<char>) -> Seq<char> {
    "/emulator/v1/projects/"@ + project_id
}

/// The OAuth2 scopes that an Auth call needs.
pub fn firebase_auth_scopes() -> (scopes: Vec<String>)
    ensures
        scopes.deep_view() == auth_scopes(),
{
    let mut scopes: Vec<String> = Vec::new();
    scopes.push("https://www.googleapis.com/auth/cloud-platform".to_owned());
    scopes.push("https://www.googleapis.com/auth/userinfo.email".to_owned());
    assert(scopes.deep_view() =~= auth_scopes());
    scopes
}

/// Firebase Auth manager
#[derive(Debug)]
pub struct FirebaseAuth<ApiHttpClientT> {
    client: ApiHttpClientT,
    auth_uri_builder: ApiUriBuilder,
    emulator_auth_uri_builder: Option<ApiUriBuilder>,
}

impl<ApiHttpClientT> FirebaseAuth<ApiHttpClientT> {
    pub closed spec fn client_of(&self) -> ApiHttpClientT {
        self.client
    }

    pub closed spec fn uri_builder_of(&self) -> ApiUriBuilderView {
        self.auth_uri_builder@
    }

    pub closed spec fn emulator_uri_builder_of(&self) -> Option<ApiUriBuilderView> {
        match self.emulator_auth_uri_builder {
            Some(builder) => Some(builder@),
            None => None,
        }
    }

    /// Create Firebase Auth manager for an emulator that listens at
    /// `emulator_auth`
    pub fn emulated(emulator_auth: Authority, project_id: &str, client: ApiHttpClientT) -> (auth:
        Self)
        ensures
            auth.client_of() == client,
            auth.uri_builder_of() == (ApiUriBuilderView {
                scheme: Scheme::Http,
                authority: emulator_auth@,
                path_prefix: Some(emulated_auth_prefix(project_id@)),
            }),
            auth.emulator_uri_builder_of() == Some(
                ApiUriBuilderView {
                    scheme: Scheme::Http,
                    authority: emulator_auth@,
                    path_prefix: Some(emulator_admin_prefix(project_id@)),
                },
            ),
    {
        let auth_root = "/identitytoolkit.googleapis.com/v1/projects/".to_owned().concat(
            project_id,
        );
        let admin_root = "/emulator/v1/projects/".to_owned().concat(project_id);
        Self {
            client,
            auth_uri_builder: ApiUriBuilder::new(
                Scheme::Http,
                emulator_auth.clone(),
                Some(auth_root),
            ),
            emulator_auth_uri_builder: Some(
                ApiUriBuilder::new(Scheme::Http, emulator_auth, Some(admin_root)),
            ),
        }
    }

    /// Create Firebase Auth manager for live project
    pub fn live(project_id: &str, client: ApiHttpClientT) -> (auth: Self)
        ensures
            auth.client_of() == client,
            auth.uri_builder_of() == (ApiUriBuilderView {
                scheme: Scheme::Https,
                authority: auth_authority(),
                path_prefix: Some(live_auth_prefix(project_id@)),
            }),
            auth.emulator_uri_builder_of() is None,
    {
        proof {
            reveal_strlit("identitytoolkit.googleapis.com");
        }
        let authority = match Authority::parse("identitytoolkit.googleapis.com") {
            Ok(authority) => authority,
            Err(_) => vstd::pervasive::unreached(),
        };
        let auth_root = "/v1/projects/".to_owned().concat(project_id);
        Self {
            client,
            auth_uri_builder: ApiUriBuilder::new(Scheme::Https, authority, Some(auth_root)),
            emulator_auth_uri_builder: None,
        }
    }

    pub fn get_client(&self) -> (client: &ApiHttpClientT)
        ensures
            *client == self.client_of(),
    {
        &self.client
    }

    pub fn get_auth_uri_builder(&self) -> (builder: &ApiUriBuilder)
        ensures
            builder@ == self.uri_builder_of(),
    {
        &self.auth_uri_builder
    }

    /// The builder of the administrative endpoints: none on a live project.
    pub fn get_emulator_auth_uri_builder(&self) -> (builder: Option<&ApiUriBuilder>)
        ensures
            builder is Some == self.emulator_uri_builder_of() is Some,
            builder matches Some(b) ==> Some(b@) == self.emulator_uri_builder_of(),
    {
        match &self.emulator_auth_uri_builder {
            Some(builder) => Some(builder),
            None => None,
        }
    }
}

} // verus!
