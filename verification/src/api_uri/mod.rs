//! API URI builder interface and API path definitions

pub mod error;
pub mod uri;

use crate::api_uri::error::InvalidApiUriError;
use crate::api_uri::uri::{
    is_blank_or_control, is_path_and_query, is_plainly_malformed, is_well_formed_path, leading_len,
    lemma_leading_len, lemma_plain_text_is_path, lemma_well_formed_path_is_kept, uri_of_parts,
    Authority, Scheme, Uri, UriView,
};
use vstd::prelude::*;
use vstd::std_specs::convert::FromSpecImpl;
use vstd::std_specs::convert::IntoSpec;
use vstd::string::StringExecFns;
use vstd::utf8::is_ascii_chars;

verus! {

/// Firebase Auth admin REST API endpoints
#[derive(Debug, Clone, Copy, PartialEq, Eq, Structural)]
pub enum FirebaseAuthRestApi {
    CreateUser,
    GetUsers,
    ListUsers,
    DeleteUser,
    DeleteUsers,
    UpdateUser,
    ImportUsers,
    CreateSessionCookie,
    SendOobCode,
}

impl FirebaseAuthRestApi {
    /// The path fragment of the endpoint.
    pub open spec fn fragment(self) -> &'static str {
        match self {
            FirebaseAuthRestApi::CreateUser => "/accounts",
            FirebaseAuthRestApi::GetUsers => "/accounts:lookup",
            FirebaseAuthRestApi::ListUsers => "/accounts:batchGet",
            FirebaseAuthRestApi::DeleteUser => "/accounts:delete",
            FirebaseAuthRestApi::DeleteUsers => "/accounts:batchDelete",
            FirebaseAuthRestApi::UpdateUser => "/accounts:update",
            FirebaseAuthRestApi::ImportUsers => "/accounts:batchCreate",
            FirebaseAuthRestApi::CreateSessionCookie => ":createSessionCookie",
            FirebaseAuthRestApi::SendOobCode => "/accounts:sendOobCode",
        }
    }

    /// The path fragment of the endpoint.
    pub fn path(self) -> (fragment: &'static str)
        ensures
            fragment == self.fragment(),
    {
        match self {
            FirebaseAuthRestApi::CreateUser => "/accounts",
            FirebaseAuthRestApi::GetUsers => "/accounts:lookup",
            FirebaseAuthRestApi::ListUsers => "/accounts:batchGet",
            FirebaseAuthRestApi::DeleteUser => "/accounts:delete",
            FirebaseAuthRestApi::DeleteUsers => "/accounts:batchDelete",
            FirebaseAuthRestApi::UpdateUser => "/accounts:update",
            FirebaseAuthRestApi::ImportUsers => "/accounts:batchCreate",
            FirebaseAuthRestApi::CreateSessionCookie => ":createSessionCookie",
            FirebaseAuthRestApi::SendOobCode => "/accounts:sendOobCode",
        }
    }
}

impl From<FirebaseAuthRestApi> for &'static str {
    fn from(path: FirebaseAuthRestApi) -> (fragment: Self) {
        path.path()
    }
}

impl FromSpecImpl<FirebaseAuthRestApi> for &'static str {
    open spec fn obeys_from_spec() -> bool {
        true
    }

    open spec fn from_spec(path: FirebaseAuthRestApi) -> Self {
        path.fragment()
    }
}

/// Firebase Cloud Messaging REST API endpoints
#[derive(Debug, Clone, Copy, PartialEq, Eq, Structural)]
pub enum FirebaseFcmRestApi {
    SendMessage,
}

impl FirebaseFcmRestApi {
    /// The path fragment of the endpoint.
    pub open spec fn fragment(self) -> &'static str {
        match self {
            FirebaseFcmRestApi::SendMessage => "/messages:send",
        }
    }

    /// The path fragment of the endpoint.
    pub fn path(self) -> (fragment: &'static str)
        ensures
            fragment == self.fragment(),
    {
        match self {
            FirebaseFcmRestApi::SendMessage => "/messages:send",
        }
    }
}

impl From<FirebaseFcmRestApi> for &'static str {
    fn from(path: FirebaseFcmRestApi) -> (fragment: Self) {
        path.path()
    }
}

impl FromSpecImpl<FirebaseFcmRestApi> for &'static str {
    open spec fn obeys_from_spec() -> bool {
        true
    }

    open spec fn from_spec(path: FirebaseFcmRestApi) -> Self {
        path.fragment()
    }
}

/// Firebase Auth emulator admin REST API endpoints
#[derive(Debug, Clone, Copy, PartialEq, Eq, Structural)]
pub enum FirebaseAuthEmulatorRestApi {
    ClearUserAccounts,
    Configuration,
    OobCodes,
    SmsVerificationCodes,
}

impl FirebaseAuthEmulatorRestApi {
    /// The path fragment of the endpoint.
    pub open spec fn fragment(self) -> &'static str {
        match self {
            FirebaseAuthEmulatorRestApi::ClearUserAccounts => "/accounts",
            FirebaseAuthEmulatorRestApi::Configuration => "/config",
            FirebaseAuthEmulatorRestApi::OobCodes => "/oobCodes",
            FirebaseAuthEmulatorRestApi::SmsVerificationCodes => "/verificationCodes",
        }
    }

    /// The path fragment of the endpoint.
    pub fn path(self) -> (fragment: &'static str)
        ensures
            fragment == self.fragment(),
    {
        match self {
            FirebaseAuthEmulatorRestApi::ClearUserAccounts => "/accounts",
            FirebaseAuthEmulatorRestApi::Configuration => "/config",
            FirebaseAuthEmulatorRestApi::OobCodes => "/oobCodes",
            FirebaseAuthEmulatorRestApi::SmsVerificationCodes => "/verificationCodes",
        }
    }
}

impl From<FirebaseAuthEmulatorRestApi> for &'static str {
    fn from(path: FirebaseAuthEmulatorRestApi) -> (fragment: Self) {
        path.path()
    }
}

impl FromSpecImpl<FirebaseAuthEmulatorRestApi> for &'static str {
    open spec fn obeys_from_spec() -> bool {
        true
    }

    open spec fn from_spec(path: FirebaseAuthEmulatorRestApi) -> Self {
        path.fragment()
    }
}

/// What an [`ApiUriBuilder`] holds, as plain values.
pub struct ApiUriBuilderView {
    pub scheme: Scheme,
    pub authority: Seq<char>,
    pub path_prefix: Option<Seq<char>>,
}

impl ApiUriBuilderView {
    /// The path-and-query text for an endpoint: the prefix, if there is one,
    /// directly followed by the endpoint's fragment.
    pub open spec fn target(self, fragment: Seq<char>) -> Seq<char> {
        match self.path_prefix {
            Some(prefix) => prefix + fragment,
            None => fragment,
        }
    }

    /// The URI of an endpoint: none where the prefix and the fragment
    /// together are not a valid path and query.
    pub open spec fn build(self, fragment: Seq<char>) -> Option<UriView> {
        uri_of_parts(self.scheme, self.authority, self.target(fragment))
    }
}

/// Builds the URIs of one API family from its scheme, authority and
/// optional path prefix.
#[derive(Debug)]
pub struct ApiUriBuilder {
    scheme: Scheme,
    authority: Authority,
    path_prefix: Option<String>,
}

impl View for ApiUriBuilder {
    type V = ApiUriBuilderView;

    closed spec fn view(&self) -> ApiUriBuilderView {
        ApiUriBuilderView {
            scheme: self.scheme,
            authority: self.authority@,
            path_prefix: match self.path_prefix {
                Some(prefix) => Some(prefix@),
                None => None,
            },
        }
    }
}

impl Clone for ApiUriBuilder {
    fn clone(&self) -> (copy: Self)
        ensures
            copy@ == self@,
    {
        ApiUriBuilder {
            scheme: self.scheme,
            authority: self.authority.clone(),
            path_prefix: match &self.path_prefix {
                Some(prefix) => Some(prefix.clone()),
                None => None,
            },
        }
    }
}

impl ApiUriBuilder {
    pub fn new(scheme: Scheme, authority: Authority, path_prefix: Option<String>) -> (builder:
        Self)
        ensures
            builder@.scheme == scheme,
            builder@.authority == authority@,
            builder@.path_prefix is Some == path_prefix is Some,
            path_prefix matches Some(prefix) ==> builder@.path_prefix == Some(prefix@),
    {
        Self { scheme, authority, path_prefix }
    }

    /// Resolves an endpoint to its absolute URI. Fails when the prefix and
    /// the endpoint's fragment together are not a valid path and query.
    pub fn build<PathT: Into<&'static str>>(&self, path: PathT) -> (built: Result<
        Uri,
        InvalidApiUriError,
    >)
        ensures
            PathT::obeys_into_spec() ==> {
                let text = self@.target(path.into_spec()@);
                &&& built is Ok <==> self@.build(path.into_spec()@) is Some
                &&& built matches Ok(uri) ==> Some(uri@) == self@.build(path.into_spec()@)
                &&& is_reported(text) ==> built is Err
                &&& is_well_formed_path(text) ==> built is Ok
                &&& built matches Ok(uri) ==> !text.contains('?') ==> {
                    &&& uri@.path == text
                    &&& uri@.query is None
                }
            },
    {
        self.build_path(path.into())
    }

    /// Resolves a path fragment to its absolute URI: the fragment is put
    /// directly behind the prefix, and the text so formed is validated as a
    /// path and query. A well-formed path always has a URI. A text without
    /// `?` becomes the URI's path unchanged. An invalid text is reported:
    /// nothing is escaped or cut off to make it fit.
    pub fn build_path(&self, fragment: &str) -> (built: Result<Uri, InvalidApiUriError>)
        ensures
            built is Ok <==> self@.build(fragment@) is Some,
            built matches Ok(uri) ==> Some(uri@) == self@.build(fragment@),
            is_reported(self@.target(fragment@)) ==> built is Err,
            is_well_formed_path(self@.target(fragment@)) ==> built is Ok,
            built matches Ok(uri) ==> !self@.target(fragment@).contains('?') ==> {
                &&& uri@.path == self@.target(fragment@)
                &&& uri@.query is None
            },
    {
        let text = match &self.path_prefix {
            Some(prefix) => prefix.clone().concat(fragment),
            None => String::new().concat(fragment),
        };
        assert(text@ =~= self@.target(fragment@));
        proof {
            lemma_built_path_is_exact(self@, fragment@);
            lemma_well_formed_path_is_built(self@, fragment@);
            lemma_reported_text_has_no_uri(self@, fragment@);
        }
        Uri::from_parts(self.scheme, self.authority.clone(), text)
    }
}

/// Texts that are always reported as invalid: the plainly malformed ones,
/// those with a `#`, those with a character outside ASCII, and those with a
/// blank or control character anywhere.
pub open spec fn is_reported(text: Seq<char>) -> bool {
    ||| is_plainly_malformed(text)
    ||| text.contains('#')
    ||| !is_ascii_chars(text)
    ||| exists|i: int| 0 <= i < text.len() && is_blank_or_control(#[trigger] text[i])
}

/// Whenever an endpoint has a URI and the prefix and the fragment hold no
/// `?`, the URI's path is the prefix directly followed by the fragment,
/// character for character, and the URI has no query.
pub proof fn lemma_built_path_is_exact(builder: ApiUriBuilderView, fragment: Seq<char>)
    ensures
        builder.build(fragment) matches Some(uri) ==> !builder.target(fragment).contains('?')
            ==> uri.path == builder.target(fragment) && uri.query is None,
{
    let text = builder.target(fragment);
    if builder.build(fragment) is Some && !text.contains('?') {
        lemma_plain_text_is_path(text);
    }
}

/// Where the prefix directly followed by the fragment is a well-formed path,
/// the endpoint has a URI, and that text is the URI's path.
pub proof fn lemma_well_formed_path_is_built(builder: ApiUriBuilderView, fragment: Seq<char>)
    ensures
        is_well_formed_path(builder.target(fragment)) ==> builder.build(fragment) == Some(
            UriView {
                scheme: builder.scheme,
                authority: builder.authority,
                path: builder.target(fragment),
                query: None,
            },
        ),
{
    if is_well_formed_path(builder.target(fragment)) {
        lemma_well_formed_path_is_kept(builder.scheme, builder.authority, builder.target(fragment));
    }
}

/// No endpoint has a URI where the prefix and the fragment together are a
/// text that is reported: one that is empty, does not start like a path,
/// holds a `#`, a character outside ASCII, or a blank or control character.
pub proof fn lemma_reported_text_has_no_uri(builder: ApiUriBuilderView, fragment: Seq<char>)
    ensures
        is_reported(builder.target(fragment)) ==> builder.build(fragment) is None,
{
    let text = builder.target(fragment);
    if is_reported(text) && !text.contains('#') && !is_plainly_malformed(text) && is_ascii_chars(
        text,
    ) {
        let at = choose|i: int| 0 <= i < text.len() && is_blank_or_control(#[trigger] text[i]);
        lemma_blank_is_malformed(text, at);
    }
}

/// A blank or control character anywhere in a text without `#` makes the
/// text plainly malformed.
pub proof fn lemma_blank_is_malformed(text: Seq<char>, at: int)
    requires
        0 <= at < text.len(),
        is_blank_or_control(text[at]),
        !text.contains('#'),
    ensures
        is_plainly_malformed(text),
        !is_path_and_query(text),
{
    lemma_leading_len(text, '#', '#');
    let end = leading_len(text, '#', '#') as int;
    if end < text.len() {
        assert(text.contains(text[end]));
    }
}

} // verus!
