//! The authenticated request pipeline: what is sent for a call, and what
//! each outcome of the exchange means for the caller.

pub mod error;

use crate::api_uri::uri::{Uri, UriView};
use crate::client::error::{ApiClientError, ApiClientErrorView};
use crate::credentials::emulator::EmulatorCredentials;
use std::sync::Arc;
use vstd::prelude::*;
use vstd::string::StringExecFns;
use vstd::utf8::{decode_utf8, valid_utf8};

verus! {

/// HTTP request methods used by the API families.
#[derive(Debug, Clone, Copy, PartialEq, Eq, Structural)]
pub enum Method {
    Get,
    Post,
    Put,
    Patch,
    Delete,
}

impl Method {
    /// The method as it is written on the request line.
    pub fn as_str(&self) -> (text: &'static str)
        ensures
            text@ == match *self {
                Method::Get => "GET"@,
                Method::Post => "POST"@,
                Method::Put => "PUT"@,
                Method::Patch => "PATCH"@,
                Method::Delete => "DELETE"@,
            },
    {
        match self {
            Method::Get => "GET",
            Method::Post => "POST",
            Method::Put => "PUT",
            Method::Patch => "PATCH",
            Method::Delete => "DELETE",
        }
    }
}

/// One call as a service describes it: where it goes, which OAuth2 scopes
/// it needs and what it carries.
#[derive(Debug)]
pub struct RequestEnvelope<BodyT> {
    pub method: Method,
    pub uri: Uri,
    pub scopes: Vec<String>,
    pub body: BodyT,
}

/// A [`RequestEnvelope`] with a wire body, as plain values.
pub struct RequestEnvelopeView {
    pub method: Method,
    pub uri: UriView,
    pub scopes: Seq<Seq<char>>,
    pub body: Seq<u8>,
}

impl View for RequestEnvelope<Vec<u8>> {
    type V = RequestEnvelopeView;

    open spec fn view(&self) -> RequestEnvelopeView {
        RequestEnvelopeView {
            method: self.method,
            uri: self.uri@,
            scopes: self.scopes.deep_view(),
            body: self.body@,
        }
    }
}

/// One request as it is handed to the HTTP transport. `authorization` is
/// the value of the `Authorization` header; a request without it carries no
/// such header.
#[derive(Debug)]
pub struct HttpRequest {
    pub method: Method,
    pub uri: Uri,
    pub authorization: Option<String>,
    pub body: Vec<u8>,
}

/// An [`HttpRequest`] as plain values.
pub struct HttpRequestView {
    pub method: Method,
    pub uri: UriView,
    pub authorization: Option<Seq<char>>,
    pub body: Seq<u8>,
}

impl View for HttpRequest {
    type V = HttpRequestView;

    open spec fn view(&self) -> HttpRequestView {
        HttpRequestView {
            method: self.method,
            uri: self.uri@,
            authorization: match self.authorization {
                Some(header) => Some(header@),
                None => None,
            },
            body: self.body@,
        }
    }
}

/// What the HTTP transport received.
#[derive(Debug)]
pub struct HttpResponse {
    pub status: u16,
    pub body: Vec<u8>,
}

/// The value of the `Authorization` header that presents `token` as a
/// bearer token.
pub open spec fn bearer(token: Seq<char>) -> Seq<char> {
    "Bearer "@ + token
}

/// The `Authorization` header of a request: a bearer header for a token,
/// none without one.
pub open spec fn authorization_for(token: Option<Seq<char>>) -> Option<Seq<char>> {
    match token {
        Some(token) => Some(bearer(token)),
        None => None,
    }
}

/// The request that goes out for a call: the call's method, URI and body,
/// with a bearer header exactly where a token was granted.
pub open spec fn request_of(call: RequestEnvelopeView, token: Option<Seq<char>>) -> HttpRequestView {
    HttpRequestView {
        method: call.method,
        uri: call.uri,
        authorization: authorization_for(token),
        body: call.body,
    }
}

/// Whether a status code reports success: the codes from 200 to 299.
pub open spec fn is_success(status: u16) -> bool {
    200 <= status < 300
}

/// Decodes `bytes` with `String::from_utf8`: the text that the bytes encode,
/// and none where they are not UTF-8.
#[verifier::external_body]
fn text_of(bytes: Vec<u8>) -> (text: Option<String>)
    ensures
        text is Some <==> valid_utf8(bytes@),
        text matches Some(decoded) ==> decoded@ == decode_utf8(bytes@),
{
    match String::from_utf8(bytes) {
        Ok(text) => Some(text),
        Err(_) => None,
    }
}

/// The body of a remote error: the text of `bytes`, if they are text.
pub open spec fn remote_error_body(bytes: Seq<u8>) -> Option<Seq<char>> {
    if valid_utf8(bytes) {
        Some(decode_utf8(bytes))
    } else {
        None
    }
}

impl<BodyT> RequestEnvelope<BodyT> {
    /// Replaces the typed body by its wire form. A body that could not be
    /// written fails the call before anything else is done for it.
    pub fn serialized<ErrorT>(self, wire: Result<Vec<u8>, ErrorT>) -> (ready: Result<
        RequestEnvelope<Vec<u8>>,
        ApiClientError,
    >)
        ensures
            ready is Ok <==> wire is Ok,
            ready matches Err(e) ==> e@ == ApiClientErrorView::SerializationError,
            ready matches Ok(envelope) ==> {
                &&& envelope.method == self.method
                &&& envelope.uri == self.uri
                &&& envelope.scopes == self.scopes
                &&& Ok::<Vec<u8>, ErrorT>(envelope.body) == wire
            },
    {
        match wire {
            Ok(bytes) => Ok(
                RequestEnvelope {
                    method: self.method,
                    uri: self.uri,
                    scopes: self.scopes,
                    body: bytes,
                },
            ),
            Err(_) => Err(ApiClientError::SerializationError),
        }
    }
}

impl RequestEnvelope<Vec<u8>> {
    /// Forms the request from the outcome of asking the credentials for a
    /// token: a granted token is attached as a bearer header, a call that
    /// needs none goes out without the header, and a failure to obtain a
    /// token fails the call.
    pub fn authorized<ErrorT>(self, token: Result<Option<String>, ErrorT>) -> (request: Result<
        HttpRequest,
        ApiClientError,
    >)
        ensures
            request is Ok <==> token is Ok,
            request matches Err(e) ==> e@ == ApiClientErrorView::AuthenticationFailure,
            request matches Ok(r) ==> token matches Ok(granted) && r@ == request_of(
                self@,
                match granted {
                    Some(granted) => Some(granted@),
                    None => None,
                },
            ),
    {
        match token {
            Ok(Some(granted)) => {
                let header = "Bearer ".to_owned().concat(granted.as_str());
                Ok(
                    HttpRequest {
                        method: self.method,
                        uri: self.uri,
                        authorization: Some(header),
                        body: self.body,
                    },
                )
            },
            Ok(None) => Ok(
                HttpRequest {
                    method: self.method,
                    uri: self.uri,
                    authorization: None,
                    body: self.body,
                },
            ),
            Err(_) => Err(ApiClientError::AuthenticationFailure),
        }
    }
}

/// Judges the outcome of the exchange. A transport failure fails the call;
/// an answer with a status outside the success range is a remote error with
/// that status; a successful answer hands out its body for decoding.
pub fn received<ErrorT>(outcome: Result<HttpResponse, ErrorT>) -> (body: Result<
    Vec<u8>,
    ApiClientError,
>)
    ensures
        body is Ok <==> (outcome matches Ok(response) && is_success(response.status)),
        body matches Ok(bytes) ==> outcome matches Ok(response) && bytes == response.body,
        body matches Err(e) ==> e@ == match outcome {
            Ok(response) => ApiClientErrorView::RemoteError {
                status: response.status,
                body: remote_error_body(response.body@),
            },
            Err(_) => ApiClientErrorView::FailedToSendRequest,
        },
{
    match outcome {
        Ok(response) => {
            if 200 <= response.status && response.status < 300 {
                Ok(response.body)
            } else {
                Err(
                    ApiClientError::RemoteError {
                        status: response.status,
                        body: text_of(response.body),
                    },
                )
            }
        },
        Err(_) => Err(ApiClientError::FailedToSendRequest),
    }
}

/// Judges the outcome of decoding a successful answer: the decoded value,
/// or a decode error where the body was not the expected value.
pub fn decoded<ResponseT, ErrorT>(value: Result<ResponseT, ErrorT>) -> (response: Result<
    ResponseT,
    ApiClientError,
>)
    ensures
        response is Ok <==> value is Ok,
        response matches Ok(r) ==> value matches Ok(v) && r == v,
        response matches Err(e) ==> e@ == ApiClientErrorView::ResponseDecodeError,
{
    match value {
        Ok(v) => Ok(v),
        Err(_) => Err(ApiClientError::ResponseDecodeError),
    }
}

/// The transport's share of the pipeline that needs no I/O: it is bound to
/// the credentials that it shares with every other client of one app.
#[derive(Debug)]
pub struct ApiClient<CredentialsT> {
    credentials: Arc<CredentialsT>,
}

impl<CredentialsT> ApiClient<CredentialsT> {
    pub closed spec fn credentials_of(&self) -> Arc<CredentialsT> {
        self.credentials
    }

    pub fn new(credentials: Arc<CredentialsT>) -> (client: Self)
        ensures
            client.credentials_of() == credentials,
    {
        Self { credentials }
    }

    pub fn credentials(&self) -> (credentials: &Arc<CredentialsT>)
        ensures
            *credentials == self.credentials_of(),
    {
        &self.credentials
    }
}

impl ApiClient<EmulatorCredentials> {
    /// Forms the request of a call against an emulator: it is never
    /// refused and never carries an `Authorization` header.
    pub fn authorize(&self, envelope: RequestEnvelope<Vec<u8>>) -> (request: HttpRequest)
        ensures
            request@ == request_of(
                envelope@,
                self.credentials_of().granted(envelope.scopes.deep_view()),
            ),
            request.authorization is None,
    {
        let token = self.credentials.token_for(&envelope.scopes);
        match envelope.authorized::<ApiClientError>(Ok(token)) {
            Ok(request) => request,
            Err(_) => vstd::pervasive::unreached(),
        }
    }
}

/// Whatever the call and its scopes, the request that goes out with
/// emulator credentials carries no `Authorization` header.
pub proof fn lemma_emulated_request_is_unauthenticated(
    credentials: EmulatorCredentials,
    call: RequestEnvelopeView,
)
    ensures
        credentials.granted(call.scopes) is None,
        request_of(call, credentials.granted(call.scopes)).authorization is None,
{
}

/// A request carries an `Authorization` header exactly where a token was
/// granted, and the header then is the token behind `Bearer `.
pub proof fn lemma_authorization_follows_token(call: RequestEnvelopeView, token: Option<Seq<char>>)
    ensures
        request_of(call, token).authorization is Some <==> token is Some,
        token matches Some(granted) ==> request_of(call, token).authorization == Some(
            "Bearer "@ + granted,
        ),
{
}

/// A remote error and a decode error are told apart by the status alone:
/// outside the success range the answer is a remote error with that status,
/// whatever its body.
pub proof fn lemma_success_range(status: u16)
    ensures
        is_success(status) <==> 200 <= status <= 299,
        !is_success(404),
        is_success(200),
{
}

} // verus!
