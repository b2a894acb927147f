//! Firebase Cloud Messaging: the send-message call.

use crate::api_uri::uri::{is_path_char, is_well_formed_path, Authority, Scheme};
use crate::api_uri::{
    lemma_well_formed_path_is_built, ApiUriBuilder, ApiUriBuilderView, FirebaseFcmRestApi,
};
use crate::client::error::{ApiClientError, ApiClientErrorView};
use crate::api_uri::uri::UriView;
use crate::client::{Method, RequestEnvelope, RequestEnvelopeView};
use vstd::prelude::*;
use vstd::string::{StrSliceExecFns, StringExecFns};
use vstd::utf8::encode_utf8;

verus! {

/// Failure of `serde_json`, carried through without being read.
#[verifier::external_type_specification]
#[verifier::external_body]
pub struct ExJsonError(serde_json::Error);

/// The JSON string literal that `serde_json` writes for `text`.
pub uninterp spec fn json_string(text: Seq<char>) -> Seq<char>;

/// A character that stands for itself in a JSON string: any but `"`, `\`
/// and the control characters below U+0020.
pub open spec fn is_json_plain_char(c: char) -> bool {
    c != '"' && c != '\\' && ' ' <= c
}

/// A text that needs no escape in a JSON string.
pub open spec fn is_json_plain(text: Seq<char>) -> bool {
    forall|i: int| 0 <= i < text.len() ==> is_json_plain_char(#[trigger] text[i])
}

/// The JSON string literal for `text`: the text between double quotes where
/// it needs no escape, and what `serde_json` writes for it otherwise.
pub open spec fn json_literal(text: Seq<char>) -> Seq<char> {
    if is_json_plain(text) {
        "\""@ + text + "\""@
    } else {
        json_string(text)
    }
}

/// Calls `serde_json::to_string` on a string slice. The call writes into
/// memory and cannot fail on a string; its result is the JSON string literal
/// for `text`, which for a text that needs no escape is the text between
/// double quotes.
#[verifier::external_body]
fn to_json_string(text: &str) -> (encoded: Result<String, serde_json::Error>)
    ensures
        encoded is Ok,
        encoded matches Ok(literal) ==> literal@ == json_string(text@),
        encoded matches Ok(literal) ==> is_json_plain(text@) ==> literal@ == "\""@ + text@
            + "\""@,
{
    serde_json::to_string(text)
}

#[derive(Debug, Clone)]
pub struct SendMessageRequest {
    pub message: Message,
    pub validate_only: bool,
}

#[derive(Debug, Clone)]
pub struct Message {
    pub notification: Notification,
    pub apns: Apns,
    pub token: String,
}

#[derive(Debug, Clone)]
pub struct Notification {
    pub title: String,
    pub body: String,
}

#[derive(Debug, Clone)]
pub struct Apns {
    pub payload: ApnsPayload,
}

#[derive(Debug, Clone)]
pub struct ApnsPayload {
    pub aps: Aps,
}

#[derive(Debug, Clone)]
pub struct Aps {
    pub sound: String,
}

#[derive(Debug, Clone, Copy, PartialEq, Eq, Structural)]
pub struct NewMessageResponse {}

impl Default for Aps {
    fn default() -> (aps: Self)
        ensures
            aps.sound@.len() == 0,
    {
        Aps { sound: String::new() }
    }
}

impl Default for ApnsPayload {
    fn default() -> (payload: Self)
        ensures
            payload.aps.sound@.len() == 0,
    {
        ApnsPayload { aps: Aps::default() }
    }
}

impl Default for Apns {
    fn default() -> (apns: Self)
        ensures
            apns.payload.aps.sound@.len() == 0,
    {
        Apns { payload: ApnsPayload::default() }
    }
}

impl Default for Notification {
    fn default() -> (notification: Self)
        ensures
            notification.title@.len() == 0,
            notification.body@.len() == 0,
    {
        Notification { title: String::new(), body: String::new() }
    }
}

impl Default for Message {
    fn default() -> (message: Self)
        ensures
            message.notification.title@.len() == 0,
            message.notification.body@.len() == 0,
            message.apns.payload.aps.sound@.len() == 0,
            message.token@.len() == 0,
    {
        Message {
            notification: Notification::default(),
            apns: Apns::default(),
            token: String::new(),
        }
    }
}

impl Default for SendMessageRequest {
    fn default() -> (request: Self)
        ensures
            !request.validate_only,
            request.message.notification.title@.len() == 0,
            request.message.notification.body@.len() == 0,
            request.message.apns.payload.aps.sound@.len() == 0,
            request.message.token@.len() == 0,
    {
        SendMessageRequest { message: Message::default(), validate_only: false }
    }
}

/// The JSON object of a send-message request, from the JSON string literals
/// of its four texts: members in declaration order, names in camel case,
/// no white space.
pub open spec fn request_json(
    title: Seq<char>,
    body: Seq<char>,
    sound: Seq<char>,
    token: Seq<char>,
    validate_only: bool,
) -> Seq<char> {
    "{\"message\":{\"notification\":{\"title\":"@ + title + ",\"body\":"@ + body
        + "},\"apns\":{\"payload\":{\"aps\":{\"sound\":"@ + sound + "}}},\"token\":"@ + token
        + "},\"validateOnly\":"@ + (if validate_only {
        "true"@
    } else {
        "false"@
    }) + "}"@
}

/// Writes the JSON object of a send-message request around the JSON string
/// literals of its four texts.
pub fn assemble_request_json(
    title: &str,
    body: &str,
    sound: &str,
    token: &str,
    validate_only: bool,
) -> (json: String)
    ensures
        json@ == request_json(title@, body@, sound@, token@, validate_only),
{
    let mut json = "{\"message\":{\"notification\":{\"title\":".to_owned();
    json.append(title);
    json.append(",\"body\":");
    json.append(body);
    json.append("},\"apns\":{\"payload\":{\"aps\":{\"sound\":");
    json.append(sound);
    json.append("}}},\"token\":");
    json.append(token);
    json.append("},\"validateOnly\":");
    json.append(if validate_only { "true" } else { "false" });
    json.append("}");
    json
}

impl SendMessageRequest {
    /// The request as it goes over the wire.
    pub open spec fn wire_text(&self) -> Seq<char> {
        request_json(
            json_literal(self.message.notification.title@),
            json_literal(self.message.notification.body@),
            json_literal(self.message.apns.payload.aps.sound@),
            json_literal(self.message.token@),
            self.validate_only,
        )
    }

    /// Writes the request in its wire format. Every request can be written:
    /// each of its texts has a JSON string literal.
    pub fn to_json(&self) -> (json: Result<String, ApiClientError>)
        ensures
            json is Ok,
            json matches Ok(text) ==> text@ == self.wire_text(),
    {
        let title = match to_json_string(self.message.notification.title.as_str()) {
            Ok(literal) => literal,
            Err(_) => { return Err(ApiClientError::SerializationError); },
        };
        let body = match to_json_string(self.message.notification.body.as_str()) {
            Ok(literal) => literal,
            Err(_) => { return Err(ApiClientError::SerializationError); },
        };
        let sound = match to_json_string(self.message.apns.payload.aps.sound.as_str()) {
            Ok(literal) => literal,
            Err(_) => { return Err(ApiClientError::SerializationError); },
        };
        let token = match to_json_string(self.message.token.as_str()) {
            Ok(literal) => literal,
            Err(_) => { return Err(ApiClientError::SerializationError); },
        };
        Ok(
            assemble_request_json(
                title.as_str(),
                body.as_str(),
                sound.as_str(),
                token.as_str(),
                self.validate_only,
            ),
        )
    }
}

/// The authority of the live Cloud Messaging REST API.
pub open spec fn fcm_authority() -> Seq<char> {
    "fcm.googleapis.com"@
}

/// The path fragment of the send-message endpoint.
pub open spec fn send_message_path() -> Seq<char> {
    FirebaseFcmRestApi::SendMessage.fragment()@
}

/// The OAuth2 scopes that a Cloud Messaging call needs.
pub open spec fn fcm_scopes() -> Seq<Seq<char>> {
    seq![
        "https://www.googleapis.com/auth/cloud-platform"@,
        "https://www.googleapis.com/auth/firebase.messaging"@,
    ]
}

/// The path prefix of a project's Cloud Messaging endpoints.
pub open spec fn fcm_path_prefix(project_id: Seq<char>) -> Seq<char> {
    "/v1/projects/"@ + project_id
}

/// The URI builder of a live project's Cloud Messaging endpoints.
pub open spec fn live_fcm_builder(project_id: Seq<char>) -> ApiUriBuilderView {
    ApiUriBuilderView {
        scheme: Scheme::Https,
        authority: fcm_authority(),
        path_prefix: Some(fcm_path_prefix(project_id)),
    }
}

/// The OAuth2 scopes that a Cloud Messaging call needs.
pub fn firebase_fcm_scopes() -> (scopes: Vec<String>)
    ensures
        scopes.deep_view() == fcm_scopes(),
{
    let mut scopes: Vec<String> = Vec::new();
    scopes.push("https://www.googleapis.com/auth/cloud-platform".to_owned());
    scopes.push("https://www.googleapis.com/auth/firebase.messaging".to_owned());
    assert(scopes.deep_view() =~= fcm_scopes());
    scopes
}

/// Firebase Cloud Messaging manager
#[derive(Debug)]
pub struct FirebaseFcm<ApiHttpClientT> {
    client: ApiHttpClientT,
    fcm_uri_builder: ApiUriBuilder,
}

impl<ApiHttpClientT> FirebaseFcm<ApiHttpClientT> {
    pub closed spec fn client_of(&self) -> ApiHttpClientT {
        self.client
    }

    pub closed spec fn uri_builder_of(&self) -> ApiUriBuilderView {
        self.fcm_uri_builder@
    }

    /// Create Firebase FCM manager for live project
    pub fn live(project_id: &str, client: ApiHttpClientT) -> (fcm: Self)
        ensures
            fcm.client_of() == client,
            fcm.uri_builder_of() == live_fcm_builder(project_id@),
    {
        proof {
            reveal_strlit("fcm.googleapis.com");
        }
        let authority = match Authority::parse("fcm.googleapis.com") {
            Ok(authority) => authority,
            Err(_) => vstd::pervasive::unreached(),
        };
        let prefix = "/v1/projects/".to_owned().concat(project_id);
        Self { client, fcm_uri_builder: ApiUriBuilder::new(Scheme::Https, authority, Some(prefix)) }
    }
}

/// The call that sends a message through the endpoints of `builder`: none
/// where the send-message endpoint has no valid URI.
pub open spec fn send_message_call(builder: ApiUriBuilderView, request: SendMessageRequest) -> Option<
    RequestEnvelopeView,
> {
    match builder.build(send_message_path()) {
        Some(uri) => Some(
            RequestEnvelopeView {
                method: Method::Post,
                uri,
                scopes: fcm_scopes(),
                body: encode_utf8(request.wire_text()),
            },
        ),
        None => None,
    }
}

/// Prepares the call that sends `request` through the endpoints of
/// `builder`: a `POST` of the request in its wire format to the send-message
/// endpoint, with the Cloud Messaging scopes. Fails with
/// `FailedToSendRequest` where the endpoint has no valid URI.
pub fn prepare_send_message(builder: &ApiUriBuilder, request: SendMessageRequest) -> (call: Result<
    RequestEnvelope<Vec<u8>>,
    ApiClientError,
>)
    ensures
        call is Ok <==> send_message_call(builder@, request) is Some,
        call matches Ok(envelope) ==> Some(envelope@) == send_message_call(builder@, request),
        call matches Err(e) ==> e@ == ApiClientErrorView::FailedToSendRequest,
{
    let uri = match builder.build_path(FirebaseFcmRestApi::SendMessage.path()) {
        Ok(uri) => uri,
        Err(_) => { return Err(ApiClientError::FailedToSendRequest); },
    };
    let json = request.to_json()?;
    Ok(
        RequestEnvelope {
            method: Method::Post,
            uri,
            scopes: firebase_fcm_scopes(),
            body: json.as_str().as_bytes_vec(),
        },
    )
}

/// The Cloud Messaging operations of a manager that knows its client and
/// its URI builder.
pub trait FirebaseFcmService<ApiHttpClientT> {
    /// The client that the manager sends its calls through.
    spec fn client(&self) -> ApiHttpClientT;

    /// The builder of the manager's endpoint URIs, as plain values.
    spec fn uri_builder(&self) -> ApiUriBuilderView;

    /// The client that the manager was made with.
    fn get_client(&self) -> (client: &ApiHttpClientT)
        ensures
            *client == self.client(),
    ;

    fn get_auth_uri_builder(&self) -> (builder: &ApiUriBuilder)
        ensures
            builder@ == self.uri_builder(),
    ;

    /// Prepares the call that sends `request`: a `POST` of the request in
    /// its wire format to the send-message endpoint, with the Cloud
    /// Messaging scopes. Fails with `FailedToSendRequest` where the endpoint
    /// has no valid URI. The transport carries the call out.
    fn send_message(&self, request: SendMessageRequest) -> (call: Result<
        RequestEnvelope<Vec<u8>>,
        ApiClientError,
    >)
        ensures
            call is Ok <==> send_message_call(self.uri_builder(), request) is Some,
            call matches Ok(envelope) ==> Some(envelope@) == send_message_call(
                self.uri_builder(),
                request,
            ),
            call matches Err(e) ==> e@ == ApiClientErrorView::FailedToSendRequest,
    {
        prepare_send_message(self.get_auth_uri_builder(), request)
    }
}

impl<ApiHttpClientT> FirebaseFcmService<ApiHttpClientT> for FirebaseFcm<ApiHttpClientT> {
    open spec fn uri_builder(&self) -> ApiUriBuilderView {
        self.uri_builder_of()
    }

    fn get_client(&self) -> &ApiHttpClientT {
        &self.client
    }

    fn get_auth_uri_builder(&self) -> &ApiUriBuilder {
        &self.fcm_uri_builder
    }

    open spec fn client(&self) -> ApiHttpClientT {
        self.client_of()
    }
}

/// For a live project whose identifier is made of path characters, the
/// send-message call is always prepared: a `POST` of the request in its wire
/// format to `/v1/projects/`, the identifier and `/messages:send` on the
/// Cloud Messaging host, with the two Cloud Messaging scopes.
pub proof fn lemma_live_call_is_prepared(project_id: Seq<char>, request: SendMessageRequest)
    requires
        project_id.len() <= 65000,
        forall|i: int| 0 <= i < project_id.len() ==> is_path_char(#[trigger] project_id[i]),
    ensures
        send_message_call(live_fcm_builder(project_id), request) == Some(
            RequestEnvelopeView {
                method: Method::Post,
                uri: UriView {
                    scheme: Scheme::Https,
                    authority: fcm_authority(),
                    path: "/v1/projects/"@ + project_id + "/messages:send"@,
                    query: None,
                },
                scopes: fcm_scopes(),
                body: encode_utf8(request.wire_text()),
            },
        ),
{
    reveal_strlit("/v1/projects/");
    reveal_strlit("/messages:send");
    let head = "/v1/projects/"@;
    let tail = "/messages:send"@;
    let text = head + project_id + tail;
    assert(live_fcm_builder(project_id).target(send_message_path()) =~= text);
    assert forall|i: int| 0 <= i < text.len() implies is_path_char(#[trigger] text[i]) by {
        if i < head.len() {
            assert(text[i] == head[i]);
        } else if i < head.len() + project_id.len() {
            assert(text[i] == project_id[i - head.len()]);
        } else {
            assert(text[i] == tail[i - head.len() - project_id.len()]);
        }
    }
    assert(text[0] == head[0]);
    assert(is_well_formed_path(text));
    lemma_well_formed_path_is_built(live_fcm_builder(project_id), send_message_path());
}

} // verus!
