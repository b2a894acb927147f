use firebase_admin::api_uri::uri::{Authority, Scheme, Uri};
use firebase_admin::client::error::ApiClientError;
use firebase_admin::client::{decoded, received, ApiClient, HttpResponse, Method, RequestEnvelope};
use firebase_admin::credentials::emulator::EmulatorCredentials;
use std::sync::Arc;

fn sample_uri() -> Uri {
    let authority = Authority::parse("example.com").expect("valid authority");
    Uri::from_parts(Scheme::Https, authority, "/v1/things".to_owned()).expect("valid URI")
}

fn sample_envelope<BodyT>(body: BodyT) -> RequestEnvelope<BodyT> {
    RequestEnvelope {
        method: Method::Post,
        uri: sample_uri(),
        scopes: vec!["https://www.googleapis.com/auth/cloud-platform".to_owned()],
        body,
    }
}

#[test]
fn methods_are_written_in_upper_case() {
    assert_eq!(Method::Get.as_str(), "GET");
    assert_eq!(Method::Post.as_str(), "POST");
    assert_eq!(Method::Put.as_str(), "PUT");
    assert_eq!(Method::Patch.as_str(), "PATCH");
    assert_eq!(Method::Delete.as_str(), "DELETE");
}

#[test]
fn serialized_body_replaces_the_typed_body() {
    let ready = sample_envelope(("typed", 7u8))
        .serialized::<()>(Ok(b"{\"n\":7}".to_vec()))
        .expect("serialized");
    assert_eq!(ready.method, Method::Post);
    assert_eq!(ready.uri.to_text(), "https://example.com/v1/things");
    assert_eq!(ready.scopes, vec!["https://www.googleapis.com/auth/cloud-platform".to_owned()]);
    assert_eq!(ready.body, b"{\"n\":7}".to_vec());
}

#[test]
fn unserializable_body_fails_the_call() {
    let failed = sample_envelope(0u8).serialized(Err("not representable"));
    assert_eq!(failed.map(|e| e.body), Err(ApiClientError::SerializationError));
}

#[test]
fn granted_token_is_attached_as_bearer_header() {
    let request = sample_envelope(b"{}".to_vec())
        .authorized::<()>(Ok(Some("ya29.token".to_owned())))
        .expect("authorized");
    assert_eq!(request.authorization, Some("Bearer ya29.token".to_owned()));
    assert_eq!(request.method, Method::Post);
    assert_eq!(request.uri.to_text(), "https://example.com/v1/things");
    assert_eq!(request.body, b"{}".to_vec());
}

#[test]
fn call_without_token_carries_no_authorization_header() {
    let request = sample_envelope(b"{}".to_vec()).authorized::<()>(Ok(None)).expect("authorized");
    assert_eq!(request.authorization, None);
    assert_eq!(request.body, b"{}".to_vec());
}

#[test]
fn failed_token_acquisition_is_an_authentication_failure() {
    let refused = sample_envelope(b"{}".to_vec()).authorized(Err("token endpoint unreachable"));
    assert_eq!(refused.map(|r| r.body), Err(ApiClientError::AuthenticationFailure));
}

#[test]
fn emulator_credentials_grant_no_token() {
    let credentials = EmulatorCredentials::default();
    assert_eq!(credentials.token_for(&Vec::new()), None);
    assert_eq!(
        credentials.token_for(&vec![
            "https://www.googleapis.com/auth/cloud-platform".to_owned(),
            "https://www.googleapis.com/auth/firebase.messaging".to_owned(),
        ]),
        None
    );
}

#[test]
fn emulator_client_sends_unauthenticated_requests() {
    let client = ApiClient::new(Arc::new(EmulatorCredentials {}));
    let request = client.authorize(sample_envelope(b"{\"a\":1}".to_vec()));
    assert_eq!(request.authorization, None);
    assert_eq!(request.method, Method::Post);
    assert_eq!(request.uri.to_text(), "https://example.com/v1/things");
    assert_eq!(request.body, b"{\"a\":1}".to_vec());
}

#[test]
fn client_hands_out_the_credentials_it_was_made_with() {
    let credentials = Arc::new(EmulatorCredentials {});
    let client = ApiClient::new(credentials.clone());
    assert!(Arc::ptr_eq(client.credentials(), &credentials));
}

#[test]
fn successful_answer_hands_out_its_body() {
    for status in [200u16, 201, 204, 299] {
        let body = received::<()>(Ok(HttpResponse { status, body: b"{\"ok\":true}".to_vec() }));
        assert_eq!(body, Ok(b"{\"ok\":true}".to_vec()), "{status}");
    }
}

#[test]
fn answer_outside_the_success_range_is_a_remote_error() {
    for status in [0u16, 100, 199, 300, 301, 400, 401, 403, 500, 503, 999] {
        let outcome = received::<()>(Ok(HttpResponse { status, body: b"denied".to_vec() }));
        assert_eq!(
            outcome,
            Err(ApiClientError::RemoteError { status, body: Some("denied".to_owned()) }),
            "{status}"
        );
    }
}

#[test]
fn not_found_answer_is_a_remote_error_with_status_404() {
    let body = b"{\"error\":{\"code\":404,\"status\":\"NOT_FOUND\"}}".to_vec();
    let outcome = received::<()>(Ok(HttpResponse { status: 404, body }));
    let error = outcome.expect_err("remote error");
    assert_eq!(error.status(), Some(404));
    assert_eq!(
        error,
        ApiClientError::RemoteError {
            status: 404,
            body: Some("{\"error\":{\"code\":404,\"status\":\"NOT_FOUND\"}}".to_owned()),
        }
    );
}

#[test]
fn remote_error_body_that_is_not_text_is_left_out() {
    let outcome = received::<()>(Ok(HttpResponse { status: 500, body: vec![0xff, 0xfe, 0x00] }));
    assert_eq!(outcome, Err(ApiClientError::RemoteError { status: 500, body: None }));
    let truncated = received::<()>(Ok(HttpResponse { status: 502, body: vec![0xc3] }));
    assert_eq!(truncated, Err(ApiClientError::RemoteError { status: 502, body: None }));
}

#[test]
fn remote_error_body_is_decoded_as_utf8() {
    let outcome =
        received::<()>(Ok(HttpResponse { status: 400, body: "ungültig ✗".as_bytes().to_vec() }));
    assert_eq!(
        outcome,
        Err(ApiClientError::RemoteError { status: 400, body: Some("ungültig ✗".to_owned()) })
    );
    let empty = received::<()>(Ok(HttpResponse { status: 404, body: Vec::new() }));
    assert_eq!(empty, Err(ApiClientError::RemoteError { status: 404, body: Some(String::new()) }));
}

#[test]
fn transport_failure_is_failed_to_send_request() {
    let outcome = received(Err("connection refused"));
    assert_eq!(outcome, Err(ApiClientError::FailedToSendRequest));
}

#[test]
fn decoded_value_is_handed_out_unchanged() {
    assert_eq!(decoded::<_, ()>(Ok((1u8, "fixture".to_owned()))), Ok((1u8, "fixture".to_owned())));
}

#[test]
fn missing_field_in_a_successful_answer_is_a_decode_error() {
    let body = received::<()>(Ok(HttpResponse { status: 200, body: b"{\"other\":1}".to_vec() }))
        .expect("success status");
    let value: serde_json::Value = serde_json::from_slice(&body).expect("valid JSON");
    let name = value
        .get("name")
        .and_then(|name| name.as_str())
        .map(|name| name.to_owned())
        .ok_or("missing field `name`");
    let outcome = decoded(name);
    assert_eq!(outcome, Err(ApiClientError::ResponseDecodeError));
    assert_eq!(outcome.expect_err("decode error").status(), None);
}

#[test]
fn only_remote_errors_carry_a_status() {
    assert_eq!(ApiClientError::SerializationError.status(), None);
    assert_eq!(ApiClientError::AuthenticationFailure.status(), None);
    assert_eq!(ApiClientError::FailedToSendRequest.status(), None);
    assert_eq!(ApiClientError::ResponseDecodeError.status(), None);
    assert_eq!(ApiClientError::RemoteError { status: 418, body: None }.status(), Some(418));
}

#[test]
fn client_errors_have_messages() {
    assert_eq!(ApiClientError::SerializationError.message(), "Failed to serialize the request");
    assert_eq!(ApiClientError::AuthenticationFailure.message(), "Failed to obtain an access token");
    assert_eq!(ApiClientError::FailedToSendRequest.message(), "Failed to send the request");
    assert_eq!(
        ApiClientError::RemoteError { status: 500, body: None }.message(),
        "The server answered with an error"
    );
    assert_eq!(ApiClientError::ResponseDecodeError.message(), "Failed to decode the response");
}
