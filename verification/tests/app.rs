use firebase_admin::api_uri::uri::Authority;
use firebase_admin::api_uri::{
    FirebaseAuthEmulatorRestApi, FirebaseAuthRestApi, FirebaseFcmRestApi,
};
use firebase_admin::auth::token::{
    EmulatedTokenVerifier, LiveTokenVerifier, TokenKind, TokenVerificationError,
    GOOGLE_COOKIE_PUB_KEY_URI, GOOGLE_PUB_KEY_URI,
};
use firebase_admin::auth::{firebase_auth_scopes, FirebaseAuth};
use firebase_admin::credentials::error::CredentialsError;
use firebase_admin::credentials::gcp::GcpCredentials;
use firebase_admin::fcm::FirebaseFcmService;
use firebase_admin::App;
use std::sync::Arc;

#[derive(Debug, PartialEq)]
struct FakeAccount(&'static str);

#[test]
fn emulated_app_keeps_the_project_id() {
    let app = App::emulated("demo-project".to_owned());
    assert_eq!(app.project_id(), "demo-project");
}

#[test]
fn emulated_auth_targets_the_emulator() {
    let app = App::emulated("demo-project".to_owned());
    let auth = app.auth(Authority::parse("localhost:9099").expect("valid authority"));
    assert!(Arc::ptr_eq(auth.get_client().credentials(), app.credentials()));
    let uri = auth.get_auth_uri_builder().build(FirebaseAuthRestApi::GetUsers).expect("valid");
    assert_eq!(
        uri.to_text(),
        "http://localhost:9099/identitytoolkit.googleapis.com/v1/projects/demo-project/accounts:lookup"
    );
    let admin = auth.get_emulator_auth_uri_builder().expect("emulator endpoints");
    let clear = admin.build(FirebaseAuthEmulatorRestApi::ClearUserAccounts).expect("valid");
    assert_eq!(
        clear.to_text(),
        "http://localhost:9099/emulator/v1/projects/demo-project/accounts"
    );
    let codes = admin.build(FirebaseAuthEmulatorRestApi::SmsVerificationCodes).expect("valid");
    assert_eq!(codes.path(), "/emulator/v1/projects/demo-project/verificationCodes");
}

#[test]
fn emulated_token_verifier_is_bound_to_the_project() {
    let app = App::emulated("demo-project".to_owned());
    assert_eq!(app.id_token_verifier().project_id(), "demo-project");
    assert_eq!(EmulatedTokenVerifier::new("other".to_owned()).project_id(), "other");
}

#[test]
fn live_app_is_made_from_a_resolved_project_id() {
    let credentials = GcpCredentials::new(FakeAccount("key"));
    let app = App::live::<()>(credentials, Ok("live-project".to_owned())).expect("resolved");
    assert_eq!(app.project_id(), "live-project");
    assert_eq!(app.credentials().provider, FakeAccount("key"));
}

#[test]
fn live_app_fails_where_the_project_id_is_not_resolved() {
    let credentials: GcpCredentials<FakeAccount> = FakeAccount("key").into();
    let app = App::live(credentials, Err("connection reset by peer"));
    assert_eq!(app.map(|app| app.project_id().to_owned()), Err(CredentialsError::Internal));
    let shared = Arc::new(GcpCredentials::new(FakeAccount("key")));
    let app = App::live_shared(shared, Err(std::fmt::Error));
    assert_eq!(app.map(|app| app.project_id().to_owned()), Err(CredentialsError::Internal));
}

#[test]
fn live_shared_app_keeps_the_shared_credentials() {
    let shared = Arc::new(GcpCredentials::new(FakeAccount("key")));
    let app = App::live_shared::<()>(Arc::clone(&shared), Ok("p".to_owned())).expect("resolved");
    assert!(Arc::ptr_eq(app.credentials(), &shared));
    let auth = app.auth();
    let fcm = app.fcm();
    assert!(Arc::ptr_eq(auth.get_client().credentials(), &shared));
    assert!(Arc::ptr_eq(fcm.get_client().credentials(), &shared));
    assert_eq!(Arc::strong_count(&shared), 4);
}

#[test]
fn live_auth_targets_the_identity_toolkit() {
    let app = App::live::<()>(GcpCredentials::new(FakeAccount("key")), Ok("alpha".to_owned()))
        .expect("resolved");
    let auth = app.auth();
    let uri = auth.get_auth_uri_builder().build(FirebaseAuthRestApi::CreateUser).expect("valid");
    assert_eq!(uri.to_text(), "https://identitytoolkit.googleapis.com/v1/projects/alpha/accounts");
    let cookie =
        auth.get_auth_uri_builder().build(FirebaseAuthRestApi::CreateSessionCookie).expect("valid");
    assert_eq!(cookie.path(), "/v1/projects/alpha:createSessionCookie");
    assert!(auth.get_emulator_auth_uri_builder().is_none());
}

#[test]
fn live_fcm_targets_the_messaging_api() {
    let app = App::live::<()>(GcpCredentials::new(FakeAccount("key")), Ok("alpha".to_owned()))
        .expect("resolved");
    let fcm = app.fcm();
    let uri =
        fcm.get_auth_uri_builder().build(FirebaseFcmRestApi::SendMessage).expect("valid URI");
    assert_eq!(uri.to_text(), "https://fcm.googleapis.com/v1/projects/alpha/messages:send");
}

#[test]
fn auth_manager_can_be_made_without_an_app() {
    let live = FirebaseAuth::live("beta", 1u8);
    assert_eq!(*live.get_client(), 1u8);
    assert!(live.get_emulator_auth_uri_builder().is_none());
    let emulated =
        FirebaseAuth::emulated(Authority::parse("127.0.0.1:9099").expect("valid"), "beta", 2u8);
    assert_eq!(*emulated.get_client(), 2u8);
    let uri = emulated
        .get_emulator_auth_uri_builder()
        .expect("emulator endpoints")
        .build(FirebaseAuthEmulatorRestApi::Configuration)
        .expect("valid URI");
    assert_eq!(uri.to_text(), "http://127.0.0.1:9099/emulator/v1/projects/beta/config");
}

#[test]
fn auth_scopes_are_cloud_platform_and_userinfo() {
    assert_eq!(
        firebase_auth_scopes(),
        vec![
            "https://www.googleapis.com/auth/cloud-platform".to_owned(),
            "https://www.googleapis.com/auth/userinfo.email".to_owned(),
        ]
    );
}

#[test]
fn live_token_verifiers_are_made_from_fetched_keys() {
    let app = App::live::<()>(GcpCredentials::new(FakeAccount("key")), Ok("alpha".to_owned()))
        .expect("resolved");
    let id = app.id_token_verifier::<_, ()>(Ok("id keys")).expect("keys fetched");
    assert_eq!(id.project_id(), "alpha");
    assert_eq!(id.kind(), TokenKind::IdToken);
    assert_eq!(*id.key_cache(), "id keys");
    let cookie = app.cookie_token_verifier::<_, ()>(Ok("cookie keys")).expect("keys fetched");
    assert_eq!(cookie.project_id(), "alpha");
    assert_eq!(cookie.kind(), TokenKind::SessionCookie);
    assert_eq!(*cookie.key_cache(), "cookie keys");
}

#[test]
fn live_token_verifiers_fail_where_the_keys_are_not_fetched() {
    let app = App::live::<()>(GcpCredentials::new(FakeAccount("key")), Ok("alpha".to_owned()))
        .expect("resolved");
    let id = app.id_token_verifier::<(), _>(Err("timeout"));
    assert_eq!(id.map(|v| v.kind()), Err(TokenVerificationError::FailedGettingKeys));
    let cookie = app.cookie_token_verifier::<(), _>(Err("timeout"));
    assert_eq!(cookie.map(|v| v.kind()), Err(TokenVerificationError::FailedGettingKeys));
}

#[test]
fn token_kinds_name_their_key_uris() {
    assert_eq!(TokenKind::IdToken.key_uri(), GOOGLE_PUB_KEY_URI);
    assert_eq!(TokenKind::SessionCookie.key_uri(), GOOGLE_COOKIE_PUB_KEY_URI);
    assert!(GOOGLE_PUB_KEY_URI.parse::<http::Uri>().is_ok());
    assert!(GOOGLE_COOKIE_PUB_KEY_URI.parse::<http::Uri>().is_ok());
    let direct = LiveTokenVerifier::new_id_verifier("p".to_owned(), ());
    assert_eq!(direct.kind().key_uri(), GOOGLE_PUB_KEY_URI);
    let cookie = LiveTokenVerifier::new_cookie_verifier("p".to_owned(), ());
    assert_eq!(cookie.kind().key_uri(), GOOGLE_COOKIE_PUB_KEY_URI);
}

#[test]
fn credentials_error_has_a_message() {
    assert_eq!(CredentialsError::Internal.message(), "Failed to resolve the credentials");
}

#[test]
fn emulated_app_never_reaches_the_live_messaging_host_unauthenticated_by_accident() {
    let app = App::emulated("demo-project".to_owned());
    let auth = app.auth(Authority::parse("localhost:9099").expect("valid authority"));
    let uri = auth.get_auth_uri_builder().build(FirebaseAuthRestApi::ListUsers).expect("valid");
    assert_eq!(uri.authority().as_str(), "localhost:9099");
    assert_eq!(uri.scheme().as_str(), "http");
    let fcm = firebase_admin::fcm::FirebaseFcm::live(app.project_id(), ());
    assert_eq!(
        fcm.get_auth_uri_builder()
            .build(FirebaseFcmRestApi::SendMessage)
            .expect("valid URI")
            .authority()
            .as_str(),
        "fcm.googleapis.com"
    );
}
