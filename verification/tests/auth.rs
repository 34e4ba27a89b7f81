use base64::Engine;
use vaultmaid::api::auth::{
    clear_refresh_token, clear_refresh_token_reply, default_interval, fallback_error,
    keyring_entry, load_refresh_token, load_refresh_token_reply, poll_device_code,
    poll_device_code_reply, save_refresh_token, save_refresh_token_reply, silent_refresh,
    silent_refresh_reply, start_device_code, start_device_code_reply, user_id_from_token,
    AuthError, AuthTokens, DeviceCode, DeviceInfo, FormRequest, KeyringFailure, KeyringRequest,
    PollOutcome, Session, TokenErrorBody, TokenResponse,
};
use vaultmaid::api::client::{ApiError, Client};
use vaultmaid::api::url::Url;

fn device() -> DeviceInfo {
    DeviceInfo::new("device-123", "test-host")
}

fn client() -> Client {
    Client::new(Url::parse("https://vault.example").expect("url"))
}

/// A client whose server cannot have endpoints.
fn lost_client() -> Client {
    Client::new(Url::parse("mailto:nobody@example.com").expect("url"))
}

fn fields(request: &FormRequest) -> Vec<(&str, &str)> {
    request
        .fields
        .iter()
        .map(|field| (field.name.as_str(), field.value.as_str()))
        .collect()
}

fn no_error() -> TokenErrorBody {
    TokenErrorBody::default()
}

fn code(interval: u64) -> DeviceCode {
    DeviceCode {
        device_code: "dev-abc".to_owned(),
        user_code: "ABCD-EFGH".to_owned(),
        verification_uri: "https://vault.example/device".to_owned(),
        interval,
    }
}

/// A reply to a poll that failed with this OAuth error code.
fn refused(status: u16, error: &str, providers: bool) -> Result<PollOutcome, AuthError> {
    poll_device_code_reply(
        Ok(status),
        format!("{{\"error\":\"{error}\"}}"),
        Err("missing field `access_token`".to_owned()),
        TokenErrorBody {
            error: Some(error.to_owned()),
            two_factor_providers: providers,
        },
    )
}

#[test]
fn start_device_code_parses_codes() {
    let request = start_device_code(&client(), &device()).expect("request");
    assert_eq!(
        request.url.as_str(),
        "https://vault.example/identity/connect/device-authorization"
    );
    let code = start_device_code_reply(Ok(200), Ok(code(2)), String::new()).expect("start");
    assert_eq!(code.device_code, "dev-abc");
    assert_eq!(code.user_code, "ABCD-EFGH");
    assert_eq!(code.verification_uri, "https://vault.example/device");
    assert_eq!(code.interval, 2);
}

#[test]
fn start_device_code_defaults_interval_when_absent() {
    assert_eq!(default_interval(), 5);
    let code =
        start_device_code_reply(Ok(200), Ok(code(default_interval())), String::new())
            .expect("start");
    assert_eq!(code.interval, 5);
}

#[test]
fn start_device_code_maps_server_error() {
    let error = start_device_code_reply(Ok(500), Err("no body".to_owned()), String::new())
        .expect_err("should fail");
    assert!(matches!(
        error,
        AuthError::Api(ApiError::ServerError { .. })
    ));
}

#[test]
fn start_device_code_sends_the_device() {
    let request = start_device_code(&client(), &device()).expect("request");
    assert_eq!(
        fields(&request),
        vec![
            ("client_id", "desktop"),
            ("deviceType", "8"),
            ("deviceIdentifier", "device-123"),
            ("deviceName", "test-host"),
            ("scope", "api offline_access"),
        ]
    );
}

#[test]
fn start_device_code_reports_what_went_wrong() {
    let unsent = start_device_code_reply(
        Err("connection refused".to_owned()),
        Ok(code(2)),
        String::new(),
    );
    assert_eq!(
        unsent,
        Err(AuthError::Network("connection refused".to_owned()))
    );
    let garbled = start_device_code_reply(Ok(200), Err("eof".to_owned()), String::new());
    assert_eq!(garbled, Err(AuthError::Decode("eof".to_owned())));
}

#[test]
fn a_server_without_endpoints_fails_every_request() {
    let expected = "invalid server URL: relative URL with a cannot-be-a-base base";
    let start = start_device_code(&lost_client(), &device()).err().expect("start");
    assert_eq!(start.message(), expected);
    let poll = poll_device_code(&lost_client(), &device(), "dev-abc", None).err().expect("poll");
    assert_eq!(poll.message(), expected);
    let refresh = silent_refresh(&lost_client(), "token").err().expect("refresh");
    assert_eq!(refresh.message(), expected);
}

#[test]
fn poll_pending_then_authorized() {
    let request = poll_device_code(&client(), &device(), "dev-abc", None).expect("request");
    assert_eq!(
        request.url.as_str(),
        "https://vault.example/identity/connect/token"
    );
    let first = refused(400, "authorization_pending", false).expect("poll");
    assert!(first == PollOutcome::Pending);

    let second = poll_device_code_reply(
        Ok(200),
        String::new(),
        Ok(TokenResponse {
            access_token: "access-1".to_owned(),
            refresh_token: Some("refresh-1".to_owned()),
        }),
        no_error(),
    )
    .expect("poll");
    match second {
        PollOutcome::Authorized(tokens) => {
            assert_eq!(tokens.access_token, "access-1");
            assert_eq!(tokens.refresh_token.as_deref(), Some("refresh-1"));
        }
        _ => panic!("expected authorized"),
    }
}

#[test]
fn poll_maps_terminal_errors() {
    for (error, expected) in [
        ("slow_down", PollOutcome::SlowDown),
        ("expired_token", PollOutcome::Expired),
        ("access_denied", PollOutcome::Denied),
    ] {
        let outcome = refused(400, error, false).expect("poll");
        assert!(outcome == expected, "error {error}");
    }
}

#[test]
fn poll_detects_two_factor_required() {
    let outcome = refused(400, "invalid_grant", true).expect("poll");
    assert!(outcome == PollOutcome::TwoFactorRequired);
}

#[test]
fn poll_uses_two_factor_token_when_provided() {
    let request =
        poll_device_code(&client(), &device(), "dev-abc", Some("123456")).expect("request");
    assert_eq!(
        fields(&request),
        vec![
            ("grant_type", "urn:ietf:params:oauth:grant-type:device_code"),
            ("device_code", "dev-abc"),
            ("client_id", "desktop"),
            ("deviceType", "8"),
            ("deviceIdentifier", "device-123"),
            ("deviceName", "test-host"),
            ("two_factor_token", "123456"),
        ]
    );
    let outcome = poll_device_code_reply(
        Ok(200),
        String::new(),
        Ok(TokenResponse {
            access_token: "access-2".to_owned(),
            refresh_token: Some("refresh-2".to_owned()),
        }),
        no_error(),
    )
    .expect("poll");
    assert!(matches!(outcome, PollOutcome::Authorized(_)));

    let plain = poll_device_code(&client(), &device(), "dev-abc", None).expect("request");
    assert_eq!(fields(&plain)[..], fields(&request)[..6]);
}

#[test]
fn poll_reads_the_error_code_before_the_providers() {
    let outcome = refused(400, "authorization_pending", true).expect("poll");
    assert!(outcome == PollOutcome::Pending);
}

#[test]
fn poll_reports_other_failures() {
    assert_eq!(
        refused(403, "invalid_grant", false).err(),
        Some(AuthError::Api(ApiError::Forbidden {
            message: "Forbidden".to_owned()
        }))
    );
    let garbled = poll_device_code_reply(
        Ok(200),
        "{".to_owned(),
        Err("eof".to_owned()),
        no_error(),
    );
    assert_eq!(garbled.err(), Some(AuthError::Decode("eof".to_owned())));
    let unsent = poll_device_code_reply(
        Err("timed out".to_owned()),
        String::new(),
        Err(String::new()),
        no_error(),
    );
    assert_eq!(unsent.err(), Some(AuthError::Network("timed out".to_owned())));
}

#[test]
fn silent_refresh_returns_tokens() {
    let request = silent_refresh(&client(), "refresh-old").expect("request");
    assert_eq!(
        request.url.as_str(),
        "https://vault.example/identity/connect/token"
    );
    assert_eq!(
        fields(&request),
        vec![
            ("grant_type", "refresh_token"),
            ("refresh_token", "refresh-old"),
            ("client_id", "desktop"),
        ]
    );
    let tokens = silent_refresh_reply(
        Ok(200),
        Ok(TokenResponse {
            access_token: "access-new".to_owned(),
            refresh_token: None,
        }),
        String::new(),
    )
    .ok()
    .expect("refresh");
    assert_eq!(tokens.access_token, "access-new");
    assert!(tokens.refresh_token.is_none());
}

#[test]
fn silent_refresh_reports_expired_session() {
    for status in [400u16, 401] {
        let error = silent_refresh_reply(
            Ok(status),
            Err("no tokens".to_owned()),
            "{\"error\":\"invalid_grant\"}".to_owned(),
        )
        .err()
        .expect("should expire");
        assert!(matches!(error, AuthError::SessionExpired));
    }
}

#[test]
fn silent_refresh_reports_other_failures() {
    let body = || "accepted".to_owned();
    let none = || Err::<TokenResponse, String>("eof".to_owned());
    assert_eq!(
        silent_refresh_reply(Ok(503), none(), body()).err(),
        Some(AuthError::Api(ApiError::ServerError {
            message: "Service Unavailable".to_owned()
        }))
    );
    assert_eq!(
        silent_refresh_reply(Ok(202), none(), body()).err(),
        Some(AuthError::Rejected("accepted".to_owned()))
    );
    assert_eq!(
        silent_refresh_reply(Ok(200), none(), body()).err(),
        Some(AuthError::Decode("eof".to_owned()))
    );
    assert_eq!(
        silent_refresh_reply(Err("down".to_owned()), none(), body()).err(),
        Some(AuthError::Network("down".to_owned()))
    );
}

#[test]
fn the_status_outranks_the_body() {
    let api = ApiError::from_response(404);
    assert_eq!(
        fallback_error(api, "body".to_owned()).message(),
        "API error 404 Not Found: Not Found"
    );
    assert_eq!(
        fallback_error(None, "body".to_owned()).message(),
        "authentication was rejected: body"
    );
}

#[test]
fn auth_errors_have_messages() {
    assert_eq!(
        AuthError::Network("down".to_owned()).message(),
        "network error: down"
    );
    assert_eq!(
        AuthError::Url("empty host".to_owned()).message(),
        "invalid server URL: empty host"
    );
    assert_eq!(
        AuthError::Decode("eof".to_owned()).message(),
        "could not decode server response: eof"
    );
    assert_eq!(
        AuthError::SessionExpired.message(),
        "session expired; sign in again"
    );
    assert_eq!(
        AuthError::Keyring("locked".to_owned()).message(),
        "keyring error: locked"
    );
}

#[test]
fn user_id_extracted_from_jwt_payload() {
    let claims = "{\"scope\":\"api\",\"sub\":\"user-42\"}";
    let payload = base64::engine::general_purpose::URL_SAFE_NO_PAD.encode(claims);
    let token = format!("header.{payload}.signature");
    assert_eq!(user_id_from_token(&token).as_deref(), Some("user-42"));
}

#[test]
fn user_id_is_none_for_non_jwt() {
    assert_eq!(user_id_from_token("not-a-jwt"), None);
}

#[test]
fn user_id_is_read_in_either_alphabet() {
    let claims = "{\"sub\":\"a?b>c~\"}";
    let standard = base64::engine::general_purpose::STANDARD_NO_PAD.encode(claims);
    let url_safe = base64::engine::general_purpose::URL_SAFE_NO_PAD.encode(claims);
    assert_ne!(standard, url_safe);
    for payload in [standard, url_safe] {
        let token = format!("h.{payload}.s");
        assert_eq!(user_id_from_token(&token).as_deref(), Some("a?b>c~"));
    }
}

#[test]
fn user_id_needs_a_text_under_sub() {
    for claims in ["{\"sub\":7}", "{}", "[]", "not json", "{\"sub\":null}"] {
        let payload = base64::engine::general_purpose::URL_SAFE_NO_PAD.encode(claims);
        assert_eq!(user_id_from_token(&format!("h.{payload}")), None, "{claims}");
    }
    assert_eq!(user_id_from_token("h.%%%.s"), None);
    let padded = base64::engine::general_purpose::URL_SAFE.encode("{\"sub\":\"u\"}");
    assert!(padded.ends_with('='));
    assert_eq!(user_id_from_token(&format!("h.{padded}.s")), None);
}

#[test]
fn auth_tokens_debug_is_masked() {
    let tokens = AuthTokens {
        access_token: "super-secret".to_owned(),
        refresh_token: Some("also-secret".to_owned()),
    };
    let printed = tokens.debug_text();
    assert!(!printed.contains("super-secret"));
    assert!(!printed.contains("also-secret"));
}

#[test]
fn masked_tokens_show_what_there_is() {
    let with = AuthTokens {
        access_token: "a".to_owned(),
        refresh_token: Some("b".to_owned()),
    };
    let without = AuthTokens {
        access_token: "a".to_owned(),
        refresh_token: None,
    };
    assert_eq!(
        with.debug_text(),
        "AuthTokens { access_token: \"***\", refresh_token: Some(\"***\") }"
    );
    assert_eq!(
        without.debug_text(),
        "AuthTokens { access_token: \"***\", refresh_token: None }"
    );
    assert!(with.clone() == with);
}

#[test]
fn session_debug_is_masked() {
    let session = Session {
        access_token: "super-secret".to_owned(),
        user_id: Some("us\"er".to_owned()),
    };
    assert_eq!(
        session.debug_text(),
        "Session { access_token: \"***\", user_id: Some(\"us\\\"er\") }"
    );
    let anonymous = Session {
        access_token: "super-secret".to_owned(),
        user_id: None,
    };
    assert_eq!(
        anonymous.debug_text(),
        "Session { access_token: \"***\", user_id: None }"
    );
    assert!(session.clone() == session);
}

#[test]
fn a_session_names_its_user() {
    let payload = base64::engine::general_purpose::URL_SAFE_NO_PAD.encode("{\"sub\":\"user-7\"}");
    let session = Session::from_tokens(AuthTokens {
        access_token: format!("h.{payload}.s"),
        refresh_token: Some("r".to_owned()),
    });
    assert_eq!(session.user_id.as_deref(), Some("user-7"));
    assert_eq!(session.access_token, format!("h.{payload}.s"));
}

#[test]
fn refresh_tokens_are_kept_under_the_user() {
    let entry = keyring_entry("user-7");
    assert_eq!(entry.service, "vaultmaid");
    assert_eq!(entry.user, "refresh:user-7");
    assert!(
        save_refresh_token("user-7", "secret")
            == KeyringRequest::Store {
                entry: keyring_entry("user-7"),
                secret: "secret".to_owned(),
            }
    );
    assert!(
        load_refresh_token("user-7")
            == KeyringRequest::Fetch {
                entry: keyring_entry("user-7"),
            }
    );
    assert!(
        clear_refresh_token("user-7")
            == KeyringRequest::Delete {
                entry: keyring_entry("user-7"),
            }
    );
    assert_ne!(keyring_entry("user-7"), keyring_entry("user-8"));
}

#[test]
fn keyring_answers_are_read() {
    let no_entry = || KeyringFailure::NoEntry("no entry".to_owned());
    let locked = || KeyringFailure::Other("locked".to_owned());

    assert_eq!(save_refresh_token_reply(Ok(())), Ok(()));
    assert_eq!(
        save_refresh_token_reply(Err(no_entry())),
        Err(AuthError::Keyring("no entry".to_owned()))
    );
    assert_eq!(
        save_refresh_token_reply(Err(locked())),
        Err(AuthError::Keyring("locked".to_owned()))
    );

    assert_eq!(
        load_refresh_token_reply(Ok("secret".to_owned())),
        Ok(Some("secret".to_owned()))
    );
    assert_eq!(load_refresh_token_reply(Err(no_entry())), Ok(None));
    assert_eq!(
        load_refresh_token_reply(Err(locked())),
        Err(AuthError::Keyring("locked".to_owned()))
    );

    assert_eq!(clear_refresh_token_reply(Ok(())), Ok(()));
    assert_eq!(clear_refresh_token_reply(Err(no_entry())), Ok(()));
    assert_eq!(
        clear_refresh_token_reply(Err(locked())),
        Err(AuthError::Keyring("locked".to_owned()))
    );
}
