use base64::Engine;
use std::collections::HashMap;
use vaultmaid::api::auth::{
    keyring_entry, AuthError, AuthTokens, DeviceCode, KeyringRequest, PollOutcome, Session,
};
use vaultmaid::app::{
    boot, boot_with, device_info, enter_session, pin_checked, poll_interval,
    refresh_token_loaded, snapshot_deleted, snapshot_fetched, start_requested, update,
};
use vaultmaid::cache::storage::{SnapshotRow, StorageError};
use vaultmaid::cache::{cache_id, Cache};
use vaultmaid::config::Config;
use vaultmaid::effect::Effect;
use vaultmaid::message::{Message, Screen};
use vaultmaid::pin::{derive_cache_key, hash_pin, verify, CacheKey, Pin, PinError, Verifier};
use vaultmaid::state::State;

fn state_at_screen(screen: Screen) -> State {
    let mut state = State::default();
    state.screen = screen;
    state
}

fn fake_access_token(sub: &str) -> String {
    let payload =
        base64::engine::general_purpose::URL_SAFE_NO_PAD.encode(format!("{{\"sub\":\"{sub}\"}}"));
    format!("header.{payload}.signature")
}

fn sample_device_code() -> DeviceCode {
    DeviceCode {
        device_code: "dev-abc".to_owned(),
        user_code: "ABCD-EFGH".to_owned(),
        verification_uri: "https://vault.example/device".to_owned(),
        interval: 2,
    }
}

/// Applies a message on a machine without a name.
fn send(state: &mut State, message: Message) -> Vec<Effect> {
    update(state, message, None)
}

/// The configuration that is saved, if the effects save one and nothing else.
fn saved(effects: &[Effect]) -> Option<&Config> {
    match effects {
        [Effect::SaveConfig(config)] => Some(config),
        _ => None,
    }
}

/// Fetches the row of the cache that the effects ask for.
fn load_snapshot(
    state: &mut State,
    effects: &[Effect],
    rows: &mut HashMap<String, SnapshotRow>,
) {
    match effects {
        [Effect::LoadSnapshot(id)] => {
            let row = rows.get(id).cloned();
            if let Some(unreadable) = snapshot_fetched(state, Ok(row)) {
                rows.remove(&unreadable);
                snapshot_deleted(state, Ok(()));
            }
        }
        _ => panic!("expected a snapshot to be loaded"),
    }
}

#[test]
fn pin_set_hashes_verifier_and_locks() {
    let mut state = state_at_screen(Screen::SetPin);
    state.pin_input = "1234".to_owned();
    state.pin_confirm = "1234".to_owned();
    let effects = send(&mut state, Message::PinSet(Pin::new("1234")));

    assert_eq!(state.screen, Screen::Unlock);
    let verifier = state.config.pin_verifier.as_ref().expect("verifier stored");
    assert!(verify(&Pin::new("1234"), verifier).expect("verify"));
    assert!(state.pin_input.is_empty());
    assert!(state.pin_confirm.is_empty());
    assert!(state.pin_error.is_none());
    assert_eq!(saved(&effects), Some(&state.config));
}

#[test]
fn pin_submitted_with_correct_pin_opens_main() {
    let verifier = hash_pin(&Pin::new("1234")).expect("hash");
    let mut state = state_at_screen(Screen::Unlock);
    state.config.pin_verifier = Some(verifier);
    let _ = send(&mut state, Message::PinSubmitted(Pin::new("1234")));

    assert_eq!(state.screen, Screen::Main);
    assert!(state.pin_error.is_none());
    assert!(state.pin_input.is_empty());
}

#[test]
fn pin_submitted_with_wrong_pin_shows_error() {
    let verifier = hash_pin(&Pin::new("1234")).expect("hash");
    let mut state = state_at_screen(Screen::Unlock);
    state.config.pin_verifier = Some(verifier);
    let effects = send(&mut state, Message::PinSubmitted(Pin::new("9999")));

    assert_eq!(
        state.screen,
        Screen::Unlock,
        "failed unlock must not navigate"
    );
    assert_eq!(state.pin_error.as_deref(), Some("Incorrect PIN"));
    assert!(state.cache_key.is_none());
    assert!(effects.is_empty());
}

#[test]
fn pin_submitted_without_verifier_shows_error() {
    let mut state = state_at_screen(Screen::Unlock);
    let _ = send(&mut state, Message::PinSubmitted(Pin::new("1234")));
    assert_eq!(
        state.pin_error.as_deref(),
        Some("PIN verifier is missing or corrupt")
    );
}

#[test]
fn pin_submitted_with_a_corrupt_verifier_shows_error() {
    for corrupt in [
        "garbage",
        "$argon2id$v=19$m=19456,t=2,p=4294967295$c29tZXNhbHRzb21lc2FsdA$E/4dTxxhtsDeiYgvRBqRxyC7IJ9jaR4ywszVocQ+4aw",
    ] {
        let mut state = state_at_screen(Screen::Unlock);
        state.config.pin_verifier = Some(Verifier::new(corrupt));
        state.pin_input = "1234".to_owned();
        let effects = send(&mut state, Message::PinSubmitted(Pin::new("1234")));
        assert_eq!(
            state.pin_error.as_deref(),
            Some("PIN verifier is missing or corrupt")
        );
        assert_eq!(state.screen, Screen::Unlock);
        assert!(state.pin_input.is_empty());
        assert!(effects.is_empty());
    }
}

#[test]
fn pin_submitted_against_a_verifier_without_a_hash_is_incorrect() {
    let mut state = state_at_screen(Screen::Unlock);
    state.config.pin_verifier = Some(Verifier::new(
        "$argon2id$v=19$m=19456,t=2,p=536870912$c29tZXNhbHRzb21lc2FsdA",
    ));
    let _ = send(&mut state, Message::PinSubmitted(Pin::new("1234")));
    assert_eq!(state.pin_error.as_deref(), Some("Incorrect PIN"));
    assert_eq!(state.screen, Screen::Unlock);
}

#[test]
fn pin_input_clears_previous_error() {
    let mut state = state_at_screen(Screen::Unlock);
    state.pin_error = Some("Incorrect PIN".to_owned());
    let _ = send(&mut state, Message::PinInput("1".to_owned()));
    assert_eq!(state.pin_input, "1");
    assert!(state.pin_error.is_none());

    state.pin_error = Some("Incorrect PIN".to_owned());
    let _ = send(&mut state, Message::PinConfirmInput("2".to_owned()));
    assert_eq!(state.pin_confirm, "2");
    assert!(state.pin_error.is_none());
}

#[test]
fn invalid_server_url_reports_error_without_network() {
    let mut state = State::default();
    state.config.server_url = "not-a-url".to_owned();
    let effects = send(&mut state, Message::StartDeviceCode);
    assert_eq!(state.auth_error.as_deref(), Some("Server URL is not valid"));
    assert!(!state.auth_busy);
    assert!(effects.is_empty());
}

#[test]
fn device_code_received_shows_waiting_state() {
    let mut state = state_at_screen(Screen::Login);
    let effects = send(
        &mut state,
        Message::DeviceCodeReceived(sample_device_code()),
    );
    assert_eq!(state.screen, Screen::DeviceCode);
    assert_eq!(
        state
            .device_code
            .as_ref()
            .map(|code| code.user_code.as_str()),
        Some("ABCD-EFGH")
    );
    assert!(!state.auth_busy);
    assert!(matches!(effects[..], [Effect::PollAfter(2)]));
}

#[test]
fn two_factor_required_switches_screen() {
    let mut state = state_at_screen(Screen::DeviceCode);
    state.device_code = Some(sample_device_code());
    let effects = send(
        &mut state,
        Message::PollFinished(PollOutcome::TwoFactorRequired),
    );
    assert_eq!(state.screen, Screen::TwoFa);
    assert!(!state.auth_busy);
    assert!(effects.is_empty());
}

#[test]
fn expired_code_returns_to_login_with_error() {
    let mut state = state_at_screen(Screen::DeviceCode);
    state.device_code = Some(sample_device_code());
    let _ = send(&mut state, Message::PollFinished(PollOutcome::Expired));
    assert_eq!(state.screen, Screen::Login);
    assert!(state.device_code.is_none());
    assert!(state.auth_error.is_some());
    assert_eq!(
        state.auth_error.as_deref(),
        Some("The device code expired. Try again.")
    );
}

#[test]
fn denied_login_returns_to_login_with_error() {
    let mut state = state_at_screen(Screen::DeviceCode);
    state.device_code = Some(sample_device_code());
    let _ = send(&mut state, Message::PollFinished(PollOutcome::Denied));
    assert_eq!(state.screen, Screen::Login);
    assert!(state.auth_error.is_some());
    assert_eq!(
        state.auth_error.as_deref(),
        Some("The login request was denied.")
    );
    let later = send(&mut state, Message::PollDeviceCode);
    assert!(later.is_empty());
    assert!(!state.auth_busy);
}

#[test]
fn session_restored_requires_pin_setup_on_first_launch() {
    let mut state = State::default();
    let tokens = AuthTokens {
        access_token: fake_access_token("user-7"),
        refresh_token: None,
    };
    let effects = send(&mut state, Message::SessionRestored(tokens));

    assert_eq!(state.screen, Screen::SetPin);
    assert_eq!(
        state
            .session
            .as_ref()
            .and_then(|session| session.user_id.as_deref()),
        Some("user-7")
    );
    assert_eq!(state.config.last_user_id.as_deref(), Some("user-7"));
    assert!(state.auth_error.is_none());
    assert_eq!(saved(&effects), Some(&state.config));
}

#[test]
fn session_restored_routes_to_unlock_when_pin_exists() {
    let mut state = State::default();
    state.config.pin_verifier = Some(Verifier::new("$argon2id$v=19$test"));
    let tokens = AuthTokens {
        access_token: fake_access_token("user-7"),
        refresh_token: None,
    };
    let _ = send(&mut state, Message::SessionRestored(tokens));
    assert_eq!(state.screen, Screen::Unlock);
}

#[test]
fn logout_clears_session_material() {
    let mut state = State::default();
    state.session = Some(Session {
        access_token: "token".to_owned(),
        user_id: Some("user-7".to_owned()),
    });
    state.config.last_user_id = Some("user-7".to_owned());
    state.config.pin_verifier = Some(Verifier::new("$argon2id$v=19$test"));
    state.device_code = Some(sample_device_code());
    state.screen = Screen::Main;

    let effects = send(&mut state, Message::Logout);

    assert!(state.session.is_none());
    assert!(state.device_code.is_none());
    assert!(state.config.last_user_id.is_none());
    assert!(state.cache_key.is_none());
    assert!(state.cached_vault.is_none());
    assert_eq!(state.screen, Screen::Login);
    assert!(state.config.pin_verifier.is_none());
    match &effects[..] {
        [Effect::ClearRefreshToken(request), Effect::DiscardSnapshot(id), Effect::SaveConfig(config)] =>
        {
            assert!(
                *request
                    == KeyringRequest::Delete {
                        entry: keyring_entry("user-7")
                    }
            );
            assert_eq!(*id, cache_id("user-7"));
            assert_eq!(*config, state.config);
        }
        _ => panic!("unexpected effects of a logout"),
    }
    let (_, after) = boot_with(state.config.clone(), "id".to_owned());
    assert!(after
        .iter()
        .all(|effect| !matches!(effect, Effect::LoadRefreshToken(_))));
}

#[test]
fn logout_without_a_user_only_saves() {
    let mut state = State::default();
    let effects = send(&mut state, Message::Logout);
    assert_eq!(saved(&effects), Some(&state.config));
}

#[test]
fn unlock_loads_cached_snapshot() {
    let pin = Pin::new("1234");
    let verifier = hash_pin(&pin).expect("hash");

    let mut state = State::default();
    state.config.pin_verifier = Some(verifier.clone());
    state.session = Some(Session {
        access_token: "token".to_owned(),
        user_id: Some("user-9".to_owned()),
    });

    let key = derive_cache_key(&pin, &verifier).expect("derive");
    let (id, row) = Cache::save_vault("user-9", &key, "{\"folders\":[]}", "0".to_owned())
        .expect("save");
    let mut rows = HashMap::new();
    rows.insert(id, row);

    let effects = send(&mut state, Message::PinSubmitted(Pin::new("1234")));
    load_snapshot(&mut state, &effects, &mut rows);

    assert_eq!(state.screen, Screen::Main);
    assert!(state.cache_key.is_some());
    assert_eq!(state.cached_vault.as_deref(), Some("{\"folders\":[]}"));
    assert_eq!(rows.len(), 1);
}

#[test]
fn unlock_discards_an_unreadable_snapshot() {
    let pin = Pin::new("1234");
    let mut state = State::default();
    state.config.pin_verifier = Some(hash_pin(&pin).expect("hash"));
    state.session = Some(Session {
        access_token: "token".to_owned(),
        user_id: Some("user-9".to_owned()),
    });
    let stale = CacheKey {
        key: [3u8; 32],
        salt: b"salt".to_vec(),
    };
    let (id, row) = Cache::save_vault("user-9", &stale, "{}", "0".to_owned()).expect("save");
    let mut rows = HashMap::new();
    rows.insert(id, row);

    let effects = send(&mut state, Message::PinSubmitted(Pin::new("1234")));
    load_snapshot(&mut state, &effects, &mut rows);

    assert_eq!(state.screen, Screen::Main);
    assert!(state.cached_vault.is_none());
    assert!(rows.is_empty());
}

#[test]
fn logout_discards_cached_snapshot() {
    let key = CacheKey {
        key: [3u8; 32],
        salt: b"salt".to_vec(),
    };
    let (id, row) = Cache::save_vault("user-9", &key, "{}", "0".to_owned()).expect("save");
    let mut rows = HashMap::new();
    rows.insert(id, row);

    let mut state = State::default();
    state.config.last_user_id = Some("user-9".to_owned());
    state.cache_key = Some(key.clone());
    state.cached_vault = Some("{}".to_owned());

    for effect in send(&mut state, Message::Logout) {
        if let Effect::DiscardSnapshot(id) = effect {
            rows.remove(&id);
        }
    }

    assert!(state.cached_vault.is_none());
    assert!(rows.get(&cache_id("user-9")).is_none());
}

#[test]
fn noop_does_nothing() {
    let mut state = state_at_screen(Screen::Main);
    assert!(send(&mut state, Message::Noop).is_empty());
    assert_eq!(state.screen, Screen::Main);
}

#[test]
fn server_url_is_saved_as_it_is_typed() {
    let mut state = State::default();
    let effects = send(
        &mut state,
        Message::ServerUrlChanged("https://vw.example".to_owned()),
    );
    assert_eq!(state.config.server_url, "https://vw.example");
    assert_eq!(saved(&effects), Some(&state.config));
}

#[test]
fn start_asks_the_server_for_a_code() {
    let mut state = State::default();
    state.config.device_identifier = Some("device-123".to_owned());
    state.auth_error = Some("old".to_owned());
    state.device_code = Some(sample_device_code());
    let effects = update(
        &mut state,
        Message::StartDeviceCode,
        Some("test-host".to_owned()),
    );
    assert!(state.auth_busy);
    assert!(state.auth_error.is_none());
    assert!(state.device_code.is_none());
    match &effects[..] {
        [Effect::RequestDeviceCode(request)] => {
            assert_eq!(
                request.url.as_str(),
                "https://vault.bitwarden.com/identity/connect/device-authorization"
            );
            assert_eq!(request.fields[2].value, "device-123");
            assert_eq!(request.fields[3].value, "test-host");
        }
        _ => panic!("expected a request"),
    }
}

#[test]
fn a_server_without_endpoints_is_reported_through_a_message() {
    let mut state = State::default();
    state.config.server_url = "mailto:nobody@example.com".to_owned();
    let effects = send(&mut state, Message::StartDeviceCode);
    assert!(state.auth_busy);
    let Some(Effect::Deliver(message)) = effects.into_iter().next() else {
        panic!("expected a message");
    };
    let _ = send(&mut state, message);
    assert!(!state.auth_busy);
    assert_eq!(
        state.auth_error.as_deref(),
        Some("invalid server URL: relative URL with a cannot-be-a-base base")
    );
}

#[test]
fn a_request_that_failed_to_build_keeps_the_flow_busy() {
    let mut state = State::default();
    let effects = start_requested(&mut state, Some(Err(AuthError::SessionExpired)));
    assert!(state.auth_busy);
    assert!(matches!(
        &effects[..],
        [Effect::Deliver(Message::AuthFailed(text))] if text == "session expired; sign in again"
    ));
}

#[test]
fn a_poll_needs_a_code_and_a_server() {
    let mut state = State::default();
    assert!(send(&mut state, Message::PollDeviceCode).is_empty());
    assert!(!state.auth_busy);

    state.device_code = Some(sample_device_code());
    state.config.server_url = "nowhere".to_owned();
    assert!(send(&mut state, Message::PollDeviceCode).is_empty());
    assert!(!state.auth_busy);

    state.config.server_url = "https://vault.example".to_owned();
    let effects = send(&mut state, Message::PollDeviceCode);
    assert!(state.auth_busy);
    match &effects[..] {
        [Effect::RequestTokens(request)] => {
            assert_eq!(
                request.url.as_str(),
                "https://vault.example/identity/connect/token"
            );
            assert_eq!(request.fields.len(), 6);
            assert_eq!(request.fields[1].value, "dev-abc");
            assert_eq!(request.fields[5].value, "vaultmaid");
        }
        _ => panic!("expected a poll"),
    }
}

#[test]
fn the_second_factor_is_sent_and_forgotten() {
    let mut state = state_at_screen(Screen::TwoFa);
    state.device_code = Some(sample_device_code());
    state.auth_error = Some("old".to_owned());
    let _ = send(&mut state, Message::TwoFactorInput("123456".to_owned()));
    assert!(state.auth_error.is_none());
    let effects = send(&mut state, Message::TwoFactorSubmitted);
    assert!(state.two_factor_input.is_empty());
    assert!(state.auth_busy);
    match &effects[..] {
        [Effect::RequestTokens(request)] => {
            assert_eq!(request.fields[6].name, "two_factor_token");
            assert_eq!(request.fields[6].value, "123456");
        }
        _ => panic!("expected a poll"),
    }
}

#[test]
fn pending_polls_again_after_the_interval() {
    let mut state = state_at_screen(Screen::DeviceCode);
    state.device_code = Some(sample_device_code());
    let effects = send(&mut state, Message::PollFinished(PollOutcome::Pending));
    assert!(state.auth_busy);
    assert!(matches!(effects[..], [Effect::PollAfter(2)]));
}

#[test]
fn slowing_down_lasts() {
    let mut state = state_at_screen(Screen::DeviceCode);
    state.device_code = Some(sample_device_code());
    let first = send(&mut state, Message::PollFinished(PollOutcome::SlowDown));
    assert!(matches!(first[..], [Effect::PollAfter(7)]));
    let pending = send(&mut state, Message::PollFinished(PollOutcome::Pending));
    assert!(matches!(pending[..], [Effect::PollAfter(7)]));
    let second = send(&mut state, Message::PollFinished(PollOutcome::SlowDown));
    assert!(matches!(second[..], [Effect::PollAfter(12)]));
    assert_eq!(
        state.device_code.as_ref().map(|code| code.user_code.as_str()),
        Some("ABCD-EFGH")
    );
}

#[test]
fn the_interval_has_a_default_and_a_floor() {
    let mut state = State::default();
    assert_eq!(poll_interval(&state), 5);
    let mut code = sample_device_code();
    code.interval = 0;
    let effects = send(&mut state, Message::DeviceCodeReceived(code));
    assert_eq!(poll_interval(&state), 1);
    assert!(matches!(effects[..], [Effect::PollAfter(1)]));
}

#[test]
fn the_verification_page_is_opened() {
    let mut state = State::default();
    let effects = send(
        &mut state,
        Message::OpenVerificationUri("https://vault.example/device".to_owned()),
    );
    assert!(
        matches!(&effects[..], [Effect::OpenUri(uri)] if uri == "https://vault.example/device")
    );
}

#[test]
fn an_approval_stores_the_refresh_token() {
    let mut state = state_at_screen(Screen::TwoFa);
    state.device_code = Some(sample_device_code());
    state.two_factor_input = "123456".to_owned();
    state.auth_busy = true;
    let effects = send(
        &mut state,
        Message::PollFinished(PollOutcome::Authorized(AuthTokens {
            access_token: fake_access_token("user-7"),
            refresh_token: Some("refresh-1".to_owned()),
        })),
    );
    assert_eq!(state.screen, Screen::SetPin);
    assert!(state.device_code.is_none());
    assert!(state.two_factor_input.is_empty());
    assert!(!state.auth_busy);
    match &effects[..] {
        [Effect::StoreRefreshToken(request), Effect::SaveConfig(config)] => {
            assert!(
                *request
                    == KeyringRequest::Store {
                        entry: keyring_entry("user-7"),
                        secret: "refresh-1".to_owned(),
                    }
            );
            assert_eq!(*config, state.config);
        }
        _ => panic!("unexpected effects of a login"),
    }
}

#[test]
fn a_session_without_a_user_is_not_remembered() {
    let mut state = State::default();
    state.config.last_user_id = Some("user-1".to_owned());
    let session = Session {
        access_token: "opaque".to_owned(),
        user_id: None,
    };
    let effects = enter_session(&mut state, session, Some("refresh".to_owned()));
    assert!(effects.is_empty());
    assert_eq!(state.config.last_user_id.as_deref(), Some("user-1"));
    assert!(state.session.is_some());
}

#[test]
fn a_failed_restore_is_silent() {
    let mut state = State::default();
    state.auth_busy = true;
    let effects = send(
        &mut state,
        Message::SessionRestoreFailed("session expired".to_owned()),
    );
    assert!(effects.is_empty());
    assert!(!state.auth_busy);
    assert!(state.auth_error.is_none());
    assert_eq!(state.screen, Screen::Login);
}

#[test]
fn a_failed_step_is_shown() {
    let mut state = State::default();
    state.auth_busy = true;
    let _ = send(&mut state, Message::AuthFailed("network error".to_owned()));
    assert!(!state.auth_busy);
    assert_eq!(state.auth_error.as_deref(), Some("network error"));
}

#[test]
fn checks_lead_where_they_should() {
    let mut state = state_at_screen(Screen::Unlock);
    assert!(pin_checked(&mut state, Some(Ok(true))));
    assert_eq!(state.screen, Screen::Main);

    let mut state = state_at_screen(Screen::Unlock);
    assert!(!pin_checked(
        &mut state,
        Some(Err(PinError::MalformedVerifier("x".to_owned())))
    ));
    assert_eq!(
        state.pin_error.as_deref(),
        Some("PIN verifier is missing or corrupt")
    );
}

#[test]
fn the_chosen_pin_unlocks() {
    let mut state = state_at_screen(Screen::SetPin);
    let _ = send(&mut state, Message::PinSet(Pin::new("pass phrase ö")));
    let effects = send(&mut state, Message::PinSubmitted(Pin::new("pass phrase ö")));
    assert_eq!(state.screen, Screen::Main);
    assert!(state.cache_key.is_some());
    assert!(effects.is_empty(), "no session, nothing to load");
}

#[test]
fn the_device_is_described() {
    let mut state = State::default();
    let anonymous = device_info(&state, &None);
    assert_eq!(anonymous.device_identifier, "");
    assert_eq!(anonymous.device_name, "vaultmaid");
    let unnamed = device_info(&state, &Some(String::new()));
    assert_eq!(unnamed.device_name, "vaultmaid");
    state.config.device_identifier = Some("id".to_owned());
    let named = device_info(&state, &Some("host".to_owned()));
    assert_eq!(named.device_identifier, "id");
    assert_eq!(named.device_name, "host");
}

#[test]
fn a_first_start_makes_an_identifier() {
    let (state, effects) = boot(Config::default());
    let identifier = state.config.device_identifier.clone().expect("identifier");
    assert_eq!(identifier.len(), 36);
    assert_eq!(identifier.as_bytes()[14], b'4');
    assert_eq!(identifier.matches('-').count(), 4);
    assert_eq!(identifier, identifier.to_lowercase());
    assert_eq!(saved(&effects), Some(&state.config));
    assert_eq!(state.screen, Screen::Login);

    let (again, effects) = boot(state.config.clone());
    assert_eq!(again.config, state.config);
    assert!(effects.is_empty());

    let (other, _) = boot(Config::default());
    assert_ne!(other.config.device_identifier, state.config.device_identifier);
}

#[test]
fn a_remembered_user_is_looked_up() {
    let mut config = Config::default();
    config.device_identifier = Some("id".to_owned());
    config.last_user_id = Some("user-7".to_owned());
    let (state, effects) = boot(config);
    assert!(matches!(
        &effects[..],
        [Effect::LoadRefreshToken(KeyringRequest::Fetch { entry })] if *entry == keyring_entry("user-7")
    ));

    let refresh = refresh_token_loaded(&state, Ok(Some("refresh-old".to_owned())));
    match &refresh[..] {
        [Effect::RequestRefresh(request)] => {
            assert_eq!(request.fields[1].value, "refresh-old");
        }
        _ => panic!("expected a refresh"),
    }
    assert!(refresh_token_loaded(&state, Ok(None)).is_empty());
    assert!(
        refresh_token_loaded(&state, Err(AuthError::Keyring("locked".to_owned()))).is_empty()
    );
}

#[test]
fn a_restore_without_a_server_stops() {
    let mut state = State::default();
    state.config.server_url = "nowhere".to_owned();
    assert!(refresh_token_loaded(&state, Ok(Some("t".to_owned()))).is_empty());
    state.config.server_url = "mailto:nobody@example.com".to_owned();
    let effects = refresh_token_loaded(&state, Ok(Some("t".to_owned())));
    assert!(matches!(
        &effects[..],
        [Effect::Deliver(Message::SessionRestoreFailed(text))]
            if text == "invalid server URL: relative URL with a cannot-be-a-base base"
    ));
}

#[test]
fn a_store_that_fails_leaves_the_snapshot() {
    let mut state = State::default();
    state.cached_vault = Some("{}".to_owned());
    snapshot_deleted(&mut state, Err(StorageError::Sqlite("busy".to_owned())));
    assert_eq!(state.cached_vault.as_deref(), Some("{}"));

    state.cache_key = Some(CacheKey {
        key: [0; 32],
        salt: Vec::new(),
    });
    assert_eq!(snapshot_fetched(&mut state, Ok(None)), None);
    assert_eq!(state.cached_vault.as_deref(), Some("{}"), "no session yet");

    state.session = Some(Session {
        access_token: "token".to_owned(),
        user_id: Some("user-9".to_owned()),
    });
    let failed = snapshot_fetched(&mut state, Err(StorageError::Io("gone".to_owned())));
    assert_eq!(failed, None);
    assert_eq!(state.cached_vault.as_deref(), Some("{}"));
    assert_eq!(snapshot_fetched(&mut state, Ok(None)), None);
    assert!(state.cached_vault.is_none());
}

#[test]
fn a_session_survives_a_restart() {
    let mut state = State::default();
    state.config.device_identifier = Some("id".to_owned());
    let effects = send(
        &mut state,
        Message::SessionRestored(AuthTokens {
            access_token: fake_access_token("user-7"),
            refresh_token: Some("refresh-1".to_owned()),
        }),
    );
    let mut keyring = HashMap::new();
    let mut stored = Config::default();
    for effect in effects {
        match effect {
            Effect::StoreRefreshToken(KeyringRequest::Store { entry, secret }) => {
                keyring.insert((entry.service, entry.user), secret);
            }
            Effect::SaveConfig(config) => stored = config,
            _ => panic!("unexpected effect of a login"),
        }
    }

    let (restarted, effects) = boot(stored);
    let Some(Effect::LoadRefreshToken(KeyringRequest::Fetch { entry })) =
        effects.into_iter().next()
    else {
        panic!("expected a look into the keyring");
    };
    let token = keyring.get(&(entry.service, entry.user)).cloned();
    match &refresh_token_loaded(&restarted, Ok(token))[..] {
        [Effect::RequestRefresh(request)] => {
            assert_eq!(
                request.url.as_str(),
                "https://vault.bitwarden.com/identity/connect/token"
            );
            assert_eq!(request.fields[1].value, "refresh-1");
        }
        _ => panic!("expected a refresh"),
    }
}

#[test]
fn messages_about_memory_have_no_effects() {
    let text = || "x".to_owned();
    for message in [
        Message::Noop,
        Message::PinInput(text()),
        Message::PinConfirmInput(text()),
        Message::TwoFactorInput(text()),
        Message::SessionRestoreFailed(text()),
        Message::AuthFailed(text()),
    ] {
        let mut state = State::default();
        assert!(send(&mut state, message.clone()).is_empty());
        assert_eq!(state.config, Config::default());
        assert_eq!(state.screen, Screen::Login);
    }
}
