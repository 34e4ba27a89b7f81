use vaultmaid::message::Screen;
use vaultmaid::state::State;

#[test]
fn default_state_starts_at_login() {
    let state = State::default();
    assert_eq!(state.screen, Screen::Login);
    assert!(state.toasts.is_empty());
    assert!(state.session.is_none());
    assert!(!state.auth_busy);
    assert_eq!(state.config, vaultmaid::config::Config::default());
}

#[test]
fn a_fresh_state_holds_nothing() {
    let state = State::started(vaultmaid::config::Config::default());
    assert!(state.pin_input.is_empty());
    assert!(state.pin_confirm.is_empty());
    assert!(state.pin_error.is_none());
    assert!(state.device_code.is_none());
    assert!(state.two_factor_input.is_empty());
    assert!(state.auth_error.is_none());
    assert!(state.cache_key.is_none());
    assert!(state.cached_vault.is_none());
}
