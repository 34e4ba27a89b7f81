//! The state of the running program.
//!
//! One flat record: the screen says which stage the user is at, and each view
//! reads the fields that matter to it.

use crate::api::auth::{DeviceCode, DeviceCodeModel, Session, SessionModel};
use crate::config::{Config, ConfigModel};
use crate::message::Screen;
use crate::model::{option_view, seq_view};
use crate::pin::{CacheKey, CacheKeyModel};
use vstd::prelude::*;
use vstd::string::*;

verus! {

/// The state of the running program.
pub struct State {
    pub screen: Screen,
    pub config: Config,
    pub toasts: Vec<String>,
    /// What stands in the PIN field. It is emptied as soon as it is used.
    pub pin_input: String,
    /// What stands in the confirmation field of the setup form.
    pub pin_confirm: String,
    /// Error under a PIN form.
    pub pin_error: Option<String>,
    /// The session; there is none before a login or a silent refresh.
    pub session: Option<Session>,
    /// The device code that waits for approval in the browser.
    pub device_code: Option<DeviceCode>,
    /// What stands in the field for the second factor.
    pub two_factor_input: String,
    /// A request of the authentication flow is under way.
    pub auth_busy: bool,
    /// Error of the authentication flow.
    pub auth_error: Option<String>,
    /// The AES key that the PIN gave on unlock, kept for the session.
    pub cache_key: Option<CacheKey>,
    /// The decrypted snapshot, where there was a readable one.
    pub cached_vault: Option<String>,
}

/// View of a [`State`].
pub struct StateModel {
    pub screen: Screen,
    pub config: ConfigModel,
    pub toasts: Seq<Seq<char>>,
    pub pin_input: Seq<char>,
    pub pin_confirm: Seq<char>,
    pub pin_error: Option<Seq<char>>,
    pub session: Option<SessionModel>,
    pub device_code: Option<DeviceCodeModel>,
    pub two_factor_input: Seq<char>,
    pub auth_busy: bool,
    pub auth_error: Option<Seq<char>>,
    pub cache_key: Option<CacheKeyModel>,
    pub cached_vault: Option<Seq<char>>,
}

impl View for State {
    type V = StateModel;

    open spec fn view(&self) -> StateModel {
        StateModel {
            screen: self.screen,
            config: self.config@,
            toasts: seq_view(self.toasts@),
            pin_input: self.pin_input@,
            pin_confirm: self.pin_confirm@,
            pin_error: option_view(self.pin_error),
            session: option_view(self.session),
            device_code: option_view(self.device_code),
            two_factor_input: self.two_factor_input@,
            auth_busy: self.auth_busy,
            auth_error: option_view(self.auth_error),
            cache_key: option_view(self.cache_key),
            cached_vault: option_view(self.cached_vault),
        }
    }
}

impl StateModel {
    /// The state of a program that has just started with this configuration.
    pub open spec fn started(config: ConfigModel) -> StateModel {
        StateModel {
            screen: Screen::Login,
            config,
            toasts: seq![],
            pin_input: seq![],
            pin_confirm: seq![],
            pin_error: None,
            session: None,
            device_code: None,
            two_factor_input: seq![],
            auth_busy: false,
            auth_error: None,
            cache_key: None,
            cached_vault: None,
        }
    }
}

impl State {
    /// A program that has just started with this configuration.
    pub fn started(config: Config) -> (r: Self)
        ensures
            r@ == StateModel::started(config@),
    {
        let toasts: Vec<String> = Vec::new();
        proof {
            assert(seq_view(toasts@) =~= seq![]);
        }
        State {
            screen: Screen::default(),
            config,
            toasts,
            pin_input: String::new(),
            pin_confirm: String::new(),
            pin_error: None,
            session: None,
            device_code: None,
            two_factor_input: String::new(),
            auth_busy: false,
            auth_error: None,
            cache_key: None,
            cached_vault: None,
        }
    }
}

impl Default for State {
    fn default() -> (r: Self)
        ensures
            r@ == StateModel::started(ConfigModel::standard()),
    {
        State::started(Config::default())
    }
}

// ---------------------------------------------------------------------
// Laws
// ---------------------------------------------------------------------

/// A program starts on the login screen with the given configuration, and with
/// nothing else: no session, no key, no snapshot, nothing typed, no error.
pub proof fn a_start_holds_nothing(config: ConfigModel)
    ensures
        ({
            let state = StateModel::started(config);
            &&& state.screen == Screen::Login
            &&& state.config == config
            &&& state.toasts.len() == 0
            &&& state.pin_input.len() == 0
            &&& state.pin_confirm.len() == 0
            &&& state.pin_error is None
            &&& state.session is None
            &&& state.device_code is None
            &&& state.two_factor_input.len() == 0
            &&& !state.auth_busy
            &&& state.auth_error is None
            &&& state.cache_key is None
            &&& state.cached_vault is None
        }),
{
}

/// A contract that speaks of the view of a state speaks of every field of it.
pub proof fn states_are_shown_whole(state: State)
    ensures
        state@.screen == state.screen,
        state@.config == state.config@,
        state@.toasts == seq_view(state.toasts@),
        state@.pin_input == state.pin_input@,
        state@.pin_confirm == state.pin_confirm@,
        state@.pin_error == option_view(state.pin_error),
        state@.session == option_view(state.session),
        state@.device_code == option_view(state.device_code),
        state@.two_factor_input == state.two_factor_input@,
        state@.auth_busy == state.auth_busy,
        state@.auth_error == option_view(state.auth_error),
        state@.cache_key == option_view(state.cache_key),
        state@.cached_vault == option_view(state.cached_vault),
{
}

} // verus!
