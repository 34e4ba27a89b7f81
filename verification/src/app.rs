//! How the program moves: from a state and a message to the next state and
//! the effects that go with it.
//!
//! A message that touches memory alone has no effects. One that reaches the
//! network, the disk or the keyring leaves as an effect, and what came of it
//! comes back as a message or through one of the functions here. Polling is
//! driven by delayed messages, so the interval that the server asks for is
//! honoured. The plaintext PIN does not outlive the update that handles it.

use crate::api::auth::{
    clear_refresh_token, default_interval, form_field, identity_request, keyring_after,
    keyring_answer, load_refresh_token, loaded, poll_device_code, poll_fields, refresh_entry,
    refresh_fields, refresh_token_round_trip, save_refresh_token, second_factor_is_added,
    silent_refresh, start_device_code, start_fields, token_user, AuthError, AuthErrorModel,
    AuthTokens, AuthTokensModel, DeviceCode, DeviceCodeModel, DeviceInfo, DeviceInfoModel,
    FormRequest, FormRequestModel, Keyring, KeyringRequestModel, PollOutcome, PollOutcomeModel,
    Session, SessionModel, DEVICE_AUTHORIZATION_PATH, TOKEN_PATH,
};
use crate::api::client::{endpoint, ApiPrefix, Client, ClientModel};
use crate::api::url::{url_parsed, Url};
use crate::cache::storage::{SnapshotRow, SnapshotRowModel, StorageError, StorageErrorModel};
use crate::cache::{
    cache_id, fetch_view, load_step, row_id, snapshot_row, Cache, LoadStep, LoadStepModel,
};
use crate::config::{Config, ConfigModel};
use crate::effect::{Effect, EffectModel};
use crate::message::{Message, MessageModel, Screen};
use crate::model::{option_view, result_view, seq_view};
use crate::pin::{
    derive_cache_key, derive_result, hash_pin, hashed, lanes_fit, verify_result, verify_stored,
    CacheKey, CacheKeyModel, Pin, PinError, PinErrorModel, Verifier, MAX_PASSWORD_LEN,
};
use crate::state::{State, StateModel};
use crate::text::clone_text;
use vstd::prelude::*;
use vstd::string::*;
use vstd::utf8::{encode_utf8, encode_utf8_decode_utf8, encode_utf8_valid_utf8};

verus! {

fn one(effect: Effect) -> (r: Vec<Effect>)
    ensures
        seq_view(r@) == seq![effect@],
{
    let mut effects: Vec<Effect> = Vec::new();
    effects.push(effect);
    proof {
        assert(seq_view(effects@) =~= seq![effect@]);
    }
    effects
}

fn none() -> (r: Vec<Effect>)
    ensures
        seq_view(r@) == Seq::<EffectModel>::empty(),
{
    let effects: Vec<Effect> = Vec::new();
    proof {
        assert(seq_view(effects@) =~= Seq::<EffectModel>::empty());
    }
    effects
}

// ---------------------------------------------------------------------
// What the requests are made of
// ---------------------------------------------------------------------

/// The client for the configured server, where its URL is a URL. It has no
/// token: the identity endpoints need none.
pub open spec fn client_for(config: ConfigModel) -> Option<ClientModel> {
    match url_parsed(config.server_url) {
        Ok(server_url) => Some(ClientModel { server_url, token: None }),
        Err(_) => None,
    }
}

/// Build the client for the configured server.
pub fn build_client(state: &State) -> (r: Option<Client>)
    ensures
        option_view(r) == client_for(state@.config),
{
    match Url::parse(state.config.server_url.as_str()) {
        Ok(url) => Some(Client::new(url)),
        Err(_) => None,
    }
}

/// How this installation describes itself: by its identifier, and by the name
/// of the host where that is known.
pub open spec fn device_for(config: ConfigModel, hostname: Option<Seq<char>>) -> DeviceInfoModel {
    DeviceInfoModel {
        device_identifier: match config.device_identifier {
            Some(identifier) => identifier,
            None => seq![],
        },
        device_name: match hostname {
            Some(name) => if name.len() > 0 {
                name
            } else {
                "vaultmaid"@
            },
            None => "vaultmaid"@,
        },
    }
}

/// Describe this installation to the server.
pub fn device_info(state: &State, hostname: &Option<String>) -> (r: DeviceInfo)
    ensures
        r@ == device_for(state@.config, option_view(*hostname)),
{
    let name: String = match hostname {
        Some(name) => if name.as_str().unicode_len() > 0 {
            name.clone()
        } else {
            "vaultmaid".to_owned()
        },
        None => "vaultmaid".to_owned(),
    };
    let identifier: String = match &state.config.device_identifier {
        Some(identifier) => identifier.clone(),
        None => String::new(),
    };
    DeviceInfo::new(identifier.as_str(), name.as_str())
}

/// Seconds between two polls: what the device code says, five where there is
/// none, and never less than one.
pub open spec fn interval_of(code: Option<DeviceCodeModel>) -> u64 {
    match code {
        Some(code) => if code.interval == 0 {
            1
        } else {
            code.interval
        },
        None => 5,
    }
}

/// Seconds between two polls.
pub fn poll_interval(state: &State) -> (r: u64)
    ensures
        r == interval_of(state@.device_code),
{
    let interval: u64 = match &state.device_code {
        Some(code) => code.interval,
        None => default_interval(),
    };
    if interval == 0 {
        1
    } else {
        interval
    }
}

// ---------------------------------------------------------------------
// The device flow
// ---------------------------------------------------------------------

/// What the request for a device code is; `None` without a server.
pub open spec fn start_request(config: ConfigModel, hostname: Option<Seq<char>>) -> Option<
    Result<FormRequestModel, AuthErrorModel>,
> {
    match client_for(config) {
        Some(client) => Some(
            identity_request(
                client,
                DEVICE_AUTHORIZATION_PATH@,
                start_fields(device_for(config, hostname)),
            ),
        ),
        None => None,
    }
}

/// The view of a request that may not exist.
pub open spec fn request_view(request: Option<Result<FormRequest, AuthError>>) -> Option<
    Result<FormRequestModel, AuthErrorModel>,
> {
    match request {
        Some(request) => Some(result_view(request)),
        None => None,
    }
}

/// The start of the device flow with this request. One that could not be
/// built fails like one that was refused.
pub open spec fn start_step(
    pre: StateModel,
    request: Option<Result<FormRequestModel, AuthErrorModel>>,
) -> (StateModel, Seq<EffectModel>) {
    let fresh = StateModel { auth_error: None, device_code: None, ..pre };
    match request {
        None => (
            StateModel { auth_error: Some("Server URL is not valid"@), ..fresh },
            Seq::empty(),
        ),
        Some(Ok(request)) => (
            StateModel { auth_busy: true, ..fresh },
            seq![EffectModel::RequestDeviceCode(request)],
        ),
        Some(Err(error)) => (
            StateModel { auth_busy: true, ..fresh },
            seq![EffectModel::Deliver(MessageModel::AuthFailed(error.message_text()))],
        ),
    }
}

/// Start the device flow with a request that was built, if there was a server
/// to build it for.
pub fn start_requested(state: &mut State, request: Option<Result<FormRequest, AuthError>>) -> (r:
    Vec<Effect>)
    ensures
        (final(state)@, seq_view(r@)) == start_step(old(state)@, request_view(request)),
{
    state.auth_error = None;
    state.device_code = None;
    match request {
        None => {
            state.auth_error = Some("Server URL is not valid".to_owned());
            none()
        },
        Some(request) => {
            state.auth_busy = true;
            match request {
                Ok(request) => one(Effect::RequestDeviceCode(request)),
                Err(error) => one(Effect::Deliver(device_code_message(Err(error)))),
            }
        },
    }
}

/// Start the device flow: ask for a user code.
pub fn begin_device_code(state: &mut State, hostname: &Option<String>) -> (r: Vec<Effect>)
    ensures
        (final(state)@, seq_view(r@)) == start_step(
            old(state)@,
            start_request(old(state)@.config, option_view(*hostname)),
        ),
{
    let request = match build_client(state) {
        Some(client) => Some(start_device_code(&client, &device_info(state, hostname))),
        None => None,
    };
    start_requested(state, request)
}

/// The message for what came of a request for a device code.
pub open spec fn code_message(outcome: Result<DeviceCodeModel, AuthErrorModel>) -> MessageModel {
    match outcome {
        Ok(code) => MessageModel::DeviceCodeReceived(code),
        Err(error) => MessageModel::AuthFailed(error.message_text()),
    }
}

/// Turn what came of a request for a device code into a message.
pub fn device_code_message(outcome: Result<DeviceCode, AuthError>) -> (r: Message)
    ensures
        r@ == code_message(result_view(outcome)),
{
    match outcome {
        Ok(code) => Message::DeviceCodeReceived(code),
        Err(error) => Message::AuthFailed(error.message()),
    }
}

/// What a poll asks; `None` without a device code or a server.
pub open spec fn poll_request(
    pre: StateModel,
    hostname: Option<Seq<char>>,
    two_factor: Option<Seq<char>>,
) -> Option<Result<FormRequestModel, AuthErrorModel>> {
    match (pre.device_code, client_for(pre.config)) {
        (Some(code), Some(client)) => Some(
            identity_request(
                client,
                TOKEN_PATH@,
                poll_fields(device_for(pre.config, hostname), code.device_code, two_factor),
            ),
        ),
        _ => None,
    }
}

/// One poll with this request; without one there is nothing to do.
pub open spec fn poll_step(
    pre: StateModel,
    request: Option<Result<FormRequestModel, AuthErrorModel>>,
) -> (StateModel, Seq<EffectModel>) {
    match request {
        None => (pre, Seq::empty()),
        Some(Ok(request)) => (
            StateModel { auth_busy: true, ..pre },
            seq![EffectModel::RequestTokens(request)],
        ),
        Some(Err(error)) => (
            StateModel { auth_busy: true, ..pre },
            seq![EffectModel::Deliver(MessageModel::AuthFailed(error.message_text()))],
        ),
    }
}

/// Poll with a request that was built, if there was something to poll for.
pub fn poll_requested(state: &mut State, request: Option<Result<FormRequest, AuthError>>) -> (r:
    Vec<Effect>)
    ensures
        (final(state)@, seq_view(r@)) == poll_step(old(state)@, request_view(request)),
{
    match request {
        None => none(),
        Some(request) => {
            state.auth_busy = true;
            match request {
                Ok(request) => one(Effect::RequestTokens(request)),
                Err(error) => one(Effect::Deliver(poll_message(Err(error)))),
            }
        },
    }
}

/// Poll the token endpoint once, with a second factor where there is one.
pub fn poll_once(state: &mut State, two_factor: Option<String>, hostname: &Option<String>) -> (r:
    Vec<Effect>)
    ensures
        (final(state)@, seq_view(r@)) == poll_step(
            old(state)@,
            poll_request(old(state)@, option_view(*hostname), option_view(two_factor)),
        ),
{
    let request = match &state.device_code {
        Some(code) => match build_client(state) {
            Some(client) => {
                let device = device_info(state, hostname);
                let token: Option<&str> = match &two_factor {
                    Some(token) => Some(token.as_str()),
                    None => None,
                };
                Some(poll_device_code(&client, &device, code.device_code.as_str(), token))
            },
            None => None,
        },
        None => None,
    };
    poll_requested(state, request)
}

/// The message for what came of a poll.
pub open spec fn polled_message(outcome: Result<PollOutcomeModel, AuthErrorModel>) -> MessageModel {
    match outcome {
        Ok(outcome) => MessageModel::PollFinished(outcome),
        Err(error) => MessageModel::AuthFailed(error.message_text()),
    }
}

/// Turn what came of a poll into a message.
pub fn poll_message(outcome: Result<PollOutcome, AuthError>) -> (r: Message)
    ensures
        r@ == polled_message(result_view(outcome)),
{
    match outcome {
        Ok(outcome) => Message::PollFinished(outcome),
        Err(error) => Message::AuthFailed(error.message()),
    }
}

/// The end of a device flow that failed, with the message for the user.
pub open spec fn fail_step(pre: StateModel, message: Seq<char>) -> StateModel {
    StateModel {
        auth_busy: false,
        device_code: None,
        auth_error: Some(message),
        screen: Screen::Login,
        ..pre
    }
}

/// Abandon the device flow and say why.
pub fn fail_login(state: &mut State, message: &str) -> (r: Vec<Effect>)
    ensures
        final(state)@ == fail_step(old(state)@, message@),
        seq_view(r@) == Seq::<EffectModel>::empty(),
{
    state.auth_busy = false;
    state.device_code = None;
    state.auth_error = Some(message.to_owned());
    state.screen = Screen::Login;
    none()
}

/// The state once polling has slowed down to this interval.
pub open spec fn slowed(pre: StateModel, interval: u64) -> StateModel {
    StateModel {
        device_code: match pre.device_code {
            Some(code) => Some(DeviceCodeModel { interval, ..code }),
            None => None,
        },
        ..pre
    }
}

/// What the outcome of a poll leads to.
pub open spec fn poll_outcome_step(pre: StateModel, outcome: PollOutcomeModel) -> (
    StateModel,
    Seq<EffectModel>,
) {
    match outcome {
        PollOutcomeModel::Authorized(tokens) => tokens_step(pre, tokens),
        PollOutcomeModel::Pending => (
            StateModel { auth_busy: true, ..pre },
            seq![EffectModel::PollAfter(interval_of(pre.device_code))],
        ),
        PollOutcomeModel::SlowDown => {
            let interval = (interval_of(pre.device_code) + 5) as u64;
            (slowed(pre, interval), seq![EffectModel::PollAfter(interval)])
        },
        PollOutcomeModel::TwoFactorRequired => (
            StateModel { auth_busy: false, auth_error: None, screen: Screen::TwoFa, ..pre },
            Seq::empty(),
        ),
        PollOutcomeModel::Expired => (
            fail_step(pre, "The device code expired. Try again."@),
            Seq::empty(),
        ),
        PollOutcomeModel::Denied => (
            fail_step(pre, "The login request was denied."@),
            Seq::empty(),
        ),
    }
}

/// React to the outcome of a poll.
///
/// A request to slow down adds five seconds to the interval of every poll
/// that follows, so the longer interval is kept with the device code.
pub fn handle_poll(state: &mut State, outcome: PollOutcome) -> (r: Vec<Effect>)
    requires
        outcome@ is SlowDown ==> interval_of(old(state)@.device_code) + 5 <= u64::MAX,
    ensures
        (final(state)@, seq_view(r@)) == poll_outcome_step(old(state)@, outcome@),
{
    match outcome {
        PollOutcome::Authorized(tokens) => complete_login(state, tokens),
        PollOutcome::Pending => {
            state.auth_busy = true;
            let interval: u64 = poll_interval(state);
            one(Effect::PollAfter(interval))
        },
        PollOutcome::SlowDown => {
            let interval: u64 = poll_interval(state) + 5;
            let code: Option<DeviceCode> = state.device_code.take();
            state.device_code = match code {
                Some(code) => Some(
                    DeviceCode {
                        device_code: code.device_code,
                        user_code: code.user_code,
                        verification_uri: code.verification_uri,
                        interval,
                    },
                ),
                None => None,
            };
            one(Effect::PollAfter(interval))
        },
        PollOutcome::TwoFactorRequired => {
            state.auth_busy = false;
            state.auth_error = None;
            state.screen = Screen::TwoFa;
            none()
        },
        PollOutcome::Expired => fail_login(state, "The device code expired. Try again."),
        PollOutcome::Denied => fail_login(state, "The login request was denied."),
    }
}

// ---------------------------------------------------------------------
// Login and logout
// ---------------------------------------------------------------------

/// The start of a session. Its user is remembered in the configuration and
/// its refresh token goes to the keyring under the user's id; without a user
/// neither is kept. What follows is the unlock form, or the setup form where
/// no PIN has been set.
pub open spec fn login_step(
    pre: StateModel,
    session: SessionModel,
    refresh_token: Option<Seq<char>>,
) -> (StateModel, Seq<EffectModel>) {
    let config = match session.user_id {
        Some(user_id) => ConfigModel { last_user_id: Some(user_id), ..pre.config },
        None => pre.config,
    };
    let stored = match (session.user_id, refresh_token) {
        (Some(user_id), Some(token)) => seq![
            EffectModel::StoreRefreshToken(
                KeyringRequestModel::Store { entry: refresh_entry(user_id), secret: token },
            ),
        ],
        _ => Seq::empty(),
    };
    let saved = match session.user_id {
        Some(_) => seq![EffectModel::SaveConfig(config)],
        None => Seq::empty(),
    };
    (
        StateModel {
            config,
            session: Some(session),
            auth_busy: false,
            auth_error: None,
            two_factor_input: seq![],
            device_code: None,
            screen: if config.pin_verifier is Some {
                Screen::Unlock
            } else {
                Screen::SetPin
            },
            ..pre
        },
        stored + saved,
    )
}

/// Enter a session, with the refresh token that came with it.
pub fn enter_session(state: &mut State, session: Session, refresh_token: Option<String>) -> (r: Vec<
    Effect,
>)
    ensures
        (final(state)@, seq_view(r@)) == login_step(
            old(state)@,
            session@,
            option_view(refresh_token),
        ),
        final(state).session matches Some(entered) && entered.access_token@
            == session.access_token@ && option_view(entered.user_id) == option_view(
            session.user_id,
        ),
{
    let ghost pre = state@;
    let ghost expected = login_step(pre, session@, option_view(refresh_token));
    let mut effects: Vec<Effect> = Vec::new();
    if let Some(user_id) = &session.user_id {
        if let Some(token) = &refresh_token {
            effects.push(
                Effect::StoreRefreshToken(save_refresh_token(user_id.as_str(), token.as_str())),
            );
        }
        state.config.last_user_id = Some(user_id.clone());
        effects.push(Effect::SaveConfig(state.config.clone()));
    }
    proof {
        assert(seq_view(effects@) =~= expected.1);
    }
    state.session = Some(session);
    state.auth_busy = false;
    state.auth_error = None;
    state.two_factor_input = String::new();
    state.device_code = None;
    state.screen = if state.config.pin_verifier.is_some() {
        Screen::Unlock
    } else {
        Screen::SetPin
    };
    effects
}

/// What fresh tokens lead to.
pub open spec fn tokens_step(pre: StateModel, tokens: AuthTokensModel) -> (
    StateModel,
    Seq<EffectModel>,
) {
    login_step(
        pre,
        SessionModel {
            access_token: tokens.access_token,
            user_id: token_user(tokens.access_token),
        },
        tokens.refresh_token,
    )
}

/// Store the session of these tokens and go on to the PIN. The access token
/// stays in memory.
pub fn complete_login(state: &mut State, tokens: AuthTokens) -> (r: Vec<Effect>)
    ensures
        (final(state)@, seq_view(r@)) == tokens_step(old(state)@, tokens@),
        final(state).session matches Some(entered) && entered.access_token@ == tokens.access_token@
            && option_view(entered.user_id) == token_user(tokens.access_token@),
{
    let refresh_token: Option<String> = clone_text(&tokens.refresh_token);
    let session = Session::from_tokens(tokens);
    enter_session(state, session, refresh_token)
}

/// The end of a session. The refresh token and the snapshot of the user go,
/// and so does the PIN verifier: whoever logs in next sets a PIN of their own.
pub open spec fn logout_step(pre: StateModel) -> (StateModel, Seq<EffectModel>) {
    let config = ConfigModel { last_user_id: None, pin_verifier: None, ..pre.config };
    let wiped = match pre.config.last_user_id {
        Some(user_id) => seq![
            EffectModel::ClearRefreshToken(
                KeyringRequestModel::Delete { entry: refresh_entry(user_id) },
            ),
            EffectModel::DiscardSnapshot(row_id(user_id)),
        ],
        None => Seq::empty(),
    };
    (
        StateModel {
            session: None,
            device_code: None,
            two_factor_input: seq![],
            auth_error: None,
            auth_busy: false,
            cache_key: None,
            cached_vault: None,
            config,
            screen: Screen::Login,
            ..pre
        },
        wiped + seq![EffectModel::SaveConfig(config)],
    )
}

/// Clear everything that belongs to the session, and return to the login
/// screen. The access token dies with the process; there is nothing to revoke
/// on the server.
pub fn logout(state: &mut State) -> (r: Vec<Effect>)
    ensures
        (final(state)@, seq_view(r@)) == logout_step(old(state)@),
{
    let ghost expected = logout_step(state@);
    let mut effects: Vec<Effect> = Vec::new();
    if let Some(user_id) = &state.config.last_user_id {
        effects.push(Effect::ClearRefreshToken(clear_refresh_token(user_id.as_str())));
        effects.push(Effect::DiscardSnapshot(Cache::discard(user_id.as_str())));
    }
    state.session = None;
    state.device_code = None;
    state.two_factor_input = String::new();
    state.auth_error = None;
    state.auth_busy = false;
    state.cache_key = None;
    state.cached_vault = None;
    state.config.last_user_id = None;
    state.config.pin_verifier = None;
    effects.push(Effect::SaveConfig(state.config.clone()));
    state.screen = Screen::Login;
    proof {
        assert(seq_view(effects@) =~= expected.1);
    }
    effects
}

// ---------------------------------------------------------------------
// Start and silent restore
// ---------------------------------------------------------------------

/// What a start looks for in the keyring: the refresh token of the remembered
/// user.
pub open spec fn restore_effects(config: ConfigModel) -> Seq<EffectModel> {
    match config.last_user_id {
        Some(user_id) => seq![
            EffectModel::LoadRefreshToken(
                KeyringRequestModel::Fetch { entry: refresh_entry(user_id) },
            ),
        ],
        None => Seq::empty(),
    }
}

/// Try a silent refresh for the remembered user, if there is one.
pub fn restore_session(state: &State) -> (r: Vec<Effect>)
    ensures
        seq_view(r@) == restore_effects(state@.config),
{
    match &state.config.last_user_id {
        Some(user_id) => one(Effect::LoadRefreshToken(load_refresh_token(user_id.as_str()))),
        None => none(),
    }
}

/// The message for what came of a silent refresh.
pub open spec fn refreshed_message(
    outcome: Result<AuthTokensModel, AuthErrorModel>,
) -> MessageModel {
    match outcome {
        Ok(tokens) => MessageModel::SessionRestored(tokens),
        Err(error) => MessageModel::SessionRestoreFailed(error.message_text()),
    }
}

/// Turn what came of a silent refresh into a message.
pub fn refresh_message(outcome: Result<AuthTokens, AuthError>) -> (r: Message)
    ensures
        r@ == refreshed_message(result_view(outcome)),
{
    match outcome {
        Ok(tokens) => Message::SessionRestored(tokens),
        Err(error) => Message::SessionRestoreFailed(error.message()),
    }
}

/// The view of what the keyring holds for a user.
pub open spec fn token_view(token: Result<Option<String>, AuthError>) -> Result<
    Option<Seq<char>>,
    AuthErrorModel,
> {
    match token {
        Ok(token) => Ok(option_view(token)),
        Err(error) => Err(error@),
    }
}

/// What the refresh token that the keyring holds is used for. Without a token
/// or a server the login screen stays as it is.
pub open spec fn refresh_effects(
    config: ConfigModel,
    token: Result<Option<Seq<char>>, AuthErrorModel>,
) -> Seq<EffectModel> {
    match (token, client_for(config)) {
        (Ok(Some(token)), Some(client)) => match identity_request(
            client,
            TOKEN_PATH@,
            refresh_fields(token),
        ) {
            Ok(request) => seq![EffectModel::RequestRefresh(request)],
            Err(error) => seq![
                EffectModel::Deliver(MessageModel::SessionRestoreFailed(error.message_text())),
            ],
        },
        _ => Seq::empty(),
    }
}

/// Go on with a silent restore once the keyring has answered.
pub fn refresh_token_loaded(state: &State, token: Result<Option<String>, AuthError>) -> (r: Vec<
    Effect,
>)
    ensures
        seq_view(r@) == refresh_effects(state@.config, token_view(token)),
{
    let token: String = match token {
        Ok(Some(token)) => token,
        _ => return none(),
    };
    match build_client(state) {
        Some(client) => match silent_refresh(&client, token.as_str()) {
            Ok(request) => one(Effect::RequestRefresh(request)),
            Err(error) => one(Effect::Deliver(refresh_message(Err(error)))),
        },
        None => none(),
    }
}

/// A lower-case hexadecimal digit.
pub open spec fn hex_digit(c: char) -> bool {
    ('0' <= c && c <= '9') || ('a' <= c && c <= 'f')
}

/// The text of a random UUID: 32 hexadecimal digits in groups of 8, 4, 4, 4
/// and 12, with the version and the variant in their places.
pub open spec fn uuid_text(text: Seq<char>) -> bool {
    &&& text.len() == 36
    &&& text[8] == '-' && text[13] == '-' && text[18] == '-' && text[23] == '-'
    &&& forall|i: int|
        0 <= i < 36 && i != 8 && i != 13 && i != 18 && i != 23 ==> hex_digit(#[trigger] text[i])
    &&& text[14] == '4'
    &&& text[19] == '8' || text[19] == '9' || text[19] == 'a' || text[19] == 'b'
}

/// `Uuid::new_v4`, printed. Trusted: the text has the form of a random UUID;
/// nothing is claimed of the digits.
#[verifier::external_body]
fn fresh_uuid() -> (r: String)
    ensures
        uuid_text(r@),
{
    uuid::Uuid::new_v4().to_string()
}

/// The start of the program. An installation without an identifier gets this
/// one, which is saved at once, so that the first request already carries it.
pub open spec fn boot_step(config: ConfigModel, identifier: Seq<char>) -> (
    StateModel,
    Seq<EffectModel>,
) {
    let identified = match config.device_identifier {
        Some(_) => config,
        None => ConfigModel { device_identifier: Some(identifier), ..config },
    };
    let saved = match config.device_identifier {
        Some(_) => Seq::empty(),
        None => seq![EffectModel::SaveConfig(identified)],
    };
    (StateModel::started(identified), saved + restore_effects(identified))
}

/// Start with this configuration, and with this identifier where the
/// configuration has none.
pub fn boot_with(config: Config, identifier: String) -> (r: (State, Vec<Effect>))
    ensures
        (r.0@, seq_view(r.1@)) == boot_step(config@, identifier@),
{
    let ghost expected = boot_step(config@, identifier@);
    let mut config = config;
    let mut effects: Vec<Effect> = Vec::new();
    if config.device_identifier.is_none() {
        config.device_identifier = Some(identifier);
        effects.push(Effect::SaveConfig(config.clone()));
    }
    let state = State::started(config);
    if let Some(user_id) = &state.config.last_user_id {
        effects.push(Effect::LoadRefreshToken(load_refresh_token(user_id.as_str())));
    }
    proof {
        assert(seq_view(effects@) =~= expected.1);
    }
    (state, effects)
}

/// Start with this configuration.
pub fn boot(config: Config) -> (r: (State, Vec<Effect>))
    ensures
        exists|identifier: Seq<char>|
            uuid_text(identifier) && (r.0@, seq_view(r.1@)) == #[trigger] boot_step(
                config@,
                identifier,
            ),
{
    let identifier: String = fresh_uuid();
    let ghost text = identifier@;
    let ghost loaded = config@;
    let booted = boot_with(config, identifier);
    proof {
        assert((booted.0@, seq_view(booted.1@)) == boot_step(loaded, text));
    }
    booted
}

// ---------------------------------------------------------------------
// The PIN
// ---------------------------------------------------------------------

/// The state without the plaintext of the PIN forms.
pub open spec fn pin_cleared(pre: StateModel) -> StateModel {
    StateModel { pin_input: seq![], pin_confirm: seq![], ..pre }
}

/// Wipe the plaintext of the PIN forms.
pub fn clear_pin_fields(state: &mut State)
    ensures
        final(state)@ == pin_cleared(old(state)@),
{
    state.pin_input = String::new();
    state.pin_confirm = String::new();
}

/// What setting a PIN that hashed so leads to: the verifier is saved, and the
/// user proves on the unlock form that the PIN they chose unlocks.
pub open spec fn pin_set_step(pre: StateModel, outcome: Result<Seq<char>, PinErrorModel>) -> (
    StateModel,
    Seq<EffectModel>,
) {
    match outcome {
        Ok(verifier) => {
            let config = ConfigModel { pin_verifier: Some(verifier), ..pre.config };
            (
                StateModel { config, screen: Screen::Unlock, ..pin_cleared(pre) },
                seq![EffectModel::SaveConfig(config)],
            )
        },
        Err(error) => (
            StateModel { pin_error: Some(error.message()), ..pin_cleared(pre) },
            Seq::empty(),
        ),
    }
}

/// Set the PIN that was hashed.
pub fn pin_hashed(state: &mut State, outcome: Result<Verifier, PinError>) -> (r: Vec<Effect>)
    ensures
        (final(state)@, seq_view(r@)) == pin_set_step(old(state)@, result_view(outcome)),
{
    clear_pin_fields(state);
    match outcome {
        Ok(verifier) => {
            state.config.pin_verifier = Some(verifier);
            state.screen = Screen::Unlock;
            one(Effect::SaveConfig(state.config.clone()))
        },
        Err(error) => {
            state.pin_error = Some(error.message());
            none()
        },
    }
}

/// What checking a PIN against the configured verifier gives; `None` where
/// there is no verifier that can be checked.
pub open spec fn pin_check(config: ConfigModel, pin: Seq<char>) -> Option<
    Result<bool, PinErrorModel>,
> {
    match config.pin_verifier {
        Some(verifier) => if lanes_fit(verifier) {
            Some(verify_result(pin, verifier))
        } else {
            None
        },
        None => None,
    }
}

/// The view of a check.
pub open spec fn check_view(check: Option<Result<bool, PinError>>) -> Option<
    Result<bool, PinErrorModel>,
> {
    match check {
        Some(check) => Some(result_view(check)),
        None => None,
    }
}

/// What a PIN that was checked so leads to, before the cache is opened. Only
/// the right PIN leads on; a wrong one leaves the screen as it is.
pub open spec fn checked_step(
    pre: StateModel,
    check: Option<Result<bool, PinErrorModel>>,
) -> StateModel {
    match check {
        Some(Ok(true)) => StateModel { screen: Screen::Main, ..pin_cleared(pre) },
        Some(Ok(false)) => StateModel {
            pin_error: Some("Incorrect PIN"@),
            ..pin_cleared(pre)
        },
        _ => StateModel {
            pin_error: Some("PIN verifier is missing or corrupt"@),
            ..pin_cleared(pre)
        },
    }
}

/// React to the check of a PIN. The answer is whether the cache is to be
/// opened.
pub fn pin_checked(state: &mut State, check: Option<Result<bool, PinError>>) -> (r: bool)
    ensures
        final(state)@ == checked_step(old(state)@, check_view(check)),
        r == (check_view(check) == Some(Ok::<bool, PinErrorModel>(true))),
{
    clear_pin_fields(state);
    match check {
        Some(Ok(matched)) => {
            if matched {
                state.screen = Screen::Main;
            } else {
                state.pin_error = Some("Incorrect PIN".to_owned());
            }
            matched
        },
        _ => {
            state.pin_error = Some("PIN verifier is missing or corrupt".to_owned());
            false
        },
    }
}

/// The rows to fetch once there is a key: that of the session's user.
pub open spec fn snapshot_effects(pre: StateModel) -> Seq<EffectModel> {
    match (pre.cache_key, pre.session) {
        (Some(_), Some(session)) => match session.user_id {
            Some(user_id) => seq![EffectModel::LoadSnapshot(row_id(user_id))],
            None => Seq::empty(),
        },
        _ => Seq::empty(),
    }
}

/// Load the snapshot of the session's user. Without a key or a known user
/// there is nothing to load.
pub fn load_cached_vault(state: &State) -> (r: Vec<Effect>)
    ensures
        seq_view(r@) == snapshot_effects(state@),
{
    match (&state.cache_key, &state.session) {
        (Some(_), Some(session)) => match &session.user_id {
            Some(user_id) => one(Effect::LoadSnapshot(cache_id(user_id.as_str()))),
            None => none(),
        },
        _ => none(),
    }
}

/// What a key that was derived so leads to.
pub open spec fn key_step(pre: StateModel, key: Result<CacheKeyModel, PinErrorModel>) -> (
    StateModel,
    Seq<EffectModel>,
) {
    match key {
        Ok(key) => {
            let keyed = StateModel { cache_key: Some(key), ..pre };
            (keyed, snapshot_effects(keyed))
        },
        Err(_) => (pre, Seq::empty()),
    }
}

/// Keep the cache key and load the snapshot; where no key could be derived the
/// cache stays closed.
pub fn key_derived(state: &mut State, key: Result<CacheKey, PinError>) -> (r: Vec<Effect>)
    ensures
        (final(state)@, seq_view(r@)) == key_step(old(state)@, result_view(key)),
{
    match key {
        Ok(key) => {
            state.cache_key = Some(key);
            load_cached_vault(state)
        },
        Err(_) => none(),
    }
}

/// What opening the cache with a PIN leads to.
pub open spec fn unlock_step(pre: StateModel, pin: Seq<char>) -> (StateModel, Seq<EffectModel>) {
    match pre.config.pin_verifier {
        Some(verifier) => key_step(pre, derive_result(pin, verifier)),
        None => (pre, Seq::empty()),
    }
}

/// Derive the cache key and load the snapshot.
pub fn unlock_cache(state: &mut State, pin: &Pin) -> (r: Vec<Effect>)
    ensures
        (final(state)@, seq_view(r@)) == unlock_step(old(state)@, pin@),
{
    let key = match &state.config.pin_verifier {
        Some(verifier) => derive_cache_key(pin, verifier),
        None => return none(),
    };
    key_derived(state, key)
}

/// What submitting a PIN leads to.
pub open spec fn pin_submitted_step(pre: StateModel, pin: Seq<char>) -> (
    StateModel,
    Seq<EffectModel>,
) {
    let check = pin_check(pre.config, pin);
    let checked = checked_step(pre, check);
    if check == Some(Ok::<bool, PinErrorModel>(true)) {
        unlock_step(checked, pin)
    } else {
        (checked, Seq::empty())
    }
}

/// Check a PIN, and on success open the cache with it.
pub fn submit_pin(state: &mut State, pin: &Pin) -> (r: Vec<Effect>)
    ensures
        (final(state)@, seq_view(r@)) == pin_submitted_step(old(state)@, pin@),
{
    let check = match &state.config.pin_verifier {
        Some(verifier) => verify_stored(pin, verifier),
        None => None,
    };
    if pin_checked(state, check) {
        unlock_cache(state, pin)
    } else {
        none()
    }
}

// ---------------------------------------------------------------------
// The snapshot
// ---------------------------------------------------------------------

/// What fetching the row of the session's user leads to: the snapshot, or a
/// row to delete. A failure leaves the state as it is.
pub open spec fn fetched_step(
    pre: StateModel,
    row: Result<Option<SnapshotRowModel>, StorageErrorModel>,
) -> (StateModel, Option<Seq<char>>) {
    match (pre.cache_key, pre.session) {
        (Some(key), Some(session)) => match session.user_id {
            Some(user_id) => match load_step(user_id, key, row) {
                LoadStepModel::Finished(Ok(snapshot)) => (
                    StateModel { cached_vault: snapshot, ..pre },
                    None,
                ),
                LoadStepModel::Finished(Err(_)) => (pre, None),
                LoadStepModel::Delete { id, .. } => (pre, Some(id)),
            },
            None => (pre, None),
        },
        _ => (pre, None),
    }
}

/// Take in the row that was fetched for the session's user. The answer is the
/// id of a row to delete, where the row was unreadable; what comes of that
/// goes to [`snapshot_deleted`].
pub fn snapshot_fetched(state: &mut State, row: Result<Option<SnapshotRow>, StorageError>) -> (r:
    Option<String>)
    ensures
        (final(state)@, option_view(r)) == fetched_step(old(state)@, fetch_view(row)),
{
    let step = match (&state.cache_key, &state.session) {
        (Some(key), Some(session)) => match &session.user_id {
            Some(user_id) => Cache::load_vault(user_id.as_str(), key, row),
            None => return None,
        },
        _ => return None,
    };
    match step {
        LoadStep::Finished(Ok(snapshot)) => {
            state.cached_vault = snapshot;
            None
        },
        LoadStep::Finished(Err(_)) => None,
        LoadStep::Delete { id, reason: _ } => Some(id),
    }
}

/// Take in that an unreadable row was deleted: there is no snapshot. A failed
/// deletion leaves the state as it is.
pub fn snapshot_deleted(state: &mut State, deletion: Result<(), StorageError>)
    ensures
        final(state)@ == (match deletion {
            Ok(()) => StateModel { cached_vault: None, ..old(state)@ },
            Err(_) => old(state)@,
        }),
{
    match Cache::deleted(deletion) {
        Ok(snapshot) => {
            state.cached_vault = snapshot;
        },
        Err(_) => {},
    }
}

// ---------------------------------------------------------------------
// Update
// ---------------------------------------------------------------------

/// What a message leads to. `hash` is what hashing the PIN gave, where the
/// message sets one.
pub open spec fn step(
    pre: StateModel,
    message: MessageModel,
    hostname: Option<Seq<char>>,
    hash: Result<Seq<char>, PinErrorModel>,
) -> (StateModel, Seq<EffectModel>) {
    match message {
        MessageModel::Noop => (pre, Seq::empty()),
        MessageModel::ServerUrlChanged(url) => {
            let config = ConfigModel { server_url: url, ..pre.config };
            (StateModel { config, ..pre }, seq![EffectModel::SaveConfig(config)])
        },
        MessageModel::PinInput(pin) => (
            StateModel { pin_input: pin, pin_error: None, ..pre },
            Seq::empty(),
        ),
        MessageModel::PinConfirmInput(pin) => (
            StateModel { pin_confirm: pin, pin_error: None, ..pre },
            Seq::empty(),
        ),
        MessageModel::PinSet(_) => pin_set_step(pre, hash),
        MessageModel::PinSubmitted(pin) => pin_submitted_step(pre, pin),
        MessageModel::StartDeviceCode => start_step(pre, start_request(pre.config, hostname)),
        MessageModel::DeviceCodeReceived(code) => (
            StateModel {
                device_code: Some(code),
                auth_busy: false,
                screen: Screen::DeviceCode,
                ..pre
            },
            seq![EffectModel::PollAfter(interval_of(Some(code)))],
        ),
        MessageModel::PollDeviceCode => poll_step(pre, poll_request(pre, hostname, None)),
        MessageModel::PollFinished(outcome) => poll_outcome_step(pre, outcome),
        MessageModel::TwoFactorInput(code) => (
            StateModel { two_factor_input: code, auth_error: None, ..pre },
            Seq::empty(),
        ),
        MessageModel::TwoFactorSubmitted => {
            let taken = StateModel { two_factor_input: seq![], ..pre };
            poll_step(taken, poll_request(taken, hostname, Some(pre.two_factor_input)))
        },
        MessageModel::OpenVerificationUri(uri) => (pre, seq![EffectModel::OpenUri(uri)]),
        MessageModel::SessionRestored(tokens) => tokens_step(pre, tokens),
        MessageModel::SessionRestoreFailed(_) => (
            StateModel { auth_busy: false, ..pre },
            Seq::empty(),
        ),
        MessageModel::AuthFailed(error) => (
            StateModel { auth_busy: false, auth_error: Some(error), ..pre },
            Seq::empty(),
        ),
        MessageModel::Logout => logout_step(pre),
    }
}

/// What hashing the PIN of a message may have given. For a message that sets
/// no PIN it does not matter.
pub open spec fn possible_hash(
    message: MessageModel,
    hash: Result<Seq<char>, PinErrorModel>,
) -> bool {
    message matches MessageModel::PinSet(pin) ==> hashed(pin, hash)
}

/// `message` leads from `pre` to `post` with these effects. A PIN is hashed
/// with a salt that is drawn at random; every other message leads to one state
/// only.
pub open spec fn transition(
    pre: StateModel,
    message: MessageModel,
    hostname: Option<Seq<char>>,
    post: StateModel,
    effects: Seq<EffectModel>,
) -> bool {
    exists|hash: Result<Seq<char>, PinErrorModel>|
        possible_hash(message, hash) && (post, effects) == #[trigger] step(
            pre,
            message,
            hostname,
            hash,
        )
}

/// Apply a message to the state. `hostname` is the name of this machine, where
/// the environment tells it.
pub fn update(state: &mut State, message: Message, hostname: Option<String>) -> (r: Vec<Effect>)
    requires
        message@ matches MessageModel::PollFinished(outcome) ==> outcome is SlowDown
            ==> interval_of(old(state)@.device_code) + 5 <= u64::MAX,
    ensures
        transition(
            old(state)@,
            message@,
            option_view(hostname),
            final(state)@,
            seq_view(r@),
        ),
{
    let ghost pre = state@;
    let ghost event = message@;
    let ghost name = option_view(hostname);
    let ghost mut hash: Result<Seq<char>, PinErrorModel> = Ok(seq![]);
    let effects: Vec<Effect> = match message {
        Message::Noop => none(),
        Message::ServerUrlChanged(url) => {
            state.config.server_url = url;
            one(Effect::SaveConfig(state.config.clone()))
        },
        Message::PinInput(pin) => {
            state.pin_input = pin;
            state.pin_error = None;
            none()
        },
        Message::PinConfirmInput(pin) => {
            state.pin_confirm = pin;
            state.pin_error = None;
            none()
        },
        Message::PinSet(pin) => {
            let outcome = hash_pin(&pin);
            proof {
                hash = result_view(outcome);
            }
            pin_hashed(state, outcome)
        },
        Message::PinSubmitted(pin) => submit_pin(state, &pin),
        Message::StartDeviceCode => begin_device_code(state, &hostname),
        Message::DeviceCodeReceived(code) => {
            state.device_code = Some(code);
            state.auth_busy = false;
            state.screen = Screen::DeviceCode;
            let interval: u64 = poll_interval(state);
            one(Effect::PollAfter(interval))
        },
        Message::PollDeviceCode => poll_once(state, None, &hostname),
        Message::PollFinished(outcome) => handle_poll(state, outcome),
        Message::TwoFactorInput(code) => {
            state.two_factor_input = code;
            state.auth_error = None;
            none()
        },
        Message::TwoFactorSubmitted => {
            let mut token: String = String::new();
            std::mem::swap(&mut token, &mut state.two_factor_input);
            poll_once(state, Some(token), &hostname)
        },
        Message::OpenVerificationUri(uri) => one(Effect::OpenUri(uri)),
        Message::SessionRestored(tokens) => complete_login(state, tokens),
        Message::SessionRestoreFailed(_) => {
            state.auth_busy = false;
            none()
        },
        Message::AuthFailed(error) => {
            state.auth_busy = false;
            state.auth_error = Some(error);
            none()
        },
        Message::Logout => logout(state),
    };
    proof {
        assert(possible_hash(event, hash));
        assert((state@, seq_view(effects@)) == step(pre, event, name, hash));
    }
    effects
}

// ---------------------------------------------------------------------
// Laws
// ---------------------------------------------------------------------

/// The main screen is reached only with the PIN that the verifier accepts.
pub proof fn only_the_pin_opens_the_vault(
    pre: StateModel,
    message: MessageModel,
    hostname: Option<Seq<char>>,
    post: StateModel,
    effects: Seq<EffectModel>,
)
    requires
        transition(pre, message, hostname, post, effects),
        post.screen == Screen::Main,
        pre.screen != Screen::Main,
    ensures
        message matches MessageModel::PinSubmitted(pin) && (pre.config.pin_verifier matches Some(
            verifier,
        ) && verify_result(pin, verifier) == Ok::<bool, PinErrorModel>(true)),
{
}

/// A cache key appears only with the PIN that the verifier accepts, and is the
/// key that this PIN and verifier give.
pub proof fn only_the_pin_gives_a_key(
    pre: StateModel,
    message: MessageModel,
    hostname: Option<Seq<char>>,
    post: StateModel,
    effects: Seq<EffectModel>,
    key: CacheKeyModel,
)
    requires
        transition(pre, message, hostname, post, effects),
        post.cache_key == Some(key),
        pre.cache_key != Some(key),
    ensures
        message matches MessageModel::PinSubmitted(pin) && (pre.config.pin_verifier matches Some(
            verifier,
        ) && verify_result(pin, verifier) == Ok::<bool, PinErrorModel>(true) && derive_result(
            pin,
            verifier,
        ) == Ok::<CacheKeyModel, PinErrorModel>(key)),
{
}

/// The plaintext of a PIN does not outlive the update that handles it,
/// whatever comes of it.
pub proof fn pin_does_not_outlive_the_update(
    pre: StateModel,
    message: MessageModel,
    hostname: Option<Seq<char>>,
    post: StateModel,
    effects: Seq<EffectModel>,
)
    requires
        transition(pre, message, hostname, post, effects),
        message is PinSet || message is PinSubmitted,
    ensures
        post.pin_input.len() == 0,
        post.pin_confirm.len() == 0,
{
}

/// A PIN that is not accepted changes nothing but the form: the screen, the
/// configuration and the session stay as they are, and nothing is loaded.
pub proof fn refused_pin_changes_the_form_only(
    pre: StateModel,
    pin: Seq<char>,
    hostname: Option<Seq<char>>,
    post: StateModel,
    effects: Seq<EffectModel>,
)
    requires
        transition(pre, MessageModel::PinSubmitted(pin), hostname, post, effects),
        pin_check(pre.config, pin) != Some(Ok::<bool, PinErrorModel>(true)),
    ensures
        post.pin_error is Some,
        post == (StateModel { pin_error: post.pin_error, ..pin_cleared(pre) }),
        effects.len() == 0,
{
}

/// The PIN that was just set unlocks, and gives the cache key of its verifier.
pub proof fn chosen_pin_unlocks(
    start: StateModel,
    pin: Seq<char>,
    hostname: Option<Seq<char>>,
    locked: StateModel,
    saved: Seq<EffectModel>,
    opened: StateModel,
    effects: Seq<EffectModel>,
)
    requires
        encode_utf8(pin).len() <= MAX_PASSWORD_LEN,
        transition(start, MessageModel::PinSet(pin), hostname, locked, saved),
        transition(locked, MessageModel::PinSubmitted(pin), hostname, opened, effects),
    ensures
        locked.screen == Screen::Unlock,
        opened.screen == Screen::Main,
        locked.config.pin_verifier matches Some(verifier) && (opened.cache_key matches Some(key)
            && derive_result(pin, verifier) == Ok::<CacheKeyModel, PinErrorModel>(key)),
        saved == seq![EffectModel::SaveConfig(locked.config)],
{
}

/// An unlock fetches the row of the session's user, and a row that was saved
/// under the same PIN and verifier gives the snapshot back.
pub proof fn unlock_loads_the_snapshot(
    locked: StateModel,
    pin: Seq<char>,
    hostname: Option<Seq<char>>,
    opened: StateModel,
    effects: Seq<EffectModel>,
    user_id: Seq<char>,
    key: CacheKeyModel,
    row: SnapshotRowModel,
    json: Seq<char>,
    updated_at: Seq<char>,
)
    requires
        transition(locked, MessageModel::PinSubmitted(pin), hostname, opened, effects),
        pin_check(locked.config, pin) == Some(Ok::<bool, PinErrorModel>(true)),
        locked.config.pin_verifier matches Some(verifier) && derive_result(pin, verifier) == Ok::<
            CacheKeyModel,
            PinErrorModel,
        >(key),
        locked.session matches Some(session) && session.user_id == Some(user_id),
        snapshot_row(row, key, json, updated_at),
    ensures
        effects == seq![EffectModel::LoadSnapshot(row_id(user_id))],
        fetched_step(opened, Ok(Some(row))) == (
            StateModel { cached_vault: Some(json), ..opened },
            None::<Seq<char>>,
        ),
{
    encode_utf8_valid_utf8(json);
    encode_utf8_decode_utf8(json);
}

/// After a logout nothing of the session is left: neither in memory nor in the
/// configuration, and the keyring and the cache are told to forget the user.
pub proof fn logout_wipes_the_session(
    pre: StateModel,
    hostname: Option<Seq<char>>,
    post: StateModel,
    effects: Seq<EffectModel>,
)
    requires
        transition(pre, MessageModel::Logout, hostname, post, effects),
    ensures
        post.screen == Screen::Login,
        post.session is None,
        post.device_code is None,
        post.cache_key is None,
        post.cached_vault is None,
        post.two_factor_input.len() == 0,
        post.auth_error is None,
        !post.auth_busy,
        post.config.last_user_id is None,
        post.config.pin_verifier is None,
        pre.config.last_user_id matches Some(user_id) ==> effects == seq![
            EffectModel::ClearRefreshToken(
                KeyringRequestModel::Delete { entry: refresh_entry(user_id) },
            ),
            EffectModel::DiscardSnapshot(row_id(user_id)),
            EffectModel::SaveConfig(post.config),
        ],
{
    if pre.config.last_user_id is Some {
        let user_id = pre.config.last_user_id->0;
        assert(effects =~= seq![
            EffectModel::ClearRefreshToken(
                KeyringRequestModel::Delete { entry: refresh_entry(user_id) },
            ),
            EffectModel::DiscardSnapshot(row_id(user_id)),
            EffectModel::SaveConfig(post.config),
        ]);
    }
}

/// A start after a logout restores no session.
pub proof fn logout_outlasts_a_restart(
    pre: StateModel,
    hostname: Option<Seq<char>>,
    post: StateModel,
    effects: Seq<EffectModel>,
    identifier: Seq<char>,
    i: int,
)
    requires
        transition(pre, MessageModel::Logout, hostname, post, effects),
        0 <= i < boot_step(post.config, identifier).1.len(),
    ensures
        boot_step(post.config, identifier).1[i] !is LoadRefreshToken,
{
}

/// A start does not change who this installation is: an identifier that is
/// there is kept, and one that is made is saved and found at the next start.
pub proof fn identifier_is_stable(config: ConfigModel, first: Seq<char>, second: Seq<char>)
    ensures
        ({
            let booted = boot_step(config, first).0.config;
            &&& booted.device_identifier is Some
            &&& config.device_identifier is Some ==> booted == config
            &&& booted != config ==> boot_step(config, first).1.contains(
                EffectModel::SaveConfig(booted),
            )
            &&& boot_step(booted, second).0.config == booted
        }),
{
    let (state, effects) = boot_step(config, first);
    if config.device_identifier is None {
        assert(effects[0] == EffectModel::SaveConfig(state.config));
    }
}

/// A configuration that an update changes is saved, and what is saved is the
/// configuration that the update leaves.
pub proof fn config_changes_are_saved(
    pre: StateModel,
    message: MessageModel,
    hostname: Option<Seq<char>>,
    post: StateModel,
    effects: Seq<EffectModel>,
)
    requires
        transition(pre, message, hostname, post, effects),
    ensures
        post.config != pre.config ==> effects.contains(EffectModel::SaveConfig(post.config)),
        forall|i: int|
            0 <= i < effects.len() ==> (#[trigger] effects[i] matches EffectModel::SaveConfig(
                config,
            ) ==> config == post.config),
{
    if post.config != pre.config {
        assert(effects.last() == EffectModel::SaveConfig(post.config));
    }
}

/// Tokens never reach the configuration: what a login leaves in it depends on
/// the user alone.
pub proof fn tokens_stay_out_of_the_config(
    pre: StateModel,
    a: SessionModel,
    b: SessionModel,
    a_refresh: Option<Seq<char>>,
    b_refresh: Option<Seq<char>>,
)
    requires
        a.user_id == b.user_id,
    ensures
        login_step(pre, a, a_refresh).0.config == login_step(pre, b, b_refresh).0.config,
{
}

/// A session begins with tokens of the server and ends with a logout; nothing
/// else touches it.
pub proof fn sessions_come_from_tokens(
    pre: StateModel,
    message: MessageModel,
    hostname: Option<Seq<char>>,
    post: StateModel,
    effects: Seq<EffectModel>,
)
    requires
        transition(pre, message, hostname, post, effects),
        post.session != pre.session,
    ensures
        match message {
            MessageModel::SessionRestored(tokens) => post.session matches Some(session)
                && session.access_token == tokens.access_token,
            MessageModel::PollFinished(PollOutcomeModel::Authorized(tokens)) => post.session matches
                Some(session) && session.access_token == tokens.access_token,
            MessageModel::Logout => post.session is None,
            _ => false,
        },
{
}

/// A request to slow down lasts: the poll after it, and every poll after a
/// later `Pending`, waits five seconds longer than before.
pub proof fn slowing_down_lasts(
    pre: StateModel,
    hostname: Option<Seq<char>>,
    slow: StateModel,
    first: Seq<EffectModel>,
    post: StateModel,
    second: Seq<EffectModel>,
)
    requires
        pre.device_code is Some,
        interval_of(pre.device_code) + 5 <= u64::MAX,
        transition(
            pre,
            MessageModel::PollFinished(PollOutcomeModel::SlowDown),
            hostname,
            slow,
            first,
        ),
        transition(
            slow,
            MessageModel::PollFinished(PollOutcomeModel::Pending),
            hostname,
            post,
            second,
        ),
    ensures
        interval_of(slow.device_code) == interval_of(pre.device_code) + 5,
        first == seq![EffectModel::PollAfter(interval_of(slow.device_code))],
        second == seq![EffectModel::PollAfter(interval_of(slow.device_code))],
        post.device_code == slow.device_code,
{
}

/// No poll comes sooner than after one second.
pub proof fn polls_are_paced(
    pre: StateModel,
    message: MessageModel,
    hostname: Option<Seq<char>>,
    post: StateModel,
    effects: Seq<EffectModel>,
    i: int,
)
    requires
        transition(pre, message, hostname, post, effects),
        message == MessageModel::PollFinished(PollOutcomeModel::SlowDown) ==> interval_of(
            pre.device_code,
        ) + 5 <= u64::MAX,
        0 <= i < effects.len(),
    ensures
        effects[i] matches EffectModel::PollAfter(seconds) ==> seconds >= 1,
{
}

/// A device flow that is over is over: after an approval, an expiry, a refusal
/// or a logout a poll that was still scheduled does nothing.
pub proof fn finished_flow_stops_polling(
    pre: StateModel,
    message: MessageModel,
    hostname: Option<Seq<char>>,
    post: StateModel,
    effects: Seq<EffectModel>,
    later: StateModel,
    later_effects: Seq<EffectModel>,
)
    requires
        message is Logout || message is SessionRestored || (message matches
            MessageModel::PollFinished(outcome) && (outcome is Authorized || outcome is Expired
            || outcome is Denied)),
        transition(pre, message, hostname, post, effects),
        transition(post, MessageModel::PollDeviceCode, hostname, later, later_effects),
    ensures
        post.device_code is None,
        later == post,
        later_effects.len() == 0,
{
}

/// A silent restore that failed shows nothing: no error, no other screen.
pub proof fn failed_restore_is_silent(
    pre: StateModel,
    error: Seq<char>,
    hostname: Option<Seq<char>>,
    post: StateModel,
    effects: Seq<EffectModel>,
)
    requires
        transition(pre, MessageModel::SessionRestoreFailed(error), hostname, post, effects),
    ensures
        post == (StateModel { auth_busy: false, ..pre }),
        effects.len() == 0,
{
}

/// A login leads to the unlock form where a PIN has been set, and to the setup
/// form where none has; never straight to the vault.
pub proof fn login_leads_to_the_pin(
    pre: StateModel,
    tokens: AuthTokensModel,
    hostname: Option<Seq<char>>,
    post: StateModel,
    effects: Seq<EffectModel>,
)
    requires
        transition(pre, MessageModel::SessionRestored(tokens), hostname, post, effects)
            || transition(
            pre,
            MessageModel::PollFinished(PollOutcomeModel::Authorized(tokens)),
            hostname,
            post,
            effects,
        ),
    ensures
        post.screen == (if pre.config.pin_verifier is Some {
            Screen::Unlock
        } else {
            Screen::SetPin
        }),
        post.config.pin_verifier == pre.config.pin_verifier,
{
}

/// Messages that touch memory alone have no effects.
pub proof fn memory_needs_no_effects(
    pre: StateModel,
    message: MessageModel,
    hostname: Option<Seq<char>>,
    post: StateModel,
    effects: Seq<EffectModel>,
)
    requires
        transition(pre, message, hostname, post, effects),
        message is Noop || message is PinInput || message is PinConfirmInput || message is
            TwoFactorInput || message is SessionRestoreFailed || message is AuthFailed,
    ensures
        effects.len() == 0,
        post.config == pre.config,
        post.screen == pre.screen,
        message is Noop ==> post == pre,
{
}

/// A second factor repeats the poll: the same request with the code added, and
/// the code is gone from the form.
pub proof fn second_factor_repeats_the_poll(
    pre: StateModel,
    hostname: Option<Seq<char>>,
    polled: StateModel,
    plain: FormRequestModel,
    post: StateModel,
    effects: Seq<EffectModel>,
)
    requires
        transition(
            pre,
            MessageModel::PollDeviceCode,
            hostname,
            polled,
            seq![EffectModel::RequestTokens(plain)],
        ),
        transition(pre, MessageModel::TwoFactorSubmitted, hostname, post, effects),
    ensures
        effects == seq![
            EffectModel::RequestTokens(
                FormRequestModel {
                    url: plain.url,
                    fields: plain.fields.push(
                        form_field("two_factor_token"@, pre.two_factor_input),
                    ),
                },
            ),
        ],
        post == (StateModel { two_factor_input: seq![], ..polled }),
{
    let polling = poll_step(pre, poll_request(pre, hostname, None));
    assert(polling.1[0] == EffectModel::RequestTokens(plain));
    let device = device_for(pre.config, hostname);
    second_factor_is_added(device, pre.device_code->0.device_code, pre.two_factor_input);
}

/// A session survives a restart: a login with a refresh token leaves, in the
/// configuration and in the keyring, what the next start needs to refresh the
/// session silently.
pub proof fn session_survives_a_restart(
    pre: StateModel,
    session: SessionModel,
    user_id: Seq<char>,
    token: Seq<char>,
    keyring: Keyring,
    identifier: Seq<char>,
    words: Seq<char>,
)
    requires
        session.user_id == Some(user_id),
    ensures
        ({
            let (post, effects) = login_step(pre, session, Some(token));
            let store = KeyringRequestModel::Store {
                entry: refresh_entry(user_id),
                secret: token,
            };
            let fetch = KeyringRequestModel::Fetch { entry: refresh_entry(user_id) };
            let booted = boot_step(post.config, identifier);
            let found = loaded(
                keyring_answer(keyring_after(keyring, store), refresh_entry(user_id), words),
            );
            &&& effects == seq![
                EffectModel::StoreRefreshToken(store),
                EffectModel::SaveConfig(post.config),
            ]
            &&& booted.1.last() == EffectModel::LoadRefreshToken(fetch)
            &&& found == Ok::<Option<Seq<char>>, AuthErrorModel>(Some(token))
            &&& client_for(pre.config) matches Some(client) ==> refresh_effects(
                booted.0.config,
                found,
            ) == (match identity_request(client, TOKEN_PATH@, refresh_fields(token)) {
                Ok(request) => seq![EffectModel::RequestRefresh(request)],
                Err(error) => seq![
                    EffectModel::Deliver(MessageModel::SessionRestoreFailed(error.message_text())),
                ],
            })
        }),
{
    let (post, effects) = login_step(pre, session, Some(token));
    let store = KeyringRequestModel::Store { entry: refresh_entry(user_id), secret: token };
    assert(effects =~= seq![
        EffectModel::StoreRefreshToken(store),
        EffectModel::SaveConfig(post.config),
    ]);
    refresh_token_round_trip(keyring, user_id, token, user_id, words);
}

/// Whatever the state before, and with or without a refresh token, a login
/// starts the session of its tokens: the access token, and the user whom that
/// token names. It also ends the device flow, and touches nothing else but the
/// remembered user and the screen.
pub proof fn a_login_starts_the_session(
    pre: StateModel,
    tokens: AuthTokensModel,
    hostname: Option<Seq<char>>,
    post: StateModel,
    effects: Seq<EffectModel>,
)
    requires
        transition(pre, MessageModel::SessionRestored(tokens), hostname, post, effects)
            || transition(
            pre,
            MessageModel::PollFinished(PollOutcomeModel::Authorized(tokens)),
            hostname,
            post,
            effects,
        ),
    ensures
        post.session matches Some(session) && session.access_token == tokens.access_token
            && session.user_id == token_user(tokens.access_token),
        post.device_code is None,
        post.auth_error is None,
        !post.auth_busy,
        post.two_factor_input.len() == 0,
        post == (StateModel {
            config: post.config,
            session: post.session,
            auth_busy: false,
            auth_error: None,
            two_factor_input: post.two_factor_input,
            device_code: None,
            screen: post.screen,
            ..pre
        }),
{
}

/// A login remembers its user in the configuration and keeps the refresh token
/// under that user, first the token and then the configuration; a login
/// without a user keeps neither, and one without a refresh token stores none.
pub proof fn a_login_remembers_its_user(
    pre: StateModel,
    tokens: AuthTokensModel,
    hostname: Option<Seq<char>>,
    post: StateModel,
    effects: Seq<EffectModel>,
)
    requires
        transition(pre, MessageModel::SessionRestored(tokens), hostname, post, effects)
            || transition(
            pre,
            MessageModel::PollFinished(PollOutcomeModel::Authorized(tokens)),
            hostname,
            post,
            effects,
        ),
    ensures
        token_user(tokens.access_token) is None ==> post.config == pre.config && effects.len() == 0,
        token_user(tokens.access_token) matches Some(user_id) ==> post.config == (ConfigModel {
            last_user_id: Some(user_id),
            ..pre.config
        }) && effects.len() > 0 && effects.last() == EffectModel::SaveConfig(post.config) && (
        match tokens.refresh_token {
            Some(token) => effects.len() == 2 && effects[0] == EffectModel::StoreRefreshToken(
                KeyringRequestModel::Store { entry: refresh_entry(user_id), secret: token },
            ),
            None => effects.len() == 1,
        }),
{
}

/// A session is entered as it is, whoever handed it over, and the same from
/// every state: what was there before does not come in.
pub proof fn a_session_is_entered_as_it_is(
    pre: StateModel,
    other: StateModel,
    session: SessionModel,
    refresh_token: Option<Seq<char>>,
)
    ensures
        login_step(pre, session, refresh_token).0.session == Some(session),
        login_step(pre, session, refresh_token).0.session == login_step(
            other,
            session,
            refresh_token,
        ).0.session,
        pre.config == other.config ==> login_step(pre, session, refresh_token).1 == login_step(
            other,
            session,
            refresh_token,
        ).1,
        tokens_step(
            pre,
            AuthTokensModel { access_token: session.access_token, refresh_token },
        ) == login_step(
            pre,
            SessionModel {
                access_token: session.access_token,
                user_id: token_user(session.access_token),
            },
            refresh_token,
        ),
{
}

/// There is a client exactly when the configured server is a URL. It is the
/// client of that server, and carries no token.
pub proof fn the_client_is_of_the_configured_server(config: ConfigModel)
    ensures
        match url_parsed(config.server_url) {
            Ok(server_url) => client_for(config) matches Some(client) && client.server_url
                == server_url && client.token is None,
            Err(_) => client_for(config) is None,
        },
{
}

/// A device goes by its own identifier and by the name of the host; one without
/// a name goes by the name of the program.
pub proof fn a_device_goes_by_its_name(
    config: ConfigModel,
    identifier: Seq<char>,
    name: Seq<char>,
)
    ensures
        config.device_identifier == Some(identifier) ==> device_for(
            config,
            Some(name),
        ).device_identifier == identifier,
        config.device_identifier is None ==> device_for(
            config,
            Some(name),
        ).device_identifier.len() == 0,
        device_for(config, None).device_identifier == device_for(
            config,
            Some(name),
        ).device_identifier,
        name.len() > 0 ==> device_for(config, Some(name)).device_name == name,
        name.len() == 0 ==> device_for(config, Some(name)).device_name == "vaultmaid"@,
        device_for(config, None).device_name == "vaultmaid"@,
{
}

/// The server sets the pace, down to one second; without a code it is five.
pub proof fn the_server_sets_the_pace(code: DeviceCodeModel)
    ensures
        code.interval >= 1 ==> interval_of(Some(code)) == code.interval,
        code.interval < 1 ==> interval_of(Some(code)) == 1,
        interval_of(None) == 5,
{
}

/// Outcomes are reported as they are: a success with what it brought, a failure
/// with its message.
pub proof fn outcomes_are_reported(
    code: DeviceCodeModel,
    outcome: PollOutcomeModel,
    tokens: AuthTokensModel,
    error: AuthErrorModel,
)
    ensures
        code_message(Ok(code)) == MessageModel::DeviceCodeReceived(code),
        code_message(Err(error)) == MessageModel::AuthFailed(error.message_text()),
        polled_message(Ok(outcome)) == MessageModel::PollFinished(outcome),
        polled_message(Err(error)) == MessageModel::AuthFailed(error.message_text()),
        refreshed_message(Ok(tokens)) == MessageModel::SessionRestored(tokens),
        refreshed_message(Err(error)) == MessageModel::SessionRestoreFailed(error.message_text()),
{
}

/// What is handed in is read as it is.
pub proof fn handed_in_values_are_read_as_they_are(
    request: FormRequest,
    auth_error: AuthError,
    matched: bool,
    pin_error: PinError,
    token: String,
)
    ensures
        request_view(None) is None,
        request_view(Some(Ok(request))) == Some(Ok::<FormRequestModel, AuthErrorModel>(request@)),
        request_view(Some(Err(auth_error))) == Some(
            Err::<FormRequestModel, AuthErrorModel>(auth_error@),
        ),
        check_view(None) is None,
        check_view(Some(Ok(matched))) == Some(Ok::<bool, PinErrorModel>(matched)),
        check_view(Some(Err(pin_error))) == Some(Err::<bool, PinErrorModel>(pin_error@)),
        token_view(Ok(None)) == Ok::<Option<Seq<char>>, AuthErrorModel>(None),
        token_view(Ok(Some(token))) == Ok::<Option<Seq<char>>, AuthErrorModel>(Some(token@)),
        token_view(Err(auth_error)) == Err::<Option<Seq<char>>, AuthErrorModel>(auth_error@),
{
}

/// A start of the device flow forgets the old code and the old error. Where the
/// server is no URL it says so and asks nothing; else it asks the server's
/// device-authorization endpoint for a code for this device.
pub proof fn a_flow_starts_fresh(
    pre: StateModel,
    hostname: Option<Seq<char>>,
    post: StateModel,
    effects: Seq<EffectModel>,
)
    requires
        transition(pre, MessageModel::StartDeviceCode, hostname, post, effects),
    ensures
        post == (StateModel {
            auth_error: post.auth_error,
            device_code: None,
            auth_busy: post.auth_busy,
            ..pre
        }),
        match url_parsed(pre.config.server_url) {
            Err(_) => post.auth_error == Some("Server URL is not valid"@) && post.auth_busy
                == pre.auth_busy && effects.len() == 0,
            Ok(server) => {
                &&& post.auth_error is None
                &&& post.auth_busy
                &&& effects.len() == 1
                &&& match endpoint(server, "connect/device-authorization"@, ApiPrefix::Identity) {
                    Ok(url) => effects[0] matches EffectModel::RequestDeviceCode(request)
                        && request.url == url && request.fields == start_fields(
                        device_for(pre.config, hostname),
                    ),
                    Err(error) => effects[0] == EffectModel::Deliver(
                        MessageModel::AuthFailed("invalid server URL: "@ + error),
                    ),
                }
            },
        },
{
}

/// A poll asks the server's token endpoint about the code that waits, with the
/// second factor exactly where one was submitted. Without a code, or where the
/// server is no URL, nothing happens. A submitted factor leaves the form either
/// way.
pub proof fn a_poll_asks_about_the_code(
    pre: StateModel,
    message: MessageModel,
    hostname: Option<Seq<char>>,
    post: StateModel,
    effects: Seq<EffectModel>,
)
    requires
        message is PollDeviceCode || message is TwoFactorSubmitted,
        transition(pre, message, hostname, post, effects),
    ensures
        post == (StateModel {
            auth_busy: post.auth_busy,
            two_factor_input: post.two_factor_input,
            ..pre
        }),
        message is PollDeviceCode ==> post.two_factor_input == pre.two_factor_input,
        message is TwoFactorSubmitted ==> post.two_factor_input.len() == 0,
        pre.device_code is None || url_parsed(pre.config.server_url) is Err ==> post.auth_busy
            == pre.auth_busy && effects.len() == 0,
        pre.device_code matches Some(code) ==> (url_parsed(pre.config.server_url) matches Ok(server)
            ==> ({
            let factor = if message is TwoFactorSubmitted {
                Some(pre.two_factor_input)
            } else {
                None
            };
            &&& post.auth_busy
            &&& effects.len() == 1
            &&& match endpoint(server, "connect/token"@, ApiPrefix::Identity) {
                Ok(url) => effects[0] matches EffectModel::RequestTokens(request) && request.url
                    == url && request.fields == poll_fields(
                    device_for(pre.config, hostname),
                    code.device_code,
                    factor,
                ),
                Err(error) => effects[0] == EffectModel::Deliver(
                    MessageModel::AuthFailed("invalid server URL: "@ + error),
                ),
            }
        })),
{
}

/// A request that was built is sent and one that was not is reported; either
/// way the flow is busy. Without a request there is nothing to wait for.
pub proof fn requests_are_sent_or_reported(
    pre: StateModel,
    request: FormRequestModel,
    error: AuthErrorModel,
)
    ensures
        ({
            let (post, effects) = start_step(pre, Some(Ok(request)));
            &&& effects == seq![EffectModel::RequestDeviceCode(request)]
            &&& post.auth_busy && post.auth_error is None && post.device_code is None
        }),
        ({
            let (post, effects) = start_step(pre, Some(Err(error)));
            &&& effects == seq![
                EffectModel::Deliver(MessageModel::AuthFailed(error.message_text())),
            ]
            &&& post.auth_busy && post.auth_error is None && post.device_code is None
        }),
        ({
            let (post, effects) = poll_step(pre, Some(Ok(request)));
            &&& effects == seq![EffectModel::RequestTokens(request)]
            &&& post == (StateModel { auth_busy: true, ..pre })
        }),
        ({
            let (post, effects) = poll_step(pre, Some(Err(error)));
            &&& effects == seq![
                EffectModel::Deliver(MessageModel::AuthFailed(error.message_text())),
            ]
            &&& post == (StateModel { auth_busy: true, ..pre })
        }),
        poll_step(pre, None) == (pre, Seq::<EffectModel>::empty()),
{
}

/// A code that arrives is shown, unchanged, and polled for after the interval
/// of its own.
pub proof fn a_code_is_shown_and_polled(
    pre: StateModel,
    code: DeviceCodeModel,
    hostname: Option<Seq<char>>,
    post: StateModel,
    effects: Seq<EffectModel>,
)
    requires
        transition(pre, MessageModel::DeviceCodeReceived(code), hostname, post, effects),
    ensures
        post.device_code == Some(code),
        post.screen == Screen::DeviceCode,
        !post.auth_busy,
        post == (StateModel {
            device_code: post.device_code,
            screen: post.screen,
            auth_busy: false,
            ..pre
        }),
        effects.len() == 1,
        effects[0] matches EffectModel::PollAfter(seconds) && (if code.interval == 0 {
            seconds == 1
        } else {
            seconds == code.interval
        }),
{
}

/// A login that waits goes on waiting: the flow stays busy, nothing else
/// changes, and the next poll comes after the same interval.
pub proof fn a_pending_login_is_polled_again(
    pre: StateModel,
    hostname: Option<Seq<char>>,
    post: StateModel,
    effects: Seq<EffectModel>,
)
    requires
        transition(
            pre,
            MessageModel::PollFinished(PollOutcomeModel::Pending),
            hostname,
            post,
            effects,
        ),
    ensures
        post == (StateModel { auth_busy: true, ..pre }),
        effects == seq![EffectModel::PollAfter(interval_of(pre.device_code))],
{
}

/// Slowing down changes the interval and nothing else: it grows by five, also
/// where there is no code to keep it with.
pub proof fn slowing_down_changes_the_pace_only(
    pre: StateModel,
    hostname: Option<Seq<char>>,
    post: StateModel,
    effects: Seq<EffectModel>,
)
    requires
        interval_of(pre.device_code) + 5 <= u64::MAX,
        transition(
            pre,
            MessageModel::PollFinished(PollOutcomeModel::SlowDown),
            hostname,
            post,
            effects,
        ),
    ensures
        post == (StateModel { device_code: post.device_code, ..pre }),
        match (pre.device_code, post.device_code) {
            (Some(before), Some(after)) => after.device_code == before.device_code
                && after.user_code == before.user_code && after.verification_uri
                == before.verification_uri && after.interval == interval_of(pre.device_code) + 5,
            (None, None) => true,
            _ => false,
        },
        effects.len() == 1,
        effects[0] matches EffectModel::PollAfter(seconds) && seconds == interval_of(
            pre.device_code,
        ) + 5,
{
}

/// A flow that needs a second factor asks for it: no error is shown, nothing is
/// under way, and the code is kept for the poll that follows.
pub proof fn a_second_factor_is_asked_for(
    pre: StateModel,
    hostname: Option<Seq<char>>,
    post: StateModel,
    effects: Seq<EffectModel>,
)
    requires
        transition(
            pre,
            MessageModel::PollFinished(PollOutcomeModel::TwoFactorRequired),
            hostname,
            post,
            effects,
        ),
    ensures
        post == (StateModel { auth_busy: false, auth_error: None, screen: Screen::TwoFa, ..pre }),
        effects.len() == 0,
{
}

/// A flow that expired or was denied ends on the login screen, with its own
/// message each, and without a code.
pub proof fn a_failed_flow_says_why(
    pre: StateModel,
    outcome: PollOutcomeModel,
    hostname: Option<Seq<char>>,
    post: StateModel,
    effects: Seq<EffectModel>,
    message: Seq<char>,
)
    requires
        outcome is Expired || outcome is Denied,
        transition(pre, MessageModel::PollFinished(outcome), hostname, post, effects),
    ensures
        outcome is Expired ==> post.auth_error == Some("The device code expired. Try again."@),
        outcome is Denied ==> post.auth_error == Some("The login request was denied."@),
        post == (StateModel {
            auth_busy: false,
            device_code: None,
            auth_error: post.auth_error,
            screen: Screen::Login,
            ..pre
        }),
        effects.len() == 0,
        fail_step(pre, message) == (StateModel { auth_error: Some(message), ..post }),
{
}

/// A logout wipes what belongs to the session and nothing else; a user who is
/// not known leaves nothing in the keyring or the cache to forget.
pub proof fn a_logout_keeps_the_rest(
    pre: StateModel,
    hostname: Option<Seq<char>>,
    post: StateModel,
    effects: Seq<EffectModel>,
)
    requires
        transition(pre, MessageModel::Logout, hostname, post, effects),
    ensures
        post.config == (ConfigModel { last_user_id: None, pin_verifier: None, ..pre.config }),
        post.toasts == pre.toasts,
        post.pin_input == pre.pin_input,
        post.pin_confirm == pre.pin_confirm,
        post.pin_error == pre.pin_error,
        pre.config.last_user_id is None ==> effects == seq![EffectModel::SaveConfig(post.config)],
{
}

/// A start looks for the refresh token of the remembered user, and for nothing
/// where no user is remembered.
pub proof fn a_start_looks_for_the_remembered_user(config: ConfigModel, user_id: Seq<char>)
    ensures
        config.last_user_id == Some(user_id) ==> restore_effects(config) == seq![
            EffectModel::LoadRefreshToken(
                KeyringRequestModel::Fetch { entry: refresh_entry(user_id) },
            ),
        ],
        config.last_user_id is None ==> restore_effects(config).len() == 0,
{
}

/// A start holds the configuration as it was read, with an identifier added
/// where there was none. It saves first what it added, and then looks for the
/// remembered user.
pub proof fn a_start_adds_the_identifier_only(config: ConfigModel, identifier: Seq<char>)
    ensures
        ({
            let (state, effects) = boot_step(config, identifier);
            &&& state == StateModel::started(state.config)
            &&& state.config == (ConfigModel {
                device_identifier: state.config.device_identifier,
                ..config
            })
            &&& config.device_identifier is Some ==> state.config == config && effects
                == restore_effects(config)
            &&& config.device_identifier is None ==> state.config.device_identifier == Some(
                identifier,
            ) && effects == seq![EffectModel::SaveConfig(state.config)] + restore_effects(config)
        }),
{
    assert(Seq::<EffectModel>::empty() + restore_effects(config) =~= restore_effects(config));
}

/// An identifier that was drawn has the form of a random UUID: hyphens at their
/// four places and only there.
pub proof fn identifiers_have_their_hyphens(text: Seq<char>)
    requires
        uuid_text(text),
    ensures
        text.len() == 36,
        forall|i: int|
            0 <= i < 36 ==> ((#[trigger] text[i] == '-') <==> (i == 8 || i == 13 || i == 18 || i
                == 23)),
        forall|i: int|
            0 <= i < 36 ==> (#[trigger] text[i] == '-' || ('0' <= text[i] && text[i] <= '9') || (
            'a' <= text[i] && text[i] <= 'f')),
        text[14] == '4',
{
}

/// A refresh token that was found is sent to the server's token endpoint;
/// without a token, with an error of the keyring, or where the server is no URL,
/// nothing is sent and nothing is shown.
pub proof fn a_found_token_is_refreshed(
    config: ConfigModel,
    token: Seq<char>,
    keyring_error: AuthErrorModel,
)
    ensures
        refresh_effects(config, Ok(None)).len() == 0,
        refresh_effects(config, Err(keyring_error)).len() == 0,
        url_parsed(config.server_url) is Err ==> refresh_effects(config, Ok(Some(token))).len()
            == 0,
        url_parsed(config.server_url) matches Ok(server) ==> ({
            let effects = refresh_effects(config, Ok(Some(token)));
            &&& effects.len() == 1
            &&& match endpoint(server, "connect/token"@, ApiPrefix::Identity) {
                Ok(url) => effects[0] matches EffectModel::RequestRefresh(request) && request.url
                    == url && request.fields == refresh_fields(token),
                Err(error) => effects[0] == EffectModel::Deliver(
                    MessageModel::SessionRestoreFailed("invalid server URL: "@ + error),
                ),
            }
        }),
{
}

/// Setting a PIN keeps the verifier that hashing gave, and asks for the PIN; a
/// PIN that could not be hashed leaves the configuration and the screen, and
/// says why. Nothing else changes but the emptied form.
pub proof fn setting_a_pin_keeps_its_verifier(
    pre: StateModel,
    verifier: Seq<char>,
    error: PinErrorModel,
)
    ensures
        ({
            let (post, effects) = pin_set_step(pre, Ok(verifier));
            &&& post == (StateModel {
                config: ConfigModel { pin_verifier: Some(verifier), ..pre.config },
                screen: Screen::Unlock,
                pin_input: Seq::empty(),
                pin_confirm: Seq::empty(),
                ..pre
            })
            &&& effects == seq![EffectModel::SaveConfig(post.config)]
        }),
        ({
            let (post, effects) = pin_set_step(pre, Err(error));
            &&& post == (StateModel {
                pin_error: Some(error.message()),
                pin_input: Seq::empty(),
                pin_confirm: Seq::empty(),
                ..pre
            })
            &&& effects.len() == 0
        }),
{
}

/// The verifier that is kept is one that hashing this very PIN gave.
pub proof fn the_kept_verifier_is_of_the_chosen_pin(
    pre: StateModel,
    pin: Seq<char>,
    hostname: Option<Seq<char>>,
    post: StateModel,
    effects: Seq<EffectModel>,
)
    requires
        transition(pre, MessageModel::PinSet(pin), hostname, post, effects),
    ensures
        post.screen != pre.screen || post.config != pre.config ==> (
        post.config.pin_verifier matches Some(verifier) && hashed(pin, Ok(verifier))),
        encode_utf8(pin).len() <= MAX_PASSWORD_LEN ==> post.screen == Screen::Unlock && (
        post.config.pin_verifier matches Some(verifier) && hashed(pin, Ok(verifier))),
{
}

/// A PIN is answered by what its check gives: a verifier that is missing or
/// cannot be checked, a wrong PIN and the right one lead to three different
/// answers. Only the right PIN leads to the vault, and it always does.
pub proof fn a_pin_is_answered_by_its_check(
    pre: StateModel,
    pin: Seq<char>,
    hostname: Option<Seq<char>>,
    post: StateModel,
    effects: Seq<EffectModel>,
)
    requires
        transition(pre, MessageModel::PinSubmitted(pin), hostname, post, effects),
    ensures
        post == (StateModel {
            pin_input: Seq::empty(),
            pin_confirm: Seq::empty(),
            pin_error: post.pin_error,
            screen: post.screen,
            cache_key: post.cache_key,
            ..pre
        }),
        pre.config.pin_verifier is None ==> post.pin_error == Some(
            "PIN verifier is missing or corrupt"@,
        ) && post.screen == pre.screen,
        pre.config.pin_verifier matches Some(verifier) ==> (if !lanes_fit(verifier) {
            post.pin_error == Some("PIN verifier is missing or corrupt"@) && post.screen
                == pre.screen
        } else {
            match verify_result(pin, verifier) {
                Ok(true) => post.pin_error == pre.pin_error && post.screen == Screen::Main,
                Ok(false) => post.pin_error == Some("Incorrect PIN"@) && post.screen == pre.screen,
                Err(_) => post.pin_error == Some("PIN verifier is missing or corrupt"@)
                    && post.screen == pre.screen,
            }
        }),
        pin_check(pre.config, pin) matches Some(check) ==> (
        pre.config.pin_verifier matches Some(verifier) && lanes_fit(verifier) && check
            == verify_result(pin, verifier)),
{
}

/// The right PIN opens the cache with the key that it derives, and fetches the
/// row of the session's user where there is one. Where no key can be derived,
/// or the PIN is not right, the cache stays as it was.
pub proof fn the_right_pin_opens_the_cache(
    pre: StateModel,
    pin: Seq<char>,
    hostname: Option<Seq<char>>,
    post: StateModel,
    effects: Seq<EffectModel>,
)
    requires
        transition(pre, MessageModel::PinSubmitted(pin), hostname, post, effects),
    ensures
        match (pin_check(pre.config, pin), pre.config.pin_verifier) {
            (Some(Ok(true)), Some(verifier)) => match derive_result(pin, verifier) {
                Ok(key) => post.cache_key == Some(key) && (match pre.session {
                    Some(session) => match session.user_id {
                        Some(user_id) => effects == seq![
                            EffectModel::LoadSnapshot(row_id(user_id)),
                        ],
                        None => effects.len() == 0,
                    },
                    None => effects.len() == 0,
                }),
                Err(_) => post.cache_key == pre.cache_key && effects.len() == 0,
            },
            _ => post.cache_key == pre.cache_key && effects.len() == 0,
        },
{
}

/// A snapshot is looked for exactly when there is a key to open it with and a
/// user whose it is, and it is that user's.
pub proof fn a_snapshot_needs_a_key_and_a_user(pre: StateModel, row: Seq<char>)
    ensures
        snapshot_effects(pre).len() <= 1,
        snapshot_effects(pre).contains(EffectModel::LoadSnapshot(row)) <==> (pre.cache_key is Some
            && (pre.session matches Some(session) && (session.user_id matches Some(user_id) && row
            == row_id(user_id)))),
        forall|i: int|
            0 <= i < snapshot_effects(pre).len() ==> #[trigger] snapshot_effects(
                pre,
            )[i] is LoadSnapshot,
{
    let effects = snapshot_effects(pre);
    if effects.len() == 1 {
        assert(effects[0] is LoadSnapshot);
        if row == effects[0]->LoadSnapshot_0 {
            assert(effects.contains(effects[0]));
        }
    }
}

/// A key that was derived is kept and used at once; without one nothing
/// happens.
pub proof fn a_derived_key_is_kept(pre: StateModel, key: CacheKeyModel, error: PinErrorModel)
    ensures
        key_step(pre, Ok(key)).0 == (StateModel { cache_key: Some(key), ..pre }),
        key_step(pre, Ok(key)).1 == snapshot_effects(StateModel { cache_key: Some(key), ..pre }),
        key_step(pre, Err(error)) == (pre, Seq::<EffectModel>::empty()),
{
}

/// A check decides alone what is shown, and empties the form in every case.
pub proof fn a_check_decides_the_answer(pre: StateModel, error: PinErrorModel)
    ensures
        checked_step(pre, Some(Ok(true))) == (StateModel {
            screen: Screen::Main,
            pin_input: Seq::empty(),
            pin_confirm: Seq::empty(),
            ..pre
        }),
        checked_step(pre, Some(Ok(false))) == (StateModel {
            pin_error: Some("Incorrect PIN"@),
            pin_input: Seq::empty(),
            pin_confirm: Seq::empty(),
            ..pre
        }),
        checked_step(pre, None) == (StateModel {
            pin_error: Some("PIN verifier is missing or corrupt"@),
            pin_input: Seq::empty(),
            pin_confirm: Seq::empty(),
            ..pre
        }),
        checked_step(pre, Some(Err(error))) == checked_step(pre, None),
        pin_cleared(pre) == (StateModel {
            pin_input: Seq::empty(),
            pin_confirm: Seq::empty(),
            ..pre
        }),
{
}

/// The cache opens with the configured verifier, or not at all.
pub proof fn the_cache_opens_with_the_verifier(
    pre: StateModel,
    pin: Seq<char>,
    verifier: Seq<char>,
)
    ensures
        pre.config.pin_verifier == Some(verifier) ==> unlock_step(pre, pin) == key_step(
            pre,
            derive_result(pin, verifier),
        ),
        pre.config.pin_verifier is None ==> unlock_step(pre, pin) == (
            pre,
            Seq::<EffectModel>::empty(),
        ),
{
}

/// What was fetched is opened with the session's key and for the session's
/// user: what it holds becomes the snapshot, a row that cannot be opened is to
/// be deleted, and a store that failed changes nothing. Without a key or a user
/// nothing is taken in.
pub proof fn a_fetched_row_becomes_the_snapshot(
    pre: StateModel,
    row: Result<Option<SnapshotRowModel>, StorageErrorModel>,
)
    ensures
        ({
            let (post, doomed) = fetched_step(pre, row);
            let user = match pre.session {
                Some(session) => session.user_id,
                None => None,
            };
            match (pre.cache_key, user) {
                (Some(key), Some(user_id)) => match load_step(user_id, key, row) {
                    LoadStepModel::Finished(Ok(snapshot)) => doomed is None && post.cached_vault
                        == snapshot && post == (StateModel {
                        cached_vault: post.cached_vault,
                        ..pre
                    }),
                    LoadStepModel::Finished(Err(_)) => doomed is None && post == pre,
                    LoadStepModel::Delete { id, .. } => doomed == Some(id) && post == pre,
                },
                _ => doomed is None && post == pre,
            }
        }),
        pre.cache_key is Some && (pre.session matches Some(session) && session.user_id is Some)
            ==> (row == Ok::<Option<SnapshotRowModel>, StorageErrorModel>(None) ==> fetched_step(
            pre,
            row,
        ).0.cached_vault is None),
        row is Err ==> fetched_step(pre, row).0 == pre,
{
}

/// What is typed stands in its own field and clears the error beside it; a
/// server URL is saved as it is typed; a page is opened as it is named; an error
/// is shown in its own words. Nothing else changes.
pub proof fn plain_messages_do_one_thing(
    pre: StateModel,
    text: Seq<char>,
    hostname: Option<Seq<char>>,
    hash: Result<Seq<char>, PinErrorModel>,
)
    ensures
        step(pre, MessageModel::ServerUrlChanged(text), hostname, hash).0 == (StateModel {
            config: ConfigModel { server_url: text, ..pre.config },
            ..pre
        }),
        step(pre, MessageModel::ServerUrlChanged(text), hostname, hash).1 == seq![
            EffectModel::SaveConfig(ConfigModel { server_url: text, ..pre.config }),
        ],
        step(pre, MessageModel::PinInput(text), hostname, hash).0 == (StateModel {
            pin_input: text,
            pin_error: None,
            ..pre
        }),
        step(pre, MessageModel::PinConfirmInput(text), hostname, hash).0 == (StateModel {
            pin_confirm: text,
            pin_error: None,
            ..pre
        }),
        step(pre, MessageModel::TwoFactorInput(text), hostname, hash).0 == (StateModel {
            two_factor_input: text,
            auth_error: None,
            ..pre
        }),
        step(pre, MessageModel::AuthFailed(text), hostname, hash).0 == (StateModel {
            auth_busy: false,
            auth_error: Some(text),
            ..pre
        }),
        step(pre, MessageModel::OpenVerificationUri(text), hostname, hash) == (
            pre,
            seq![EffectModel::OpenUri(text)],
        ),
{
}

/// But for the random salt of a PIN that is set, a message leads to one state
/// and one list of effects.
pub proof fn messages_lead_to_one_state(
    pre: StateModel,
    message: MessageModel,
    hostname: Option<Seq<char>>,
    post: StateModel,
    effects: Seq<EffectModel>,
    hash: Result<Seq<char>, PinErrorModel>,
)
    requires
        message !is PinSet,
    ensures
        transition(pre, message, hostname, post, effects) <==> (post, effects) == step(
            pre,
            message,
            hostname,
            hash,
        ),
{
    if (post, effects) == step(pre, message, hostname, hash) {
        assert(possible_hash(message, hash));
    }
}

} // verus!
