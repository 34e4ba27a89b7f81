//! Device-code authentication and the session it leads to.
//!
//! The device authorization grant (RFC 8628) has two steps. The identity
//! service hands out a short user code, which the user approves in a browser,
//! and a long device code. With the latter the token endpoint is polled until
//! it answers with tokens or a terminal error. Where a second factor is asked
//! for, the poll is repeated with a `two_factor_token`. The user's master
//! password is never seen.
//!
//! Each step is a request, which says what is sent and where to, and a reply,
//! which says what the answer means. Sending is the caller's part, and so is
//! turning a JSON body into the values that a reply reads.
//!
//! The refresh token alone outlives the process. It is kept in the keyring of
//! the operating system under the user's id, never in the configuration.

use crate::api::client::{
    endpoint, is_success, status_error, success, ApiError, ApiErrorModel, ApiPrefix, Client,
    ClientModel,
};
use crate::api::url::Url;
use crate::encoding::{
    base64std_decoded, base64url_decoded, decode_base64std, decode_base64url,
};
use crate::model::{option_view, result_view, seq_view};
use crate::text::{
    clone_text, decimal, decimal_text, no_second_piece, quoted, quoted_text, same_text,
    second_piece, split_on, the_second_piece_is_between,
};
use vstd::prelude::*;
use vstd::string::*;

verus! {

/// Device authorization endpoint, relative to `/identity`.
pub const DEVICE_AUTHORIZATION_PATH: &'static str = "connect/device-authorization";

/// Token endpoint, relative to `/identity`.
pub const TOKEN_PATH: &'static str = "connect/token";

/// Grant type of the polling half of the device flow.
pub const DEVICE_CODE_GRANT: &'static str = "urn:ietf:params:oauth:grant-type:device_code";

/// Client id of a desktop client.
pub const CLIENT_ID: &'static str = "desktop";

/// Bitwarden's device type of a Linux desktop client.
pub const DEVICE_TYPE_LINUX_DESKTOP: u32 = 8;

/// Keyring service name; the user field carries the user id.
pub const KEYRING_SERVICE: &'static str = "vaultmaid";

/// Requested scopes: the interface itself and a refresh token.
pub const SCOPE: &'static str = "api offline_access";

// ---------------------------------------------------------------------
// Types
// ---------------------------------------------------------------------

/// Identity of this installation, sent with every authentication request. The
/// server recognises a returning device by the identifier, which therefore
/// stays the same across restarts; the name is cosmetic.
#[derive(Debug, PartialEq, Eq)]
pub struct DeviceInfo {
    pub device_identifier: String,
    pub device_name: String,
}

/// View of a [`DeviceInfo`].
pub struct DeviceInfoModel {
    pub device_identifier: Seq<char>,
    pub device_name: Seq<char>,
}

impl View for DeviceInfo {
    type V = DeviceInfoModel;

    open spec fn view(&self) -> DeviceInfoModel {
        DeviceInfoModel {
            device_identifier: self.device_identifier@,
            device_name: self.device_name@,
        }
    }
}

impl Clone for DeviceInfo {
    fn clone(&self) -> (r: Self)
        ensures
            r@ == self@,
    {
        DeviceInfo {
            device_identifier: self.device_identifier.clone(),
            device_name: self.device_name.clone(),
        }
    }
}

impl DeviceInfo {
    pub fn new(device_identifier: &str, device_name: &str) -> (r: Self)
        ensures
            r@ == (DeviceInfoModel {
                device_identifier: device_identifier@,
                device_name: device_name@,
            }),
    {
        DeviceInfo {
            device_identifier: device_identifier.to_owned(),
            device_name: device_name.to_owned(),
        }
    }
}

/// Short code that the user approves in a browser, and the handle to poll with.
#[derive(Debug, PartialEq, Eq)]
pub struct DeviceCode {
    pub device_code: String,
    pub user_code: String,
    pub verification_uri: String,
    /// Seconds between two polls.
    pub interval: u64,
}

/// View of a [`DeviceCode`].
pub struct DeviceCodeModel {
    pub device_code: Seq<char>,
    pub user_code: Seq<char>,
    pub verification_uri: Seq<char>,
    pub interval: u64,
}

impl View for DeviceCode {
    type V = DeviceCodeModel;

    open spec fn view(&self) -> DeviceCodeModel {
        DeviceCodeModel {
            device_code: self.device_code@,
            user_code: self.user_code@,
            verification_uri: self.verification_uri@,
            interval: self.interval,
        }
    }
}

impl Clone for DeviceCode {
    fn clone(&self) -> (r: Self)
        ensures
            r@ == self@,
    {
        DeviceCode {
            device_code: self.device_code.clone(),
            user_code: self.user_code.clone(),
            verification_uri: self.verification_uri.clone(),
            interval: self.interval,
        }
    }
}

/// The interval where the server gives none.
pub fn default_interval() -> (r: u64)
    ensures
        r == 5,
{
    5
}

/// Tokens of an approved or refreshed session.
#[derive(PartialEq, Eq)]
pub struct AuthTokens {
    pub access_token: String,
    pub refresh_token: Option<String>,
}

/// View of [`AuthTokens`].
pub struct AuthTokensModel {
    pub access_token: Seq<char>,
    pub refresh_token: Option<Seq<char>>,
}

impl View for AuthTokens {
    type V = AuthTokensModel;

    open spec fn view(&self) -> AuthTokensModel {
        AuthTokensModel {
            access_token: self.access_token@,
            refresh_token: option_view(self.refresh_token),
        }
    }
}

impl Clone for AuthTokens {
    fn clone(&self) -> (r: Self)
        ensures
            r@ == self@,
    {
        AuthTokens {
            access_token: self.access_token.clone(),
            refresh_token: clone_text(&self.refresh_token),
        }
    }
}

impl AuthTokensModel {
    /// What may be logged of the tokens: whether there is a refresh token.
    pub open spec fn masked(self) -> Seq<char> {
        match self.refresh_token {
            Some(_) => {
                "AuthTokens { access_token: \"***\", refresh_token: Some(\"***\") }"@
            },
            None => "AuthTokens { access_token: \"***\", refresh_token: None }"@,
        }
    }
}

impl AuthTokens {
    /// The tokens as they may be logged.
    pub fn debug_text(&self) -> (r: String)
        ensures
            r@ == self@.masked(),
    {
        match &self.refresh_token {
            Some(_) => {
                "AuthTokens { access_token: \"***\", refresh_token: Some(\"***\") }".to_owned()
            },
            None => "AuthTokens { access_token: \"***\", refresh_token: None }".to_owned(),
        }
    }
}

/// An authenticated session: the access token and the user id that was read
/// from it. It lives in memory only.
#[derive(PartialEq, Eq)]
pub struct Session {
    pub access_token: String,
    pub user_id: Option<String>,
}

/// View of a [`Session`].
pub struct SessionModel {
    pub access_token: Seq<char>,
    pub user_id: Option<Seq<char>>,
}

impl View for Session {
    type V = SessionModel;

    open spec fn view(&self) -> SessionModel {
        SessionModel { access_token: self.access_token@, user_id: option_view(self.user_id) }
    }
}

impl Clone for Session {
    fn clone(&self) -> (r: Self)
        ensures
            r@ == self@,
    {
        Session { access_token: self.access_token.clone(), user_id: clone_text(&self.user_id) }
    }
}

impl SessionModel {
    /// What may be logged of a session: the user id.
    pub open spec fn masked(self) -> Seq<char> {
        "Session { access_token: \"***\", user_id: "@ + match self.user_id {
            Some(user_id) => "Some("@ + quoted(user_id) + ")"@,
            None => "None"@,
        } + " }"@
    }
}

impl Session {
    /// The session of these tokens, for the user that the access token names.
    pub fn from_tokens(tokens: AuthTokens) -> (r: Self)
        ensures
            r@ == (SessionModel {
                access_token: tokens@.access_token,
                user_id: token_user(tokens@.access_token),
            }),
    {
        let user_id = user_id_from_token(tokens.access_token.as_str());
        Session { access_token: tokens.access_token, user_id }
    }

    /// The session as it may be logged.
    pub fn debug_text(&self) -> (r: String)
        ensures
            r@ == self@.masked(),
    {
        let mut text = "Session { access_token: \"***\", user_id: ".to_owned();
        match &self.user_id {
            Some(user_id) => {
                let mut shown = "Some(".to_owned();
                shown.append(quoted_text(user_id.as_str()).as_str());
                shown.append(")");
                text.append(shown.as_str());
            },
            None => text.append("None"),
        }
        text.append(" }");
        text
    }
}

/// Result of one poll of the token endpoint.
#[derive(PartialEq, Eq)]
pub enum PollOutcome {
    /// The user approved.
    Authorized(AuthTokens),
    /// Not approved yet; poll again after the interval.
    Pending,
    /// The server asks for slower polling.
    SlowDown,
    /// The server asks for a second factor.
    TwoFactorRequired,
    /// The device code expired; the flow starts over.
    Expired,
    /// The user declined.
    Denied,
}

/// View of a [`PollOutcome`].
pub enum PollOutcomeModel {
    Authorized(AuthTokensModel),
    Pending,
    SlowDown,
    TwoFactorRequired,
    Expired,
    Denied,
}

impl View for PollOutcome {
    type V = PollOutcomeModel;

    open spec fn view(&self) -> PollOutcomeModel {
        match self {
            PollOutcome::Authorized(tokens) => PollOutcomeModel::Authorized(tokens@),
            PollOutcome::Pending => PollOutcomeModel::Pending,
            PollOutcome::SlowDown => PollOutcomeModel::SlowDown,
            PollOutcome::TwoFactorRequired => PollOutcomeModel::TwoFactorRequired,
            PollOutcome::Expired => PollOutcomeModel::Expired,
            PollOutcome::Denied => PollOutcomeModel::Denied,
        }
    }
}

impl Clone for PollOutcome {
    fn clone(&self) -> (r: Self)
        ensures
            r@ == self@,
    {
        match self {
            PollOutcome::Authorized(tokens) => PollOutcome::Authorized(tokens.clone()),
            PollOutcome::Pending => PollOutcome::Pending,
            PollOutcome::SlowDown => PollOutcome::SlowDown,
            PollOutcome::TwoFactorRequired => PollOutcome::TwoFactorRequired,
            PollOutcome::Expired => PollOutcome::Expired,
            PollOutcome::Denied => PollOutcome::Denied,
        }
    }
}

/// Failures of the authentication flow. Callers branch on `SessionExpired`: a
/// silent refresh that ends so falls back to a login. The others are shown.
#[derive(Debug, PartialEq, Eq)]
pub enum AuthError {
    Network(String),
    Url(String),
    Api(ApiError),
    Decode(String),
    Rejected(String),
    SessionExpired,
    Keyring(String),
}

/// View of an [`AuthError`].
pub enum AuthErrorModel {
    Network(Seq<char>),
    Url(Seq<char>),
    Api(ApiErrorModel),
    Decode(Seq<char>),
    Rejected(Seq<char>),
    SessionExpired,
    Keyring(Seq<char>),
}

impl View for AuthError {
    type V = AuthErrorModel;

    open spec fn view(&self) -> AuthErrorModel {
        match self {
            AuthError::Network(text) => AuthErrorModel::Network(text@),
            AuthError::Url(text) => AuthErrorModel::Url(text@),
            AuthError::Api(error) => AuthErrorModel::Api(error@),
            AuthError::Decode(text) => AuthErrorModel::Decode(text@),
            AuthError::Rejected(text) => AuthErrorModel::Rejected(text@),
            AuthError::SessionExpired => AuthErrorModel::SessionExpired,
            AuthError::Keyring(text) => AuthErrorModel::Keyring(text@),
        }
    }
}

impl AuthErrorModel {
    /// The message that goes with the error.
    pub open spec fn message_text(self) -> Seq<char> {
        match self {
            AuthErrorModel::Network(text) => "network error: "@ + text,
            AuthErrorModel::Url(text) => "invalid server URL: "@ + text,
            AuthErrorModel::Api(error) => error.message_text(),
            AuthErrorModel::Decode(text) => "could not decode server response: "@ + text,
            AuthErrorModel::Rejected(text) => "authentication was rejected: "@ + text,
            AuthErrorModel::SessionExpired => "session expired; sign in again"@,
            AuthErrorModel::Keyring(text) => "keyring error: "@ + text,
        }
    }
}

impl AuthError {
    pub fn message(&self) -> (r: String)
        ensures
            r@ == self@.message_text(),
    {
        match self {
            AuthError::Network(text) => "network error: ".to_owned().concat(text.as_str()),
            AuthError::Url(text) => "invalid server URL: ".to_owned().concat(text.as_str()),
            AuthError::Api(error) => error.message(),
            AuthError::Decode(text) => {
                "could not decode server response: ".to_owned().concat(text.as_str())
            },
            AuthError::Rejected(text) => {
                "authentication was rejected: ".to_owned().concat(text.as_str())
            },
            AuthError::SessionExpired => "session expired; sign in again".to_owned(),
            AuthError::Keyring(text) => "keyring error: ".to_owned().concat(text.as_str()),
        }
    }
}

// ---------------------------------------------------------------------
// The user that an access token names
// ---------------------------------------------------------------------

/// The text under `key` in the JSON object that the bytes hold, if they hold
/// one and the member is a text.
pub uninterp spec fn json_text_member(bytes: Seq<u8>, key: Seq<char>) -> Option<Seq<char>>;

/// `serde_json::from_slice` into a `Value`, `Value::get` and `Value::as_str`.
/// Trusted: what the three give together is named.
#[verifier::external_body]
fn read_json_text_member(bytes: &[u8], key: &str) -> (r: Option<String>)
    ensures
        option_view(r) == json_text_member(bytes@, key@),
{
    let value: serde_json::Value = serde_json::from_slice(bytes).ok()?;
    value.get(key)?.as_str().map(str::to_owned)
}

/// The payload of a JSON web token: the second of the pieces between dots.
pub open spec fn token_payload(token: Seq<char>) -> Option<Seq<char>> {
    let pieces = split_on(token, '.');
    if pieces.len() > 1 {
        Some(pieces[1])
    } else {
        None
    }
}

/// The bytes of a payload: base64 in the URL-safe alphabet, or else in the
/// standard one, in either case without padding.
pub open spec fn payload_bytes(payload: Seq<char>) -> Option<Seq<u8>> {
    match base64url_decoded(payload) {
        Some(bytes) => Some(bytes),
        None => base64std_decoded(payload),
    }
}

/// The user that an access token names: the `sub` claim of its payload.
pub open spec fn token_user(token: Seq<char>) -> Option<Seq<char>> {
    match token_payload(token) {
        Some(payload) => match payload_bytes(payload) {
            Some(bytes) => json_text_member(bytes, "sub"@),
            None => None,
        },
        None => None,
    }
}

/// Read the `sub` claim of a JSON web token without checking its signature.
///
/// The token comes from the server that was just spoken to, and the id is a
/// namespace of the keyring and of the cache, never a security boundary.
pub fn user_id_from_token(access_token: &str) -> (r: Option<String>)
    ensures
        option_view(r) == token_user(access_token@),
{
    match second_piece(access_token, '.') {
        Some(payload) => {
            let bytes = match decode_base64url(payload) {
                Some(bytes) => Some(bytes),
                None => decode_base64std(payload),
            };
            match bytes {
                Some(bytes) => read_json_text_member(bytes.as_slice(), "sub"),
                None => None,
            }
        },
        None => None,
    }
}

// ---------------------------------------------------------------------
// Requests
// ---------------------------------------------------------------------

/// One field of a form. It may hold a secret, so it has no `Debug`.
#[derive(PartialEq, Eq)]
pub struct FormField {
    pub name: String,
    pub value: String,
}

/// View of a [`FormField`].
pub struct FormFieldModel {
    pub name: Seq<char>,
    pub value: Seq<char>,
}

impl View for FormField {
    type V = FormFieldModel;

    open spec fn view(&self) -> FormFieldModel {
        FormFieldModel { name: self.name@, value: self.value@ }
    }
}

/// A form to be posted. Its fields may hold secrets, so it has no `Debug`.
#[derive(PartialEq, Eq)]
pub struct FormRequest {
    pub url: Url,
    pub fields: Vec<FormField>,
}

/// View of a [`FormRequest`].
pub struct FormRequestModel {
    pub url: Seq<char>,
    pub fields: Seq<FormFieldModel>,
}

impl View for FormRequest {
    type V = FormRequestModel;

    open spec fn view(&self) -> FormRequestModel {
        FormRequestModel { url: self.url@, fields: seq_view(self.fields@) }
    }
}

/// A field by its name and value.
pub open spec fn form_field(name: Seq<char>, value: Seq<char>) -> FormFieldModel {
    FormFieldModel { name, value }
}

fn make_field(name: &str, value: &str) -> (r: FormField)
    ensures
        r@ == form_field(name@, value@),
{
    FormField { name: name.to_owned(), value: value.to_owned() }
}

/// A form for an identity endpoint, unless the server URL does not lead to one.
pub open spec fn identity_request(
    client: ClientModel,
    path: Seq<char>,
    fields: Seq<FormFieldModel>,
) -> Result<FormRequestModel, AuthErrorModel> {
    match endpoint(client.server_url, path, ApiPrefix::Identity) {
        Ok(url) => Ok(FormRequestModel { url, fields }),
        Err(error) => Err(AuthErrorModel::Url(error)),
    }
}

fn make_identity_request(client: &Client, path: &str, fields: Vec<FormField>) -> (r: Result<
    FormRequest,
    AuthError,
>)
    ensures
        result_view(r) == identity_request(client@, path@, seq_view(fields@)),
{
    match client.url(path, ApiPrefix::Identity) {
        Ok(url) => Ok(FormRequest { url, fields }),
        Err(error) => Err(AuthError::Url(error)),
    }
}

/// The fields that ask for a device code.
pub open spec fn start_fields(device: DeviceInfoModel) -> Seq<FormFieldModel> {
    seq![
        form_field("client_id"@, CLIENT_ID@),
        form_field("deviceType"@, decimal(DEVICE_TYPE_LINUX_DESKTOP as nat)),
        form_field("deviceIdentifier"@, device.device_identifier),
        form_field("deviceName"@, device.device_name),
        form_field("scope"@, SCOPE@),
    ]
}

/// Begin the device flow: the request for a user code to approve.
pub fn start_device_code(client: &Client, device: &DeviceInfo) -> (r: Result<
    FormRequest,
    AuthError,
>)
    ensures
        result_view(r) == identity_request(
            client@,
            DEVICE_AUTHORIZATION_PATH@,
            start_fields(device@),
        ),
{
    let mut fields: Vec<FormField> = Vec::new();
    fields.push(make_field("client_id", CLIENT_ID));
    fields.push(
        make_field("deviceType", decimal_text(DEVICE_TYPE_LINUX_DESKTOP as u64).as_str()),
    );
    fields.push(make_field("deviceIdentifier", device.device_identifier.as_str()));
    fields.push(make_field("deviceName", device.device_name.as_str()));
    fields.push(make_field("scope", SCOPE));
    proof {
        assert(seq_view(fields@) =~= start_fields(device@));
    }
    make_identity_request(client, DEVICE_AUTHORIZATION_PATH, fields)
}

/// The fields of one poll.
pub open spec fn poll_fields(
    device: DeviceInfoModel,
    device_code: Seq<char>,
    two_factor_token: Option<Seq<char>>,
) -> Seq<FormFieldModel> {
    seq![
        form_field("grant_type"@, DEVICE_CODE_GRANT@),
        form_field("device_code"@, device_code),
        form_field("client_id"@, CLIENT_ID@),
        form_field("deviceType"@, decimal(DEVICE_TYPE_LINUX_DESKTOP as nat)),
        form_field("deviceIdentifier"@, device.device_identifier),
        form_field("deviceName"@, device.device_name),
    ] + match two_factor_token {
        Some(token) => seq![form_field("two_factor_token"@, token)],
        None => seq![],
    }
}

/// Poll the token endpoint once: the request. The caller owns the loop and
/// the delay. There is a `two_factor_token` only where the poll before this
/// one asked for a second factor.
pub fn poll_device_code(
    client: &Client,
    device: &DeviceInfo,
    device_code: &str,
    two_factor_token: Option<&str>,
) -> (r: Result<FormRequest, AuthError>)
    ensures
        result_view(r) == identity_request(
            client@,
            TOKEN_PATH@,
            poll_fields(device@, device_code@, option_view(two_factor_token)),
        ),
{
    let mut fields: Vec<FormField> = Vec::new();
    fields.push(make_field("grant_type", DEVICE_CODE_GRANT));
    fields.push(make_field("device_code", device_code));
    fields.push(make_field("client_id", CLIENT_ID));
    fields.push(
        make_field("deviceType", decimal_text(DEVICE_TYPE_LINUX_DESKTOP as u64).as_str()),
    );
    fields.push(make_field("deviceIdentifier", device.device_identifier.as_str()));
    fields.push(make_field("deviceName", device.device_name.as_str()));
    if let Some(token) = two_factor_token {
        fields.push(make_field("two_factor_token", token));
    }
    proof {
        assert(seq_view(fields@) =~= poll_fields(
            device@,
            device_code@,
            option_view(two_factor_token),
        ));
    }
    make_identity_request(client, TOKEN_PATH, fields)
}

/// The fields of a refresh.
pub open spec fn refresh_fields(refresh_token: Seq<char>) -> Seq<FormFieldModel> {
    seq![
        form_field("grant_type"@, "refresh_token"@),
        form_field("refresh_token"@, refresh_token),
        form_field("client_id"@, CLIENT_ID@),
    ]
}

/// Exchange a refresh token for a new access token: the request.
pub fn silent_refresh(client: &Client, refresh_token: &str) -> (r: Result<FormRequest, AuthError>)
    ensures
        result_view(r) == identity_request(client@, TOKEN_PATH@, refresh_fields(refresh_token@)),
{
    let mut fields: Vec<FormField> = Vec::new();
    fields.push(make_field("grant_type", "refresh_token"));
    fields.push(make_field("refresh_token", refresh_token));
    fields.push(make_field("client_id", CLIENT_ID));
    proof {
        assert(seq_view(fields@) =~= refresh_fields(refresh_token@));
    }
    make_identity_request(client, TOKEN_PATH, fields)
}

// ---------------------------------------------------------------------
// Replies
// ---------------------------------------------------------------------

/// The members of a token reply that are read.
#[derive(PartialEq, Eq)]
pub struct TokenResponse {
    pub access_token: String,
    pub refresh_token: Option<String>,
}

impl View for TokenResponse {
    type V = AuthTokensModel;

    open spec fn view(&self) -> AuthTokensModel {
        AuthTokensModel {
            access_token: self.access_token@,
            refresh_token: option_view(self.refresh_token),
        }
    }
}

/// The members of an error reply that are read: the OAuth error code, and
/// whether the reply names two-factor providers. A reply without a readable
/// body has neither.
#[derive(Debug, PartialEq, Eq)]
pub struct TokenErrorBody {
    pub error: Option<String>,
    pub two_factor_providers: bool,
}

/// View of a [`TokenErrorBody`].
pub struct TokenErrorModel {
    pub error: Option<Seq<char>>,
    pub two_factor_providers: bool,
}

impl View for TokenErrorBody {
    type V = TokenErrorModel;

    open spec fn view(&self) -> TokenErrorModel {
        TokenErrorModel {
            error: option_view(self.error),
            two_factor_providers: self.two_factor_providers,
        }
    }
}

impl Default for TokenErrorBody {
    fn default() -> (r: Self)
        ensures
            r@ == (TokenErrorModel { error: None, two_factor_providers: false }),
    {
        TokenErrorBody { error: None, two_factor_providers: false }
    }
}

/// The error of a failed reply: what its status code stands for, and the body
/// where the code stands for no error.
pub open spec fn fallback(api_error: Option<ApiErrorModel>, body: Seq<char>) -> AuthErrorModel {
    match api_error {
        Some(error) => AuthErrorModel::Api(error),
        None => AuthErrorModel::Rejected(body),
    }
}

/// Pick the most specific error of a failed reply.
pub fn fallback_error(api_error: Option<ApiError>, body: String) -> (r: AuthError)
    ensures
        r@ == fallback(option_view(api_error), body@),
{
    match api_error {
        Some(error) => AuthError::Api(error),
        None => AuthError::Rejected(body),
    }
}

/// What the reply to [`start_device_code`] means. `status` is the status code,
/// or why nothing came back; `code` is the body read as a device code, and
/// `body` the body as it stands.
pub open spec fn start_outcome(
    status: Result<u16, Seq<char>>,
    code: Result<DeviceCodeModel, Seq<char>>,
    body: Seq<char>,
) -> Result<DeviceCodeModel, AuthErrorModel> {
    match status {
        Err(error) => Err(AuthErrorModel::Network(error)),
        Ok(status) => if success(status) {
            match code {
                Ok(code) => Ok(code),
                Err(error) => Err(AuthErrorModel::Decode(error)),
            }
        } else {
            Err(fallback(status_error(status), body))
        },
    }
}

/// Read the reply to [`start_device_code`].
pub fn start_device_code_reply(
    status: Result<u16, String>,
    code: Result<DeviceCode, String>,
    body: String,
) -> (r: Result<DeviceCode, AuthError>)
    ensures
        result_view(r) == start_outcome(result_view(status), result_view(code), body@),
{
    match status {
        Err(error) => Err(AuthError::Network(error)),
        Ok(status) => if is_success(status) {
            match code {
                Ok(code) => Ok(code),
                Err(error) => Err(AuthError::Decode(error)),
            }
        } else {
            Err(fallback_error(ApiError::from_response(status), body))
        },
    }
}

/// What the reply to [`poll_device_code`] means. A success carries tokens. A
/// failure is told by its OAuth error code; a second factor is asked for by a
/// provider list instead, under some other code or none.
pub open spec fn poll_result(
    status: Result<u16, Seq<char>>,
    body: Seq<char>,
    tokens: Result<AuthTokensModel, Seq<char>>,
    error: TokenErrorModel,
) -> Result<PollOutcomeModel, AuthErrorModel> {
    match status {
        Err(text) => Err(AuthErrorModel::Network(text)),
        Ok(status) => if success(status) {
            match tokens {
                Ok(tokens) => Ok(PollOutcomeModel::Authorized(tokens)),
                Err(text) => Err(AuthErrorModel::Decode(text)),
            }
        } else if error.error == Some("authorization_pending"@) {
            Ok(PollOutcomeModel::Pending)
        } else if error.error == Some("slow_down"@) {
            Ok(PollOutcomeModel::SlowDown)
        } else if error.error == Some("expired_token"@) {
            Ok(PollOutcomeModel::Expired)
        } else if error.error == Some("access_denied"@) {
            Ok(PollOutcomeModel::Denied)
        } else if error.two_factor_providers {
            Ok(PollOutcomeModel::TwoFactorRequired)
        } else {
            Err(fallback(status_error(status), body))
        },
    }
}

fn is_code(error: &Option<String>, code: &str) -> (r: bool)
    ensures
        r == (option_view(*error) == Some(code@)),
{
    match error {
        Some(error) => same_text(error.as_str(), code),
        None => false,
    }
}

/// Read the reply to [`poll_device_code`]. `tokens` is the body read as a
/// token reply, `error` the body read as an error reply.
pub fn poll_device_code_reply(
    status: Result<u16, String>,
    body: String,
    tokens: Result<TokenResponse, String>,
    error: TokenErrorBody,
) -> (r: Result<PollOutcome, AuthError>)
    ensures
        result_view(r) == poll_result(result_view(status), body@, result_view(tokens), error@),
        status matches Ok(code) ==> 200 <= code < 300 ==> (tokens matches Ok(read) ==> (
        r matches Ok(PollOutcome::Authorized(given)) && given.access_token@ == read.access_token@
            && option_view(given.refresh_token) == option_view(read.refresh_token))),
        r matches Ok(PollOutcome::Pending) ==> (status matches Ok(code) && !(200 <= code < 300)
            && option_view(error.error) == Some("authorization_pending"@)),
{
    let status: u16 = match status {
        Ok(status) => status,
        Err(text) => return Err(AuthError::Network(text)),
    };
    if is_success(status) {
        return match tokens {
            Ok(tokens) => Ok(
                PollOutcome::Authorized(
                    AuthTokens {
                        access_token: tokens.access_token,
                        refresh_token: tokens.refresh_token,
                    },
                ),
            ),
            Err(text) => Err(AuthError::Decode(text)),
        };
    }
    if is_code(&error.error, "authorization_pending") {
        Ok(PollOutcome::Pending)
    } else if is_code(&error.error, "slow_down") {
        Ok(PollOutcome::SlowDown)
    } else if is_code(&error.error, "expired_token") {
        Ok(PollOutcome::Expired)
    } else if is_code(&error.error, "access_denied") {
        Ok(PollOutcome::Denied)
    } else if error.two_factor_providers {
        Ok(PollOutcome::TwoFactorRequired)
    } else {
        Err(fallback_error(ApiError::from_response(status), body))
    }
}

/// What the reply to [`silent_refresh`] means. A refused refresh token, told
/// by 400 or 401, is an expired session, whatever the body says.
pub open spec fn refresh_outcome(
    status: Result<u16, Seq<char>>,
    tokens: Result<AuthTokensModel, Seq<char>>,
    body: Seq<char>,
) -> Result<AuthTokensModel, AuthErrorModel> {
    match status {
        Err(text) => Err(AuthErrorModel::Network(text)),
        Ok(status) => if status == 200 {
            match tokens {
                Ok(tokens) => Ok(tokens),
                Err(text) => Err(AuthErrorModel::Decode(text)),
            }
        } else if status == 400 || status == 401 {
            Err(AuthErrorModel::SessionExpired)
        } else {
            Err(fallback(status_error(status), body))
        },
    }
}

/// Read the reply to [`silent_refresh`].
pub fn silent_refresh_reply(
    status: Result<u16, String>,
    tokens: Result<TokenResponse, String>,
    body: String,
) -> (r: Result<AuthTokens, AuthError>)
    ensures
        result_view(r) == refresh_outcome(result_view(status), result_view(tokens), body@),
        status matches Ok(code) ==> code == 200 ==> (tokens matches Ok(read) ==> (
        r matches Ok(given) && given.access_token@ == read.access_token@ && option_view(
            given.refresh_token,
        ) == option_view(read.refresh_token))),
{
    let status: u16 = match status {
        Ok(status) => status,
        Err(text) => return Err(AuthError::Network(text)),
    };
    if status == 200 {
        match tokens {
            Ok(tokens) => Ok(
                AuthTokens {
                    access_token: tokens.access_token,
                    refresh_token: tokens.refresh_token,
                },
            ),
            Err(text) => Err(AuthError::Decode(text)),
        }
    } else if status == 400 || status == 401 {
        Err(AuthError::SessionExpired)
    } else {
        Err(fallback_error(ApiError::from_response(status), body))
    }
}

// ---------------------------------------------------------------------
// The refresh token in the keyring
// ---------------------------------------------------------------------

/// An entry of the keyring.
#[derive(Debug, PartialEq, Eq)]
pub struct KeyringEntry {
    pub service: String,
    pub user: String,
}

/// View of a [`KeyringEntry`].
pub struct KeyringEntryModel {
    pub service: Seq<char>,
    pub user: Seq<char>,
}

impl View for KeyringEntry {
    type V = KeyringEntryModel;

    open spec fn view(&self) -> KeyringEntryModel {
        KeyringEntryModel { service: self.service@, user: self.user@ }
    }
}

/// The entry of a user's refresh token.
pub open spec fn refresh_entry(user_id: Seq<char>) -> KeyringEntryModel {
    KeyringEntryModel { service: KEYRING_SERVICE@, user: "refresh:"@ + user_id }
}

/// The entry that holds the refresh token of `user_id`.
pub fn keyring_entry(user_id: &str) -> (r: KeyringEntry)
    ensures
        r@ == refresh_entry(user_id@),
{
    KeyringEntry {
        service: KEYRING_SERVICE.to_owned(),
        user: "refresh:".to_owned().concat(user_id),
    }
}

/// What the keyring is asked for.
#[derive(PartialEq, Eq)]
pub enum KeyringRequest {
    Store { entry: KeyringEntry, secret: String },
    Fetch { entry: KeyringEntry },
    Delete { entry: KeyringEntry },
}

/// View of a [`KeyringRequest`].
pub enum KeyringRequestModel {
    Store { entry: KeyringEntryModel, secret: Seq<char> },
    Fetch { entry: KeyringEntryModel },
    Delete { entry: KeyringEntryModel },
}

impl View for KeyringRequest {
    type V = KeyringRequestModel;

    open spec fn view(&self) -> KeyringRequestModel {
        match self {
            KeyringRequest::Store { entry, secret } => KeyringRequestModel::Store {
                entry: entry@,
                secret: secret@,
            },
            KeyringRequest::Fetch { entry } => KeyringRequestModel::Fetch { entry: entry@ },
            KeyringRequest::Delete { entry } => KeyringRequestModel::Delete { entry: entry@ },
        }
    }
}

/// Why the keyring did not do as asked, in its own words. `NoEntry` is the
/// answer to a `Fetch` or a `Delete` of an entry that does not exist.
#[derive(Debug, PartialEq, Eq)]
pub enum KeyringFailure {
    NoEntry(String),
    Other(String),
}

/// View of a [`KeyringFailure`].
pub enum KeyringFailureModel {
    NoEntry(Seq<char>),
    Other(Seq<char>),
}

impl View for KeyringFailure {
    type V = KeyringFailureModel;

    open spec fn view(&self) -> KeyringFailureModel {
        match self {
            KeyringFailure::NoEntry(text) => KeyringFailureModel::NoEntry(text@),
            KeyringFailure::Other(text) => KeyringFailureModel::Other(text@),
        }
    }
}

/// Store the refresh token of `user_id`: what to ask of the keyring.
pub fn save_refresh_token(user_id: &str, refresh_token: &str) -> (r: KeyringRequest)
    ensures
        r@ == (KeyringRequestModel::Store {
            entry: refresh_entry(user_id@),
            secret: refresh_token@,
        }),
{
    KeyringRequest::Store { entry: keyring_entry(user_id), secret: refresh_token.to_owned() }
}

/// What a store that was answered so comes to.
pub open spec fn saved(answer: Result<(), KeyringFailureModel>) -> Result<(), AuthErrorModel> {
    match answer {
        Ok(()) => Ok(()),
        Err(KeyringFailureModel::NoEntry(text)) => Err(AuthErrorModel::Keyring(text)),
        Err(KeyringFailureModel::Other(text)) => Err(AuthErrorModel::Keyring(text)),
    }
}

/// Read the keyring's answer to [`save_refresh_token`].
pub fn save_refresh_token_reply(answer: Result<(), KeyringFailure>) -> (r: Result<(), AuthError>)
    ensures
        result_view(r) == saved(result_view(answer)),
{
    match answer {
        Ok(()) => Ok(()),
        Err(KeyringFailure::NoEntry(text)) => Err(AuthError::Keyring(text)),
        Err(KeyringFailure::Other(text)) => Err(AuthError::Keyring(text)),
    }
}

/// Load the refresh token of `user_id`: what to ask of the keyring.
pub fn load_refresh_token(user_id: &str) -> (r: KeyringRequest)
    ensures
        r@ == (KeyringRequestModel::Fetch { entry: refresh_entry(user_id@) }),
{
    KeyringRequest::Fetch { entry: keyring_entry(user_id) }
}

/// What a load that was answered so comes to: no entry is no token.
pub open spec fn loaded(answer: Result<Seq<char>, KeyringFailureModel>) -> Result<
    Option<Seq<char>>,
    AuthErrorModel,
> {
    match answer {
        Ok(secret) => Ok(Some(secret)),
        Err(KeyringFailureModel::NoEntry(_)) => Ok(None),
        Err(KeyringFailureModel::Other(text)) => Err(AuthErrorModel::Keyring(text)),
    }
}

/// Read the keyring's answer to [`load_refresh_token`].
pub fn load_refresh_token_reply(answer: Result<String, KeyringFailure>) -> (r: Result<
    Option<String>,
    AuthError,
>)
    ensures
        match r {
            Ok(token) => loaded(result_view(answer)) == Ok::<Option<Seq<char>>, AuthErrorModel>(
                option_view(token),
            ),
            Err(error) => loaded(result_view(answer)) == Err::<Option<Seq<char>>, AuthErrorModel>(
                error@,
            ),
        },
{
    match answer {
        Ok(secret) => Ok(Some(secret)),
        Err(KeyringFailure::NoEntry(_)) => Ok(None),
        Err(KeyringFailure::Other(text)) => Err(AuthError::Keyring(text)),
    }
}

/// Remove the refresh token of `user_id`: what to ask of the keyring.
pub fn clear_refresh_token(user_id: &str) -> (r: KeyringRequest)
    ensures
        r@ == (KeyringRequestModel::Delete { entry: refresh_entry(user_id@) }),
{
    KeyringRequest::Delete { entry: keyring_entry(user_id) }
}

/// What a removal that was answered so comes to: a missing entry is no error.
pub open spec fn cleared(answer: Result<(), KeyringFailureModel>) -> Result<(), AuthErrorModel> {
    match answer {
        Ok(()) => Ok(()),
        Err(KeyringFailureModel::NoEntry(_)) => Ok(()),
        Err(KeyringFailureModel::Other(text)) => Err(AuthErrorModel::Keyring(text)),
    }
}

/// Read the keyring's answer to [`clear_refresh_token`].
pub fn clear_refresh_token_reply(answer: Result<(), KeyringFailure>) -> (r: Result<(), AuthError>)
    ensures
        result_view(r) == cleared(result_view(answer)),
{
    match answer {
        Ok(()) => Ok(()),
        Err(KeyringFailure::NoEntry(_)) => Ok(()),
        Err(KeyringFailure::Other(text)) => Err(AuthError::Keyring(text)),
    }
}

// ---------------------------------------------------------------------
// Laws
// ---------------------------------------------------------------------

/// What may be logged of tokens does not depend on the tokens themselves.
pub proof fn tokens_are_masked(a: AuthTokensModel, b: AuthTokensModel)
    requires
        a.refresh_token is Some <==> b.refresh_token is Some,
    ensures
        a.masked() == b.masked(),
{
}

/// What may be logged of a session does not depend on its access token.
pub proof fn session_is_masked(a: SessionModel, b: SessionModel)
    requires
        a.user_id == b.user_id,
    ensures
        a.masked() == b.masked(),
{
}

/// The poll that carries a second factor is the poll without one, with the
/// factor added at the end.
pub proof fn second_factor_is_added(
    device: DeviceInfoModel,
    device_code: Seq<char>,
    token: Seq<char>,
)
    ensures
        poll_fields(device, device_code, Some(token)) == poll_fields(device, device_code, None).push(
            form_field("two_factor_token"@, token),
        ),
{
    assert(poll_fields(device, device_code, Some(token)) =~= poll_fields(
        device,
        device_code,
        None,
    ).push(form_field("two_factor_token"@, token)));
}

/// A poll is authorized only by a success, and then with the tokens of the
/// reply.
pub proof fn only_success_authorizes(
    status: Result<u16, Seq<char>>,
    body: Seq<char>,
    tokens: Result<AuthTokensModel, Seq<char>>,
    error: TokenErrorModel,
)
    requires
        poll_result(status, body, tokens, error) matches Ok(
            outcome,
        ) && outcome is Authorized,
    ensures
        status matches Ok(code) && success(code),
        tokens matches Ok(given) && poll_result(status, body, tokens, error) == Ok::<
            PollOutcomeModel,
            AuthErrorModel,
        >(PollOutcomeModel::Authorized(given)),
{
}

/// A refresh ends in `SessionExpired` exactly when the server answered 400
/// or 401.
pub proof fn refused_refresh_is_an_expired_session(
    status: Result<u16, Seq<char>>,
    tokens: Result<AuthTokensModel, Seq<char>>,
    body: Seq<char>,
)
    ensures
        refresh_outcome(status, tokens, body) == Err::<AuthTokensModel, AuthErrorModel>(
            AuthErrorModel::SessionExpired,
        ) <==> (status == Ok::<u16, Seq<char>>(400) || status == Ok::<u16, Seq<char>>(401)),
{
}

/// The contents of the keyring.
pub type Keyring = Map<KeyringEntryModel, Seq<char>>;

/// What a keyring that works holds after a request.
pub open spec fn keyring_after(keyring: Keyring, request: KeyringRequestModel) -> Keyring {
    match request {
        KeyringRequestModel::Store { entry, secret } => keyring.insert(entry, secret),
        KeyringRequestModel::Fetch { entry } => keyring,
        KeyringRequestModel::Delete { entry } => keyring.remove(entry),
    }
}

/// What a keyring that works answers to a `Fetch`; `words` are those for an
/// entry that does not exist.
pub open spec fn keyring_answer(
    keyring: Keyring,
    entry: KeyringEntryModel,
    words: Seq<char>,
) -> Result<Seq<char>, KeyringFailureModel> {
    if keyring.dom().contains(entry) {
        Ok(keyring[entry])
    } else {
        Err(KeyringFailureModel::NoEntry(words))
    }
}

/// Users have entries of their own.
pub proof fn users_have_their_own_entries(one: Seq<char>, other: Seq<char>)
    requires
        refresh_entry(one) == refresh_entry(other),
    ensures
        one == other,
{
    let prefix = "refresh:"@;
    assert((prefix + one).skip(prefix.len() as int) =~= one);
    assert((prefix + other).skip(prefix.len() as int) =~= other);
}

/// The token that was saved for a user is the one that is loaded, until it is
/// cleared; what is done for one user leaves the others alone.
pub proof fn refresh_token_round_trip(
    keyring: Keyring,
    user_id: Seq<char>,
    token: Seq<char>,
    other: Seq<char>,
    words: Seq<char>,
)
    ensures
        ({
            let store = KeyringRequestModel::Store { entry: refresh_entry(user_id), secret: token };
            let delete = KeyringRequestModel::Delete { entry: refresh_entry(user_id) };
            let entry = refresh_entry(user_id);
            &&& loaded(keyring_answer(keyring_after(keyring, store), entry, words)) == Ok::<
                Option<Seq<char>>,
                AuthErrorModel,
            >(Some(token))
            &&& loaded(keyring_answer(keyring_after(keyring, delete), entry, words)) == Ok::<
                Option<Seq<char>>,
                AuthErrorModel,
            >(None)
            &&& other != user_id ==> {
                &&& keyring_answer(keyring_after(keyring, store), refresh_entry(other), words)
                    == keyring_answer(keyring, refresh_entry(other), words)
                &&& keyring_answer(keyring_after(keyring, delete), refresh_entry(other), words)
                    == keyring_answer(keyring, refresh_entry(other), words)
            }
        }),
{
    if refresh_entry(user_id) == refresh_entry(other) {
        users_have_their_own_entries(user_id, other);
    }
}

/// An approval completes the login: for every success whose tokens were read,
/// whatever else the reply holds, the outcome is those very tokens. Tokens that
/// could not be read are an error, in the words of the reader.
pub proof fn every_success_authorizes(
    status: u16,
    body: Seq<char>,
    tokens: AuthTokensModel,
    words: Seq<char>,
    error: TokenErrorModel,
)
    requires
        200 <= status < 300,
    ensures
        poll_result(Ok(status), body, Ok(tokens), error) == Ok::<PollOutcomeModel, AuthErrorModel>(
            PollOutcomeModel::Authorized(tokens),
        ),
        poll_result(Ok(status), body, Err(words), error) == Err::<PollOutcomeModel, AuthErrorModel>(
            AuthErrorModel::Decode(words),
        ),
{
}

/// A refused poll is told by its OAuth code, each code by its own outcome and
/// each outcome by its own code; a second factor is asked for exactly when the
/// code is none of them and providers are listed. What could be read as tokens
/// does not matter.
pub proof fn each_code_has_its_outcome(
    status: u16,
    body: Seq<char>,
    tokens: Result<AuthTokensModel, Seq<char>>,
    error: TokenErrorModel,
)
    requires
        !(200 <= status < 300),
    ensures
        ({
            let r = poll_result(Ok(status), body, tokens, error);
            let pending = error.error == Some("authorization_pending"@);
            let slow = error.error == Some("slow_down"@);
            let expired = error.error == Some("expired_token"@);
            let denied = error.error == Some("access_denied"@);
            let known = pending || slow || expired || denied;
            &&& pending <==> r == Ok::<PollOutcomeModel, AuthErrorModel>(PollOutcomeModel::Pending)
            &&& slow <==> r == Ok::<PollOutcomeModel, AuthErrorModel>(PollOutcomeModel::SlowDown)
            &&& expired <==> r == Ok::<PollOutcomeModel, AuthErrorModel>(PollOutcomeModel::Expired)
            &&& denied <==> r == Ok::<PollOutcomeModel, AuthErrorModel>(PollOutcomeModel::Denied)
            &&& !known && error.two_factor_providers <==> r == Ok::<
                PollOutcomeModel,
                AuthErrorModel,
            >(PollOutcomeModel::TwoFactorRequired)
            &&& !known && !error.two_factor_providers <==> r is Err
            &&& r is Err ==> r == Err::<PollOutcomeModel, AuthErrorModel>(
                AuthErrorModel::Api(status_error(status)->Some_0),
            ) && status_error(status) is Some
        }),
{
    reveal_strlit("authorization_pending");
    reveal_strlit("slow_down");
    reveal_strlit("expired_token");
    reveal_strlit("access_denied");
    assert("expired_token"@[0] != "access_denied"@[0]);
    assert("authorization_pending"@.len() == 21 && "slow_down"@.len() == 9);
    assert("expired_token"@.len() == 13 && "access_denied"@.len() == 13);
}

/// A request that was not sent is a network error, whatever was made of the
/// missing reply.
pub proof fn unsent_requests_are_network_errors(
    words: Seq<char>,
    body: Seq<char>,
    tokens: Result<AuthTokensModel, Seq<char>>,
    error: TokenErrorModel,
    code: Result<DeviceCodeModel, Seq<char>>,
)
    ensures
        poll_result(Err(words), body, tokens, error) == Err::<PollOutcomeModel, AuthErrorModel>(
            AuthErrorModel::Network(words),
        ),
        refresh_outcome(Err(words), tokens, body) == Err::<AuthTokensModel, AuthErrorModel>(
            AuthErrorModel::Network(words),
        ),
        start_outcome(Err(words), code, body) == Err::<DeviceCodeModel, AuthErrorModel>(
            AuthErrorModel::Network(words),
        ),
{
}

/// A refresh that was answered gives back exactly the tokens of the reply, the
/// access token and the refresh token both; tokens that could not be read are an
/// error.
pub proof fn a_refresh_hands_on_the_tokens(
    tokens: AuthTokensModel,
    words: Seq<char>,
    body: Seq<char>,
)
    ensures
        refresh_outcome(Ok(200), Ok(tokens), body) == Ok::<AuthTokensModel, AuthErrorModel>(tokens),
        refresh_outcome(Ok(200), Err(words), body) == Err::<AuthTokensModel, AuthErrorModel>(
            AuthErrorModel::Decode(words),
        ),
{
}

/// A refresh succeeds with 200 only. Of the other codes, 400 and 401 are an
/// expired session, another success is a rejection with the body, and a failure
/// is what its code stands for.
pub proof fn a_refresh_succeeds_with_200_only(
    status: u16,
    tokens: Result<AuthTokensModel, Seq<char>>,
    body: Seq<char>,
)
    requires
        status != 200,
    ensures
        ({
            let r = refresh_outcome(Ok(status), tokens, body);
            &&& r is Err
            &&& status == 400 || status == 401 ==> r == Err::<AuthTokensModel, AuthErrorModel>(
                AuthErrorModel::SessionExpired,
            )
            &&& 200 < status < 300 ==> r == Err::<AuthTokensModel, AuthErrorModel>(
                AuthErrorModel::Rejected(body),
            )
            &&& !(200 <= status < 300) && status != 400 && status != 401 ==> status_error(
                status,
            ) is Some && r == Err::<AuthTokensModel, AuthErrorModel>(
                AuthErrorModel::Api(status_error(status)->Some_0),
            )
        }),
{
}

/// A request for a device code that succeeded gives the code of the reply,
/// unchanged; one that failed is what its status code stands for.
pub proof fn a_start_hands_on_the_code(
    status: u16,
    code: DeviceCodeModel,
    words: Seq<char>,
    body: Seq<char>,
)
    ensures
        200 <= status < 300 ==> start_outcome(Ok(status), Ok(code), body) == Ok::<
            DeviceCodeModel,
            AuthErrorModel,
        >(code),
        200 <= status < 300 ==> start_outcome(Ok(status), Err(words), body) == Err::<
            DeviceCodeModel,
            AuthErrorModel,
        >(AuthErrorModel::Decode(words)),
        !(200 <= status < 300) ==> status_error(status) is Some && start_outcome(
            Ok(status),
            Ok(code),
            body,
        ) == Err::<DeviceCodeModel, AuthErrorModel>(
            AuthErrorModel::Api(status_error(status)->Some_0),
        ) && start_outcome(Ok(status), Err(words), body) == Err::<DeviceCodeModel, AuthErrorModel>(
            AuthErrorModel::Api(status_error(status)->Some_0),
        ),
{
}

/// What a status code stands for outranks the body.
pub proof fn the_status_outranks_the_body(error: ApiErrorModel, body: Seq<char>)
    ensures
        fallback(Some(error), body) == AuthErrorModel::Api(error),
        fallback(None, body) == AuthErrorModel::Rejected(body),
{
}

/// The user of a token is the text under `sub` in what stands between its first
/// two dots, or after its first where there is no second: read as URL-safe
/// base64, and as standard base64 only where it is not that. No other part of
/// the token and no other claim comes in.
pub proof fn the_user_is_the_sub_claim(head: Seq<char>, payload: Seq<char>, tail: Seq<char>)
    requires
        !head.contains('.'),
        !payload.contains('.'),
        tail.len() > 0 ==> tail[0] == '.',
    ensures
        ({
            let token = head.push('.') + payload + tail;
            &&& base64url_decoded(payload) matches Some(bytes) ==> token_user(token)
                == json_text_member(bytes, "sub"@)
            &&& base64url_decoded(payload) is None ==> (base64std_decoded(payload) matches Some(
                bytes,
            ) ==> token_user(token) == json_text_member(bytes, "sub"@))
            &&& base64url_decoded(payload) is None && base64std_decoded(payload) is None
                ==> token_user(token) is None
        }),
{
    the_second_piece_is_between(head, payload, tail, '.');
}

/// A token without a dot names nobody.
pub proof fn no_user_without_a_payload(token: Seq<char>)
    requires
        !token.contains('.'),
    ensures
        token_user(token) is None,
{
    no_second_piece(token, '.');
}

/// Where the requests go and what they say of this client.
pub proof fn requests_use_these_words()
    ensures
        DEVICE_AUTHORIZATION_PATH@ == "connect/device-authorization"@,
        TOKEN_PATH@ == "connect/token"@,
        DEVICE_CODE_GRANT@ == "urn:ietf:params:oauth:grant-type:device_code"@,
        CLIENT_ID@ == "desktop"@,
        SCOPE@ == "api offline_access"@,
        KEYRING_SERVICE@ == "vaultmaid"@,
        DEVICE_TYPE_LINUX_DESKTOP == 8,
{
}

/// A request goes to an endpoint below `/identity` with exactly the given
/// fields; a server without that endpoint is a bad server URL.
pub proof fn requests_go_to_the_identity_service(
    client: ClientModel,
    path: Seq<char>,
    fields: Seq<FormFieldModel>,
)
    ensures
        match endpoint(client.server_url, path, ApiPrefix::Identity) {
            Ok(url) => identity_request(client, path, fields) matches Ok(request) && request.url
                == url && request.fields == fields,
            Err(error) => identity_request(client, path, fields) == Err::<
                FormRequestModel,
                AuthErrorModel,
            >(AuthErrorModel::Url(error)),
        },
{
}

/// A form says `value` under `name` at place `i`.
pub open spec fn says(
    fields: Seq<FormFieldModel>,
    i: int,
    name: Seq<char>,
    value: Seq<char>,
) -> bool {
    0 <= i < fields.len() && fields[i].name == name && fields[i].value == value
}

/// The start of the flow tells which client and device asks, and for what.
pub proof fn a_start_tells_the_device(device: DeviceInfoModel)
    ensures
        ({
            let fields = start_fields(device);
            &&& fields.len() == 5
            &&& says(fields, 0, "client_id"@, "desktop"@)
            &&& says(fields, 1, "deviceType"@, decimal(8))
            &&& says(fields, 2, "deviceIdentifier"@, device.device_identifier)
            &&& says(fields, 3, "deviceName"@, device.device_name)
            &&& says(fields, 4, "scope"@, "api offline_access"@)
        }),
{
}

/// A poll tells the device code, the client and the device, and the second
/// factor where there is one.
pub proof fn a_poll_tells_the_code(
    device: DeviceInfoModel,
    device_code: Seq<char>,
    two_factor: Option<Seq<char>>,
)
    ensures
        ({
            let fields = poll_fields(device, device_code, two_factor);
            &&& fields.len() == (if two_factor is Some {
                7int
            } else {
                6int
            })
            &&& says(
                fields,
                0,
                "grant_type"@,
                "urn:ietf:params:oauth:grant-type:device_code"@,
            )
            &&& says(fields, 1, "device_code"@, device_code)
            &&& says(fields, 2, "client_id"@, "desktop"@)
            &&& says(fields, 3, "deviceType"@, decimal(8))
            &&& says(fields, 4, "deviceIdentifier"@, device.device_identifier)
            &&& says(fields, 5, "deviceName"@, device.device_name)
            &&& two_factor matches Some(token) ==> says(fields, 6, "two_factor_token"@, token)
        }),
{
}

/// A refresh tells the refresh token and the client.
pub proof fn a_refresh_tells_the_token(refresh_token: Seq<char>)
    ensures
        ({
            let fields = refresh_fields(refresh_token);
            &&& fields.len() == 3
            &&& says(fields, 0, "grant_type"@, "refresh_token"@)
            &&& says(fields, 1, "refresh_token"@, refresh_token)
            &&& says(fields, 2, "client_id"@, "desktop"@)
        }),
{
}

/// The refresh token of a user stands under the whole user id.
pub proof fn tokens_are_kept_under_the_user(user_id: Seq<char>)
    ensures
        refresh_entry(user_id).service == "vaultmaid"@,
        refresh_entry(user_id).user == "refresh:"@ + user_id,
{
}

/// The answers of the keyring mean what they say: what is there is handed on
/// unchanged, what is not there is no error to a load or a removal, and every
/// other failure keeps its words.
pub proof fn keyring_answers_mean_what_they_say(secret: Seq<char>, words: Seq<char>)
    ensures
        loaded(Ok(secret)) == Ok::<Option<Seq<char>>, AuthErrorModel>(Some(secret)),
        loaded(Err(KeyringFailureModel::NoEntry(words))) == Ok::<Option<Seq<char>>, AuthErrorModel>(
            None,
        ),
        loaded(Err(KeyringFailureModel::Other(words))) == Err::<Option<Seq<char>>, AuthErrorModel>(
            AuthErrorModel::Keyring(words),
        ),
        saved(Ok(())) is Ok,
        saved(Err(KeyringFailureModel::NoEntry(words))) == Err::<(), AuthErrorModel>(
            AuthErrorModel::Keyring(words),
        ),
        saved(Err(KeyringFailureModel::Other(words))) == Err::<(), AuthErrorModel>(
            AuthErrorModel::Keyring(words),
        ),
        cleared(Ok(())) is Ok,
        cleared(Err(KeyringFailureModel::NoEntry(words))) is Ok,
        cleared(Err(KeyringFailureModel::Other(words))) == Err::<(), AuthErrorModel>(
            AuthErrorModel::Keyring(words),
        ),
{
}

/// What may be logged of tokens and sessions is this, and no more.
pub proof fn masked_texts(access_token: Seq<char>, secret: Seq<char>, user_id: Seq<char>)
    ensures
        (AuthTokensModel { access_token, refresh_token: Some(secret) }).masked()
            == "AuthTokens { access_token: \"***\", refresh_token: Some(\"***\") }"@,
        (AuthTokensModel { access_token, refresh_token: None }).masked()
            == "AuthTokens { access_token: \"***\", refresh_token: None }"@,
        (SessionModel { access_token, user_id: Some(user_id) }).masked()
            == "Session { access_token: \"***\", user_id: "@ + ("Some("@ + quoted(user_id) + ")"@)
            + " }"@,
        (SessionModel { access_token, user_id: None }).masked()
            == "Session { access_token: \"***\", user_id: "@ + "None"@ + " }"@,
{
}

/// What the user reads of a failed authentication.
pub proof fn auth_messages(text: Seq<char>, error: ApiErrorModel)
    ensures
        AuthErrorModel::Network(text).message_text() == "network error: "@ + text,
        AuthErrorModel::Url(text).message_text() == "invalid server URL: "@ + text,
        AuthErrorModel::Api(error).message_text() == error.message_text(),
        AuthErrorModel::Decode(text).message_text() == "could not decode server response: "@ + text,
        AuthErrorModel::Rejected(text).message_text() == "authentication was rejected: "@ + text,
        AuthErrorModel::SessionExpired.message_text() == "session expired; sign in again"@,
        AuthErrorModel::Keyring(text).message_text() == "keyring error: "@ + text,
{
}

/// A contract that speaks of the view of one of these records speaks of every
/// field of it.
pub proof fn records_are_shown_whole(
    response: TokenResponse,
    tokens: AuthTokens,
    session: Session,
    code: DeviceCode,
    error: TokenErrorBody,
    request: FormRequest,
    field: FormField,
    entry: KeyringEntry,
)
    ensures
        response@.access_token == response.access_token@,
        response@.refresh_token == option_view(response.refresh_token),
        tokens@.access_token == tokens.access_token@,
        tokens@.refresh_token == option_view(tokens.refresh_token),
        PollOutcome::Authorized(tokens)@ == PollOutcomeModel::Authorized(tokens@),
        session@.access_token == session.access_token@,
        session@.user_id == option_view(session.user_id),
        code@.device_code == code.device_code@,
        code@.user_code == code.user_code@,
        code@.verification_uri == code.verification_uri@,
        code@.interval == code.interval,
        error@.error == option_view(error.error),
        error@.two_factor_providers == error.two_factor_providers,
        request@.url == request.url@,
        request@.fields == seq_view(request.fields@),
        field@.name == field.name@,
        field@.value == field.value@,
        entry@.service == entry.service@,
        entry@.user == entry.user@,
{
}

} // verus!
