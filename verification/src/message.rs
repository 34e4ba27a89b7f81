//! Screens, and the events that lead from one to another.

use crate::api::auth::{
    AuthTokens, AuthTokensModel, DeviceCode, DeviceCodeModel, PollOutcome, PollOutcomeModel,
};
use crate::pin::Pin;
use vstd::prelude::*;
use vstd::string::*;

verus! {

/// What is shown. Each screen is one stage of the user's way in.
#[derive(Debug, Clone, Copy, PartialEq, Eq, Structural)]
pub enum Screen {
    Login,
    DeviceCode,
    TwoFa,
    SetPin,
    Unlock,
    Main,
}

impl Default for Screen {
    fn default() -> (r: Self)
        ensures
            r == Screen::Login,
    {
        Screen::Login
    }
}

/// Everything that can happen to the program.
pub enum Message {
    Noop,
    /// The server field changed.
    ServerUrlChanged(String),
    /// The PIN field changed, on the setup form or on the unlock form.
    PinInput(String),
    /// The confirmation field changed.
    PinConfirmInput(String),
    /// The setup form was submitted.
    PinSet(Pin),
    /// The unlock form was submitted.
    PinSubmitted(Pin),
    /// The user asked to log in with a device code.
    StartDeviceCode,
    /// The server issued a device code.
    DeviceCodeReceived(DeviceCode),
    /// It is time to poll the token endpoint.
    PollDeviceCode,
    /// A poll was answered.
    PollFinished(PollOutcome),
    /// The field for the second factor changed.
    TwoFactorInput(String),
    /// The second factor was submitted.
    TwoFactorSubmitted,
    /// The user asked to open the verification page in a browser.
    OpenVerificationUri(String),
    /// A silent refresh succeeded.
    SessionRestored(AuthTokens),
    /// A silent refresh failed.
    SessionRestoreFailed(String),
    /// A step of the device flow failed, with a message for the user.
    AuthFailed(String),
    /// The user asked to log out.
    Logout,
}

/// View of a [`Message`].
pub enum MessageModel {
    Noop,
    ServerUrlChanged(Seq<char>),
    PinInput(Seq<char>),
    PinConfirmInput(Seq<char>),
    PinSet(Seq<char>),
    PinSubmitted(Seq<char>),
    StartDeviceCode,
    DeviceCodeReceived(DeviceCodeModel),
    PollDeviceCode,
    PollFinished(PollOutcomeModel),
    TwoFactorInput(Seq<char>),
    TwoFactorSubmitted,
    OpenVerificationUri(Seq<char>),
    SessionRestored(AuthTokensModel),
    SessionRestoreFailed(Seq<char>),
    AuthFailed(Seq<char>),
    Logout,
}

impl View for Message {
    type V = MessageModel;

    open spec fn view(&self) -> MessageModel {
        match self {
            Message::Noop => MessageModel::Noop,
            Message::ServerUrlChanged(url) => MessageModel::ServerUrlChanged(url@),
            Message::PinInput(pin) => MessageModel::PinInput(pin@),
            Message::PinConfirmInput(pin) => MessageModel::PinConfirmInput(pin@),
            Message::PinSet(pin) => MessageModel::PinSet(pin@),
            Message::PinSubmitted(pin) => MessageModel::PinSubmitted(pin@),
            Message::StartDeviceCode => MessageModel::StartDeviceCode,
            Message::DeviceCodeReceived(code) => MessageModel::DeviceCodeReceived(code@),
            Message::PollDeviceCode => MessageModel::PollDeviceCode,
            Message::PollFinished(outcome) => MessageModel::PollFinished(outcome@),
            Message::TwoFactorInput(code) => MessageModel::TwoFactorInput(code@),
            Message::TwoFactorSubmitted => MessageModel::TwoFactorSubmitted,
            Message::OpenVerificationUri(uri) => MessageModel::OpenVerificationUri(uri@),
            Message::SessionRestored(tokens) => MessageModel::SessionRestored(tokens@),
            Message::SessionRestoreFailed(error) => MessageModel::SessionRestoreFailed(error@),
            Message::AuthFailed(error) => MessageModel::AuthFailed(error@),
            Message::Logout => MessageModel::Logout,
        }
    }
}

impl Clone for Message {
    fn clone(&self) -> (r: Self)
        ensures
            r@ == self@,
    {
        match self {
            Message::Noop => Message::Noop,
            Message::ServerUrlChanged(url) => Message::ServerUrlChanged(url.clone()),
            Message::PinInput(pin) => Message::PinInput(pin.clone()),
            Message::PinConfirmInput(pin) => Message::PinConfirmInput(pin.clone()),
            Message::PinSet(pin) => Message::PinSet(pin.clone()),
            Message::PinSubmitted(pin) => Message::PinSubmitted(pin.clone()),
            Message::StartDeviceCode => Message::StartDeviceCode,
            Message::DeviceCodeReceived(code) => Message::DeviceCodeReceived(code.clone()),
            Message::PollDeviceCode => Message::PollDeviceCode,
            Message::PollFinished(outcome) => Message::PollFinished(outcome.clone()),
            Message::TwoFactorInput(code) => Message::TwoFactorInput(code.clone()),
            Message::TwoFactorSubmitted => Message::TwoFactorSubmitted,
            Message::OpenVerificationUri(uri) => Message::OpenVerificationUri(uri.clone()),
            Message::SessionRestored(tokens) => Message::SessionRestored(tokens.clone()),
            Message::SessionRestoreFailed(error) => Message::SessionRestoreFailed(error.clone()),
            Message::AuthFailed(error) => Message::AuthFailed(error.clone()),
            Message::Logout => Message::Logout,
        }
    }
}

} // verus!
