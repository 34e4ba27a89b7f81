//! What the program wants done outside.
//!
//! The functions of [`crate::app`] change the state and hand out effects. The
//! caller performs them in order and hands back what came of them.

use crate::api::auth::{FormRequest, FormRequestModel, KeyringRequest, KeyringRequestModel};
use crate::config::{Config, ConfigModel};
use crate::message::{Message, MessageModel};
use vstd::prelude::*;
use vstd::string::*;

verus! {

/// One thing to be done outside.
pub enum Effect {
    /// Write the configuration to its file. A failure is logged.
    SaveConfig(Config),
    /// Store a refresh token in the keyring. A failure is logged.
    StoreRefreshToken(KeyringRequest),
    /// Remove a refresh token from the keyring. A failure is logged.
    ClearRefreshToken(KeyringRequest),
    /// Look a refresh token up in the keyring, and hand the answer to
    /// [`crate::app::refresh_token_loaded`].
    LoadRefreshToken(KeyringRequest),
    /// Delete this row of the cache. A failure is logged.
    DiscardSnapshot(String),
    /// Fetch this row of the cache, and hand the answer to
    /// [`crate::app::snapshot_fetched`].
    LoadSnapshot(String),
    /// Post this form and read the reply as that to a request for a device
    /// code.
    RequestDeviceCode(FormRequest),
    /// Post this form and read the reply as that to a poll.
    RequestTokens(FormRequest),
    /// Post this form and read the reply as that to a refresh.
    RequestRefresh(FormRequest),
    /// Deliver `PollDeviceCode` after so many seconds.
    PollAfter(u64),
    /// Open this page in a browser. A failure is logged.
    OpenUri(String),
    /// Deliver this message.
    Deliver(Message),
}

/// View of an [`Effect`].
pub enum EffectModel {
    SaveConfig(ConfigModel),
    StoreRefreshToken(KeyringRequestModel),
    ClearRefreshToken(KeyringRequestModel),
    LoadRefreshToken(KeyringRequestModel),
    DiscardSnapshot(Seq<char>),
    LoadSnapshot(Seq<char>),
    RequestDeviceCode(FormRequestModel),
    RequestTokens(FormRequestModel),
    RequestRefresh(FormRequestModel),
    PollAfter(u64),
    OpenUri(Seq<char>),
    Deliver(MessageModel),
}

impl View for Effect {
    type V = EffectModel;

    open spec fn view(&self) -> EffectModel {
        match self {
            Effect::SaveConfig(config) => EffectModel::SaveConfig(config@),
            Effect::StoreRefreshToken(request) => EffectModel::StoreRefreshToken(request@),
            Effect::ClearRefreshToken(request) => EffectModel::ClearRefreshToken(request@),
            Effect::LoadRefreshToken(request) => EffectModel::LoadRefreshToken(request@),
            Effect::DiscardSnapshot(id) => EffectModel::DiscardSnapshot(id@),
            Effect::LoadSnapshot(id) => EffectModel::LoadSnapshot(id@),
            Effect::RequestDeviceCode(request) => EffectModel::RequestDeviceCode(request@),
            Effect::RequestTokens(request) => EffectModel::RequestTokens(request@),
            Effect::RequestRefresh(request) => EffectModel::RequestRefresh(request@),
            Effect::PollAfter(seconds) => EffectModel::PollAfter(*seconds),
            Effect::OpenUri(uri) => EffectModel::OpenUri(uri@),
            Effect::Deliver(message) => EffectModel::Deliver(message@),
        }
    }
}

} // verus!
