//! Preferences that survive a restart.
//!
//! The server URL, the size of the window, the expanded tree nodes, the PIN
//! verifier, the identifier of this installation and the last user: none of
//! it is a credential. Secrets stay in the keyring of the operating system
//! and are never written here.
//!
//! The file is TOML and may be edited by hand, so a load takes what it finds:
//! a missing file is made anew, a file that is not a configuration is moved
//! aside and replaced, and values that the program cannot work with are
//! repaired one by one. A preference file must never keep the program from
//! starting.

use crate::api::url::{url_parsed, Url};
use crate::model::{option_view, seq_view};
use crate::pin::Verifier;
use crate::text::clone_text;
use vstd::prelude::*;
use vstd::string::*;

verus! {

/// Bitwarden Cloud, the one server that a first-time user can be expected to
/// recognise.
pub const DEFAULT_SERVER_URL: &'static str = "https://vault.bitwarden.com";

/// Directory of the program below the user's configuration directory.
pub const APP_DIR: &'static str = "vaultmaid";

/// Name of the configuration file.
pub const FILE_NAME: &'static str = "config.toml";

/// What is appended to the name of a file that is moved aside.
pub const BACKUP_SUFFIX: &'static str = ".bak";

/// Width of the window where none is remembered.
pub const DEFAULT_WIDTH: u32 = 1200;

/// Height of the window where none is remembered.
pub const DEFAULT_HEIGHT: u32 = 800;

// ---------------------------------------------------------------------
// Types
// ---------------------------------------------------------------------

/// Last known size of the window. The position is left out: with several
/// monitors a restored one surprises more than a default.
#[derive(Debug, Clone, Copy, PartialEq, Eq, Structural)]
pub struct WindowState {
    pub width: u32,
    pub height: u32,
}

impl WindowState {
    /// The size where none is remembered.
    pub open spec fn standard() -> WindowState {
        WindowState { width: DEFAULT_WIDTH, height: DEFAULT_HEIGHT }
    }
}

impl Default for WindowState {
    fn default() -> (r: Self)
        ensures
            r == WindowState::standard(),
    {
        WindowState { width: DEFAULT_WIDTH, height: DEFAULT_HEIGHT }
    }
}

/// The preferences. The verifier is an opaque Argon2 string, not the PIN; it
/// is kept here so that an unlock is possible while the keyring is locked.
#[derive(Debug, PartialEq, Eq)]
pub struct Config {
    pub server_url: String,
    pub window: WindowState,
    pub expanded_nodes: Vec<String>,
    pub pin_verifier: Option<Verifier>,
    pub device_identifier: Option<String>,
    pub last_user_id: Option<String>,
}

/// View of a [`Config`].
pub struct ConfigModel {
    pub server_url: Seq<char>,
    pub window: WindowState,
    pub expanded_nodes: Seq<Seq<char>>,
    pub pin_verifier: Option<Seq<char>>,
    pub device_identifier: Option<Seq<char>>,
    pub last_user_id: Option<Seq<char>>,
}

impl View for Config {
    type V = ConfigModel;

    open spec fn view(&self) -> ConfigModel {
        ConfigModel {
            server_url: self.server_url@,
            window: self.window,
            expanded_nodes: seq_view(self.expanded_nodes@),
            pin_verifier: option_view(self.pin_verifier),
            device_identifier: option_view(self.device_identifier),
            last_user_id: option_view(self.last_user_id),
        }
    }
}

fn clone_texts(texts: &Vec<String>) -> (r: Vec<String>)
    ensures
        seq_view(r@) == seq_view(texts@),
{
    let mut copy: Vec<String> = Vec::new();
    let mut i: usize = 0;
    while i < texts.len()
        invariant
            i <= texts.len(),
            copy.len() == i,
            forall|j: int| 0 <= j < i ==> (#[trigger] copy@[j])@ == texts@[j]@,
        decreases texts.len() - i,
    {
        copy.push(texts[i].clone());
        i = i + 1;
    }
    proof {
        assert(seq_view(copy@) =~= seq_view(texts@));
    }
    copy
}

impl Clone for Config {
    fn clone(&self) -> (r: Self)
        ensures
            r@ == self@,
    {
        Config {
            server_url: self.server_url.clone(),
            window: self.window,
            expanded_nodes: clone_texts(&self.expanded_nodes),
            pin_verifier: match &self.pin_verifier {
                Some(verifier) => Some(verifier.clone()),
                None => None,
            },
            device_identifier: clone_text(&self.device_identifier),
            last_user_id: clone_text(&self.last_user_id),
        }
    }
}

impl ConfigModel {
    /// The preferences of a first start.
    pub open spec fn standard() -> ConfigModel {
        ConfigModel {
            server_url: DEFAULT_SERVER_URL@,
            window: WindowState::standard(),
            expanded_nodes: seq![],
            pin_verifier: None,
            device_identifier: None,
            last_user_id: None,
        }
    }
}

impl Default for Config {
    fn default() -> (r: Self)
        ensures
            r@ == ConfigModel::standard(),
    {
        let nodes: Vec<String> = Vec::new();
        proof {
            assert(seq_view(nodes@) =~= seq![]);
        }
        Config {
            server_url: DEFAULT_SERVER_URL.to_owned(),
            window: WindowState::default(),
            expanded_nodes: nodes,
            pin_verifier: None,
            device_identifier: None,
            last_user_id: None,
        }
    }
}

/// Failures to write the preferences, in the words of the layer below. A load
/// never fails; a save does, since the caller has just changed something and
/// needs to know that the copy on disk lags behind.
#[derive(Debug, PartialEq, Eq)]
pub enum ConfigError {
    Io(String),
    Serialize(String),
}

/// View of a [`ConfigError`].
pub enum ConfigErrorModel {
    Io(Seq<char>),
    Serialize(Seq<char>),
}

impl View for ConfigError {
    type V = ConfigErrorModel;

    open spec fn view(&self) -> ConfigErrorModel {
        match self {
            ConfigError::Io(text) => ConfigErrorModel::Io(text@),
            ConfigError::Serialize(text) => ConfigErrorModel::Serialize(text@),
        }
    }
}

impl ConfigErrorModel {
    /// The message that goes with the error.
    pub open spec fn message_text(self) -> Seq<char> {
        match self {
            ConfigErrorModel::Io(text) => "could not write config: "@ + text,
            ConfigErrorModel::Serialize(text) => "could not serialize config: "@ + text,
        }
    }
}

impl ConfigError {
    pub fn message(&self) -> (r: String)
        ensures
            r@ == self@.message_text(),
    {
        match self {
            ConfigError::Io(text) => "could not write config: ".to_owned().concat(text.as_str()),
            ConfigError::Serialize(text) => {
                "could not serialize config: ".to_owned().concat(text.as_str())
            },
        }
    }
}

// ---------------------------------------------------------------------
// Loading
// ---------------------------------------------------------------------

/// What was found where the file should be.
pub enum ConfigFile {
    /// There is no file.
    Missing,
    /// There is a file, but it could not be read.
    Unreadable,
    /// The file was read and is not a configuration.
    Corrupt,
    /// The file was read as this configuration.
    Parsed(Config),
}

/// View of a [`ConfigFile`].
pub enum ConfigFileModel {
    Missing,
    Unreadable,
    Corrupt,
    Parsed(ConfigModel),
}

impl View for ConfigFile {
    type V = ConfigFileModel;

    open spec fn view(&self) -> ConfigFileModel {
        match self {
            ConfigFile::Missing => ConfigFileModel::Missing,
            ConfigFile::Unreadable => ConfigFileModel::Unreadable,
            ConfigFile::Corrupt => ConfigFileModel::Corrupt,
            ConfigFile::Parsed(config) => ConfigFileModel::Parsed(config@),
        }
    }
}

/// What a load decides: the configuration, whether the file is moved aside,
/// and whether the configuration is then written in its place.
pub struct LoadedConfig {
    pub config: Config,
    pub backup: bool,
    pub write: bool,
}

/// View of a [`LoadedConfig`].
pub struct LoadedModel {
    pub config: ConfigModel,
    pub backup: bool,
    pub write: bool,
}

impl View for LoadedConfig {
    type V = LoadedModel;

    open spec fn view(&self) -> LoadedModel {
        LoadedModel { config: self.config@, backup: self.backup, write: self.write }
    }
}

/// A length that the program can work with, in place of one that may be zero.
pub open spec fn nonzero(length: u32, standard: u32) -> u32 {
    if length == 0 {
        standard
    } else {
        length
    }
}

/// `config` with the values replaced that the program cannot work with: a
/// server URL that is none, as `url_ok` tells, and a window without extent.
/// The other values are kept.
pub open spec fn repaired(config: ConfigModel, url_ok: bool) -> ConfigModel {
    ConfigModel {
        server_url: if url_ok {
            config.server_url
        } else {
            DEFAULT_SERVER_URL@
        },
        window: WindowState {
            width: nonzero(config.window.width, DEFAULT_WIDTH),
            height: nonzero(config.window.height, DEFAULT_HEIGHT),
        },
        ..config
    }
}

/// There is something to repair in `config`.
pub open spec fn damaged(config: ConfigModel, url_ok: bool) -> bool {
    !url_ok || config.window.width == 0 || config.window.height == 0
}

/// What a load decides of what was found.
pub open spec fn load_decision(file: ConfigFileModel) -> LoadedModel {
    match file {
        ConfigFileModel::Missing => LoadedModel {
            config: ConfigModel::standard(),
            backup: false,
            write: true,
        },
        ConfigFileModel::Unreadable => LoadedModel {
            config: ConfigModel::standard(),
            backup: false,
            write: false,
        },
        ConfigFileModel::Corrupt => LoadedModel {
            config: ConfigModel::standard(),
            backup: true,
            write: true,
        },
        ConfigFileModel::Parsed(config) => {
            let url_ok = url_parsed(config.server_url) is Ok;
            LoadedModel {
                config: repaired(config, url_ok),
                backup: false,
                write: damaged(config, url_ok),
            }
        },
    }
}

impl Config {
    /// Replace the values that the program cannot work with; `url_ok` tells
    /// whether the server URL is a URL. The answer is whether there were any.
    pub fn repair(&mut self, url_ok: bool) -> (r: bool)
        ensures
            final(self)@ == repaired(old(self)@, url_ok),
            r == damaged(old(self)@, url_ok),
    {
        let mut changed: bool = false;
        if !url_ok {
            self.server_url = DEFAULT_SERVER_URL.to_owned();
            changed = true;
        }
        if self.window.width == 0 {
            self.window.width = DEFAULT_WIDTH;
            changed = true;
        }
        if self.window.height == 0 {
            self.window.height = DEFAULT_HEIGHT;
            changed = true;
        }
        changed
    }

    /// The configuration to start with, out of what was found.
    ///
    /// A missing and a corrupt file both give the defaults. A corrupt one is
    /// moved aside first, since it is the only clue to a bad edit. A file that
    /// cannot be read is left alone: a missing permission is no corruption.
    pub fn load_or_default(file: ConfigFile) -> (r: LoadedConfig)
        ensures
            r@ == load_decision(file@),
    {
        match file {
            ConfigFile::Missing => LoadedConfig {
                config: Config::default(),
                backup: false,
                write: true,
            },
            ConfigFile::Unreadable => LoadedConfig {
                config: Config::default(),
                backup: false,
                write: false,
            },
            ConfigFile::Corrupt => LoadedConfig {
                config: Config::default(),
                backup: true,
                write: true,
            },
            ConfigFile::Parsed(config) => {
                let mut config = config;
                let url_ok: bool = Url::parse(config.server_url.as_str()).is_ok();
                let write: bool = config.repair(url_ok);
                LoadedConfig { config, backup: false, write }
            },
        }
    }
}

// ---------------------------------------------------------------------
// Laws
// ---------------------------------------------------------------------

/// Every load gives a window with an extent, and a server URL that is a URL or
/// the default one.
pub proof fn loaded_config_is_usable(file: ConfigFileModel)
    ensures
        load_decision(file).config.window.width > 0,
        load_decision(file).config.window.height > 0,
        url_parsed(load_decision(file).config.server_url) is Ok || load_decision(
            file,
        ).config.server_url == DEFAULT_SERVER_URL@,
{
}

/// A configuration that needs no repair is loaded as it is, and its file is
/// left alone: what was saved is what is loaded.
pub proof fn sound_config_is_kept(config: ConfigModel)
    requires
        url_parsed(config.server_url) is Ok,
        config.window.width > 0,
        config.window.height > 0,
    ensures
        load_decision(ConfigFileModel::Parsed(config)) == (LoadedModel {
            config,
            backup: false,
            write: false,
        }),
{
}

/// A repair keeps every value but the server URL and the window.
pub proof fn repair_keeps_the_rest(config: ConfigModel, url_ok: bool)
    ensures
        repaired(config, url_ok).expanded_nodes == config.expanded_nodes,
        repaired(config, url_ok).pin_verifier == config.pin_verifier,
        repaired(config, url_ok).device_identifier == config.device_identifier,
        repaired(config, url_ok).last_user_id == config.last_user_id,
        !damaged(config, url_ok) ==> repaired(config, url_ok) == config,
{
}

/// Loading what a load gave gives it again.
pub proof fn load_is_stable(file: ConfigFileModel)
    ensures
        load_decision(ConfigFileModel::Parsed(load_decision(file).config)).config
            == load_decision(file).config,
{
}

/// A file is moved aside only where it is corrupt, and then a replacement is
/// written; a file that cannot be read is neither moved nor written.
pub proof fn files_are_spared(file: ConfigFileModel)
    ensures
        load_decision(file).backup <==> file is Corrupt,
        load_decision(file).backup ==> load_decision(file).write,
        file is Unreadable ==> !load_decision(file).write,
{
}

/// A first start knows Bitwarden Cloud and a window of 1200 by 800, and nothing
/// of a user.
pub proof fn a_first_start_knows_the_cloud()
    ensures
        ({
            let config = ConfigModel::standard();
            &&& config.server_url == "https://vault.bitwarden.com"@
            &&& config.window.width == 1200 && config.window.height == 800
            &&& config.expanded_nodes.len() == 0
            &&& config.pin_verifier is None
            &&& config.device_identifier is None
            &&& config.last_user_id is None
        }),
{
}

/// A start without a usable file starts from the defaults; a missing file is
/// made, a corrupt one is moved aside and replaced, one that cannot be read is
/// left alone.
pub proof fn without_a_file_the_defaults_hold()
    ensures
        load_decision(ConfigFileModel::Missing) == (LoadedModel {
            config: ConfigModel::standard(),
            backup: false,
            write: true,
        }),
        load_decision(ConfigFileModel::Corrupt) == (LoadedModel {
            config: ConfigModel::standard(),
            backup: true,
            write: true,
        }),
        load_decision(ConfigFileModel::Unreadable) == (LoadedModel {
            config: ConfigModel::standard(),
            backup: false,
            write: false,
        }),
{
}

/// A load keeps each value that the program can work with and replaces each
/// that it cannot, one by one; the file is written exactly when something was
/// replaced, and never moved aside.
pub proof fn a_load_replaces_only_what_is_unusable(config: ConfigModel)
    ensures
        ({
            let r = load_decision(ConfigFileModel::Parsed(config));
            let bad_url = url_parsed(config.server_url) is Err;
            &&& r.config.server_url == (if bad_url {
                "https://vault.bitwarden.com"@
            } else {
                config.server_url
            })
            &&& config.window.width > 0 ==> r.config.window.width == config.window.width
            &&& config.window.width == 0 ==> r.config.window.width == 1200
            &&& config.window.height > 0 ==> r.config.window.height == config.window.height
            &&& config.window.height == 0 ==> r.config.window.height == 800
            &&& r.config.expanded_nodes == config.expanded_nodes
            &&& r.config.pin_verifier == config.pin_verifier
            &&& r.config.device_identifier == config.device_identifier
            &&& r.config.last_user_id == config.last_user_id
            &&& r.write <==> bad_url || config.window.width == 0 || config.window.height == 0
            &&& !r.backup
        }),
{
}

/// What the user reads of a failed save.
pub proof fn config_messages(text: Seq<char>)
    ensures
        ConfigErrorModel::Io(text).message_text() == "could not write config: "@ + text,
        ConfigErrorModel::Serialize(text).message_text() == "could not serialize config: "@ + text,
{
}

/// A repair goes by what it is told of the URL, and by the window alone for the
/// window; it reports a change exactly when something was unusable.
pub proof fn a_repair_goes_by_what_is_unusable(config: ConfigModel, url_ok: bool)
    ensures
        ({
            let r = repaired(config, url_ok);
            &&& url_ok ==> r.server_url == config.server_url
            &&& !url_ok ==> r.server_url == "https://vault.bitwarden.com"@
            &&& config.window.width > 0 ==> r.window.width == config.window.width
            &&& config.window.width == 0 ==> r.window.width == 1200
            &&& config.window.height > 0 ==> r.window.height == config.window.height
            &&& config.window.height == 0 ==> r.window.height == 800
            &&& damaged(config, url_ok) <==> !url_ok || config.window.width == 0
                || config.window.height == 0
        }),
{
}

/// A contract that speaks of the view of a configuration speaks of every field
/// of it.
pub proof fn configs_are_shown_whole(config: Config)
    ensures
        config@.server_url == config.server_url@,
        config@.window == config.window,
        config@.expanded_nodes == seq_view(config.expanded_nodes@),
        config@.pin_verifier == option_view(config.pin_verifier),
        config@.device_identifier == option_view(config.device_identifier),
        config@.last_user_id == option_view(config.last_user_id),
{
}

} // verus!
