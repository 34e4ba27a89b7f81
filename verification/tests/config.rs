use vaultmaid::config::{
    Config, ConfigError, ConfigFile, WindowState, DEFAULT_SERVER_URL,
};
use vaultmaid::pin::Verifier;

fn sample() -> Config {
    Config {
        server_url: "https://vw.example.test".to_owned(),
        window: WindowState {
            width: 800,
            height: 600,
        },
        expanded_nodes: vec!["Work".to_owned()],
        pin_verifier: None,
        device_identifier: Some("device-123".to_owned()),
        last_user_id: Some("user-7".to_owned()),
    }
}

#[test]
fn default_uses_bitwarden_cloud() {
    let config = Config::default();
    assert_eq!(config.server_url, DEFAULT_SERVER_URL);
    assert!(config.pin_verifier.is_none());
    assert!(config.expanded_nodes.is_empty());
}

#[test]
fn default_window_is_1200_by_800() {
    let window = WindowState::default();
    assert_eq!((window.width, window.height), (1200, 800));
    assert_eq!(DEFAULT_SERVER_URL, "https://vault.bitwarden.com");
}

#[test]
fn missing_file_is_created_with_defaults() {
    let loaded = Config::load_or_default(ConfigFile::Missing);
    assert_eq!(loaded.config, Config::default());
    assert!(loaded.write, "a deleted config is made anew");
    assert!(!loaded.backup);
}

#[test]
fn save_then_load_preserves_fields() {
    let loaded = Config::load_or_default(ConfigFile::Parsed(sample()));
    assert_eq!(loaded.config, sample());
    assert!(!loaded.write);
    assert!(!loaded.backup);
}

#[test]
fn corrupt_toml_is_backed_up_and_replaced() {
    let loaded = Config::load_or_default(ConfigFile::Corrupt);
    assert_eq!(loaded.config, Config::default());
    assert!(loaded.backup);
    assert!(loaded.write);
}

#[test]
fn unreadable_file_is_left_alone() {
    let loaded = Config::load_or_default(ConfigFile::Unreadable);
    assert_eq!(loaded.config, Config::default());
    assert!(!loaded.backup);
    assert!(!loaded.write);
}

#[test]
fn a_bad_server_url_is_repaired_and_the_rest_kept() {
    let mut broken = sample();
    broken.server_url = "vault.example.test".to_owned();
    broken.pin_verifier = Some(Verifier::new("$argon2id$v=19$test"));
    let loaded = Config::load_or_default(ConfigFile::Parsed(broken.clone()));
    assert!(loaded.write);
    assert!(!loaded.backup);
    let mut expected = broken;
    expected.server_url = DEFAULT_SERVER_URL.to_owned();
    assert_eq!(loaded.config, expected);

    let again = Config::load_or_default(ConfigFile::Parsed(loaded.config.clone()));
    assert_eq!(again.config, loaded.config);
    assert!(!again.write);
}

#[test]
fn a_window_without_extent_is_repaired() {
    let mut broken = sample();
    broken.window = WindowState {
        width: 0,
        height: 900,
    };
    let loaded = Config::load_or_default(ConfigFile::Parsed(broken));
    assert!(loaded.write);
    assert_eq!(
        loaded.config.window,
        WindowState {
            width: 1200,
            height: 900
        }
    );
    assert_eq!(loaded.config.server_url, "https://vw.example.test");

    let mut flat = sample();
    flat.window.height = 0;
    assert!(flat.repair(true));
    assert_eq!(flat.window.height, 800);
    assert!(!flat.repair(true));
}

#[test]
fn config_errors_have_messages() {
    assert_eq!(
        ConfigError::Io("denied".to_owned()).message(),
        "could not write config: denied"
    );
    assert_eq!(
        ConfigError::Serialize("bad".to_owned()).message(),
        "could not serialize config: bad"
    );
}

#[test]
fn a_clone_is_equal() {
    assert_eq!(sample().clone(), sample());
}
