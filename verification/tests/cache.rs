use std::collections::HashMap;
use vaultmaid::cache::encryption::{encrypt_with_nonce, EncryptionError};
use vaultmaid::cache::storage::{SnapshotRow, StorageError};
use vaultmaid::cache::{cache_id, now_epoch_secs, Cache, CacheError, LoadStep};
use vaultmaid::pin::CacheKey;

/// A store in memory, driven as the database is.
struct Store {
    rows: HashMap<String, SnapshotRow>,
}

impl Store {
    fn new() -> Self {
        Store {
            rows: HashMap::new(),
        }
    }

    fn save_vault(&mut self, user_id: &str, key: &CacheKey, json: &str) {
        let (id, row) =
            Cache::save_vault(user_id, key, json, now_epoch_secs(Some(1_700_000_000)))
                .expect("save");
        self.rows.insert(id, row);
    }

    fn load_vault(&mut self, user_id: &str, key: &CacheKey) -> Result<Option<String>, CacheError> {
        let row = self.rows.get(&cache_id(user_id)).cloned();
        match Cache::load_vault(user_id, key, Ok(row)) {
            LoadStep::Finished(outcome) => outcome,
            LoadStep::Delete { id, .. } => {
                self.rows.remove(&id);
                Cache::deleted(Ok(()))
            }
        }
    }

    fn discard(&mut self, user_id: &str) {
        self.rows.remove(&Cache::discard(user_id));
    }
}

fn key(byte: u8) -> CacheKey {
    CacheKey {
        key: [byte; 32],
        salt: b"c2FsdA".to_vec(),
    }
}

#[test]
fn cache_id_is_stable_and_opaque() {
    let a = cache_id("user-42");
    assert_eq!(a, cache_id("user-42"));
    assert_ne!(a, cache_id("user-43"));
    assert!(!a.contains("user-42"));
}

#[test]
fn save_then_load_round_trips() {
    let mut cache = Store::new();
    let json = r#"{"folders":[{"id":"f1","name":"Finance"}]}"#;
    cache.save_vault("user-42", &key(1), json);

    let loaded = cache.load_vault("user-42", &key(1)).expect("load");
    assert_eq!(loaded.as_deref(), Some(json));
}

#[test]
fn load_missing_returns_none() {
    let mut cache = Store::new();
    assert!(cache.load_vault("nobody", &key(1)).expect("load").is_none());
}

#[test]
fn users_do_not_collide() {
    let mut cache = Store::new();
    cache.save_vault("user-a", &key(1), "{\"a\":1}");
    cache.save_vault("user-b", &key(2), "{\"b\":2}");

    assert_eq!(
        cache
            .load_vault("user-a", &key(1))
            .expect("load a")
            .as_deref(),
        Some("{\"a\":1}")
    );
    assert_eq!(
        cache
            .load_vault("user-b", &key(2))
            .expect("load b")
            .as_deref(),
        Some("{\"b\":2}")
    );
}

#[test]
fn wrong_key_discards_entry_and_returns_none() {
    let mut cache = Store::new();
    cache.save_vault("user-42", &key(1), "{\"secret\":true}");

    let loaded = cache
        .load_vault("user-42", &key(2))
        .expect("load wrong key");
    assert!(loaded.is_none(), "wrong key must not decrypt");

    assert!(cache
        .load_vault("user-42", &key(1))
        .expect("load after discard")
        .is_none());
}

#[test]
fn discard_removes_snapshot() {
    let mut cache = Store::new();
    cache.save_vault("user-42", &key(1), "{\"x\":1}");
    cache.discard("user-42");
    assert!(cache
        .load_vault("user-42", &key(1))
        .expect("load")
        .is_none());
}

#[test]
fn cache_id_is_the_digest_in_base64url() {
    assert_eq!(
        cache_id("user-42"),
        "bYlKo-6AJUnX80Dnwc8NHByxTNhPdo2S_6pnhTN8SZc"
    );
    assert_eq!(
        cache_id(""),
        "47DEQpj8HBSa-_TImW-5JCeuQeRkm5NMpJWZG3hSuFU"
    );
    assert_eq!(Cache::discard("user-42"), cache_id("user-42"));
}

#[test]
fn a_second_save_replaces_the_first() {
    let mut cache = Store::new();
    cache.save_vault("user-42", &key(1), "{}");
    cache.save_vault("user-42", &key(1), "{\"folders\":[\"ä\"]}");
    assert_eq!(cache.rows.len(), 1);
    assert_eq!(
        cache.load_vault("user-42", &key(1)),
        Ok(Some("{\"folders\":[\"ä\"]}".to_owned()))
    );
}

#[test]
fn a_saved_row_records_salt_and_time() {
    let (id, row) =
        Cache::save_vault("user-42", &key(1), "{}", "1700000099".to_owned()).expect("save");
    assert_eq!(id, cache_id("user-42"));
    assert_eq!(row.salt, b"c2FsdA".to_vec());
    assert_eq!(row.updated_at, "1700000099");
    assert_eq!(row.nonce.len(), 12);
    assert_eq!(row.blob.len(), 2 + 16);
    assert_eq!(row.clone(), row);
}

#[test]
fn a_row_with_a_bad_nonce_is_unreadable() {
    let row = SnapshotRow {
        blob: vec![0; 20],
        nonce: vec![0; 3],
        salt: Vec::new(),
        updated_at: "0".to_owned(),
    };
    assert_eq!(
        Cache::load_vault("user-42", &key(1), Ok(Some(row))),
        LoadStep::Delete {
            id: cache_id("user-42"),
            reason: EncryptionError::Nonce(3),
        }
    );
}

#[test]
fn a_snapshot_that_is_not_text_is_an_error() {
    let (nonce, blob) =
        encrypt_with_nonce(&[0xff, 0xfe], &[1; 32], [0; 12]).expect("encrypt");
    let row = SnapshotRow {
        blob,
        nonce: nonce.to_vec(),
        salt: Vec::new(),
        updated_at: "0".to_owned(),
    };
    let step = Cache::load_vault("user-42", &key(1), Ok(Some(row)));
    assert_eq!(step, LoadStep::Finished(Err(CacheError::InvalidSnapshot)));
    assert_eq!(
        CacheError::InvalidSnapshot.message(),
        "cached snapshot is not valid UTF-8"
    );
}

#[test]
fn storage_failures_pass_through() {
    let step = Cache::load_vault(
        "user-42",
        &key(1),
        Err(StorageError::Sqlite("disk full".to_owned())),
    );
    match step {
        LoadStep::Finished(Err(error)) => {
            assert_eq!(error.message(), "storage error: sqlite error: disk full")
        }
        _ => panic!("expected a storage error"),
    }

    let error = Cache::deleted(Err(StorageError::Io("denied".to_owned()))).expect_err("delete");
    assert_eq!(
        error.message(),
        "storage error: could not create cache directory: denied"
    );
    assert_eq!(
        CacheError::Encryption(EncryptionError::Encrypt).message(),
        "encryption error: could not encrypt snapshot"
    );
}

#[test]
fn timestamps_are_epoch_seconds() {
    assert_eq!(now_epoch_secs(Some(1_700_000_000)), "1700000000");
    assert_eq!(now_epoch_secs(Some(0)), "0");
    assert_eq!(now_epoch_secs(Some(u64::MAX)), "18446744073709551615");
    assert_eq!(now_epoch_secs(None), "0");
    assert!(now_epoch_secs(Some(1_699_999_999)) < now_epoch_secs(Some(1_700_000_000)));
}
