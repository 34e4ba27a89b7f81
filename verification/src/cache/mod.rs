//! The encrypted vault cache, one snapshot per user.
//!
//! This module ties the row store ([`storage`]) to the blob encryption
//! ([`encryption`]) and owns the one decision that neither can make: what
//! counts as a usable snapshot.
//!
//! A snapshot is disposable. Where decryption fails, the row is deleted and
//! the load finds nothing, since a cache that cannot be read is worth less
//! than the sync that will replace it. A wrong key and tampered data cannot be
//! told apart and are handled alike.
//!
//! The functions of [`Cache`] decide; the caller moves the rows. A save hands
//! out the row to put, a load takes the row that was fetched and may ask for
//! its deletion, a discard hands out the id to delete.

pub mod encryption;
pub mod storage;

use crate::encoding::{base64url, base64url_decoded, encode_base64url, sha256, sha256_digest};
use crate::model::option_view;
use crate::pin::{CacheKey, CacheKeyModel};
use crate::text::{
    decimal, decimal_sorts_like_numbers, decimal_text, sorts_before, text_from_utf8,
};
use encryption::{
    aes_open, aes_seal, decrypt, decrypt_result, encrypt, encrypted, EncryptionError,
    MAX_PLAINTEXT_LEN,
};
use storage::{fetched, SnapshotRow, SnapshotRowModel, StorageError, StorageErrorModel, Table};
use vstd::prelude::*;
use vstd::slice::slice_to_vec;
use vstd::string::*;
use vstd::utf8::{
    decode_utf8, decode_utf8_encode_utf8, encode_utf8, encode_utf8_decode_utf8, encode_utf8_valid_utf8, valid_utf8,
};

verus! {

// ---------------------------------------------------------------------
// Errors
// ---------------------------------------------------------------------

/// Failures of the cache.
#[derive(Debug, PartialEq, Eq)]
pub enum CacheError {
    Storage(StorageError),
    Encryption(EncryptionError),
    InvalidSnapshot,
}

/// View of a [`CacheError`].
pub enum CacheErrorModel {
    Storage(StorageErrorModel),
    Encryption(EncryptionError),
    InvalidSnapshot,
}

impl View for CacheError {
    type V = CacheErrorModel;

    open spec fn view(&self) -> CacheErrorModel {
        match self {
            CacheError::Storage(error) => CacheErrorModel::Storage(error@),
            CacheError::Encryption(error) => CacheErrorModel::Encryption(*error),
            CacheError::InvalidSnapshot => CacheErrorModel::InvalidSnapshot,
        }
    }
}

impl CacheErrorModel {
    /// The message that goes with the error.
    pub open spec fn message_text(self) -> Seq<char> {
        match self {
            CacheErrorModel::Storage(error) => "storage error: "@ + error.message_text(),
            CacheErrorModel::Encryption(error) => "encryption error: "@ + error.message_text(),
            CacheErrorModel::InvalidSnapshot => "cached snapshot is not valid UTF-8"@,
        }
    }
}

impl CacheError {
    pub fn message(&self) -> (r: String)
        ensures
            r@ == self@.message_text(),
    {
        match self {
            CacheError::Storage(error) => {
                "storage error: ".to_owned().concat(error.message().as_str())
            },
            CacheError::Encryption(error) => {
                "encryption error: ".to_owned().concat(error.message().as_str())
            },
            CacheError::InvalidSnapshot => "cached snapshot is not valid UTF-8".to_owned(),
        }
    }
}

// ---------------------------------------------------------------------
// Row ids and timestamps
// ---------------------------------------------------------------------

/// The id of a user's row: the SHA-256 digest of the user id in base64url.
pub open spec fn row_id(user_id: Seq<char>) -> Seq<char> {
    base64url(sha256(encode_utf8(user_id)))
}

/// The row id of `user_id`: the same in every run, and opaque, so that the
/// file does not name its owner. The id decodes to the digest, so two users
/// share a row only where their digests are equal.
pub fn cache_id(user_id: &str) -> (r: String)
    ensures
        r@ == row_id(user_id@),
        base64url_decoded(r@) == Some(sha256(encode_utf8(user_id@))),
{
    let digest: Vec<u8> = sha256_digest(user_id.as_bytes());
    encode_base64url(digest.as_slice())
}

/// The timestamp column: seconds since the Unix epoch, in decimal. `None`
/// stands for a clock that is set before the epoch.
pub open spec fn epoch_text(since_epoch: Option<u64>) -> Seq<char> {
    match since_epoch {
        Some(seconds) => decimal(seconds as nat),
        None => "0"@,
    }
}

/// Render the timestamp column.
pub fn now_epoch_secs(since_epoch: Option<u64>) -> (r: String)
    ensures
        r@ == epoch_text(since_epoch),
{
    match since_epoch {
        Some(seconds) => decimal_text(seconds),
        None => "0".to_owned(),
    }
}

// ---------------------------------------------------------------------
// Save, load, discard
// ---------------------------------------------------------------------

/// What a load does once the row has been looked for.
#[derive(Debug, PartialEq, Eq)]
pub enum LoadStep {
    /// The load is over.
    Finished(Result<Option<String>, CacheError>),
    /// The row is unreadable: delete it, and hand the outcome of that to
    /// [`Cache::deleted`]. `reason` is for the log.
    Delete { id: String, reason: EncryptionError },
}

/// View of a [`LoadStep`].
pub enum LoadStepModel {
    Finished(Result<Option<Seq<char>>, CacheErrorModel>),
    Delete { id: Seq<char>, reason: EncryptionError },
}

/// The view of what a load returns.
pub open spec fn loaded_view(loaded: Result<Option<String>, CacheError>) -> Result<
    Option<Seq<char>>,
    CacheErrorModel,
> {
    match loaded {
        Ok(snapshot) => Ok(option_view(snapshot)),
        Err(error) => Err(error@),
    }
}

impl View for LoadStep {
    type V = LoadStepModel;

    open spec fn view(&self) -> LoadStepModel {
        match self {
            LoadStep::Finished(outcome) => LoadStepModel::Finished(loaded_view(*outcome)),
            LoadStep::Delete { id, reason } => LoadStepModel::Delete { id: id@, reason: *reason },
        }
    }
}

/// What the store answered to a `get`.
pub open spec fn fetch_view(row: Result<Option<SnapshotRow>, StorageError>) -> Result<
    Option<SnapshotRowModel>,
    StorageErrorModel,
> {
    match row {
        Ok(row) => Ok(option_view(row)),
        Err(error) => Err(error@),
    }
}

/// What a load does with the answer of the store.
pub open spec fn load_step(
    user_id: Seq<char>,
    key: CacheKeyModel,
    row: Result<Option<SnapshotRowModel>, StorageErrorModel>,
) -> LoadStepModel {
    match row {
        Err(error) => LoadStepModel::Finished(Err(CacheErrorModel::Storage(error))),
        Ok(None) => LoadStepModel::Finished(Ok(None)),
        Ok(Some(row)) => match decrypt_result(row.nonce, row.blob, key.key) {
            Ok(bytes) => if valid_utf8(bytes) {
                LoadStepModel::Finished(Ok(Some(decode_utf8(bytes))))
            } else {
                LoadStepModel::Finished(Err(CacheErrorModel::InvalidSnapshot))
            },
            Err(reason) => LoadStepModel::Delete { id: row_id(user_id), reason },
        },
    }
}

/// `row` holds `json` encrypted under `key`, with the salt of the key and the
/// time of the save.
pub open spec fn snapshot_row(
    row: SnapshotRowModel,
    key: CacheKeyModel,
    json: Seq<char>,
    updated_at: Seq<char>,
) -> bool {
    &&& encrypted(encode_utf8(json), key.key, row.nonce, row.blob)
    &&& row.salt == key.salt
    &&& row.updated_at == updated_at
}

/// The decisions of the vault cache.
pub struct Cache {}

impl Cache {
    /// Encrypt `json` as this user's snapshot: the id and the row to put.
    ///
    /// The salt is stored with the ciphertext so that the inputs of the key
    /// derivation can be recovered; the key itself is never written.
    pub fn save_vault(user_id: &str, key: &CacheKey, json: &str, updated_at: String) -> (r: Result<
        (String, SnapshotRow),
        CacheError,
    >)
        ensures
            match r {
                Ok(saved) => {
                    &&& encode_utf8(json@).len() <= MAX_PLAINTEXT_LEN
                    &&& saved.0@ == row_id(user_id@)
                    &&& snapshot_row(saved.1@, key@, json@, updated_at@)
                },
                Err(error) => {
                    &&& encode_utf8(json@).len() > MAX_PLAINTEXT_LEN
                    &&& error@ == CacheErrorModel::Encryption(EncryptionError::Encrypt)
                },
            },
    {
        match encrypt(json.as_bytes(), &key.key) {
            Ok((nonce, blob)) => {
                let row = SnapshotRow {
                    blob,
                    nonce: slice_to_vec(nonce.as_slice()),
                    salt: key.salt.clone(),
                    updated_at,
                };
                proof {
                    assert(row.nonce@ =~= nonce@);
                    assert(row.salt@ =~= key.salt@);
                }
                Ok((cache_id(user_id), row))
            },
            Err(error) => Err(CacheError::Encryption(error)),
        }
    }

    /// Decrypt this user's snapshot out of what the store answered to a `get`
    /// of [`cache_id`].
    pub fn load_vault(
        user_id: &str,
        key: &CacheKey,
        row: Result<Option<SnapshotRow>, StorageError>,
    ) -> (r: LoadStep)
        ensures
            r@ == load_step(user_id@, key@, fetch_view(row)),
    {
        match row {
            Err(error) => LoadStep::Finished(Err(CacheError::Storage(error))),
            Ok(None) => LoadStep::Finished(Ok(None)),
            Ok(Some(row)) => match decrypt(row.nonce.as_slice(), row.blob.as_slice(), &key.key) {
                Ok(bytes) => match text_from_utf8(bytes) {
                    Some(json) => LoadStep::Finished(Ok(Some(json))),
                    None => LoadStep::Finished(Err(CacheError::InvalidSnapshot)),
                },
                Err(reason) => LoadStep::Delete { id: cache_id(user_id), reason },
            },
        }
    }

    /// End a load whose row was unreadable: nothing was found, unless the
    /// deletion failed.
    pub fn deleted(deletion: Result<(), StorageError>) -> (r: Result<Option<String>, CacheError>)
        ensures
            match deletion {
                Ok(()) => loaded_view(r) == Ok::<Option<Seq<char>>, CacheErrorModel>(None),
                Err(error) => loaded_view(r) == Err::<Option<Seq<char>>, CacheErrorModel>(
                    CacheErrorModel::Storage(error@),
                ),
            },
    {
        match deletion {
            Ok(()) => Ok(None),
            Err(error) => Err(CacheError::Storage(error)),
        }
    }

    /// Forget this user's snapshot: the id of the row to delete.
    pub fn discard(user_id: &str) -> (r: String)
        ensures
            r@ == row_id(user_id@),
    {
        cache_id(user_id)
    }
}

// ---------------------------------------------------------------------
// Laws
// ---------------------------------------------------------------------

/// A whole load on a store that does not fail: what it returns, and what it
/// leaves in the store.
pub open spec fn load(table: Table, user_id: Seq<char>, key: CacheKeyModel) -> (
    Result<Option<Seq<char>>, CacheErrorModel>,
    Table,
) {
    match load_step(user_id, key, Ok(fetched(table, row_id(user_id)))) {
        LoadStepModel::Finished(outcome) => (outcome, table),
        LoadStepModel::Delete { id, reason } => (Ok(None), table.remove(id)),
    }
}

/// What a save leaves in the store.
pub open spec fn save(table: Table, user_id: Seq<char>, row: SnapshotRowModel) -> Table {
    table.insert(row_id(user_id), row)
}

/// What a discard leaves in the store.
pub open spec fn discard(table: Table, user_id: Seq<char>) -> Table {
    table.remove(row_id(user_id))
}

/// A snapshot that was saved is loaded again under the same key, whatever the
/// store held before, and the load changes nothing.
pub proof fn save_then_load(
    table: Table,
    user_id: Seq<char>,
    key: CacheKeyModel,
    json: Seq<char>,
    updated_at: Seq<char>,
    row: SnapshotRowModel,
)
    requires
        snapshot_row(row, key, json, updated_at),
    ensures
        load(save(table, user_id, row), user_id, key) == (
            Ok::<Option<Seq<char>>, CacheErrorModel>(Some(json)),
            save(table, user_id, row),
        ),
{
    encode_utf8_valid_utf8(json);
    encode_utf8_decode_utf8(json);
}

/// A second save replaces the first.
pub proof fn last_save_wins(
    table: Table,
    user_id: Seq<char>,
    first: SnapshotRowModel,
    second: SnapshotRowModel,
)
    ensures
        save(save(table, user_id, first), user_id, second) == save(table, user_id, second),
{
    assert(save(save(table, user_id, first), user_id, second) =~= save(table, user_id, second));
}

/// Where there is no snapshot, a load finds nothing and changes nothing.
pub proof fn load_of_nothing(table: Table, user_id: Seq<char>, key: CacheKeyModel)
    requires
        !table.dom().contains(row_id(user_id)),
    ensures
        load(table, user_id, key) == (Ok::<Option<Seq<char>>, CacheErrorModel>(None), table),
{
}

/// Timestamps with the same number of digits sort as the times do.
pub proof fn timestamps_sort_like_times(earlier: u64, later: u64)
    requires
        earlier < later,
        epoch_text(Some(earlier)).len() == epoch_text(Some(later)).len(),
    ensures
        sorts_before(epoch_text(Some(earlier)), epoch_text(Some(later))),
{
    decimal_sorts_like_numbers(earlier as nat, later as nat);
}

/// Users with rows of their own do not meet: what one saves, discards or loads
/// leaves every load of the other as it was.
pub proof fn users_do_not_collide(
    table: Table,
    one: Seq<char>,
    other: Seq<char>,
    row: SnapshotRowModel,
    one_key: CacheKeyModel,
    other_key: CacheKeyModel,
)
    requires
        row_id(one) != row_id(other),
    ensures
        load(save(table, one, row), other, other_key).0 == load(table, other, other_key).0,
        load(discard(table, one), other, other_key).0 == load(table, other, other_key).0,
        load(load(table, one, one_key).1, other, other_key).0 == load(table, other, other_key).0,
{
}

/// Row ids tell digests apart: `one` and `other` are ids that decode, as those
/// of [`cache_id`] do, to the digests of their users.
pub proof fn different_digests_different_rows(
    one: Seq<char>,
    other: Seq<char>,
    one_user: Seq<char>,
    other_user: Seq<char>,
)
    requires
        base64url_decoded(one) == Some(sha256(encode_utf8(one_user))),
        base64url_decoded(other) == Some(sha256(encode_utf8(other_user))),
        sha256(encode_utf8(one_user)) != sha256(encode_utf8(other_user)),
    ensures
        one != other,
{
}

/// A row that does not decrypt is discarded: the load finds nothing, and from
/// then on a load finds nothing under any key, the right one included.
pub proof fn unreadable_snapshot_is_discarded(
    table: Table,
    user_id: Seq<char>,
    key: CacheKeyModel,
    other_key: CacheKeyModel,
)
    requires
        table.dom().contains(row_id(user_id)),
        decrypt_result(table[row_id(user_id)].nonce, table[row_id(user_id)].blob, key.key) is Err,
    ensures
        load(table, user_id, key) == (
            Ok::<Option<Seq<char>>, CacheErrorModel>(None),
            discard(table, user_id),
        ),
        load(load(table, user_id, key).1, user_id, other_key).0 == Ok::<
            Option<Seq<char>>,
            CacheErrorModel,
        >(None),
{
}

/// After a discard a load finds nothing, and a second discard does nothing.
pub proof fn discard_removes_the_snapshot(table: Table, user_id: Seq<char>, key: CacheKeyModel)
    ensures
        load(discard(table, user_id), user_id, key) == (
            Ok::<Option<Seq<char>>, CacheErrorModel>(None),
            discard(table, user_id),
        ),
        discard(discard(table, user_id), user_id) == discard(table, user_id),
{
    assert(discard(discard(table, user_id), user_id) =~= discard(table, user_id));
}

/// A user's row is found under the digest of the whole user id, in base64url.
pub proof fn rows_are_named_by_digests(user_id: Seq<char>)
    ensures
        row_id(user_id) == base64url(sha256(encode_utf8(user_id))),
{
}

/// A timestamp is the number of seconds in decimal, and zero for a clock before
/// the epoch.
pub proof fn timestamps_are_seconds(seconds: u64)
    ensures
        epoch_text(Some(seconds)) == decimal(seconds as nat),
        epoch_text(None) == "0"@,
{
}

/// A saved row holds the bytes of the JSON sealed under the key and the row's
/// nonce, the salt of the key, and the time of the save.
pub proof fn saved_rows_hold_the_snapshot(
    row: SnapshotRowModel,
    key: CacheKeyModel,
    json: Seq<char>,
    updated_at: Seq<char>,
)
    requires
        snapshot_row(row, key, json, updated_at),
    ensures
        row.nonce.len() == 12,
        aes_seal(key.key, row.nonce, encode_utf8(json)) == Some(row.blob),
        aes_open(key.key, row.nonce, row.blob) == Some(encode_utf8(json)),
        row.salt == key.salt,
        row.updated_at == updated_at,
{
}

/// A load finds exactly the text whose bytes the row opens to under the key.
pub proof fn a_load_finds_what_the_row_opens_to(
    user_id: Seq<char>,
    key: CacheKeyModel,
    row: SnapshotRowModel,
    json: Seq<char>,
)
    ensures
        load_step(user_id, key, Ok(Some(row))) == LoadStepModel::Finished(Ok(Some(json)))
            <==> row.nonce.len() == 12 && aes_open(key.key, row.nonce, row.blob) == Some(
            encode_utf8(json),
        ),
{
    encode_utf8_valid_utf8(json);
    encode_utf8_decode_utf8(json);
    if let Some(bytes) = aes_open(key.key, row.nonce, row.blob) {
        if valid_utf8(bytes) {
            decode_utf8_encode_utf8(bytes);
        }
    }
}

/// A row is deleted exactly when it does not open, and it is that user's row;
/// bytes that open but are no text are an error and are kept.
pub proof fn a_load_deletes_only_what_does_not_open(
    user_id: Seq<char>,
    key: CacheKeyModel,
    row: SnapshotRowModel,
)
    ensures
        ({
            let step = load_step(user_id, key, Ok(Some(row)));
            let opened = aes_open(key.key, row.nonce, row.blob);
            &&& step is Delete <==> row.nonce.len() != 12 || opened is None
            &&& step matches LoadStepModel::Delete { id, reason } ==> {
                &&& id == base64url(sha256(encode_utf8(user_id)))
                &&& row.nonce.len() != 12 ==> reason is Nonce
                &&& row.nonce.len() == 12 ==> reason == EncryptionError::Decrypt
            }
            &&& row.nonce.len() == 12 && (opened matches Some(bytes) && !valid_utf8(bytes))
                ==> step == LoadStepModel::Finished(Err(CacheErrorModel::InvalidSnapshot))
        }),
{
}

/// What the store says passes through a load: no row is nothing, a failure is
/// that failure.
pub proof fn a_load_passes_the_store_on(
    user_id: Seq<char>,
    key: CacheKeyModel,
    error: StorageErrorModel,
)
    ensures
        load_step(user_id, key, Ok(None)) == LoadStepModel::Finished(Ok(None)),
        load_step(user_id, key, Err(error)) == LoadStepModel::Finished(
            Err(CacheErrorModel::Storage(error)),
        ),
{
}

/// A failure of the cache tells where it comes from, with the message of that
/// layer.
pub proof fn cache_messages(storage: StorageErrorModel, encryption: EncryptionError)
    ensures
        CacheErrorModel::Storage(storage).message_text() == "storage error: "@
            + storage.message_text(),
        CacheErrorModel::Encryption(encryption).message_text() == "encryption error: "@
            + encryption.message_text(),
        CacheErrorModel::InvalidSnapshot.message_text() == "cached snapshot is not valid UTF-8"@,
{
}

/// What the store handed over and what a load ended with are read as they are.
pub proof fn rows_are_read_as_they_are(
    row: SnapshotRow,
    store_error: StorageError,
    json: String,
    error: CacheError,
)
    ensures
        fetch_view(Ok(Some(row))) == Ok::<Option<SnapshotRowModel>, StorageErrorModel>(Some(row@)),
        fetch_view(Ok(None)) == Ok::<Option<SnapshotRowModel>, StorageErrorModel>(None),
        fetch_view(Err(store_error)) == Err::<Option<SnapshotRowModel>, StorageErrorModel>(
            store_error@,
        ),
        loaded_view(Ok(Some(json))) == Ok::<Option<Seq<char>>, CacheErrorModel>(Some(json@)),
        loaded_view(Ok(None)) == Ok::<Option<Seq<char>>, CacheErrorModel>(None),
        loaded_view(Err(error)) == Err::<Option<Seq<char>>, CacheErrorModel>(error@),
{
}

} // verus!
