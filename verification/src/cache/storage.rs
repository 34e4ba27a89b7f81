//! The rows of the snapshot store.
//!
//! One row per user holds an opaque ciphertext, its nonce, the derivation
//! salt and a timestamp. The store itself is a table from row ids to rows:
//! `put` inserts or replaces, `get` fetches, and `delete` of a missing row
//! does nothing. The row id is a hash of the user id, so the file does not
//! tell who uses the machine.

use vstd::prelude::*;
use vstd::string::*;

verus! {

/// Failures of the store, with the words of the layer below.
#[derive(Debug, PartialEq, Eq)]
pub enum StorageError {
    Sqlite(String),
    Io(String),
}

/// View of a [`StorageError`].
pub enum StorageErrorModel {
    Sqlite(Seq<char>),
    Io(Seq<char>),
}

impl View for StorageError {
    type V = StorageErrorModel;

    open spec fn view(&self) -> StorageErrorModel {
        match self {
            StorageError::Sqlite(text) => StorageErrorModel::Sqlite(text@),
            StorageError::Io(text) => StorageErrorModel::Io(text@),
        }
    }
}

impl StorageErrorModel {
    /// The message that goes with the error.
    pub open spec fn message_text(self) -> Seq<char> {
        match self {
            StorageErrorModel::Sqlite(text) => "sqlite error: "@ + text,
            StorageErrorModel::Io(text) => "could not create cache directory: "@ + text,
        }
    }
}

impl StorageError {
    pub fn message(&self) -> (r: String)
        ensures
            r@ == self@.message_text(),
    {
        match self {
            StorageError::Sqlite(text) => "sqlite error: ".to_owned().concat(text.as_str()),
            StorageError::Io(text) => {
                "could not create cache directory: ".to_owned().concat(text.as_str())
            },
        }
    }
}

/// One stored snapshot with everything needed to try a decryption.
#[derive(Debug, PartialEq, Eq)]
pub struct SnapshotRow {
    pub blob: Vec<u8>,
    pub nonce: Vec<u8>,
    pub salt: Vec<u8>,
    pub updated_at: String,
}

/// View of a [`SnapshotRow`].
pub struct SnapshotRowModel {
    pub blob: Seq<u8>,
    pub nonce: Seq<u8>,
    pub salt: Seq<u8>,
    pub updated_at: Seq<char>,
}

impl View for SnapshotRow {
    type V = SnapshotRowModel;

    open spec fn view(&self) -> SnapshotRowModel {
        SnapshotRowModel {
            blob: self.blob@,
            nonce: self.nonce@,
            salt: self.salt@,
            updated_at: self.updated_at@,
        }
    }
}

impl Clone for SnapshotRow {
    fn clone(&self) -> (r: Self)
        ensures
            r@ == self@,
    {
        SnapshotRow {
            blob: self.blob.clone(),
            nonce: self.nonce.clone(),
            salt: self.salt.clone(),
            updated_at: self.updated_at.clone(),
        }
    }
}

/// The contents of the store.
pub type Table = Map<Seq<char>, SnapshotRowModel>;

/// What `get` finds in the store.
pub open spec fn fetched(table: Table, id: Seq<char>) -> Option<SnapshotRowModel> {
    if table.dom().contains(id) {
        Some(table[id])
    } else {
        None
    }
}

/// A failure is told with the words of the layer below.
pub proof fn storage_messages(text: Seq<char>)
    ensures
        StorageErrorModel::Sqlite(text).message_text() == "sqlite error: "@ + text,
        StorageErrorModel::Io(text).message_text() == "could not create cache directory: "@ + text,
{
}

} // verus!
