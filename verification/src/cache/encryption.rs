//! AES-256-GCM encryption of vault snapshots.
//!
//! The snapshot is one blob: per-record encryption would show row counts,
//! sizes and update patterns, and nothing is ever looked up inside the cache.
//! Each encryption draws a fresh 96-bit nonce, which is stored beside the
//! ciphertext. This file chooses no keys, stores nothing and knows nothing of
//! JSON.

use crate::model::option_view;
use crate::text::{decimal, decimal_text};
use aes_gcm::aead::rand_core::RngCore;
use aes_gcm::aead::{Aead, KeyInit};
use vstd::prelude::*;
use vstd::string::*;

verus! {

/// GCM nonce width in bytes.
pub const NONCE_LEN: usize = 12;

/// GCM tag width in bytes; a ciphertext is that much longer than its plaintext.
pub const TAG_LEN: usize = 16;

/// The longest plaintext that the cipher takes, in bytes.
pub const MAX_PLAINTEXT_LEN: u64 = 0x10_0000_0000;

/// Failures of encryption and decryption. `Decrypt` does not tell a wrong key
/// from tampered data: authentication fails alike, and callers react alike.
#[derive(Debug, PartialEq, Eq, Structural, Clone, Copy)]
pub enum EncryptionError {
    Encrypt,
    Decrypt,
    Nonce(usize),
}

impl View for EncryptionError {
    type V = EncryptionError;

    open spec fn view(&self) -> EncryptionError {
        *self
    }
}

impl EncryptionError {
    /// The message that goes with the error.
    pub open spec fn message_text(self) -> Seq<char> {
        match self {
            EncryptionError::Encrypt => "could not encrypt snapshot"@,
            EncryptionError::Decrypt => {
                "could not decrypt snapshot: wrong key or corrupted data"@
            },
            EncryptionError::Nonce(len) => "nonce has "@ + decimal(len as nat)
                + " bytes, expected "@ + decimal(NONCE_LEN as nat),
        }
    }

    pub fn message(&self) -> (r: String)
        ensures
            r@ == self.message_text(),
    {
        match self {
            EncryptionError::Encrypt => "could not encrypt snapshot".to_owned(),
            EncryptionError::Decrypt => {
                "could not decrypt snapshot: wrong key or corrupted data".to_owned()
            },
            EncryptionError::Nonce(len) => {
                let mut text = "nonce has ".to_owned();
                text.append(decimal_text(*len as u64).as_str());
                text.append(" bytes, expected ");
                text.append(decimal_text(NONCE_LEN as u64).as_str());
                text
            },
        }
    }
}

// ---------------------------------------------------------------------
// The cipher
// ---------------------------------------------------------------------

/// AES-256-GCM without associated data: ciphertext and tag, in that order,
/// where the plaintext is not too long.
pub uninterp spec fn aes_seal(key: Seq<u8>, nonce: Seq<u8>, plaintext: Seq<u8>) -> Option<Seq<u8>>;

/// The plaintext of an AES-256-GCM message that authenticates.
pub uninterp spec fn aes_open(key: Seq<u8>, nonce: Seq<u8>, ciphertext: Seq<u8>) -> Option<Seq<u8>>;

/// `OsRng.fill_bytes`: 12 bytes from the operating system's generator. Nothing
/// is claimed of them.
#[verifier::external_body]
fn random_nonce() -> [u8; NONCE_LEN] {
    let mut nonce = [0u8; NONCE_LEN];
    aes_gcm::aead::OsRng.fill_bytes(&mut nonce);
    nonce
}

/// `Aes256Gcm::encrypt`. Trusted: the message is named; it exists for every
/// plaintext within the cipher's limit, is longer by the tag, and opens under
/// the same key and nonce to the plaintext.
#[verifier::external_body]
fn aes_encrypt(key: &[u8; 32], nonce: &[u8; NONCE_LEN], plaintext: &[u8]) -> (r: Option<Vec<u8>>)
    ensures
        option_view(r) == aes_seal(key@, nonce@, plaintext@),
        r is Some <==> plaintext@.len() <= MAX_PLAINTEXT_LEN,
        r matches Some(ciphertext) ==> {
            &&& ciphertext@.len() == plaintext@.len() + TAG_LEN
            &&& aes_open(key@, nonce@, ciphertext@) == Some(plaintext@)
        },
{
    let cipher = aes_gcm::Aes256Gcm::new_from_slice(key).ok()?;
    cipher.encrypt(aes_gcm::Nonce::from_slice(nonce), plaintext).ok()
}

/// `Aes256Gcm::decrypt`. Trusted: the plaintext is named; where there is one,
/// sealing it again, if it is within the limit, gives this very ciphertext.
/// A nonce of another length makes the crate panic, hence the `requires`.
#[verifier::external_body]
fn aes_decrypt(key: &[u8; 32], nonce: &[u8], ciphertext: &[u8]) -> (r: Option<Vec<u8>>)
    requires
        nonce@.len() == NONCE_LEN,
    ensures
        option_view(r) == aes_open(key@, nonce@, ciphertext@),
        r matches Some(plaintext) ==> {
            &&& ciphertext@.len() == plaintext@.len() + TAG_LEN
            &&& plaintext@.len() <= MAX_PLAINTEXT_LEN ==> aes_seal(key@, nonce@, plaintext@)
                == Some(ciphertext@)
        },
{
    let cipher = aes_gcm::Aes256Gcm::new_from_slice(key).ok()?;
    cipher.decrypt(aes_gcm::Nonce::from_slice(nonce), ciphertext).ok()
}

// ---------------------------------------------------------------------
// Snapshots
// ---------------------------------------------------------------------

/// `ciphertext` is what encrypting `plaintext` under `key` with `nonce` gives,
/// and it opens to `plaintext` again.
pub open spec fn encrypted(
    plaintext: Seq<u8>,
    key: Seq<u8>,
    nonce: Seq<u8>,
    ciphertext: Seq<u8>,
) -> bool {
    &&& nonce.len() == NONCE_LEN
    &&& ciphertext.len() == plaintext.len() + TAG_LEN
    &&& aes_seal(key, nonce, plaintext) == Some(ciphertext)
    &&& aes_open(key, nonce, ciphertext) == Some(plaintext)
}

/// What decrypting gives.
pub open spec fn decrypt_result(nonce: Seq<u8>, ciphertext: Seq<u8>, key: Seq<u8>) -> Result<
    Seq<u8>,
    EncryptionError,
> {
    if nonce.len() != NONCE_LEN {
        Err(EncryptionError::Nonce(nonce.len() as usize))
    } else {
        match aes_open(key, nonce, ciphertext) {
            Some(plaintext) => Ok(plaintext),
            None => Err(EncryptionError::Decrypt),
        }
    }
}

/// Encrypt a blob with a given nonce.
pub fn encrypt_with_nonce(plaintext: &[u8], key: &[u8; 32], nonce: [u8; NONCE_LEN]) -> (r: Result<
    ([u8; NONCE_LEN], Vec<u8>),
    EncryptionError,
>)
    ensures
        match r {
            Ok(sealed) => {
                &&& plaintext@.len() <= MAX_PLAINTEXT_LEN
                &&& sealed.0 == nonce
                &&& encrypted(plaintext@, key@, nonce@, sealed.1@)
            },
            Err(error) => {
                &&& plaintext@.len() > MAX_PLAINTEXT_LEN
                &&& error == EncryptionError::Encrypt
            },
        },
{
    match aes_encrypt(key, &nonce, plaintext) {
        Some(ciphertext) => Ok((nonce, ciphertext)),
        None => Err(EncryptionError::Encrypt),
    }
}

/// Encrypt a blob under `key`, returning a fresh nonce and the ciphertext.
pub fn encrypt(plaintext: &[u8], key: &[u8; 32]) -> (r: Result<
    ([u8; NONCE_LEN], Vec<u8>),
    EncryptionError,
>)
    ensures
        match r {
            Ok(sealed) => {
                &&& plaintext@.len() <= MAX_PLAINTEXT_LEN
                &&& encrypted(plaintext@, key@, sealed.0@, sealed.1@)
            },
            Err(error) => {
                &&& plaintext@.len() > MAX_PLAINTEXT_LEN
                &&& error == EncryptionError::Encrypt
            },
        },
{
    let nonce: [u8; NONCE_LEN] = random_nonce();
    encrypt_with_nonce(plaintext, key, nonce)
}

/// Decrypt a blob; a failed authentication becomes `Decrypt`.
pub fn decrypt(nonce: &[u8], ciphertext: &[u8], key: &[u8; 32]) -> (r: Result<
    Vec<u8>,
    EncryptionError,
>)
    ensures
        match r {
            Ok(plaintext) => {
                &&& decrypt_result(nonce@, ciphertext@, key@) == Ok::<Seq<u8>, EncryptionError>(
                    plaintext@,
                )
                &&& ciphertext@.len() == plaintext@.len() + TAG_LEN
                &&& plaintext@.len() <= MAX_PLAINTEXT_LEN ==> encrypted(
                    plaintext@,
                    key@,
                    nonce@,
                    ciphertext@,
                )
            },
            Err(error) => decrypt_result(nonce@, ciphertext@, key@) == Err::<
                Seq<u8>,
                EncryptionError,
            >(error),
        },
{
    if nonce.len() != NONCE_LEN {
        return Err(EncryptionError::Nonce(nonce.len()));
    }
    match aes_decrypt(key, nonce, ciphertext) {
        Some(plaintext) => Ok(plaintext),
        None => Err(EncryptionError::Decrypt),
    }
}

// ---------------------------------------------------------------------
// Laws
// ---------------------------------------------------------------------

/// Decrypting what `encrypt` returned, with the nonce and the key it was made
/// with, recovers the plaintext.
pub proof fn decrypt_undoes_encrypt(
    plaintext: Seq<u8>,
    key: Seq<u8>,
    nonce: Seq<u8>,
    ciphertext: Seq<u8>,
)
    requires
        encrypted(plaintext, key, nonce, ciphertext),
    ensures
        decrypt_result(nonce, ciphertext, key) == Ok::<Seq<u8>, EncryptionError>(plaintext),
{
}

/// One ciphertext, nonce and key have one plaintext: two blobs that encrypt
/// alike are the same blob.
pub proof fn ciphertext_determines_plaintext(
    a: Seq<u8>,
    b: Seq<u8>,
    key: Seq<u8>,
    nonce: Seq<u8>,
    ciphertext: Seq<u8>,
)
    requires
        encrypted(a, key, nonce, ciphertext),
        encrypted(b, key, nonce, ciphertext),
    ensures
        a == b,
{
}

/// A nonce of the wrong width is refused before the key or the ciphertext is
/// looked at.
pub proof fn wrong_nonce_is_refused(
    nonce: Seq<u8>,
    c1: Seq<u8>,
    k1: Seq<u8>,
    c2: Seq<u8>,
    k2: Seq<u8>,
)
    requires
        nonce.len() != NONCE_LEN,
    ensures
        decrypt_result(nonce, c1, k1) == decrypt_result(nonce, c2, k2),
        decrypt_result(nonce, c1, k1) == Err::<Seq<u8>, EncryptionError>(
            EncryptionError::Nonce(nonce.len() as usize),
        ),
{
}

/// Decrypting with a nonce of 12 bytes gives exactly what the cipher opens the
/// ciphertext to, under that key and nonce; what does not open is `Decrypt`.
pub proof fn decrypt_is_what_the_cipher_opens(nonce: Seq<u8>, ciphertext: Seq<u8>, key: Seq<u8>)
    requires
        nonce.len() == 12,
    ensures
        match aes_open(key, nonce, ciphertext) {
            Some(plaintext) => decrypt_result(nonce, ciphertext, key) == Ok::<
                Seq<u8>,
                EncryptionError,
            >(plaintext),
            None => decrypt_result(nonce, ciphertext, key) == Err::<Seq<u8>, EncryptionError>(
                EncryptionError::Decrypt,
            ),
        },
{
}

/// What counts as encrypted is what the cipher seals: under that key and nonce,
/// of that plaintext, with 16 bytes of tag behind it.
pub proof fn encrypt_is_what_the_cipher_seals(
    plaintext: Seq<u8>,
    key: Seq<u8>,
    nonce: Seq<u8>,
    ciphertext: Seq<u8>,
)
    requires
        encrypted(plaintext, key, nonce, ciphertext),
    ensures
        nonce.len() == 12,
        aes_seal(key, nonce, plaintext) == Some(ciphertext),
        aes_open(key, nonce, ciphertext) == Some(plaintext),
        ciphertext.len() == plaintext.len() + 16,
{
}

/// Each failure has a message of its own; that of a nonce tells both widths.
pub proof fn encryption_messages(len: usize)
    ensures
        EncryptionError::Encrypt.message_text() == "could not encrypt snapshot"@,
        EncryptionError::Decrypt.message_text()
            == "could not decrypt snapshot: wrong key or corrupted data"@,
        EncryptionError::Nonce(len).message_text() == "nonce has "@ + decimal(len as nat)
            + " bytes, expected "@ + decimal(12),
{
}

} // verus!
