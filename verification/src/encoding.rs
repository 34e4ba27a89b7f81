//! Base64 and SHA-256, as the crates `base64` and `sha2` compute them.

use crate::model::option_view;
use base64::Engine;
use sha2::Digest;
use vstd::prelude::*;

verus! {

/// Base64 in the URL-safe alphabet, without padding.
pub uninterp spec fn base64url(bytes: Seq<u8>) -> Seq<char>;

/// What a text decodes to in the URL-safe alphabet without padding, if it is
/// such an encoding.
pub uninterp spec fn base64url_decoded(text: Seq<char>) -> Option<Seq<u8>>;

/// What a text decodes to in the standard alphabet without padding, if it is
/// such an encoding.
pub uninterp spec fn base64std_decoded(text: Seq<char>) -> Option<Seq<u8>>;

/// The SHA-256 digest.
pub uninterp spec fn sha256(bytes: Seq<u8>) -> Seq<u8>;

/// `URL_SAFE_NO_PAD.encode`. Trusted: the text is named, and the same engine
/// decodes it to the bytes again. The bound keeps the length of the encoding
/// within `usize`, past which the engine panics.
#[verifier::external_body]
pub(crate) fn encode_base64url(bytes: &[u8]) -> (r: String)
    requires
        bytes@.len() <= usize::MAX / 2,
    ensures
        r@ == base64url(bytes@),
        base64url_decoded(r@) == Some(bytes@),
{
    base64::engine::general_purpose::URL_SAFE_NO_PAD.encode(bytes)
}

/// `URL_SAFE_NO_PAD.decode`. Trusted: the outcome is named; why a decoding
/// fails is not told.
#[verifier::external_body]
pub(crate) fn decode_base64url(text: &str) -> (r: Option<Vec<u8>>)
    ensures
        option_view(r) == base64url_decoded(text@),
{
    base64::engine::general_purpose::URL_SAFE_NO_PAD.decode(text).ok()
}

/// `STANDARD_NO_PAD.decode`. Trusted in the same way.
#[verifier::external_body]
pub(crate) fn decode_base64std(text: &str) -> (r: Option<Vec<u8>>)
    ensures
        option_view(r) == base64std_decoded(text@),
{
    base64::engine::general_purpose::STANDARD_NO_PAD.decode(text).ok()
}

/// `Sha256::digest`. Trusted: the digest is named and has 32 bytes.
#[verifier::external_body]
pub(crate) fn sha256_digest(bytes: &[u8]) -> (r: Vec<u8>)
    ensures
        r@ == sha256(bytes@),
        r@.len() == 32,
{
    sha2::Sha256::digest(bytes).to_vec()
}

} // verus!
