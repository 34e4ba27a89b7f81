//! The local PIN: the secret that unlocks the vault cache.
//!
//! The PIN is not authentication; the server never sees it. Argon2id turns it
//! into a verifier, which is stored, and into the AES key of the cache, which
//! is not. Both start from the salt that the verifier carries, so the same
//! PIN and verifier always give the same key and the salt needs no place of
//! its own in the configuration.
//!
//! A PIN and a verifier are distinct types: the operations here take one of
//! each, and swapped arguments must not compile.

use argon2::{PasswordHasher, PasswordVerifier};
use crate::model::{option_view, result_view};
use crate::text::{decimal, decimal_text, same_text};
use vstd::prelude::*;
use vstd::string::*;
use vstd::utf8::encode_utf8;
use zeroize::Zeroize;

verus! {

// ---------------------------------------------------------------------
// Types
// ---------------------------------------------------------------------

/// A plaintext PIN. Its buffer is wiped on drop, and it has no `Debug`.
pub struct Pin {
    text: String,
}

impl View for Pin {
    type V = Seq<char>;

    closed spec fn view(&self) -> Seq<char> {
        self.text@
    }
}

/// `Zeroize::zeroize` on a `String`. Trusted: nothing is left of the text.
#[verifier::external_body]
fn wipe(text: &mut String)
    ensures
        final(text)@ == Seq::<char>::empty(),
    opens_invariants none
    no_unwind
{
    text.zeroize();
}

impl Drop for Pin {
    fn drop(&mut self)
        opens_invariants none
        no_unwind
    {
        wipe(&mut self.text);
    }
}

impl Clone for Pin {
    fn clone(&self) -> (r: Self)
        ensures
            r@ == self@,
    {
        Pin { text: self.text.clone() }
    }
}

impl Pin {
    pub fn new(pin: &str) -> (r: Self)
        ensures
            r@ == pin@,
    {
        Pin { text: pin.to_owned() }
    }

    /// Borrow the plaintext. Each use widens the window in which it is
    /// visible, hence the name.
    pub fn expose(&self) -> (r: &str)
        ensures
            r@ == self@,
    {
        self.text.as_str()
    }

    /// What may be logged of a PIN: nothing.
    pub fn debug_text(&self) -> (r: String)
        ensures
            r@ == "Pin(***)"@,
    {
        "Pin(***)".to_owned()
    }
}

/// An Argon2 verifier in the PHC string format.
#[derive(Debug, PartialEq, Eq)]
pub struct Verifier(String);

impl View for Verifier {
    type V = Seq<char>;

    closed spec fn view(&self) -> Seq<char> {
        self.0@
    }
}

impl Clone for Verifier {
    fn clone(&self) -> (r: Self)
        ensures
            r@ == self@,
    {
        Verifier(self.0.clone())
    }
}

impl Verifier {
    pub fn new(verifier: &str) -> (r: Self)
        ensures
            r@ == verifier@,
    {
        Verifier(verifier.to_owned())
    }

    pub fn as_str(&self) -> (r: &str)
        ensures
            r@ == self@,
    {
        self.0.as_str()
    }
}

impl From<String> for Verifier {
    fn from(value: String) -> (r: Self)
        ensures
            r@ == value@,
    {
        Verifier(value)
    }
}

impl vstd::std_specs::convert::FromSpecImpl<String> for Verifier {
    closed spec fn obeys_from_spec() -> bool {
        true
    }

    closed spec fn from_spec(value: String) -> Self {
        Verifier(value)
    }
}

/// Failures of the PIN operations. A wrong PIN is none of them: `verify`
/// reports it as `Ok(false)`.
#[derive(Debug)]
pub enum PinError {
    HashError(String),
    MalformedVerifier(String),
}

/// `PinError` with its texts as sequences.
pub enum PinErrorModel {
    HashError(Seq<char>),
    MalformedVerifier(Seq<char>),
}

impl View for PinError {
    type V = PinErrorModel;

    open spec fn view(&self) -> PinErrorModel {
        match self {
            PinError::HashError(text) => PinErrorModel::HashError(text@),
            PinError::MalformedVerifier(text) => PinErrorModel::MalformedVerifier(text@),
        }
    }
}

impl PinErrorModel {
    /// The message that the user sees.
    pub open spec fn message(self) -> Seq<char> {
        match self {
            PinErrorModel::HashError(text) => "could not hash PIN: "@ + text,
            PinErrorModel::MalformedVerifier(text) => "verifier is malformed: "@ + text,
        }
    }
}

impl PinError {
    pub fn message(&self) -> (r: String)
        ensures
            r@ == self@.message(),
    {
        match self {
            PinError::HashError(text) => "could not hash PIN: ".to_owned().concat(text.as_str()),
            PinError::MalformedVerifier(text) => "verifier is malformed: ".to_owned().concat(
                text.as_str(),
            ),
        }
    }
}

/// The AES-256 key of the vault cache and the salt it was derived with. The
/// salt is not secret; the cache row records it.
#[derive(PartialEq, Eq)]
pub struct CacheKey {
    pub key: [u8; 32],
    pub salt: Vec<u8>,
}

/// `CacheKey` as byte sequences.
pub struct CacheKeyModel {
    pub key: Seq<u8>,
    pub salt: Seq<u8>,
}

impl View for CacheKey {
    type V = CacheKeyModel;

    open spec fn view(&self) -> CacheKeyModel {
        CacheKeyModel { key: self.key@, salt: self.salt@ }
    }
}

impl Clone for CacheKey {
    fn clone(&self) -> (r: Self)
        ensures
            r@ == self@,
    {
        let salt: Vec<u8> = self.salt.clone();
        proof {
            assert(salt@ =~= self.salt@);
        }
        CacheKey { key: self.key, salt }
    }
}

/// The bytes in decimal, separated by commas.
pub open spec fn listed(bytes: Seq<u8>) -> Seq<char>
    decreases bytes.len(),
{
    if bytes.len() == 0 {
        Seq::empty()
    } else if bytes.len() == 1 {
        decimal(bytes[0] as nat)
    } else {
        listed(bytes.drop_last()) + ", "@ + decimal(bytes.last() as nat)
    }
}

fn listed_text(bytes: &Vec<u8>) -> (r: String)
    ensures
        r@ == listed(bytes@),
{
    let mut text: String = String::new();
    let mut i: usize = 0;
    while i < bytes.len()
        invariant
            i <= bytes.len(),
            text@ == listed(bytes@.take(i as int)),
        decreases bytes.len() - i,
    {
        let ghost before = bytes@.take(i as int);
        let ghost after = bytes@.take(i + 1);
        if i > 0 {
            text.append(", ");
        }
        text.append(decimal_text(bytes[i] as u64).as_str());
        proof {
            assert(after.drop_last() =~= before);
            if i == 0 {
                assert(text@ =~= decimal(bytes[0] as nat));
            }
        }
        i = i + 1;
    }
    proof {
        assert(bytes@.take(i as int) =~= bytes@);
    }
    text
}

impl CacheKeyModel {
    /// The `Debug` rendering: the key masked, the salt in full.
    pub open spec fn debug(self) -> Seq<char> {
        "CacheKey { key: \"***\", salt: ["@ + listed(self.salt) + "] }"@
    }
}

impl CacheKey {
    /// What may be logged of a cache key: its salt.
    pub fn debug_text(&self) -> (r: String)
        ensures
            r@ == self@.debug(),
    {
        let mut text = "CacheKey { key: \"***\", salt: [".to_owned();
        text.append(listed_text(&self.salt).as_str());
        text.append("] }");
        text
    }
}

/// Two keys with one salt print alike: the rendering tells nothing of the key.
pub proof fn cache_key_debug_is_masked(a: CacheKeyModel, b: CacheKeyModel)
    requires
        a.salt == b.salt,
    ensures
        a.debug() == b.debug(),
{
}

// ---------------------------------------------------------------------
// Argon2
// ---------------------------------------------------------------------

/// The longest password that Argon2 takes, in bytes.
pub const MAX_PASSWORD_LEN: u64 = 0xFFFF_FFFF;

/// The shortest salt that Argon2 takes, in bytes.
pub const MIN_SALT_LEN: u64 = 8;

/// The number of lanes from which Argon2's check of its parameters, which
/// multiplies the number by 8 in 32 bits, overflows.
pub const LANES_LIMIT: u32 = 0x2000_0000;

/// The least memory that Argon2 works with, in KiB.
pub const MIN_MEMORY: u32 = 8;

/// The memory that Argon2 works with where none is given, in KiB.
pub const DEFAULT_MEMORY: u32 = 19456;

/// The longest key identifier that Argon2 takes, in bytes.
pub const MAX_KEY_ID_LEN: usize = 8;

/// The longest associated data that Argon2 takes, in bytes.
pub const MAX_DATA_LEN: usize = 32;

/// The length of a freshly drawn salt, in characters.
pub const SALT_TEXT_LEN: usize = 22;

/// The PHC string of Argon2id, version 19, with the default parameters, for a
/// password and a salt in the B64 alphabet; or the text of the failure.
pub uninterp spec fn argon2_phc(password: Seq<u8>, salt: Seq<char>) -> Result<Seq<char>, Seq<char>>;

/// What a PHC string holds: its salt, where it has one; its parameters in
/// order, each with its name, its value where that is a decimal number, and the
/// number of bytes that the value encodes where it is B64; and whether it has a
/// hash. Or the text of the failure to parse it.
pub uninterp spec fn phc_fields(phc: Seq<char>) -> Result<
    (Option<Seq<char>>, Seq<(Seq<char>, Option<u32>, Option<usize>)>, bool),
    Seq<char>,
>;

/// Parameters by their views.
pub open spec fn params_view(params: Seq<(String, Option<u32>, Option<usize>)>) -> Seq<
    (Seq<char>, Option<u32>, Option<usize>),
> {
    Seq::new(params.len(), |i: int| (params[i].0@, params[i].1, params[i].2))
}

/// The default parameters: 19 MiB of memory, two passes, one lane.
pub open spec fn default_params(params: Seq<(Seq<char>, Option<u32>, Option<usize>)>) -> bool {
    &&& params.len() == 3
    &&& params[0].0 == "m"@ && params[0].1 == Some(DEFAULT_MEMORY)
    &&& params[1].0 == "t"@ && params[1].1 == Some(2u32)
    &&& params[2].0 == "p"@ && params[2].1 == Some(1u32)
}

/// The memory and the lanes that a verifier asks for, once one more parameter
/// has been read; `None` where the parameter is none of Argon2's or cannot be
/// read. A later value stands in for an earlier one.
pub open spec fn one_more(
    costs: Option<(u32, u32)>,
    param: (Seq<char>, Option<u32>, Option<usize>),
) -> Option<(u32, u32)> {
    match costs {
        Some((memory, lanes)) => if param.0 == "m"@ {
            match param.1 {
                Some(value) => Some((value, lanes)),
                None => None,
            }
        } else if param.0 == "t"@ {
            match param.1 {
                Some(_) => costs,
                None => None,
            }
        } else if param.0 == "p"@ {
            match param.1 {
                Some(value) => Some((memory, value)),
                None => None,
            }
        } else if param.0 == "keyid"@ {
            match param.2 {
                Some(len) => if len <= MAX_KEY_ID_LEN {
                    costs
                } else {
                    None
                },
                None => None,
            }
        } else if param.0 == "data"@ {
            match param.2 {
                Some(len) => if len <= MAX_DATA_LEN {
                    costs
                } else {
                    None
                },
                None => None,
            }
        } else {
            None
        },
        None => None,
    }
}

/// The memory and the lanes that these parameters ask for, if all of them can
/// be read.
pub open spec fn costs(params: Seq<(Seq<char>, Option<u32>, Option<usize>)>) -> Option<(u32, u32)>
    decreases params.len(),
{
    if params.len() == 0 {
        Some((DEFAULT_MEMORY, 1u32))
    } else {
        one_more(costs(params.drop_last()), params.last())
    }
}

/// Argon2 multiplies the lanes only where it gets so far as to check them
/// against enough memory.
pub open spec fn overflows(costs: Option<(u32, u32)>) -> bool {
    costs matches Some((memory, lanes)) && memory >= MIN_MEMORY && lanes >= LANES_LIMIT
}

/// The verifier does not ask for more lanes than Argon2 can check. The
/// parameters are read only where there are a salt and a hash to compare with.
pub open spec fn lanes_fit(verifier: Seq<char>) -> bool {
    match phc_fields(verifier) {
        Ok(fields) => fields.0 is Some && fields.2 ==> !overflows(costs(fields.1)),
        Err(_) => true,
    }
}

proof fn default_params_fit(params: Seq<(Seq<char>, Option<u32>, Option<usize>)>)
    requires
        default_params(params),
    ensures
        !overflows(costs(params)),
{
    reveal_strlit("m");
    reveal_strlit("t");
    reveal_strlit("p");
    assert("m"@[0] != "t"@[0] && "m"@[0] != "p"@[0] && "t"@[0] != "p"@[0]);
    let two = params.drop_last();
    let first = two.drop_last();
    assert(first.drop_last().len() == 0);
    assert(costs(first) == one_more(costs(first.drop_last()), params[0]));
    assert(costs(two) == one_more(costs(first), params[1]));
    assert(costs(params) == one_more(costs(two), params[2]));
}

/// Whether a password hashes to what a PHC string records; or the text of the
/// failure to compute that.
pub uninterp spec fn argon2_check(password: Seq<u8>, phc: Seq<char>) -> Result<bool, Seq<char>>;

/// Argon2id, version 19, with the default parameters: 32 bytes of output.
pub uninterp spec fn argon2_key(password: Seq<u8>, salt: Seq<u8>) -> Seq<u8>;

/// A character of the B64 alphabet.
pub open spec fn b64_char(c: char) -> bool {
    ('A' <= c && c <= 'Z') || ('a' <= c && c <= 'z') || ('0' <= c && c <= '9') || c == '+' || c
        == '/'
}

/// The unpadded B64 encoding of 16 bytes: 22 characters, of which the last
/// carries two bits only.
pub open spec fn b64_of_16_bytes(salt: Seq<char>) -> bool {
    &&& salt.len() == SALT_TEXT_LEN
    &&& forall|i: int| 0 <= i < salt.len() ==> b64_char(#[trigger] salt[i])
    &&& salt.last() == 'A' || salt.last() == 'Q' || salt.last() == 'g' || salt.last() == 'w'
}

/// `SaltString::generate` on the operating system's generator. Trusted: the
/// salt encodes 16 bytes; nothing is claimed of them.
#[verifier::external_body]
fn generate_salt() -> (r: String)
    ensures
        b64_of_16_bytes(r@),
{
    argon2::password_hash::SaltString::generate(&mut argon2::password_hash::rand_core::OsRng)
        .as_str()
        .to_owned()
}

/// `Argon2::hash_password` with the default context, printed as a PHC string.
/// Trusted: the string is named; parsing it gives the salt back and the default
/// parameters; the password passes the check against it, and every other one
/// gets an answer, since the string is well-formed. With a salt of 16 bytes
/// hashing fails for an overlong password alone, as an invalid one.
#[verifier::external_body]
fn argon2_hash(password: &[u8], salt: &str) -> (r: Result<String, String>)
    ensures
        match r {
            Ok(phc) => {
                &&& argon2_phc(password@, salt@) == Ok::<Seq<char>, Seq<char>>(phc@)
                &&& phc_fields(phc@) matches Ok(fields) && fields.0 == Some(salt@) && default_params(
                    fields.1,
                ) && fields.2
                &&& argon2_check(password@, phc@) == Ok::<bool, Seq<char>>(true)
                &&& forall|other: Seq<u8>| #[trigger] argon2_check(other, phc@) is Ok
            },
            Err(text) => argon2_phc(password@, salt@) == Err::<Seq<char>, Seq<char>>(text@),
        },
        b64_of_16_bytes(salt@) ==> match r {
            Ok(_) => password@.len() <= MAX_PASSWORD_LEN,
            Err(text) => password@.len() > MAX_PASSWORD_LEN && text@ == "invalid password"@,
        },
{
    let salt = match argon2::password_hash::SaltString::from_b64(salt) {
        Ok(salt) => salt,
        Err(error) => return Err(error.to_string()),
    };
    argon2::Argon2::default()
        .hash_password(password, &salt)
        .map(|hash| hash.to_string())
        .map_err(|error| error.to_string())
}

/// `PasswordHash::new`, with the salt and the parameters of what it parsed,
/// the values read by `Value::decimal` and by `Value::b64_decode`, and whether
/// there is a hash. Trusted: all of it is named; a salt that parses has 4 to 64
/// ASCII characters. No value encodes more bytes than the buffer holds.
#[verifier::external_body]
fn parse_phc(phc: &str) -> (r: Result<
    (Option<String>, Vec<(String, Option<u32>, Option<usize>)>, bool),
    String,
>)
    ensures
        match r {
            Ok(fields) => {
                &&& phc_fields(phc@) == Ok::<
                    (Option<Seq<char>>, Seq<(Seq<char>, Option<u32>, Option<usize>)>, bool),
                    Seq<char>,
                >((option_view(fields.0), params_view(fields.1@), fields.2))
                &&& fields.0 matches Some(salt) ==> 4 <= salt@.len() <= 64
                    && vstd::utf8::is_ascii_chars(salt@)
            },
            Err(text) => phc_fields(phc@) == Err::<
                (Option<Seq<char>>, Seq<(Seq<char>, Option<u32>, Option<usize>)>, bool),
                Seq<char>,
            >(text@),
        },
{
    let parsed = match argon2::password_hash::PasswordHash::new(phc) {
        Ok(parsed) => parsed,
        Err(error) => return Err(error.to_string()),
    };
    let salt = parsed.salt.map(|salt| salt.as_str().to_owned());
    let params = parsed.params.iter().map(|(name, value)| {
        let bytes = value.b64_decode(&mut [0u8; 64]).ok().map(|bytes| bytes.len());
        (name.to_string(), value.decimal().ok(), bytes)
    });
    Ok((salt, params.collect(), parsed.hash.is_some()))
}

/// `Argon2::verify_password` against a parsed PHC string. Trusted: the outcome
/// is named, with the error `Password` read as a mismatch. The `requires` keeps
/// out the parameters on which the check overflows.
#[verifier::external_body]
fn argon2_verify(password: &[u8], phc: &str) -> (r: Result<bool, String>)
    requires
        lanes_fit(phc@),
    ensures
        result_view(r) == argon2_check(password@, phc@),
{
    let parsed = match argon2::password_hash::PasswordHash::new(phc) {
        Ok(parsed) => parsed,
        Err(error) => return Err(error.to_string()),
    };
    match argon2::Argon2::default().verify_password(password, &parsed) {
        Ok(()) => Ok(true),
        Err(argon2::password_hash::Error::Password) => Ok(false),
        Err(error) => Err(error.to_string()),
    }
}

/// What Argon2 objects to in the lengths of a password and a salt.
pub open spec fn argon2_objection(password: nat, salt: nat) -> Option<Seq<char>> {
    if password > MAX_PASSWORD_LEN {
        Some("password is too long"@)
    } else if salt < MIN_SALT_LEN {
        Some("salt is too short"@)
    } else if salt > MAX_PASSWORD_LEN {
        Some("salt is too long"@)
    } else {
        None
    }
}

/// `Argon2::hash_password_into` with the default context and 32 bytes of room.
/// Trusted: it fails for the lengths of its inputs alone, with the text of the
/// first objection; else the bytes are named.
#[verifier::external_body]
fn argon2_into(password: &[u8], salt: &[u8]) -> (r: Result<[u8; 32], String>)
    ensures
        match r {
            Ok(key) => argon2_objection(password@.len(), salt@.len()) is None && key@ == argon2_key(
                password@,
                salt@,
            ),
            Err(text) => argon2_objection(password@.len(), salt@.len()) == Some(text@),
        },
{
    let mut key = [0u8; 32];
    match argon2::Argon2::default().hash_password_into(password, salt, &mut key) {
        Ok(()) => Ok(key),
        Err(error) => Err(error.to_string()),
    }
}

// ---------------------------------------------------------------------
// Operations
// ---------------------------------------------------------------------

/// What hashing `pin` with `salt` gives.
pub open spec fn hash_result(pin: Seq<char>, salt: Seq<char>) -> Result<Seq<char>, PinErrorModel> {
    match argon2_phc(encode_utf8(pin), salt) {
        Ok(phc) => Ok(phc),
        Err(text) => Err(PinErrorModel::HashError(text)),
    }
}

/// What checking `pin` against `verifier` gives.
pub open spec fn verify_result(pin: Seq<char>, verifier: Seq<char>) -> Result<bool, PinErrorModel> {
    match phc_fields(verifier) {
        Err(text) => Err(PinErrorModel::MalformedVerifier(text)),
        Ok(_) => match argon2_check(encode_utf8(pin), verifier) {
            Ok(matched) => Ok(matched),
            Err(text) => Err(PinErrorModel::MalformedVerifier(text)),
        },
    }
}

/// The key that `pin` and a verifier with the salt `salt` give.
pub open spec fn derived(pin: Seq<char>, salt: Seq<char>) -> Result<CacheKeyModel, PinErrorModel> {
    let password = encode_utf8(pin);
    let bytes = encode_utf8(salt);
    match argon2_objection(password.len(), bytes.len()) {
        Some(text) => Err(PinErrorModel::HashError(text)),
        None => Ok(CacheKeyModel { key: argon2_key(password, bytes), salt: bytes }),
    }
}

/// What deriving the cache key from `pin` and `verifier` gives.
pub open spec fn derive_result(pin: Seq<char>, verifier: Seq<char>) -> Result<
    CacheKeyModel,
    PinErrorModel,
> {
    match phc_fields(verifier) {
        Err(text) => Err(PinErrorModel::MalformedVerifier(text)),
        Ok(fields) => match fields.0 {
            None => Err(PinErrorModel::MalformedVerifier("verifier has no salt"@)),
            Some(salt) => derived(pin, salt),
        },
    }
}

/// Hash a PIN with a given salt.
pub fn hash_pin_with_salt(pin: &Pin, salt: &str) -> (r: Result<Verifier, PinError>)
    ensures
        result_view(r) == hash_result(pin@, salt@),
        r matches Ok(verifier) ==> {
            &&& verify_result(pin@, verifier@) == Ok::<bool, PinErrorModel>(true)
            &&& lanes_fit(verifier@)
            &&& forall|other: Seq<char>| #[trigger] verify_result(other, verifier@) is Ok
            &&& forall|other: Seq<char>| #[trigger]
                derive_result(other, verifier@) == derived(other, salt@)
        },
        b64_of_16_bytes(salt@) ==> hashed_with(pin@, salt@, result_view(r)),
{
    let r = match argon2_hash(pin.expose().as_bytes(), salt) {
        Ok(phc) => Ok(Verifier(phc)),
        Err(text) => Err(PinError::HashError(text)),
    };
    proof {
        if r is Ok {
            default_params_fit(phc_fields(r->Ok_0@)->Ok_0.1);
        }
        if b64_of_16_bytes(salt@) {
            assert(vstd::utf8::is_ascii_chars(salt@));
            vstd::utf8::is_ascii_chars_encode_utf8(salt@);
            assert(result_view(r) == hash_result(pin@, salt@));
        }
    }
    r
}

/// What hashing `pin` with a freshly drawn salt gives: success for every PIN
/// that is not too long, and then a verifier that accepts this PIN, answers
/// for every other one, and yields the cache key of every PIN over this salt.
pub open spec fn hashed_with(
    pin: Seq<char>,
    salt: Seq<char>,
    r: Result<Seq<char>, PinErrorModel>,
) -> bool {
    &&& b64_of_16_bytes(salt)
    &&& r == hash_result(pin, salt)
    &&& match r {
        Ok(verifier) => {
            &&& encode_utf8(pin).len() <= MAX_PASSWORD_LEN
            &&& lanes_fit(verifier)
            &&& verify_result(pin, verifier) == Ok::<bool, PinErrorModel>(true)
            &&& forall|other: Seq<char>| #[trigger] verify_result(other, verifier) is Ok
            &&& forall|other: Seq<char>| #[trigger]
                derive_result(other, verifier) == derived(other, salt)
            &&& forall|other: Seq<char>|
                encode_utf8(other).len() <= MAX_PASSWORD_LEN ==> #[trigger] derive_result(
                    other,
                    verifier,
                ) is Ok
        },
        Err(error) => {
            &&& encode_utf8(pin).len() > MAX_PASSWORD_LEN
            &&& error == PinErrorModel::HashError("invalid password"@)
        },
    }
}

/// What `hash_pin` may return for `pin`, whatever salt was drawn.
pub open spec fn hashed(pin: Seq<char>, r: Result<Seq<char>, PinErrorModel>) -> bool {
    exists|salt: Seq<char>| #[trigger] hashed_with(pin, salt, r)
}

/// Hash a PIN into a verifier, with a fresh salt, so that two users with one
/// PIN do not share a verifier. Every verifier of a PIN accepts it.
pub fn hash_pin(pin: &Pin) -> (r: Result<Verifier, PinError>)
    ensures
        hashed(pin@, result_view(r)),
{
    let salt: String = generate_salt();
    hash_pin_with_salt(pin, salt.as_str())
}

/// Verify a PIN: `Ok(false)` is a wrong PIN, `Err` a malformed verifier.
pub fn verify(pin: &Pin, verifier: &Verifier) -> (r: Result<bool, PinError>)
    requires
        lanes_fit(verifier@),
    ensures
        result_view(r) == verify_result(pin@, verifier@),
        r matches Ok(matched) ==> argon2_check(encode_utf8(pin@), verifier@) == Ok::<
            bool,
            Seq<char>,
        >(matched),
        argon2_check(encode_utf8(pin@), verifier@) is Ok && phc_fields(verifier@) is Ok ==> r is Ok,
{
    match parse_phc(verifier.as_str()) {
        Ok(_) => match argon2_verify(pin.expose().as_bytes(), verifier.as_str()) {
            Ok(matched) => Ok(matched),
            Err(text) => Err(PinError::MalformedVerifier(text)),
        },
        Err(text) => Err(PinError::MalformedVerifier(text)),
    }
}

/// Read one more parameter; see [`one_more`].
fn read_param(costs: Option<(u32, u32)>, param: &(String, Option<u32>, Option<usize>)) -> (r: Option<
    (u32, u32),
>)
    ensures
        r == one_more(costs, (param.0@, param.1, param.2)),
{
    let name: &str = param.0.as_str();
    match costs {
        Some((memory, lanes)) => if same_text(name, "m") {
            match param.1 {
                Some(value) => Some((value, lanes)),
                None => None,
            }
        } else if same_text(name, "t") {
            match param.1 {
                Some(_) => costs,
                None => None,
            }
        } else if same_text(name, "p") {
            match param.1 {
                Some(value) => Some((memory, value)),
                None => None,
            }
        } else if same_text(name, "keyid") {
            match param.2 {
                Some(len) => if len <= MAX_KEY_ID_LEN {
                    costs
                } else {
                    None
                },
                None => None,
            }
        } else if same_text(name, "data") {
            match param.2 {
                Some(len) => if len <= MAX_DATA_LEN {
                    costs
                } else {
                    None
                },
                None => None,
            }
        } else {
            None
        },
        None => None,
    }
}

/// The memory and the lanes that these parameters ask for.
fn read_params(params: &Vec<(String, Option<u32>, Option<usize>)>) -> (r: Option<(u32, u32)>)
    ensures
        r == costs(params_view(params@)),
{
    let ghost listed = params_view(params@);
    let mut read: Option<(u32, u32)> = Some((DEFAULT_MEMORY, 1u32));
    let mut i: usize = 0;
    while i < params.len()
        invariant
            i <= params.len(),
            listed == params_view(params@),
            read == costs(listed.take(i as int)),
        decreases params.len() - i,
    {
        read = read_param(read, &params[i]);
        proof {
            assert(listed.take(i + 1).drop_last() =~= listed.take(i as int));
        }
        i = i + 1;
    }
    proof {
        assert(listed.take(i as int) =~= listed);
    }
    read
}

/// Verify a PIN against any verifier; `None` where it asks for more lanes than
/// Argon2 can check.
pub fn verify_stored(pin: &Pin, verifier: &Verifier) -> (r: Option<Result<bool, PinError>>)
    ensures
        match r {
            Some(outcome) => {
                &&& lanes_fit(verifier@)
                &&& result_view(outcome) == verify_result(pin@, verifier@)
            },
            None => !lanes_fit(verifier@),
        },
{
    match parse_phc(verifier.as_str()) {
        Ok(fields) => {
            if fields.0.is_some() && fields.2 {
                if let Some((memory, lanes)) = read_params(&fields.1) {
                    if memory >= MIN_MEMORY && lanes >= LANES_LIMIT {
                        return None;
                    }
                }
            }
            Some(verify(pin, verifier))
        },
        Err(text) => Some(Err(PinError::MalformedVerifier(text))),
    }
}

/// Derive the cache key from a PIN and the salt of its verifier. There is no
/// way back to the cache without the PIN.
pub fn derive_cache_key(pin: &Pin, verifier: &Verifier) -> (r: Result<CacheKey, PinError>)
    ensures
        result_view(r) == derive_result(pin@, verifier@),
{
    let salt: String = match parse_phc(verifier.as_str()) {
        Ok((Some(salt), _, _)) => salt,
        Ok((None, _, _)) => return Err(
            PinError::MalformedVerifier("verifier has no salt".to_owned()),
        ),
        Err(text) => return Err(PinError::MalformedVerifier(text)),
    };
    match argon2_into(pin.expose().as_bytes(), salt.as_str().as_bytes()) {
        Ok(key) => Ok(CacheKey { key, salt: salt.as_str().as_bytes_vec() }),
        Err(text) => Err(PinError::HashError(text)),
    }
}

// ---------------------------------------------------------------------
// Laws
// ---------------------------------------------------------------------

/// A verifier that does not parse is reported as malformed, with the same
/// text, by `verify` and by `derive_cache_key`, whatever the PIN.
pub proof fn malformed_verifier_is_reported(pin: Seq<char>, verifier: Seq<char>)
    requires
        phc_fields(verifier) is Err,
    ensures
        lanes_fit(verifier),
        verify_result(pin, verifier) == Err::<bool, PinErrorModel>(
            PinErrorModel::MalformedVerifier(phc_fields(verifier)->Err_0),
        ),
        derive_result(pin, verifier) == Err::<CacheKeyModel, PinErrorModel>(
            PinErrorModel::MalformedVerifier(phc_fields(verifier)->Err_0),
        ),
{
}

/// A verifier that `hash_pin` made has an answer for every PIN: right or wrong,
/// never an error; and it yields a cache key for every PIN that is not too
/// long, which carries the salt of the verifier.
pub proof fn fresh_verifier_answers_every_pin(
    pin: Seq<char>,
    verifier: Seq<char>,
    other: Seq<char>,
)
    requires
        hashed(pin, Ok(verifier)),
    ensures
        lanes_fit(verifier),
        verify_result(pin, verifier) == Ok::<bool, PinErrorModel>(true),
        verify_result(other, verifier) is Ok,
        encode_utf8(other).len() <= MAX_PASSWORD_LEN ==> (derive_result(other, verifier) matches Ok(
            key,
        ) && (phc_fields(verifier) matches Ok(fields) && (fields.0 matches Some(salt) && key.salt
            == encode_utf8(salt)))),
{
}

/// A derived key carries the salt of the verifier it was derived with, and
/// depends on the verifier through that salt alone.
pub proof fn cache_key_follows_the_salt(pin: Seq<char>, a: Seq<char>, b: Seq<char>)
    requires
        phc_fields(a) is Ok,
        phc_fields(b) is Ok,
        phc_fields(a)->Ok_0.0 == phc_fields(b)->Ok_0.0,
    ensures
        derive_result(pin, a) == derive_result(pin, b),
        derive_result(pin, a) matches Ok(key) ==> {
            &&& phc_fields(a)->Ok_0.0 matches Some(salt)
            &&& key.salt == encode_utf8(salt)
            &&& key.key == argon2_key(encode_utf8(pin), key.salt)
        },
{
}

/// The answer for a PIN is Argon2's check of that very PIN against the
/// verifier: accepted, refused and failed exactly as the check says, and the
/// check of no other text comes in.
pub proof fn the_answer_is_the_check_of_that_pin(pin: Seq<char>, verifier: Seq<char>)
    requires
        phc_fields(verifier) is Ok,
    ensures
        verify_result(pin, verifier) == Ok::<bool, PinErrorModel>(true) <==> argon2_check(
            encode_utf8(pin),
            verifier,
        ) == Ok::<bool, Seq<char>>(true),
        verify_result(pin, verifier) == Ok::<bool, PinErrorModel>(false) <==> argon2_check(
            encode_utf8(pin),
            verifier,
        ) == Ok::<bool, Seq<char>>(false),
        argon2_check(encode_utf8(pin), verifier) matches Err(text) ==> verify_result(pin, verifier)
            == Err::<bool, PinErrorModel>(PinErrorModel::MalformedVerifier(text)),
{
}

/// The verifier of a PIN is Argon2's hash of that very PIN with the salt, and
/// hashing fails exactly when Argon2 does, in its words.
pub proof fn the_verifier_is_the_hash_of_that_pin(pin: Seq<char>, salt: Seq<char>)
    ensures
        match argon2_phc(encode_utf8(pin), salt) {
            Ok(phc) => hash_result(pin, salt) == Ok::<Seq<char>, PinErrorModel>(phc),
            Err(text) => hash_result(pin, salt) == Err::<Seq<char>, PinErrorModel>(
                PinErrorModel::HashError(text),
            ),
        },
{
}

/// Setting a PIN succeeds exactly when Argon2 takes its length, and what is
/// stored is Argon2's hash of that PIN with a salt of 22 characters.
pub proof fn a_set_pin_is_hashed(pin: Seq<char>, r: Result<Seq<char>, PinErrorModel>)
    requires
        hashed(pin, r),
    ensures
        r is Ok <==> encode_utf8(pin).len() <= 0xFFFF_FFFF,
        r matches Ok(verifier) ==> exists|salt: Seq<char>|
            salt.len() == 22 && #[trigger] argon2_phc(encode_utf8(pin), salt) == Ok::<
                Seq<char>,
                Seq<char>,
            >(verifier),
        r matches Err(error) ==> error == PinErrorModel::HashError("invalid password"@),
{
    let salt = choose|salt: Seq<char>| #[trigger] hashed_with(pin, salt, r);
    if r is Ok {
        assert(argon2_phc(encode_utf8(pin), salt) == Ok::<Seq<char>, Seq<char>>(r->Ok_0));
    }
}

/// The cache key of a PIN is Argon2 over the bytes of that very PIN and the
/// text of the verifier's salt, as bytes; the salt goes with it. There is no
/// key exactly when one of the two does not have a length that Argon2 takes.
pub proof fn the_key_is_argon2_over_pin_and_salt(
    pin: Seq<char>,
    verifier: Seq<char>,
    salt: Seq<char>,
)
    requires
        phc_fields(verifier) matches Ok(fields) && fields.0 == Some(salt),
    ensures
        ({
            let password = encode_utf8(pin);
            let bytes = encode_utf8(salt);
            let r = derive_result(pin, verifier);
            &&& password.len() <= 0xFFFF_FFFF && 8 <= bytes.len() <= 0xFFFF_FFFF <==> r is Ok
            &&& r matches Ok(key) ==> key.key == argon2_key(password, bytes) && key.salt == bytes
            &&& password.len() > 0xFFFF_FFFF ==> r == Err::<CacheKeyModel, PinErrorModel>(
                PinErrorModel::HashError("password is too long"@),
            )
            &&& password.len() <= 0xFFFF_FFFF && bytes.len() < 8 ==> r == Err::<
                CacheKeyModel,
                PinErrorModel,
            >(PinErrorModel::HashError("salt is too short"@))
            &&& password.len() <= 0xFFFF_FFFF && bytes.len() > 0xFFFF_FFFF ==> r == Err::<
                CacheKeyModel,
                PinErrorModel,
            >(PinErrorModel::HashError("salt is too long"@))
        }),
{
}

/// A verifier without a salt gives no key, whatever the PIN.
pub proof fn no_key_without_a_salt(pin: Seq<char>, verifier: Seq<char>)
    requires
        phc_fields(verifier) matches Ok(fields) && fields.0 is None,
    ensures
        derive_result(pin, verifier) == Err::<CacheKeyModel, PinErrorModel>(
            PinErrorModel::MalformedVerifier("verifier has no salt"@),
        ),
{
}

/// What the user reads tells a failed hash from a bad verifier, and ends with
/// the words of the failure.
pub proof fn pin_messages(text: Seq<char>)
    ensures
        PinErrorModel::HashError(text).message() == "could not hash PIN: "@ + text,
        PinErrorModel::MalformedVerifier(text).message() == "verifier is malformed: "@ + text,
{
}

/// A verifier is turned away for its lanes only where a salt and a hash are
/// there to compare with, and some `p` asks for 2^29 lanes or more.
pub proof fn only_huge_lanes_are_turned_away(verifier: Seq<char>)
    requires
        !lanes_fit(verifier),
    ensures
        phc_fields(verifier) matches Ok(fields) && fields.0 is Some && fields.2 && exists|i: int|
            0 <= i < fields.1.len() && (#[trigger] fields.1[i]).0 == "p"@ && (fields.1[i].1 matches Some(
                lanes,
            ) && lanes >= 0x2000_0000),
{
    huge_lanes_come_from_a_param(phc_fields(verifier)->Ok_0.1);
}

proof fn huge_lanes_come_from_a_param(params: Seq<(Seq<char>, Option<u32>, Option<usize>)>)
    requires
        costs(params) matches Some((memory, lanes)) && lanes >= LANES_LIMIT,
    ensures
        exists|i: int|
            0 <= i < params.len() && (#[trigger] params[i]).0 == "p"@ && (params[i].1 matches Some(
                lanes,
            ) && lanes >= LANES_LIMIT),
    decreases params.len(),
{
    if params.len() > 0 {
        let before = params.drop_last();
        if costs(before)->Some_0.1 >= LANES_LIMIT {
            huge_lanes_come_from_a_param(before);
            let i = choose|i: int|
                0 <= i < before.len() && (#[trigger] before[i]).0 == "p"@ && (before[i].1 matches Some(
                    lanes,
                ) && lanes >= LANES_LIMIT);
            assert(params[i] == before[i]);
        } else {
            assert(params[params.len() - 1] == params.last());
        }
    }
}

/// The last `p` of a verifier whose other parameters can be read decides: with
/// 2^29 lanes or more it is turned away, with fewer it is not.
pub proof fn the_last_lanes_decide(
    verifier: Seq<char>,
    salt: Seq<char>,
    others: Seq<(Seq<char>, Option<u32>, Option<usize>)>,
    lanes: u32,
    bytes: Option<usize>,
)
    requires
        phc_fields(verifier) == Ok::<
            (Option<Seq<char>>, Seq<(Seq<char>, Option<u32>, Option<usize>)>, bool),
            Seq<char>,
        >((Some(salt), others.push(("p"@, Some(lanes), bytes)), true)),
        costs(others) matches Some((memory, before)) && memory >= 8,
    ensures
        lanes_fit(verifier) <==> lanes < 0x2000_0000,
{
    reveal_strlit("m");
    reveal_strlit("t");
    reveal_strlit("p");
    assert("p"@[0] != "m"@[0] && "p"@[0] != "t"@[0]);
    let params = others.push(("p"@, Some(lanes), bytes));
    assert(params.drop_last() =~= others);
}

/// Parameters are read one by one, from the defaults of Argon2 on: memory and
/// lanes take the value that was given last, passes need a number, a key
/// identifier at most 8 bytes and associated data at most 32. With a parameter
/// that cannot be read, or that Argon2 does not know, none is.
pub proof fn parameters_are_read_one_by_one(
    params: Seq<(Seq<char>, Option<u32>, Option<usize>)>,
    name: Seq<char>,
    number: Option<u32>,
    bytes: Option<usize>,
)
    ensures
        costs(Seq::empty()) == Some((19456u32, 1u32)),
        costs(params) is None ==> costs(params.push((name, number, bytes))) is None,
        costs(params) matches Some((memory, lanes)) ==> ({
            let read = costs(params.push((name, number, bytes)));
            let numbered = name == "m"@ || name == "t"@ || name == "p"@;
            &&& numbered && number is None ==> read is None
            &&& name == "m"@ ==> (number matches Some(value) ==> read == Some((value, lanes)))
            &&& name == "t"@ ==> (number matches Some(_) ==> read == Some((memory, lanes)))
            &&& name == "p"@ ==> (number matches Some(value) ==> read == Some((memory, value)))
            &&& name == "keyid"@ ==> read == (if bytes matches Some(len) && len <= 8 {
                costs(params)
            } else {
                None
            })
            &&& name == "data"@ ==> read == (if bytes matches Some(len) && len <= 32 {
                costs(params)
            } else {
                None
            })
            &&& !numbered && name != "keyid"@ && name != "data"@ ==> read is None
        }),
{
    reveal_strlit("m");
    reveal_strlit("t");
    reveal_strlit("p");
    reveal_strlit("keyid");
    reveal_strlit("data");
    assert("m"@[0] == 'm' && "t"@[0] == 't' && "p"@[0] == 'p');
    assert("m"@.len() == 1 && "t"@.len() == 1 && "p"@.len() == 1);
    assert("keyid"@.len() == 5 && "data"@.len() == 4);
    assert(params.push((name, number, bytes)).drop_last() =~= params);
}

/// A verifier is turned away exactly when it parses, has a salt and a hash, and
/// asks for 2^29 lanes or more over at least 8 KiB of memory.
pub proof fn lanes_do_not_fit_exactly_when_huge(verifier: Seq<char>)
    ensures
        !lanes_fit(verifier) <==> (phc_fields(verifier) matches Ok(fields) && fields.0 is Some
            && fields.2 && (costs(fields.1) matches Some((memory, lanes)) && memory >= 8 && lanes
            >= 0x2000_0000)),
{
}

/// The salt of a new verifier is 22 characters of the B64 alphabet, and every
/// PIN has its cache key over that very salt.
pub proof fn a_new_verifier_keeps_its_salt(
    pin: Seq<char>,
    salt: Seq<char>,
    verifier: Seq<char>,
    other: Seq<char>,
)
    requires
        hashed_with(pin, salt, Ok(verifier)),
    ensures
        salt.len() == 22,
        forall|i: int|
            0 <= i < 22 ==> (('A' <= #[trigger] salt[i] && salt[i] <= 'Z') || ('a' <= salt[i]
                && salt[i] <= 'z') || ('0' <= salt[i] && salt[i] <= '9') || salt[i] == '+'
                || salt[i] == '/'),
        argon2_phc(encode_utf8(pin), salt) == Ok::<Seq<char>, Seq<char>>(verifier),
        encode_utf8(other).len() <= 0xFFFF_FFFF ==> (derive_result(other, verifier) matches Ok(key)
            && key.key == argon2_key(encode_utf8(other), encode_utf8(salt)) && key.salt
            == encode_utf8(salt)),
{
    assert(derive_result(other, verifier) == derived(other, salt));
}

/// What may be logged of a cache key is its salt, every byte of it in decimal
/// and in order, and a mask for the key.
pub proof fn debug_lists_the_salt(key: Seq<u8>, salt: Seq<u8>, byte: u8)
    ensures
        listed(Seq::empty()).len() == 0,
        listed(seq![byte]) == decimal(byte as nat),
        salt.len() > 0 ==> listed(salt.push(byte)) == listed(salt) + ", "@ + decimal(byte as nat),
        (CacheKeyModel { key, salt }).debug() == "CacheKey { key: \"***\", salt: ["@ + listed(salt)
            + "] }"@,
{
    assert(salt.push(byte).drop_last() =~= salt);
}

} // verus!
