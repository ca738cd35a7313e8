//! Argon2 password hashing.  The hashing itself is the `argon2` crate's;
//! what is proved here is how its outcomes map onto `PasswordError`.
use argon2::password_hash::{PasswordHash, Salt, SaltString};
use argon2::{PasswordHasher, PasswordVerifier};
use vstd::prelude::*;
use vstd::utf8::encode_utf8;

verus! {

#[verifier::external_type_specification]
#[verifier::external_body]
pub struct ExPasswordHash<'a>(PasswordHash<'a>);

/// Why hashing or checking a password failed; each carries the text of the
/// underlying error.
pub enum PasswordError {
    EncodeError(String),
    VerifyError(String),
    InvalidHash(String),
}

/// The error text that `PasswordHash::new` reports for the PHC string `phc`,
/// or `None` when it reads it.
pub uninterp spec fn phc_parse_error(phc: Seq<char>) -> Option<Seq<char>>;

/// What Argon2 (default parameters) says of `password` against the PHC
/// string `phc`: `Ok(true)` when it matches, `Ok(false)` when it does not,
/// and the error text when the check itself fails.
pub uninterp spec fn argon2_outcome(password: Seq<u8>, phc: Seq<char>) -> Result<bool, Seq<char>>;

/// A PHC string together with its parsed form.
pub struct ParsedHash<'a> {
    text: &'a str,
    parsed: PasswordHash<'a>,
}

impl<'a> ParsedHash<'a> {
    /// The PHC string this was read from.
    pub closed spec fn source(&self) -> Seq<char> {
        self.text@
    }
}

/// A character of the B64 alphabet (standard Base64: letters, digits, `+`,
/// `/`).
pub open spec fn is_b64_char(c: char) -> bool {
    ('A' <= c <= 'Z') || ('a' <= c <= 'z') || ('0' <= c <= '9') || c == '+' || c == '/'
}

/// `s` is the unpadded B64 text of 16 bytes: 22 characters of the alphabet,
/// the last of which carries only two bits (`A`, `Q`, `g` or `w`).
pub open spec fn is_salt_text(s: Seq<char>) -> bool {
    &&& s.len() == 22
    &&& forall|i: int| 0 <= i < s.len() ==> is_b64_char(#[trigger] s[i])
    &&& (s[21] == 'A' || s[21] == 'Q' || s[21] == 'g' || s[21] == 'w')
}

/// The prefix of every PHC string that `Argon2::default()` writes: the
/// algorithm Argon2id, version 19.
pub open spec fn argon2id_v19_prefix() -> Seq<char> {
    "$argon2id$v=19$"@
}

/// Calls `SaltString::generate(rand::thread_rng())`: a fresh random salt of
/// 16 bytes (`Salt::RECOMMENDED_LENGTH`), given as its B64 text.  Which
/// bytes is chance; the contract states the text's form.
#[verifier::external_body]
fn generate_salt() -> (res: String)
    ensures
        is_salt_text(res@),
{
    SaltString::generate(rand::thread_rng()).as_str().to_string()
}

/// Reads the B64 text `salt` with `Salt::from_b64` and calls
/// `Argon2::default().hash_password(password, salt)`, rendering the result
/// as its PHC string, or an error as its text.  From the crates' source:
/// hashing fails only for a password over `0xFFFF_FFFF` bytes or a salt that
/// is no B64 text of 8 to 64 bytes, so it succeeds for the salt text of 16
/// bytes; the string starts `$argon2id$v=19$`, reads back, verifies
/// `password`, and checking any password of allowed length against it gives
/// a verdict rather than an error.
#[verifier::external_body]
fn argon2_hash_password(password: &[u8], salt: &str) -> (res: Result<String, String>)
    ensures
        is_salt_text(salt@) && password@.len() <= 0xFFFF_FFFF ==> res is Ok,
        res matches Ok(h) ==> phc_parse_error(h@) is None,
        res matches Ok(h) ==> (argon2_outcome(password@, h@) matches Ok(b) && b),
        res matches Ok(h) ==> (h@.len() >= 15 && h@.subrange(0, 15) == argon2id_v19_prefix()),
        res matches Ok(h) ==> forall|q: Seq<u8>|
            q.len() <= 0xFFFF_FFFF ==> (#[trigger] argon2_outcome(q, h@)) is Ok,
{
    let salt = match Salt::from_b64(salt) {
        Ok(s) => s,
        Err(e) => return Err(e.to_string()),
    };
    match argon2::Argon2::default().hash_password(password, salt) {
        Ok(h) => Ok(h.to_string()),
        Err(e) => Err(e.to_string()),
    }
}

/// Calls `PasswordHash::new(text)`, keeping `text` beside the parsed value;
/// a failure is returned as the error's text.
#[verifier::external_body]
fn parse_password_hash<'a>(text: &'a str) -> (res: Result<ParsedHash<'a>, String>)
    ensures
        match res {
            Ok(p) => phc_parse_error(text@) is None && p.source() == text@,
            Err(m) => phc_parse_error(text@) == Some(m@),
        },
{
    match PasswordHash::new(text) {
        Ok(parsed) => Ok(ParsedHash { text, parsed }),
        Err(e) => Err(e.to_string()),
    }
}

/// Calls `Argon2::default().verify_password(password, &hash)`: `Ok(())`
/// becomes `Ok(true)`, the `Password` error (no match) `Ok(false)`, and any
/// other error its text.
#[verifier::external_body]
fn argon2_verify_password(password: &[u8], hash: &ParsedHash) -> (res: Result<bool, String>)
    ensures
        match res {
            Ok(b) => argon2_outcome(password@, hash.source()) == Ok::<bool, Seq<char>>(b),
            Err(m) => argon2_outcome(password@, hash.source()) == Err::<bool, Seq<char>>(m@),
        },
{
    match argon2::Argon2::default().verify_password(password, &hash.parsed) {
        Ok(()) => Ok(true),
        Err(argon2::password_hash::Error::Password) => Ok(false),
        Err(e) => Err(e.to_string()),
    }
}

/// What `verify(password, hash)` answers: `InvalidHash` when `hash` is no
/// PHC string, otherwise Argon2's verdict, with a failed check reported as
/// `VerifyError`.
pub open spec fn verify_answer(password: Seq<char>, hash: Seq<char>) -> Result<bool, Seq<char>> {
    match phc_parse_error(hash) {
        Some(m) => Err(m),
        None => argon2_outcome(encode_utf8(password), hash),
    }
}

/// Hashes `password` with Argon2 (default parameters) under a fresh salt,
/// giving the PHC string.  It succeeds for every password of at most
/// `0xFFFF_FFFF` bytes; the hash verifies `password`, and any other password
/// of allowed length checks against it to a verdict, not an error.
pub fn hash(password: String) -> (res: Result<String, PasswordError>)
    ensures
        encode_utf8(password@).len() <= 0xFFFF_FFFF ==> res is Ok,
        res matches Ok(h) ==> (verify_answer(password@, h@) matches Ok(b) && b),
        res matches Ok(h) ==> (h@.len() >= 15 && h@.subrange(0, 15) == argon2id_v19_prefix()),
        res matches Ok(h) ==> forall|q: Seq<char>|
            encode_utf8(q).len() <= 0xFFFF_FFFF ==> (#[trigger] verify_answer(q, h@)) is Ok,
        res matches Err(e) ==> e is EncodeError,
{
    let salt = generate_salt();
    let bytes = password.as_str().as_bytes();
    hashing_answer(argon2_hash_password(bytes, salt.as_str()))
}

/// What `hash` answers for the outcome of hashing: the PHC string, or the
/// hasher's error as `EncodeError`.
pub fn hashing_answer(outcome: Result<String, String>) -> (res: Result<String, PasswordError>)
    ensures
        outcome matches Ok(h) ==> (res matches Ok(r) && r@ == h@),
        outcome matches Err(m) ==> (res matches Err(PasswordError::EncodeError(t)) && t@ == m@),
{
    match outcome {
        Ok(h) => Ok(h),
        Err(m) => Err(PasswordError::EncodeError(m)),
    }
}

/// What `verify` answers for Argon2's verdict on a well-formed hash: the
/// verdict, or the error of a failed check as `VerifyError`.
pub fn verdict_answer(verdict: Result<bool, String>) -> (res: Result<bool, PasswordError>)
    ensures
        verdict matches Ok(b) ==> (res matches Ok(r) && r == b),
        verdict matches Err(m) ==> (res matches Err(PasswordError::VerifyError(t)) && t@ == m@),
{
    match verdict {
        Ok(b) => Ok(b),
        Err(m) => Err(PasswordError::VerifyError(m)),
    }
}

/// Checks `password` against the PHC string `hash`.  The answer is
/// `verify_answer`: so a password checks out against any hash that `hash`
/// made of it.
pub fn verify(password: String, hash: String) -> (res: Result<bool, PasswordError>)
    ensures
        verify_answer(password@, hash@) matches Ok(b) ==> (res matches Ok(r) && r == b),
        verify_answer(password@, hash@) is Err ==> res is Err,
        match phc_parse_error(hash@) {
            Some(m) => res matches Err(PasswordError::InvalidHash(t)) && t@ == m,
            None => match argon2_outcome(encode_utf8(password@), hash@) {
                Ok(b) => res matches Ok(r) && r == b,
                Err(m) => res matches Err(PasswordError::VerifyError(t)) && t@ == m,
            },
        },
{
    let parsed = match parse_password_hash(hash.as_str()) {
        Ok(p) => p,
        Err(m) => return Err(PasswordError::InvalidHash(m)),
    };
    let bytes = password.as_str().as_bytes();
    verdict_answer(argon2_verify_password(bytes, &parsed))
}

} // verus!
