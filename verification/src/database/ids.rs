//! Identifiers of the stored records.  Each is a UUID, held as its 128-bit
//! value; its text form is the lower-case hyphenated one of the `uuid` crate.
use crate::text::hex_digit;
use vstd::arithmetic::power::pow;
use vstd::prelude::*;

verus! {

/// Identifier of a user.
#[derive(Clone, Copy, Debug, PartialEq, Eq, Hash, Structural)]
pub struct UserId(pub u128);

/// Identifier of an upload token.
#[derive(Clone, Copy, Debug, PartialEq, Eq, Hash, Structural)]
pub struct TokenId(pub u128);

/// Identifier of a stored file.
#[derive(Clone, Copy, Debug, PartialEq, Eq, Hash, Structural)]
pub struct FileId(pub u128);

/// Identifier of a short link.
#[derive(Clone, Copy, Debug, PartialEq, Eq, Hash, Structural)]
pub struct UrlId(pub u128);

/// Hex digit number `k` (0 is the most significant) of the 32 that spell `v`.
pub open spec fn uuid_nibble(v: u128, k: int) -> int {
    (v as int / pow(16, (31 - k) as nat)) % 16
}

/// The positions of the four dashes in the hyphenated form.
pub open spec fn is_uuid_dash(i: int) -> bool {
    i == 8 || i == 13 || i == 18 || i == 23
}

/// How many dashes stand before position `i` of the hyphenated form.
pub open spec fn uuid_dashes_before(i: int) -> int {
    if i < 8 {
        0
    } else if i < 13 {
        1
    } else if i < 18 {
        2
    } else if i < 23 {
        3
    } else {
        4
    }
}

/// The hyphenated lower-case text of the UUID whose value is `v`, such as
/// `67e55044-10b1-426f-9247-bb680e5fe0c8`: the 32 hex digits of `v`, most
/// significant first, in groups of 8, 4, 4, 4 and 12.
pub open spec fn uuid_text(v: u128) -> Seq<char> {
    Seq::new(
        36,
        |i: int|
            if is_uuid_dash(i) {
                '-'
            } else {
                hex_digit(uuid_nibble(v, i - uuid_dashes_before(i)))
            },
    )
}

/// The value that `uuid::Uuid::from_str` reads from the text `s`, if any.
pub uninterp spec fn uuid_parse(s: Seq<char>) -> Option<u128>;

/// Calls `uuid::Uuid::from_u128(v).to_string()`.  The `uuid` crate prints a
/// UUID in its hyphenated lower-case form, which is what the contract states.
#[verifier::external_body]
fn uuid_to_string(v: u128) -> (res: String)
    ensures
        res@ == uuid_text(v),
{
    uuid::Uuid::from_u128(v).to_string()
}

/// Calls `uuid::Uuid::from_str(s)` and takes the 128-bit value of the result.
/// The accepted syntax (simple, hyphenated, braced and URN forms, any case)
/// is named, not stated; the contract states that the hyphenated text that
/// `uuid_to_string` prints reads back as the same value.
#[verifier::external_body]
fn uuid_from_str(s: &str) -> (res: Option<u128>)
    ensures
        res == uuid_parse(s@),
        forall|v: u128| s@ == uuid_text(v) ==> res == Some(v),
{
    match <uuid::Uuid as std::str::FromStr>::from_str(s) {
        Ok(u) => Some(u.as_u128()),
        Err(_) => None,
    }
}

impl FileId {
    /// The key under which the file's bytes are kept in storage: the
    /// hyphenated text of the identifier.
    pub fn storage_key(&self) -> (res: String)
        ensures
            res@ == uuid_text(self.0),
    {
        uuid_to_string(self.0)
    }
}

impl TokenId {
    /// Reads a token identifier from its text, as `Uuid::from_str` does.
    pub fn parse(text: &str) -> (res: Option<TokenId>)
        ensures
            res == (match uuid_parse(text@) {
                Some(v) => Some(TokenId(v)),
                None => None,
            }),
            forall|v: u128| text@ == uuid_text(v) ==> res == Some(TokenId(v)),
    {
        match uuid_from_str(text) {
            Some(v) => Some(TokenId(v)),
            None => None,
        }
    }
}

} // verus!
