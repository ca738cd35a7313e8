//! The stored records, with plain values in place of the database's UUID and
//! timestamp types.  Times are microseconds since the Unix epoch.
use crate::database::ids::{FileId, TokenId, UrlId, UserId};
use crate::modules::password::PasswordError;
use vstd::prelude::*;

verus! {

/// A stored file.
pub struct File {
    pub id: FileId,
    pub name: String,
    pub original_name: Option<String>,
    pub mime: Option<String>,
    pub views: i64,
    pub max_views: Option<i64>,
    pub is_processing: bool,
    pub user_id: UserId,
    pub created_at: i64,
}

/// What is written when a file is first recorded.
pub struct FileDbRequest {
    pub name: String,
    pub original_name: Option<String>,
    pub mime: Option<String>,
    pub max_views: Option<i64>,
    pub user_id: UserId,
}

/// A short link to a destination.
pub struct Url {
    pub id: UrlId,
    pub name: String,
    pub destination: String,
    pub views: i64,
    pub max_views: Option<i64>,
    pub user_id: UserId,
    pub created_at: i64,
}

/// What is written when a short link is first recorded.
pub struct UrlRequest {
    pub name: String,
    pub destination: String,
    pub max_views: Option<i64>,
    pub user_id: UserId,
}

/// An upload token of a user.
pub struct Token {
    pub id: TokenId,
    pub user_id: UserId,
    pub expires: Option<i64>,
    pub created_at: i64,
}

impl Token {
    /// The token has not expired at `now`: it has no expiry, or expires
    /// later.
    pub open spec fn valid_at(self, now: i64) -> bool {
        match self.expires {
            Some(e) => e > now,
            None => true,
        }
    }
}

/// The token that was found, when it is still valid at `now`.
pub fn valid_token(found: Option<Token>, now: i64) -> (res: Option<Token>)
    ensures
        found matches Some(t) && t.valid_at(now) ==> res == found,
        !(found matches Some(t) && t.valid_at(now)) ==> res is None,
{
    match found {
        Some(t) => {
            let valid = match t.expires {
                Some(e) => e > now,
                None => true,
            };
            if valid {
                Some(t)
            } else {
                None
            }
        },
        None => None,
    }
}

/// What is written when a token is issued.
pub struct TokenRequest {
    pub user_id: UserId,
    pub expires: Option<i64>,
}

/// A user account; `password` holds the password's hash.
pub struct User {
    pub id: UserId,
    pub username: String,
    pub password: String,
    pub is_active: bool,
    pub is_admin: bool,
    pub created_at: i64,
}

/// A user name and a clear-text password.
pub struct UserAuth {
    pub username: String,
    pub password: String,
}

/// Why a database request failed.
pub enum DatabaseError {
    /// The database reported an error; its text.
    Database(String),
    /// Hashing a password failed.
    PasswordHash(PasswordError),
    /// Another failure, described.
    Other(String),
    /// A JSON value could not be read; the parser's text.
    Json(String),
}

/// The outcome of a `COUNT(*)` query whose single value may be absent.
pub fn count_result(count: Option<i64>) -> (res: Result<i64, DatabaseError>)
    ensures
        count matches Some(n) ==> res == Ok::<i64, DatabaseError>(n),
        count is None ==> (res matches Err(DatabaseError::Other(m)) && m@
            == "Unknown error while get count"@),
{
    match count {
        Some(n) => Ok(n),
        None => Err(DatabaseError::Other(String::from_str("Unknown error while get count"))),
    }
}

} // verus!
