//! Where uploaded bytes are kept: a local directory or an S3 bucket.  The
//! reading and writing stay with the caller; what is decided here is where
//! an object goes and what is recorded about it.
use crate::text::{hex_lower, to_hex_lower};
use sha2::Digest;
use vstd::prelude::*;

pub mod local;
pub mod cloud;

pub use cloud::S3;
pub use local::Local;

verus! {

/// Why a storage request failed.
pub enum StorageError {
    /// The S3 service or its client reported an error; a description.
    S3Error(String),
    /// The file system reported an error; its text.
    FileSystemError(String),
    /// The object's path has no parent directory.
    InvalidFilename,
}

/// What is known of an object once it is written.
pub struct UploadFileData {
    pub file_name: String,
    pub content_length: u32,
    pub content_sha512: String,
    pub timestamp: u64,
}

/// The SHA-512 digest of `data`.
pub uninterp spec fn sha512(data: Seq<u8>) -> Seq<u8>;

/// Calls `sha2::Sha512::digest(data)` and copies the 64-byte digest.
#[verifier::external_body]
fn sha512_digest(data: &[u8]) -> (res: Vec<u8>)
    ensures
        res@ == sha512(data@),
        res@.len() == 64,
{
    sha2::Sha512::digest(data).to_vec()
}

/// The record of an object written under `key` with content `bytes` at
/// `now` (seconds since the Unix epoch): the length is cut to 32 bits and
/// the time reinterpreted as unsigned, as `as` casts do.
pub fn upload_file_data(key: &str, bytes: &[u8], now: i64) -> (res: UploadFileData)
    ensures
        res.file_name@ == key@,
        res.content_length == bytes@.len() as u32,
        res.content_sha512@ == hex_lower(sha512(bytes@)),
        res.content_sha512@.len() == 128,
        res.timestamp == now as u64,
{
    let digest = sha512_digest(bytes);
    proof {
        assert(hex_lower(digest@).len() == 128);
    }
    UploadFileData {
        file_name: String::from_str(key),
        content_length: bytes.len() as u32,
        content_sha512: to_hex_lower(digest.as_slice()),
        timestamp: now as u64,
    }
}

} // verus!
