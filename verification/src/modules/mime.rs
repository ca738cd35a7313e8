//! Content sniffing: the MIME type and file extension of a buffer, judged
//! from its leading bytes by the `infer` crate.
use vstd::prelude::*;

verus! {

/// A content type and the file extension that goes with it.
pub struct MimeType {
    pub mime_type: String,
    pub extension: String,
}

/// The MIME type and extension that `infer::get` recognises in `buf`, or
/// `None` when no matcher of the crate accepts it.
pub uninterp spec fn infer_kind(buf: Seq<u8>) -> Option<(Seq<char>, Seq<char>)>;

/// Calls `infer::get(buf)` and copies the `mime_type()` and `extension()` of
/// the type it finds.
#[verifier::external_body]
fn infer_get(buf: &[u8]) -> (res: Option<MimeType>)
    ensures
        match res {
            Some(m) => infer_kind(buf@) == Some((m.mime_type@, m.extension@)),
            None => infer_kind(buf@) is None,
        },
{
    match infer::get(buf) {
        Some(t) => Some(
            MimeType { mime_type: t.mime_type().to_string(), extension: t.extension().to_string() },
        ),
        None => None,
    }
}

/// The type of a buffer that nothing recognises.
pub open spec fn octet_stream() -> (Seq<char>, Seq<char>) {
    ("application/octet-stream"@, "bin"@)
}

/// The type that the content of `buf` shows, or `application/octet-stream`
/// with extension `bin` when it shows none.
pub open spec fn sniffed(buf: Seq<u8>) -> (Seq<char>, Seq<char>) {
    match infer_kind(buf) {
        Some(k) => k,
        None => octet_stream(),
    }
}

/// The type found by sniffing, or `application/octet-stream` (extension
/// `bin`) when nothing was recognised.
pub fn mime_or_octet_stream(found: Option<MimeType>) -> (res: MimeType)
    ensures
        match found {
            Some(m) => res.mime_type@ == m.mime_type@ && res.extension@ == m.extension@,
            None => (res.mime_type@, res.extension@) == octet_stream(),
        },
{
    match found {
        Some(m) => m,
        None => MimeType {
            mime_type: String::from_str("application/octet-stream"),
            extension: String::from_str("bin"),
        },
    }
}

/// The MIME type of `buf`, judged from its content.
pub fn get_mime(buf: &[u8]) -> (res: MimeType)
    ensures
        (res.mime_type@, res.extension@) == sniffed(buf@),
{
    mime_or_octet_stream(infer_get(buf))
}

} // verus!
