//! The HTTP handlers.  Each handler is split at its I/O: a verified step
//! takes what the last database or storage call gave and says what to do
//! next, ending in the reply that is sent.  This module holds the replies,
//! the request header values and a download-only `/{hash}` handler.
use crate::database::ids::UrlId;
use crate::database::models::{File, Url};
use vstd::prelude::*;

pub mod api;
pub mod get;

verus! {

// ---------------------------------------------------------------------------
// Replies
// ---------------------------------------------------------------------------

/// The JSON object of an API reply.
pub enum JsonBody {
    /// `{"status": .., "message": ..}`
    Error(api::v1::Error),
    /// `{"status": .., "link": ..}`
    Upload(api::v1::UploadResponse),
}

/// A reply to a request.
pub enum Reply {
    /// A plain-text body with the given status.
    Text { status: u16, text: String },
    /// An HTML page, status 200.
    Html(String),
    /// A JSON body with the given status.
    Json { status: u16, body: JsonBody },
    /// A temporary redirect (status 307) to the given location.
    Redirect(String),
    /// Status 200 with the given headers (name, value) and the bytes as body.
    Content { headers: Vec<(String, String)>, bytes: Vec<u8> },
}

/// A JSON body as values.
pub enum JsonView {
    Error { status: Seq<char>, message: Seq<char> },
    Upload { status: Seq<char>, link: Seq<char> },
}

/// A reply as values.
pub enum ReplyView {
    Text { status: u16, text: Seq<char> },
    Html(Seq<char>),
    Json { status: u16, body: JsonView },
    Redirect(Seq<char>),
    Content { headers: Seq<(Seq<char>, Seq<char>)>, bytes: Seq<u8> },
}

/// The (name, value) pairs of a header list, as values.
pub open spec fn headers_view(h: Seq<(String, String)>) -> Seq<(Seq<char>, Seq<char>)> {
    h.map_values(|p: (String, String)| (p.0@, p.1@))
}

impl View for JsonBody {
    type V = JsonView;

    open spec fn view(&self) -> JsonView {
        match self {
            JsonBody::Error(e) => JsonView::Error { status: e.status@, message: e.message@ },
            JsonBody::Upload(u) => JsonView::Upload { status: u.status@, link: u.link@ },
        }
    }
}

impl View for Reply {
    type V = ReplyView;

    open spec fn view(&self) -> ReplyView {
        match self {
            Reply::Text { status, text } => ReplyView::Text { status: *status, text: text@ },
            Reply::Html(h) => ReplyView::Html(h@),
            Reply::Json { status, body } => ReplyView::Json { status: *status, body: body@ },
            Reply::Redirect(l) => ReplyView::Redirect(l@),
            Reply::Content { headers, bytes } => ReplyView::Content {
                headers: headers_view(headers@),
                bytes: bytes@,
            },
        }
    }
}

/// A plain-text reply.
pub fn text_reply(status: u16, text: &str) -> (res: Reply)
    ensures
        res@ == (ReplyView::Text { status, text: text@ }),
{
    Reply::Text { status, text: String::from_str(text) }
}

/// The reply to a request for a name that leads nowhere.
pub open spec fn not_found() -> ReplyView {
    ReplyView::Text { status: 404, text: "Not found"@ }
}

pub fn not_found_reply() -> (res: Reply)
    ensures
        res@ == not_found(),
{
    text_reply(404, "Not found")
}

/// The header name of the content type.
pub open spec fn content_type() -> Seq<char> {
    "content-type"@
}

/// The header name of the content disposition.
pub open spec fn content_disposition() -> Seq<char> {
    "content-disposition"@
}

/// The disposition that makes a browser save the content as `name`.
pub open spec fn attachment(name: Seq<char>) -> Seq<char> {
    "attachment; filename=\""@ + name + "\""@
}

/// `attachment; filename="<name>"`.
pub fn attachment_header(name: &str) -> (res: String)
    ensures
        res@ == attachment(name@),
{
    let mut v = String::from_str("attachment; filename=\"");
    v.append(name);
    v.append("\"");
    v
}

/// The name a file is offered for download under: its original name when it
/// has one, else its stored name.
pub open spec fn download_name(file: File) -> Seq<char> {
    match file.original_name {
        Some(n) => n@,
        None => file.name@,
    }
}

/// The name a file is offered for download under.
pub fn download_name_of(file: &File) -> (res: &str)
    ensures
        res@ == download_name(*file),
{
    match &file.original_name {
        Some(n) => n.as_str(),
        None => file.name.as_str(),
    }
}

// ---------------------------------------------------------------------------
// Request headers
// ---------------------------------------------------------------------------

/// A request header as the handlers see it.
pub enum HeaderField {
    /// The request has no such header.
    Absent,
    /// The header's value is not visible ASCII text.
    Unreadable,
    /// The header's value as text.
    Text(String),
}

/// The text of a header, with `unreadable` standing in for a value that is
/// not text; `None` when the header is absent.
pub open spec fn header_text(h: HeaderField, unreadable: Seq<char>) -> Option<Seq<char>> {
    match h {
        HeaderField::Absent => None,
        HeaderField::Unreadable => Some(unreadable),
        HeaderField::Text(s) => Some(s@),
    }
}

// ---------------------------------------------------------------------------
// Paths
// ---------------------------------------------------------------------------

/// Whether `Path::new(s).extension()` is `Some`.
pub uninterp spec fn path_has_extension(s: Seq<char>) -> bool;

/// Calls `std::path::Path::new(s).extension()` and tells whether there is
/// one.  Its documentation says there is none without an embedded `.`, which
/// the contract states; the rest is named.
#[verifier::external_body]
pub(crate) fn has_extension(s: &str) -> (res: bool)
    ensures
        res == path_has_extension(s@),
        !s@.contains('.') ==> !res,
{
    std::path::Path::new(s).extension().is_some()
}

// ---------------------------------------------------------------------------
// Short links
// ---------------------------------------------------------------------------

/// Waits for the short link named `hash`.
pub struct UrlLookup {
    hash: String,
}

/// What becomes of a short link request once the link is looked up: the
/// reply, and the link whose view count goes up.
pub struct Served<I> {
    pub reply: Reply,
    pub count_view: Option<I>,
}

impl UrlLookup {
    /// The name to look up.
    pub closed spec fn name(&self) -> Seq<char> {
        self.hash@
    }

    pub fn new(hash: String) -> (res: UrlLookup)
        ensures
            res.name() == hash@,
    {
        UrlLookup { hash }
    }

    /// The name to look up.
    pub fn hash(&self) -> (res: &str)
        ensures
            res@ == self.name(),
    {
        self.hash.as_str()
    }

    /// A link that was found redirects to its destination and has its view
    /// counted; a missing link, and a failed lookup, are answered 404.
    pub fn on_lookup(self, found: Result<Option<Url>, String>) -> (res: Served<UrlId>)
        ensures
            found matches Ok(Some(u)) ==> res.reply@ == ReplyView::Redirect(u.destination@)
                && res.count_view == Some(u.id),
            !(found matches Ok(Some(_))) ==> res.reply@ == not_found() && res.count_view is None,
    {
        match found {
            Ok(Some(url)) => Served { reply: Reply::Redirect(url.destination), count_view: Some(url.id) },
            _ => Served { reply: not_found_reply(), count_view: None },
        }
    }
}

// ---------------------------------------------------------------------------
// The download-only `/{hash}` handler
// ---------------------------------------------------------------------------

/// Where a `/{hash}` request goes: a name with an extension is a file, any
/// other a short link.
pub enum HashLookup {
    File(AttachmentLookup),
    Url(UrlLookup),
}

/// Handles `GET /{hash}`: files are always offered as downloads.
pub fn get_hash(hash: String) -> (res: HashLookup)
    ensures
        path_has_extension(hash@) ==> (res matches HashLookup::File(f) && f.name() == hash@),
        !path_has_extension(hash@) ==> (res matches HashLookup::Url(u) && u.name() == hash@),
{
    let is_file = has_extension(hash.as_str());
    lookup_by_extension(hash, is_file)
}

/// Looks a request path up as a file when it has an extension, else as a
/// short link.
pub fn lookup_by_extension(hash: String, has_extension: bool) -> (res: HashLookup)
    ensures
        has_extension ==> (res matches HashLookup::File(f) && f.name() == hash@),
        !has_extension ==> (res matches HashLookup::Url(u) && u.name() == hash@),
{
    if has_extension {
        HashLookup::File(AttachmentLookup { hash })
    } else {
        HashLookup::Url(UrlLookup::new(hash))
    }
}

/// Waits for the file named `hash`.
pub struct AttachmentLookup {
    hash: String,
}

/// What becomes of a file request once the file is looked up.
pub enum AttachmentFound {
    Reply(Reply),
    /// Fetch the file's bytes.
    Fetch(AttachmentFetch),
}

impl AttachmentLookup {
    /// The name to look up.
    pub closed spec fn name(&self) -> Seq<char> {
        self.hash@
    }

    /// The name to look up.
    pub fn hash(&self) -> (res: &str)
        ensures
            res@ == self.name(),
    {
        self.hash.as_str()
    }

    /// A file that was found has its bytes fetched; a missing file, and a
    /// failed lookup, are answered 404.
    pub fn on_lookup(self, found: Result<Option<File>, String>) -> (res: AttachmentFound)
        ensures
            found matches Ok(Some(f)) ==> (res matches AttachmentFound::Fetch(x) && x.file()
                == f),
            !(found matches Ok(Some(_))) ==> (res matches AttachmentFound::Reply(r) && r@
                == not_found()),
    {
        match found {
            Ok(Some(file)) => AttachmentFound::Fetch(AttachmentFetch { file }),
            _ => AttachmentFound::Reply(not_found_reply()),
        }
    }
}

/// Waits for the bytes of `file`.
pub struct AttachmentFetch {
    file: File,
}

/// The reply that offers `bytes` of `file` for download: its recorded type,
/// or `application/octet-stream`, and an attachment disposition.
pub open spec fn attachment_reply(file: File, bytes: Seq<u8>) -> ReplyView {
    let mime = match file.mime {
        Some(m) => m@,
        None => "application/octet-stream"@,
    };
    ReplyView::Content {
        headers: seq![
            (content_type(), mime),
            (content_disposition(), attachment(download_name(file))),
        ],
        bytes,
    }
}

impl AttachmentFetch {
    /// The file being served.
    pub closed spec fn file(&self) -> File {
        self.file
    }

    /// The storage key of the file's bytes.
    pub fn key(&self) -> (res: String)
        ensures
            res@ == crate::database::ids::uuid_text(self.file().id.0),
    {
        self.file.id.storage_key()
    }

    /// Fetched bytes are sent as a download; a failed fetch is answered 404.
    pub fn on_fetch(self, fetched: Result<Vec<u8>, String>) -> (res: Reply)
        ensures
            fetched matches Ok(b) ==> res@ == attachment_reply(self.file(), b@),
            fetched is Err ==> res@ == not_found(),
    {
        match fetched {
            Ok(bytes) => {
                let mime = match &self.file.mime {
                    Some(m) => m.clone(),
                    None => String::from_str("application/octet-stream"),
                };
                let disposition = attachment_header(download_name_of(&self.file));
                let ghost dv = disposition@;
                let ghost mv = mime@;
                let mut headers: Vec<(String, String)> = Vec::new();
                headers.push((String::from_str("content-type"), mime));
                headers.push((String::from_str("content-disposition"), disposition));
                proof {
                    assert(headers_view(headers@) =~= seq![
                        (content_type(), mv),
                        (content_disposition(), dv),
                    ]);
                }
                Reply::Content { headers, bytes }
            },
            Err(_) => not_found_reply(),
        }
    }
}

/// The download-only handler offers every fetched file as a download,
/// whatever its recorded type: the reply carries the bytes and two headers,
/// `content-type` with the recorded type (`application/octet-stream` when
/// none is recorded), then `content-disposition: attachment;
/// filename="<name>"` under the file's download name.
pub proof fn law_every_file_is_a_download(file: File, bytes: Seq<u8>)
    ensures
        attachment_reply(file, bytes) matches ReplyView::Content { headers, bytes: body } && body
            == bytes && headers.len() == 2 && headers[0].0 == "content-type"@ && (file.mime matches Some(
            m,
        ) ==> headers[0].1 == m@) && (file.mime is None ==> headers[0].1
            == "application/octet-stream"@) && headers[1] == (
            "content-disposition"@,
            "attachment; filename=\""@ + download_name(file) + "\""@,
        ),
{
}

} // verus!
