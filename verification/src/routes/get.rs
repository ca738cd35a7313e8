//! `GET /{hash}` and `GET /`: files are served with their type, pages that a
//! browser would run are offered as downloads only, and short links
//! redirect.
use crate::database::ids::{uuid_text, FileId};
use crate::database::models::File;
use crate::modules::mime::{get_mime, sniffed};
use crate::routes::{
    attachment, attachment_header, content_disposition, content_type, download_name,
    download_name_of, has_extension, headers_view, not_found, not_found_reply, path_has_extension,
    text_reply, Reply, ReplyView, Served, UrlLookup,
};
use crate::text::{contains_dotdot, has_dotdot};
use vstd::prelude::*;

verus! {

/// Where a `/{hash}` request goes.
pub enum HashRoute {
    /// Answered at once.
    Reply(Reply),
    /// Look up the file named by the request.
    File(FileLookup),
    /// Look up the short link named by the request.
    Url(UrlLookup),
}

/// The reply to a request path that tries to climb directories.
pub open spec fn bad_request() -> ReplyView {
    ReplyView::Text { status: 400, text: "Bad request"@ }
}

/// Handles `GET /{hash}`: a path holding `..` is refused with `400`; a name
/// with an extension is a file, any other a short link.
pub fn get_hash(hash: String) -> (res: HashRoute)
    ensures
        has_dotdot(hash@) ==> (res matches HashRoute::Reply(r) && r@ == bad_request()),
        !has_dotdot(hash@) && path_has_extension(hash@) ==> (res matches HashRoute::File(f)
            && f.name() == hash@),
        !has_dotdot(hash@) && !path_has_extension(hash@) ==> (res matches HashRoute::Url(u)
            && u.name() == hash@),
{
    if contains_dotdot(hash.as_str()) {
        return HashRoute::Reply(text_reply(400, "Bad request"));
    }
    let is_file = has_extension(hash.as_str());
    route_by_extension(hash, is_file)
}

/// Routes a request path that holds no `..`: to its file when the path has
/// an extension, else to its short link.
pub fn route_by_extension(hash: String, has_extension: bool) -> (res: HashRoute)
    ensures
        has_extension ==> (res matches HashRoute::File(f) && f.name() == hash@),
        !has_extension ==> (res matches HashRoute::Url(u) && u.name() == hash@),
{
    if has_extension {
        HashRoute::File(FileLookup { hash })
    } else {
        HashRoute::Url(UrlLookup::new(hash))
    }
}

/// Waits for the file named `hash`.
pub struct FileLookup {
    hash: String,
}

/// What becomes of a file request once the file is looked up.
pub enum FileFound {
    Reply(Reply),
    /// Fetch the file's bytes.
    Fetch(FileFetch),
}

impl FileLookup {
    /// The name to look up.
    pub closed spec fn name(&self) -> Seq<char> {
        self.hash@
    }

    /// The name to look up.
    pub fn hash(&self) -> (res: &str)
        ensures
            res@ == self.name(),
    {
        self.hash.as_str()
    }

    /// A file that was found has its bytes fetched; a missing file, and a
    /// failed lookup, are answered 404.
    pub fn on_lookup(self, found: Result<Option<File>, String>) -> (res: FileFound)
        ensures
            found matches Ok(Some(f)) ==> (res matches FileFound::Fetch(x) && x.file() == f),
            !(found matches Ok(Some(_))) ==> (res matches FileFound::Reply(r) && r@
                == not_found()),
    {
        match found {
            Ok(Some(file)) => FileFound::Fetch(FileFetch { file }),
            _ => FileFound::Reply(not_found_reply()),
        }
    }
}

/// Types that a browser would run as a page or a script; such files are
/// only ever offered as downloads.
pub open spec fn is_softblocked(mime: Seq<char>) -> bool {
    mime == "text/javascript"@ || mime == "text/html"@
}

/// Whether `mime` is one of the types served as downloads only.
pub fn softblocked(mime: &String) -> (res: bool)
    ensures
        res == is_softblocked(mime@),
{
    let js = String::from_str("text/javascript");
    let html = String::from_str("text/html");
    *mime == js || *mime == html
}

/// The number of leading bytes whose content decides a served file's type.
pub const SNIFF_LEN: usize = 10;

/// The type a file is served with: the recorded one, else `sniffed_type`.
pub open spec fn type_of(file: File, sniffed_type: Seq<char>) -> Seq<char> {
    match file.mime {
        Some(m) => m@,
        None => sniffed_type,
    }
}

/// The type a file is served with: the recorded one, else the one its first
/// `SNIFF_LEN` bytes show.
pub open spec fn served_type(file: File, bytes: Seq<u8>) -> Seq<char> {
    type_of(file, sniffed(bytes.take(SNIFF_LEN as int)).0)
}

/// The reply that serves `bytes` of `file`, whose content shows the type
/// `sniffed_type`: with its type, and as a download when the type is
/// softblocked.
pub open spec fn typed_file_reply(file: File, bytes: Seq<u8>, sniffed_type: Seq<char>) -> ReplyView {
    let mime = type_of(file, sniffed_type);
    if is_softblocked(mime) {
        ReplyView::Content {
            headers: seq![
                (content_type(), mime),
                (content_disposition(), attachment(download_name(file))),
            ],
            bytes,
        }
    } else {
        ReplyView::Content { headers: seq![(content_type(), mime)], bytes }
    }
}

/// The reply that serves `bytes` of `file`, typed by its content.
pub open spec fn file_reply(file: File, bytes: Seq<u8>) -> ReplyView {
    typed_file_reply(file, bytes, sniffed(bytes.take(SNIFF_LEN as int)).0)
}

/// Waits for the bytes of `file`.
pub struct FileFetch {
    file: File,
}

impl FileFetch {
    /// The file being served.
    pub closed spec fn file(&self) -> File {
        self.file
    }

    /// The storage key of the file's bytes.
    pub fn key(&self) -> (res: String)
        ensures
            res@ == uuid_text(self.file().id.0),
    {
        self.file.id.storage_key()
    }

    /// Fetched bytes are served, and the file's view is counted; a failed
    /// fetch is answered 404.
    pub fn on_fetch(self, fetched: Result<Vec<u8>, String>) -> (res: Served<FileId>)
        requires
            fetched matches Ok(b) ==> b@.len() >= SNIFF_LEN,
        ensures
            fetched matches Ok(b) ==> res.reply@ == file_reply(self.file(), b@)
                && res.count_view == Some(self.file().id),
            fetched is Err ==> res.reply@ == not_found() && res.count_view is None,
    {
        let bytes = match fetched {
            Ok(b) => b,
            Err(_) => {
                return Served { reply: not_found_reply(), count_view: None };
            },
        };
        let head = vstd::slice::slice_subrange(bytes.as_slice(), 0, SNIFF_LEN);
        proof {
            assert(head@ =~= bytes@.take(SNIFF_LEN as int));
        }
        let sniffed_type = get_mime(head);
        self.serve(bytes, sniffed_type.mime_type)
    }

    /// Serves `bytes` of the file, whose content shows the type
    /// `sniffed_type`, and counts the file's view.
    pub fn serve(self, bytes: Vec<u8>, sniffed_type: String) -> (res: Served<FileId>)
        ensures
            res.reply@ == typed_file_reply(self.file(), bytes@, sniffed_type@),
            res.count_view == Some(self.file().id),
    {
        let mime = match &self.file.mime {
            Some(m) => m.clone(),
            None => sniffed_type,
        };
        let ghost mv = mime@;
        let blocked = softblocked(&mime);
        let mut headers: Vec<(String, String)> = Vec::new();
        headers.push((String::from_str("content-type"), mime));
        if blocked {
            let disposition = attachment_header(download_name_of(&self.file));
            let ghost dv = disposition@;
            headers.push((String::from_str("content-disposition"), disposition));
            proof {
                assert(headers_view(headers@) =~= seq![
                    (content_type(), mv),
                    (content_disposition(), dv),
                ]);
            }
        } else {
            proof {
                assert(headers_view(headers@) =~= seq![(content_type(), mv)]);
            }
        }
        Served { reply: Reply::Content { headers, bytes }, count_view: Some(self.file.id) }
    }
}

/// The counts shown on the index page.
pub struct IndexPage {
    pub total_files: i64,
    pub total_urls: i64,
}

/// Handles `GET /`: the page shows how many files and links are stored; a
/// count that could not be read shows as 0.
pub fn index(total_files: Option<i64>, total_urls: Option<i64>) -> (res: IndexPage)
    ensures
        res.total_files == (match total_files {
            Some(n) => n,
            None => 0,
        }),
        res.total_urls == (match total_urls {
            Some(n) => n,
            None => 0,
        }),
{
    IndexPage {
        total_files: match total_files {
            Some(n) => n,
            None => 0,
        },
        total_urls: match total_urls {
            Some(n) => n,
            None => 0,
        },
    }
}

impl IndexPage {
    /// A rendered page is sent as HTML; a failed rendering is answered `500`.
    pub fn on_render(self, rendered: Result<String, String>) -> (res: Reply)
        ensures
            rendered matches Ok(h) ==> res@ == ReplyView::Html(h@),
            rendered is Err ==> res@ == (ReplyView::Text {
                status: 500,
                text: "Internal server error"@,
            }),
    {
        match rendered {
            Ok(html) => Reply::Html(html),
            Err(_) => text_reply(500, "Internal server error"),
        }
    }
}

/// A file whose type a browser would run is only ever offered as a
/// download: its reply carries an attachment disposition, and a file of any
/// other type is served with its type alone.
pub proof fn law_softblocked_served_as_download(file: File, bytes: Seq<u8>)
    ensures
        file_reply(file, bytes) matches ReplyView::Content { headers, bytes: body } && body == bytes
            && headers[0] == (content_type(), served_type(file, bytes)) && (is_softblocked(
            served_type(file, bytes),
        ) <==> (headers.len() == 2 && headers[1] == (
            content_disposition(),
            attachment(download_name(file)),
        ))) && (!is_softblocked(served_type(file, bytes)) ==> headers.len() == 1),
{
}

/// Exactly `text/javascript` and `text/html` are offered as downloads.  A
/// file served with any other type is answered with its bytes and the single
/// header `content-type: <type>`; a file of one of those two types gets that
/// header followed by `content-disposition: attachment; filename="<name>"`
/// under its download name.
pub proof fn law_download_only_for_scripts_and_pages(file: File, bytes: Seq<u8>, sniffed_type: Seq<char>)
    ensures
        type_of(file, sniffed_type) != "text/javascript"@ && type_of(file, sniffed_type)
            != "text/html"@ ==> typed_file_reply(file, bytes, sniffed_type) == (ReplyView::Content {
            headers: seq![("content-type"@, type_of(file, sniffed_type))],
            bytes,
        }),
        type_of(file, sniffed_type) == "text/javascript"@ || type_of(file, sniffed_type)
            == "text/html"@ ==> typed_file_reply(file, bytes, sniffed_type) == (ReplyView::Content {
            headers: seq![
                ("content-type"@, type_of(file, sniffed_type)),
                (
                    "content-disposition"@,
                    "attachment; filename=\""@ + download_name(file) + "\""@,
                ),
            ],
            bytes,
        }),
        served_type(file, bytes) != "text/javascript"@ && served_type(file, bytes) != "text/html"@
            ==> file_reply(file, bytes) == (ReplyView::Content {
            headers: seq![("content-type"@, served_type(file, bytes))],
            bytes,
        }),
{
}

} // verus!
