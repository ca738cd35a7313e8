//! `POST` of a file: a token-holding user uploads bytes in a multipart body,
//! they are recorded under a fresh (or custom) name and stored, and the reply
//! links to them.
use crate::database::ids::{uuid_text, FileId, TokenId, UserId};
use crate::database::models::{FileDbRequest, Token};
use crate::modules::mime::{get_mime, sniffed, MimeType};
use crate::modules::random::{
    is_candidate, name_gen, name_query, name_step, DBType, NameAction, NameGen, NameLookup,
};
use crate::routes::api::v1::{
    authenticate, choose_name, chosen_name, error_reply, given_original_name, max_views,
    original_name, require_token, token_answer, view_limit, Error, LinkPending,
};
use crate::routes::{HeaderField, Reply};
use vstd::prelude::*;

verus! {

/// The request headers an upload reads.
pub struct UploadHeaders {
    pub token: HeaderField,
    pub original_name: HeaderField,
    pub max_views: HeaderField,
    pub custom_name: HeaderField,
}

/// The options an upload carries from its headers to its record.
struct Options {
    original_name: Option<String>,
    max_views: Option<i64>,
    custom_name: HeaderField,
}

/// Waits for the database to say whether the presented token is valid.
pub struct UploadAuthorizing {
    token: TokenId,
    options: Options,
    headers: Ghost<UploadHeaders>,
}


/// Handles an upload: reads the token and options from the headers.  A
/// request without a token is refused with `401`, one whose token is no UUID
/// with `400`; otherwise the token is looked up next.
pub fn upload(headers: UploadHeaders) -> (res: Result<UploadAuthorizing, Reply>)
    ensures
        match token_answer(headers.token) {
            Ok(t) => res matches Ok(a) && a.token() == t && a.headers() == headers,
            Err(r) => res matches Err(e) && e@ == r,
        },
{
    let ghost h = headers;
    let token = match authenticate(&headers.token) {
        Ok(t) => t,
        Err(r) => return Err(r),
    };
    let options = Options {
        original_name: original_name(&headers.original_name),
        max_views: max_views(&headers.max_views),
        custom_name: headers.custom_name,
    };
    Ok(UploadAuthorizing { token, options, headers: Ghost(h) })
}

/// The upload options carried from `headers`.
spec fn options_from(o: Options, headers: UploadHeaders) -> bool {
    &&& o.original_name.deep_view() == given_original_name(headers.original_name)
    &&& o.max_views == view_limit(headers.max_views)
    &&& o.custom_name == headers.custom_name
}

impl UploadAuthorizing {
    #[verifier::type_invariant]
    spec fn inv(self) -> bool {
        options_from(self.options, self.headers@)
    }

    /// The token to look up.
    pub closed spec fn token(&self) -> TokenId {
        self.token
    }

    /// The headers of the request.
    pub closed spec fn headers(&self) -> UploadHeaders {
        self.headers@
    }

    /// The token to look up.
    pub fn token_id(&self) -> (res: TokenId)
        ensures
            res == self.token(),
    {
        self.token
    }

    /// A valid token lets the upload read its body, for the token's user; no
    /// valid token ends it with `401`.
    pub fn on_token(self, found: Option<Token>) -> (res: Result<UploadReceiving, Reply>)
        ensures
            found matches Some(t) ==> (res matches Ok(r) && r.user() == t.user_id && r.headers()
                == self.headers() && r.file() is None),
            found is None ==> (res matches Err(e) && e@ == error_reply(
                401,
                "Unauthorized"@,
                "No valid token provided"@,
            )),
    {
        proof {
            use_type_invariant(&self);
        }
        match require_token(found) {
            Ok(t) => Ok(
                UploadReceiving {
                    user_id: t.user_id,
                    options: self.options,
                    file: None,
                    headers: self.headers,
                },
            ),
            Err(r) => Err(r),
        }
    }
}

/// The multipart field that holds the upload.
pub open spec fn is_file_field(name: Option<Seq<char>>) -> bool {
    name == Some("file"@)
}

/// Reads the multipart body: the bytes of the last field named `file` are
/// the upload.
pub struct UploadReceiving {
    user_id: UserId,
    options: Options,
    file: Option<Vec<u8>>,
    headers: Ghost<UploadHeaders>,
}

/// The number of leading bytes whose content decides an upload's type.
pub const SNIFF_LEN: usize = 12;

/// The name search for an upload whose content shows type `kind`.
pub open spec fn upload_name_search(g: NameGen, kind: (Seq<char>, Seq<char>)) -> bool {
    &&& g.length() == 10
    &&& g.target() == DBType::File
    &&& g.ext() == Some(kind.1)
}

/// Starts the name search for an upload whose content shows type `kind`:
/// ten random characters, a dot and the type's extension, among the files.
pub fn upload_name_gen(kind: &MimeType) -> (res: (NameGen, NameAction))
    ensures
        upload_name_search(res.0, (kind.mime_type@, kind.extension@)),
        res.0.pending() is Some,
        res.0.found() is None,
        res.1 matches NameAction::Check { name, query } && res.0.pending() == Some(name@)
            && is_candidate(name@, 10, Some(kind.extension@)) && query@ == name_query(
            DBType::File,
        ),
{
    name_gen(10, DBType::File, Some(kind.extension.clone()))
}

impl UploadReceiving {
    #[verifier::type_invariant]
    spec fn inv(self) -> bool {
        options_from(self.options, self.headers@)
    }

    /// The user the upload belongs to.
    pub closed spec fn user(&self) -> UserId {
        self.user_id
    }

    /// The headers of the request.
    pub closed spec fn headers(&self) -> UploadHeaders {
        self.headers@
    }

    /// The bytes received so far.
    pub closed spec fn file(&self) -> Option<Seq<u8>> {
        match self.file {
            Some(b) => Some(b@),
            None => None,
        }
    }

    /// Whether the multipart field called `name` (`None` when it has no
    /// name) holds the upload, and its bytes are to be read.
    pub fn wants_field(name: &Option<String>) -> (res: bool)
        ensures
            res == is_file_field(name.deep_view()),
    {
        match name {
            Some(n) => {
                let file = String::from_str("file");
                *n == file
            },
            None => false,
        }
    }

    /// How many bytes were received, if a `file` field came.
    pub fn received_len(&self) -> (res: Option<usize>)
        ensures
            res matches Some(n) ==> (self.file() matches Some(b) && n == b.len()),
            res is None ==> self.file() is None,
    {
        match &self.file {
            Some(b) => Some(b.len()),
            None => None,
        }
    }

    /// Takes the bytes of a `file` field; a later one replaces an earlier.
    pub fn on_file(&mut self, bytes: Vec<u8>)
        ensures
            final(self).file() == Some(bytes@),
            final(self).user() == old(self).user(),
            final(self).headers() == old(self).headers(),
    {
        proof {
            use_type_invariant(&*self);
        }
        self.file = Some(bytes);
    }

    /// At the end of the body: without a `file` field the upload is refused
    /// with `400`.  Otherwise its type is judged from its first `SNIFF_LEN`
    /// bytes, and a name is searched for with that type's extension.
    pub fn finish(self) -> (res: Result<(UploadNaming, NameAction), Reply>)
        requires
            self.file() matches Some(b) ==> b.len() >= SNIFF_LEN,
        ensures
            self.file() is None ==> (res matches Err(e) && e@ == error_reply(
                400,
                "Bad Request"@,
                "Could not found 'file' on multipart body"@,
            )),
            self.file() matches Some(b) ==> (res matches Ok((n, a)) && n.user() == self.user()
                && n.headers() == self.headers() && n.bytes() == b && n.kind() == sniffed(
                b.take(SNIFF_LEN as int),
            ) && upload_name_search(n.search(), n.kind()) && n.search().found() is None
                && (a matches NameAction::Check { name, query } && n.search().pending() == Some(
                name@,
            ) && query@ == name_query(DBType::File))),
    {
        proof {
            use_type_invariant(&self);
        }
        let bytes = match self.file {
            Some(b) => b,
            None => {
                return Err(
                    Error::bad_request(String::from_str("Could not found 'file' on multipart body")),
                );
            },
        };
        let head = vstd::slice::slice_subrange(bytes.as_slice(), 0, SNIFF_LEN);
        proof {
            assert(head@ =~= bytes@.take(SNIFF_LEN as int));
        }
        let mime = get_mime(head);
        let ghost kind = (mime.mime_type@, mime.extension@);
        let (gen, action) = upload_name_gen(&mime);
        Ok(
            (
                UploadNaming {
                    user_id: self.user_id,
                    options: self.options,
                    mime: mime.mime_type,
                    kind: Ghost(kind),
                    bytes,
                    headers: self.headers,
                    search: gen,
                },
                action,
            ),
        )
    }
}

/// Waits for the name search of an upload.
pub struct UploadNaming {
    user_id: UserId,
    options: Options,
    mime: String,
    kind: Ghost<(Seq<char>, Seq<char>)>,
    bytes: Vec<u8>,
    headers: Ghost<UploadHeaders>,
    search: NameGen,
}

/// The record of an upload: `name`, the options from `headers`, type
/// `mime`, owned by `user`.
pub open spec fn upload_record(
    request: FileDbRequest,
    headers: UploadHeaders,
    name: Seq<char>,
    mime: Seq<char>,
    user: UserId,
) -> bool {
    &&& request.name@ == name
    &&& request.original_name.deep_view() == given_original_name(headers.original_name)
    &&& request.mime.deep_view() == Some(mime)
    &&& request.max_views == view_limit(headers.max_views)
    &&& request.user_id == user
}

impl UploadNaming {
    #[verifier::type_invariant]
    spec fn inv(self) -> bool {
        &&& options_from(self.options, self.headers@)
        &&& self.mime@ == self.kind@.0
        &&& upload_name_search(self.search, self.kind@)
    }

    /// The user the upload belongs to.
    pub closed spec fn user(&self) -> UserId {
        self.user_id
    }

    /// The headers of the request.
    pub closed spec fn headers(&self) -> UploadHeaders {
        self.headers@
    }

    /// The uploaded bytes.
    pub closed spec fn bytes(&self) -> Seq<u8> {
        self.bytes@
    }

    /// The type the content shows: MIME type and extension.
    pub closed spec fn kind(&self) -> (Seq<char>, Seq<char>) {
        self.kind@
    }

    /// The search for the upload's name.
    pub closed spec fn search(&self) -> NameGen {
        self.search
    }

    /// Whether a lookup of a candidate name is awaited.
    pub fn is_searching(&self) -> (res: bool)
        ensures
            res == self.search().pending() is Some,
    {
        self.search.is_waiting()
    }

    /// Whether the search has found a free name.
    pub fn has_name(&self) -> (res: bool)
        ensures
            res == self.search().found() is Some,
    {
        self.search.found_name().is_some()
    }

    /// Takes the report of the awaited lookup and says what the search does
    /// next.
    pub fn on_lookup(self, lookup: NameLookup) -> (res: (UploadNaming, NameAction))
        requires
            self.search().pending() is Some,
        ensures
            name_step(self.search(), res.0.search(), lookup, res.1),
            res.0.user() == self.user(),
            res.0.headers() == self.headers(),
            res.0.bytes() == self.bytes(),
            res.0.kind() == self.kind(),
    {
        proof {
            use_type_invariant(&self);
        }
        let mut search = self.search;
        let action = search.step(lookup);
        (
            UploadNaming {
                user_id: self.user_id,
                options: self.options,
                mime: self.mime,
                kind: self.kind,
                bytes: self.bytes,
                headers: self.headers,
                search,
            },
            action,
        )
    }

    /// Once the search has found a free name, the record is written under
    /// the custom name of the request if it gives one as text, else under the
    /// name found: ten random letters or digits, a dot and the extension of
    /// the upload's type.
    pub fn on_name(self) -> (res: UploadRecording)
        requires
            self.search().found() is Some,
        ensures
            upload_record(
                res.request(),
                self.headers(),
                chosen_name(self.headers().custom_name, self.search().found()->0),
                self.kind().0,
                self.user(),
            ),
            is_candidate(self.search().found()->0, 10, Some(self.kind().1)),
            res.bytes() == self.bytes(),
    {
        proof {
            use_type_invariant(&self);
        }
        let generated = match self.search.found_name() {
            Some(n) => n,
            None => String::new(),
        };
        let name = choose_name(self.options.custom_name, generated);
        let request = FileDbRequest {
            name,
            original_name: self.options.original_name,
            mime: Some(self.mime),
            max_views: self.options.max_views,
            user_id: self.user_id,
        };
        UploadRecording { request, bytes: self.bytes }
    }
}

/// Waits for the database to record the upload.
pub struct UploadRecording {
    request: FileDbRequest,
    bytes: Vec<u8>,
}

/// Write `bytes` to storage under `key`.
pub struct StoreJob {
    pub key: String,
    pub bytes: Vec<u8>,
}

impl UploadRecording {
    /// The record to write.
    pub closed spec fn request(&self) -> FileDbRequest {
        self.request
    }

    /// The uploaded bytes.
    pub closed spec fn bytes(&self) -> Seq<u8> {
        self.bytes@
    }

    /// The record to write.
    pub fn file_request(&self) -> (res: &FileDbRequest)
        ensures
            *res == self.request(),
    {
        &self.request
    }

    /// Once the record exists under `id`, its bytes are stored under the text
    /// of `id`.
    pub fn on_recorded(self, id: FileId) -> (res: (UploadStoring, StoreJob))
        ensures
            res.0.id() == id,
            res.0.name() == self.request().name@,
            res.1.key@ == uuid_text(id.0),
            res.1.bytes@ == self.bytes(),
    {
        let key = id.storage_key();
        (UploadStoring { id, name: self.request.name }, StoreJob { key, bytes: self.bytes })
    }
}

/// Waits for the storage to hold the upload's bytes.
pub struct UploadStoring {
    id: FileId,
    name: String,
}

impl UploadStoring {
    /// The record of the upload.
    pub closed spec fn id(&self) -> FileId {
        self.id
    }

    /// The name the upload is recorded under.
    pub closed spec fn name(&self) -> Seq<char> {
        self.name@
    }

    /// Once the bytes are stored, the record is marked as no longer
    /// processing.
    pub fn on_stored(self) -> (res: UploadMarking)
        ensures
            res.id() == self.id(),
            res.name() == self.name(),
    {
        UploadMarking { id: self.id, name: self.name }
    }
}

/// Waits for the record to be marked as processed.
pub struct UploadMarking {
    id: FileId,
    name: String,
}

impl UploadMarking {
    /// The record of the upload.
    pub closed spec fn id(&self) -> FileId {
        self.id
    }

    /// The name the upload is recorded under.
    pub closed spec fn name(&self) -> Seq<char> {
        self.name@
    }

    /// The update to make: the record `id` gets `is_processing = false`.
    pub fn processing_update(&self) -> (res: (FileId, bool))
        ensures
            res == (self.id(), false),
    {
        (self.id, false)
    }

    /// Once the record is marked, the reply links to the upload's name.
    pub fn on_marked(self) -> (res: LinkPending)
        ensures
            res.name() == self.name(),
    {
        LinkPending::new(self.name)
    }
}

} // verus!
