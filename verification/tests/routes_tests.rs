use sharers::database::ids::{FileId, TokenId, UrlId, UserId};
use sharers::database::models::{count_result, valid_token, DatabaseError, File, Token, Url};
use sharers::modules::random::{NameAction, NameLookup};
use sharers::routes::api::v1::file::{upload, UploadHeaders, UploadReceiving};
use sharers::routes::api::v1::url::{create, CreateHeaders};
use sharers::routes::api::v1::{max_views, AnyhowError, Error};
use sharers::routes::get::{get_hash as serve_hash, index, FileFound, HashRoute};
use sharers::routes::{get_hash, AttachmentFound, HashLookup, HeaderField, JsonBody, Reply};
use sharers::routes::get::route_by_extension;
use sharers::routes::lookup_by_extension;
use sharers::routes::api::v1::accept_token;
use sharers::modules::mime::MimeType;
use sharers::routes::api::v1::file::upload_name_gen;

const TOKEN: &str = "550e8400-e29b-41d4-a716-446655440000";
const TOKEN_ID: u128 = 0x550e8400e29b41d4a716446655440000;

fn text(s: &str) -> HeaderField {
    HeaderField::Text(s.to_string())
}

fn token() -> Token {
    Token { id: TokenId(TOKEN_ID), user_id: UserId(7), expires: None, created_at: 0 }
}

fn file(mime: Option<&str>, original: Option<&str>) -> File {
    File {
        id: FileId(0x67e5504410b1426f9247bb680e5fe0c8),
        name: "AbCdEfGhIj.html".to_string(),
        original_name: original.map(|s| s.to_string()),
        mime: mime.map(|s| s.to_string()),
        views: 0,
        max_views: None,
        is_processing: false,
        user_id: UserId(7),
        created_at: 0,
    }
}

fn url() -> Url {
    Url {
        id: UrlId(3),
        name: "AbCdEfGhIj".to_string(),
        destination: "https://example.com/".to_string(),
        views: 1,
        max_views: Some(5),
        user_id: UserId(7),
        created_at: 0,
    }
}

fn assert_text(r: &Reply, status: u16, body: &str) {
    match r {
        Reply::Text { status: s, text } => {
            assert_eq!(*s, status);
            assert_eq!(text, body);
        }
        _ => panic!("expected a text reply"),
    }
}

fn assert_error(r: &Reply, code: u16, status: &str, message: &str) {
    match r {
        Reply::Json { status: s, body: JsonBody::Error(e) } => {
            assert_eq!(*s, code);
            assert_eq!(e.status, status);
            assert_eq!(e.message, message);
        }
        _ => panic!("expected a JSON error reply"),
    }
}

fn headers_of(r: &Reply) -> Vec<(String, String)> {
    match r {
        Reply::Content { headers, .. } => headers.clone(),
        _ => panic!("expected content"),
    }
}

#[test]
fn paths_that_climb_are_refused() {
    match serve_hash("../secret.txt".to_string()) {
        HashRoute::Reply(r) => assert_text(&r, 400, "Bad request"),
        _ => panic!("expected a refusal"),
    }
    match serve_hash("a..b".to_string()) {
        HashRoute::Reply(r) => assert_text(&r, 400, "Bad request"),
        _ => panic!("expected a refusal"),
    }
}

#[test]
fn names_with_an_extension_are_files() {
    match serve_hash("AbCdEfGhIj.png".to_string()) {
        HashRoute::File(f) => assert_eq!(f.hash(), "AbCdEfGhIj.png"),
        _ => panic!("expected a file lookup"),
    }
    match serve_hash("AbCdEfGhIj".to_string()) {
        HashRoute::Url(u) => assert_eq!(u.hash(), "AbCdEfGhIj"),
        _ => panic!("expected a link lookup"),
    }
    match serve_hash(".hidden".to_string()) {
        HashRoute::Url(_) => {}
        _ => panic!("a leading dot is no extension"),
    }
}

#[test]
fn missing_or_failed_file_lookups_are_not_found() {
    for found in [Ok(None), Err("db down".to_string())] {
        let f = match serve_hash("x.png".to_string()) {
            HashRoute::File(f) => f,
            _ => panic!(),
        };
        match f.on_lookup(found) {
            FileFound::Reply(r) => assert_text(&r, 404, "Not found"),
            FileFound::Fetch(_) => panic!("expected 404"),
        }
    }
}

fn fetch_for(f: File) -> sharers::routes::get::FileFetch {
    let l = match serve_hash("x.html".to_string()) {
        HashRoute::File(l) => l,
        _ => panic!(),
    };
    match l.on_lookup(Ok(Some(f))) {
        FileFound::Fetch(x) => x,
        FileFound::Reply(_) => panic!("expected a fetch"),
    }
}

#[test]
fn html_is_only_offered_as_download() {
    let x = fetch_for(file(Some("text/html"), Some("page.html")));
    assert_eq!(x.key(), "67e55044-10b1-426f-9247-bb680e5fe0c8");
    let served = x.on_fetch(Ok(b"<html>hi</html>".to_vec()));
    assert_eq!(served.count_view, Some(FileId(0x67e5504410b1426f9247bb680e5fe0c8)));
    assert_eq!(
        headers_of(&served.reply),
        vec![
            ("content-type".to_string(), "text/html".to_string()),
            ("content-disposition".to_string(), "attachment; filename=\"page.html\"".to_string()),
        ]
    );
    let x = fetch_for(file(Some("text/javascript"), None));
    let served = x.on_fetch(Ok(b"alert(1);  ".to_vec()));
    assert_eq!(
        headers_of(&served.reply)[1],
        ("content-disposition".to_string(), "attachment; filename=\"AbCdEfGhIj.html\"".to_string())
    );
}

#[test]
fn other_types_are_served_inline() {
    let x = fetch_for(file(Some("image/png"), None));
    let served = x.on_fetch(Ok(vec![0u8; 16]));
    assert_eq!(headers_of(&served.reply), vec![("content-type".to_string(), "image/png".to_string())]);
    match served.reply {
        Reply::Content { bytes, .. } => assert_eq!(bytes, vec![0u8; 16]),
        _ => panic!(),
    }
}

#[test]
fn unrecorded_type_is_sniffed_from_the_content() {
    let x = fetch_for(file(None, None));
    let mut png = vec![0x89, 0x50, 0x4E, 0x47, 0x0D, 0x0A, 0x1A, 0x0A, 0, 0];
    png.extend_from_slice(&[1, 2, 3]);
    let served = x.on_fetch(Ok(png));
    assert_eq!(headers_of(&served.reply), vec![("content-type".to_string(), "image/png".to_string())]);
    let x = fetch_for(file(None, None));
    let served = x.on_fetch(Ok(vec![0u8; 10]));
    assert_eq!(
        headers_of(&served.reply),
        vec![("content-type".to_string(), "application/octet-stream".to_string())]
    );
}

#[test]
fn failed_fetch_is_not_found_and_not_counted() {
    let x = fetch_for(file(Some("image/png"), None));
    let served = x.on_fetch(Err("no such object".to_string()));
    assert_text(&served.reply, 404, "Not found");
    assert_eq!(served.count_view, None);
}

#[test]
fn links_redirect_and_count() {
    let u = match serve_hash("AbCdEfGhIj".to_string()) {
        HashRoute::Url(u) => u,
        _ => panic!(),
    };
    let served = u.on_lookup(Ok(Some(url())));
    match served.reply {
        Reply::Redirect(l) => assert_eq!(l, "https://example.com/"),
        _ => panic!("expected a redirect"),
    }
    assert_eq!(served.count_view, Some(UrlId(3)));
    let u = match serve_hash("Nope".to_string()) {
        HashRoute::Url(u) => u,
        _ => panic!(),
    };
    let served = u.on_lookup(Ok(None));
    assert_text(&served.reply, 404, "Not found");
    assert_eq!(served.count_view, None);
}

#[test]
fn first_handler_offers_every_file_as_download() {
    match get_hash("../x".to_string()) {
        HashLookup::Url(_) => {}
        HashLookup::File(_) => panic!("no extension"),
    }
    let l = match get_hash("a.png".to_string()) {
        HashLookup::File(l) => l,
        HashLookup::Url(_) => panic!("expected a file"),
    };
    let x = match l.on_lookup(Ok(Some(file(None, None)))) {
        AttachmentFound::Fetch(x) => x,
        AttachmentFound::Reply(_) => panic!(),
    };
    let r = x.on_fetch(Ok(vec![1, 2]));
    assert_eq!(
        headers_of(&r),
        vec![
            ("content-type".to_string(), "application/octet-stream".to_string()),
            ("content-disposition".to_string(), "attachment; filename=\"AbCdEfGhIj.html\"".to_string()),
        ]
    );
}

#[test]
fn error_replies() {
    assert_error(&Error::unauthorized("no".to_string()), 401, "Unauthorized", "no");
    assert_error(&Error::bad_request("bad".to_string()), 400, "Bad Request", "bad");
    assert_error(&Error::internal_server_error("x".to_string()), 500, "Internal Server Error", "x");
    let r = AnyhowError("Can't generate new unique name!".to_string()).into_response();
    assert_error(&r, 500, "Internal Server Error", "Something went wrong: Can't generate new unique name!");
}

#[test]
fn max_views_zero_or_garbage_means_unlimited() {
    assert_eq!(max_views(&HeaderField::Absent), None);
    assert_eq!(max_views(&HeaderField::Unreadable), None);
    assert_eq!(max_views(&text("0")), None);
    assert_eq!(max_views(&text("ten")), None);
    assert_eq!(max_views(&text("3")), Some(3));
    assert_eq!(max_views(&text("-2")), Some(-2));
}

fn upload_headers(token: HeaderField) -> UploadHeaders {
    UploadHeaders {
        token,
        original_name: text("cat.png"),
        max_views: text("5"),
        custom_name: HeaderField::Absent,
    }
}

#[test]
fn upload_without_token_is_unauthorized() {
    let r = upload(upload_headers(HeaderField::Absent)).err().unwrap();
    assert_error(&r, 401, "Unauthorized", "No token provided");
}

#[test]
fn upload_with_malformed_token_is_bad_request() {
    let r = upload(upload_headers(text("nope"))).err().unwrap();
    assert_error(&r, 400, "Bad Request", "Invalid token provided");
    let r = upload(upload_headers(HeaderField::Unreadable)).err().unwrap();
    assert_error(&r, 400, "Bad Request", "Invalid token provided");
}

#[test]
fn upload_with_unknown_token_is_unauthorized() {
    let a = upload(upload_headers(text(TOKEN))).ok().unwrap();
    assert_eq!(a.token_id(), TokenId(TOKEN_ID));
    let r = a.on_token(None).err().unwrap();
    assert_error(&r, 401, "Unauthorized", "No valid token provided");
}

#[test]
fn upload_without_file_field_is_bad_request() {
    let a = upload(upload_headers(text(TOKEN))).ok().unwrap();
    let mut body = a.on_token(Some(token())).ok().unwrap();
    assert!(!UploadReceiving::wants_field(&Some("other".to_string())));
    assert!(!UploadReceiving::wants_field(&None));
    assert!(UploadReceiving::wants_field(&Some("file".to_string())));
    let _ = &mut body;
    let r = body.finish().err().unwrap();
    assert_error(&r, 400, "Bad Request", "Could not found 'file' on multipart body");
}

#[test]
fn upload_records_stores_and_links() {
    let a = upload(upload_headers(text(TOKEN))).ok().unwrap();
    let mut body = a.on_token(Some(token())).ok().unwrap();
    body.on_file(vec![9u8; 20]);
    let mut png = vec![0x89, 0x50, 0x4E, 0x47, 0x0D, 0x0A, 0x1A, 0x0A, 0, 0, 0, 0x0D];
    png.extend_from_slice(b"IHDR");
    body.on_file(png.clone());
    let (naming, action) = body.finish().ok().unwrap();
    assert!(naming.is_searching());
    let first = match action {
        NameAction::Check { name, query } => {
            assert_eq!(query, "SELECT * FROM files f WHERE f.name = $1");
            name
        }
        NameAction::Done(_) => panic!(),
    };
    assert!(first.ends_with(".png"));
    let (naming, done) = naming.on_lookup(NameLookup::Free);
    let name = match done {
        NameAction::Done(Ok(n)) => n,
        _ => panic!(),
    };
    assert_eq!(name, first);
    assert!(naming.has_name());
    let recording = naming.on_name();
    let req = recording.file_request();
    assert_eq!(req.name, name);
    assert_eq!(req.original_name.as_deref(), Some("cat.png"));
    assert_eq!(req.mime.as_deref(), Some("image/png"));
    assert_eq!(req.max_views, Some(5));
    assert_eq!(req.user_id, UserId(7));
    let id = FileId(0x67e5504410b1426f9247bb680e5fe0c8);
    let (storing, job) = recording.on_recorded(id);
    assert_eq!(job.key, "67e55044-10b1-426f-9247-bb680e5fe0c8");
    assert_eq!(job.bytes, png);
    let marking = storing.on_stored();
    assert_eq!(marking.processing_update(), (id, false));
    let reply = marking.on_marked().on_base_url("https://share.example".to_string());
    match reply {
        Reply::Json { status: 200, body: JsonBody::Upload(u) } => {
            assert_eq!(u.status, "ok");
            assert_eq!(u.link, format!("https://share.example/{}", name));
        }
        _ => panic!("expected the link"),
    }
}

#[test]
fn upload_custom_name_wins() {
    let mut h = upload_headers(text(TOKEN));
    h.custom_name = text("my-cat.png");
    h.original_name = HeaderField::Unreadable;
    h.max_views = text("0");
    let a = upload(h).ok().unwrap();
    let mut body = a.on_token(Some(token())).ok().unwrap();
    body.on_file(vec![0u8; 12]);
    let (naming, _action) = body.finish().ok().unwrap();
    let (naming, _done) = naming.on_lookup(NameLookup::Free);
    let recording = naming.on_name();
    let req = recording.file_request();
    assert_eq!(req.name, "my-cat.png");
    assert_eq!(req.original_name.as_deref(), Some(""));
    assert_eq!(req.mime.as_deref(), Some("application/octet-stream"));
    assert_eq!(req.max_views, None);
}

fn create_headers(destination: HeaderField) -> CreateHeaders {
    CreateHeaders {
        token: text(TOKEN),
        max_views: HeaderField::Absent,
        destination,
        custom_name: HeaderField::Absent,
    }
}

#[test]
fn create_without_token_is_unauthorized() {
    let mut h = create_headers(text("https://example.com"));
    h.token = HeaderField::Absent;
    let r = create(h).err().unwrap();
    assert_error(&r, 401, "Unauthorized", "No token provided");
}

#[test]
fn create_without_destination_is_bad_request() {
    for d in [HeaderField::Absent, HeaderField::Unreadable, text("   ")] {
        let a = create(create_headers(d)).ok().unwrap();
        let r = a.on_token(Some(token())).err().unwrap();
        assert_error(&r, 400, "Bad Request", "No destination provided");
    }
    let a = create(create_headers(HeaderField::Absent)).ok().unwrap();
    let r = a.on_token(None).err().unwrap();
    assert_error(&r, 401, "Unauthorized", "No valid token provided");
}

#[test]
fn create_records_trimmed_destination_and_links() {
    let mut h = create_headers(text("  https://example.com/x \t"));
    h.max_views = text("2");
    let a = create(h).ok().unwrap();
    let (naming, action) = a.on_token(Some(token())).ok().unwrap();
    match action {
        NameAction::Check { name, query } => {
            assert_eq!(query, "SELECT * FROM url u WHERE u.name = $1");
            assert_eq!(name.len(), 10);
        }
        NameAction::Done(_) => panic!(),
    }
    let (naming, second) = naming.on_lookup(NameLookup::Taken);
    assert!(matches!(second, NameAction::Check { .. }));
    let (naming, done) = naming.on_lookup(NameLookup::Free);
    let name = match done {
        NameAction::Done(Ok(n)) => n,
        _ => panic!(),
    };
    assert!(naming.has_name());
    let recording = naming.on_name();
    let req = recording.url_request();
    assert_eq!(req.destination, "https://example.com/x");
    assert_eq!(req.max_views, Some(2));
    assert_eq!(req.name, name);
    let reply = recording.on_recorded().on_base_url("http://s".to_string());
    match reply {
        Reply::Json { status: 200, body: JsonBody::Upload(u) } => assert_eq!(u.link, format!("http://s/{}", name)),
        _ => panic!(),
    }
}

#[test]
fn index_counts_default_to_zero() {
    let p = index(Some(4), None);
    assert_eq!(p.total_files, 4);
    assert_eq!(p.total_urls, 0);
    match p.on_render(Ok("<p>ok</p>".to_string())) {
        Reply::Html(h) => assert_eq!(h, "<p>ok</p>"),
        _ => panic!(),
    }
    let p = index(None, Some(1));
    assert_text(&p.on_render(Err("boom".to_string())), 500, "Internal server error");
}

#[test]
fn count_without_value_is_an_error() {
    assert_eq!(count_result(Some(12)).ok(), Some(12));
    match count_result(None) {
        Err(DatabaseError::Other(m)) => assert_eq!(m, "Unknown error while get count"),
        _ => panic!(),
    }
}

#[test]
fn expired_tokens_are_not_valid() {
    let mut t = token();
    assert!(valid_token(Some(token()), 100).is_some());
    t.expires = Some(50);
    assert!(valid_token(Some(t), 100).is_none());
    let mut t = token();
    t.expires = Some(100);
    assert!(valid_token(Some(t), 100).is_none());
    let mut t = token();
    t.expires = Some(101);
    assert!(valid_token(Some(t), 100).is_some());
    assert!(valid_token(None, 0).is_none());
}

#[test]
fn routing_by_extension_result() {
    assert!(matches!(route_by_extension("a".to_string(), true), HashRoute::File(_)));
    assert!(matches!(route_by_extension("a.b".to_string(), false), HashRoute::Url(_)));
    assert!(matches!(lookup_by_extension("a".to_string(), true), HashLookup::File(_)));
    assert!(matches!(lookup_by_extension("a.b".to_string(), false), HashLookup::Url(_)));
}

#[test]
fn token_acceptance() {
    assert_eq!(accept_token(Some(TokenId(1))).ok(), Some(TokenId(1)));
    assert_error(&accept_token(None).err().unwrap(), 400, "Bad Request", "Invalid token provided");
}

#[test]
fn serving_with_a_sniffed_type() {
    let x = fetch_for(file(None, Some("a.js")));
    let served = x.serve(vec![1, 2, 3], "text/javascript".to_string());
    assert_eq!(
        headers_of(&served.reply),
        vec![
            ("content-type".to_string(), "text/javascript".to_string()),
            ("content-disposition".to_string(), "attachment; filename=\"a.js\"".to_string()),
        ]
    );
    let x = fetch_for(file(Some("image/png"), None));
    let served = x.serve(vec![1], "text/html".to_string());
    assert_eq!(headers_of(&served.reply), vec![("content-type".to_string(), "image/png".to_string())]);
}

#[test]
fn upload_name_search_uses_the_extension() {
    let (_gen, action) = upload_name_gen(&MimeType { mime_type: "image/gif".to_string(), extension: "gif".to_string() });
    match action {
        NameAction::Check { name, .. } => {
            assert_eq!(name.len(), 14);
            assert!(name.ends_with(".gif"));
        }
        NameAction::Done(_) => panic!(),
    }
}
