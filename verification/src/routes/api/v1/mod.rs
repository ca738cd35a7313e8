//! Version 1 of the upload API: error replies, token checks and the request
//! options that both the file and the link endpoint read.
use crate::database::ids::{uuid_parse, TokenId};
use crate::database::models::Token;
use crate::routes::{header_text, HeaderField, JsonBody, JsonView, Reply, ReplyView};
use crate::text::parsed_i64;
use vstd::prelude::*;

pub mod file;
pub mod url;

verus! {

/// The JSON body of an error reply.
pub struct Error {
    pub status: String,
    pub message: String,
}

/// The JSON body of a successful upload or link creation.
pub struct UploadResponse {
    pub status: String,
    pub link: String,
}

/// An error reply with the given status code and status text.
pub open spec fn error_reply(code: u16, status: Seq<char>, message: Seq<char>) -> ReplyView {
    ReplyView::Json { status: code, body: JsonView::Error { status, message } }
}

impl Error {
    /// `401 Unauthorized` with `message`.
    pub fn unauthorized(message: String) -> (res: Reply)
        ensures
            res@ == error_reply(401, "Unauthorized"@, message@),
    {
        Reply::Json { status: 401, body: JsonBody::Error(Self::unauthorized_json(message)) }
    }

    /// The body of a `401 Unauthorized` reply.
    pub fn unauthorized_json(message: String) -> (res: Error)
        ensures
            res.status@ == "Unauthorized"@,
            res.message@ == message@,
    {
        Error { status: String::from_str("Unauthorized"), message }
    }

    /// `400 Bad Request` with `message`.
    pub fn bad_request(message: String) -> (res: Reply)
        ensures
            res@ == error_reply(400, "Bad Request"@, message@),
    {
        Reply::Json { status: 400, body: JsonBody::Error(Self::bad_request_json(message)) }
    }

    /// The body of a `400 Bad Request` reply.
    pub fn bad_request_json(message: String) -> (res: Error)
        ensures
            res.status@ == "Bad Request"@,
            res.message@ == message@,
    {
        Error { status: String::from_str("Bad Request"), message }
    }

    /// `500 Internal Server Error` with `message`.
    pub fn internal_server_error(message: String) -> (res: Reply)
        ensures
            res@ == error_reply(500, "Internal Server Error"@, message@),
    {
        Reply::Json { status: 500, body: JsonBody::Error(Self::internal_server_error_json(message)) }
    }

    /// The body of a `500 Internal Server Error` reply.
    pub fn internal_server_error_json(message: String) -> (res: Error)
        ensures
            res.status@ == "Internal Server Error"@,
            res.message@ == message@,
    {
        Error { status: String::from_str("Internal Server Error"), message }
    }
}

/// A failure while handling a request, held as the debug text of the error.
pub struct AnyhowError(pub String);

/// The reply to a request that failed with the error whose debug text is
/// `debug`.
pub open spec fn failure_reply(debug: Seq<char>) -> ReplyView {
    error_reply(500, "Internal Server Error"@, "Something went wrong: "@ + debug)
}

impl AnyhowError {
    /// `500 Internal Server Error`, saying what went wrong.
    pub fn into_response(self) -> (res: Reply)
        ensures
            res@ == failure_reply(self.0@),
    {
        let mut message = String::from_str("Something went wrong: ");
        message.append(self.0.as_str());
        Error::internal_server_error(message)
    }
}

/// The token a request presents in its token header, or the reply that
/// refuses it: `401` without the header, `400` when its value is no UUID.
pub open spec fn token_answer(token: HeaderField) -> Result<TokenId, ReplyView> {
    match header_text(token, Seq::empty()) {
        None => Err(error_reply(401, "Unauthorized"@, "No token provided"@)),
        Some(t) => match uuid_parse(t) {
            Some(v) => Ok(TokenId(v)),
            None => Err(error_reply(400, "Bad Request"@, "Invalid token provided"@)),
        },
    }
}

/// The view of a step's outcome: the value, or the reply that ends the
/// request.
pub open spec fn outcome_view<T>(r: Result<T, Reply>) -> Result<T, ReplyView> {
    match r {
        Ok(t) => Ok(t),
        Err(e) => Err(e@),
    }
}

/// Reads the token of a request.
pub fn authenticate(token: &HeaderField) -> (res: Result<TokenId, Reply>)
    ensures
        outcome_view(res) == token_answer(*token),
{
    let text = match token {
        HeaderField::Absent => {
            return Err(Error::unauthorized(String::from_str("No token provided")));
        },
        HeaderField::Unreadable => "",
        HeaderField::Text(t) => t.as_str(),
    };
    proof {
        reveal_strlit("");
        assert(text@ =~= header_text(*token, Seq::empty())->0);
    }
    accept_token(TokenId::parse(text))
}

/// Accepts a token that reads as a UUID; refuses the request with `400`
/// otherwise.
pub fn accept_token(parsed: Option<TokenId>) -> (res: Result<TokenId, Reply>)
    ensures
        parsed matches Some(t) ==> res == Ok::<TokenId, Reply>(t),
        parsed is None ==> (res matches Err(r) && r@ == error_reply(
            400,
            "Bad Request"@,
            "Invalid token provided"@,
        )),
{
    match parsed {
        Some(id) => Ok(id),
        None => Err(Error::bad_request(String::from_str("Invalid token provided"))),
    }
}

/// Accepts the token that the database found valid, or refuses the request
/// with `401` when it found none.
pub fn require_token(found: Option<Token>) -> (res: Result<Token, Reply>)
    ensures
        found matches Some(t) ==> res == Ok::<Token, Reply>(t),
        found is None ==> (res matches Err(r) && r@ == error_reply(
            401,
            "Unauthorized"@,
            "No valid token provided"@,
        )),
{
    match found {
        Some(t) => Ok(t),
        None => Err(Error::unauthorized(String::from_str("No valid token provided"))),
    }
}

/// The view limit a request asks for in its max-views header: the number
/// it holds, where `0`, text that is no `i64`, and a value that is not
/// text all mean no limit.
pub open spec fn view_limit(h: HeaderField) -> Option<i64> {
    match header_text(h, "0"@) {
        None => None,
        Some(t) => match parsed_i64(t) {
            Some(v) => if v == 0 {
                None
            } else {
                Some(v)
            },
            None => None,
        },
    }
}

/// Reads the view limit of a request.
pub fn max_views(h: &HeaderField) -> (res: Option<i64>)
    ensures
        res == view_limit(*h),
{
    let n = match h {
        HeaderField::Absent => {
            return None;
        },
        HeaderField::Unreadable => 0,
        HeaderField::Text(t) => match crate::text::parse_i64(t.as_str()) {
            Some(v) => v,
            None => 0,
        },
    };
    proof {
        if *h is Unreadable {
            reveal_strlit("0");
            assert(parsed_i64("0"@) == Some(0i64)) by {
                let z = seq!['0'];
                assert("0"@ =~= z);
                assert(crate::text::all_digits(z));
                assert(z.drop_last() =~= Seq::<char>::empty());
                assert(crate::text::digits_value(z) == crate::text::digits_value(z.drop_last()) * 10 + (z.last() as int - '0' as int));
                assert(crate::text::digits_value(z) == 0);
                assert(crate::text::integer_text(z) == Some(0int));
            }
        }
    }
    if n == 0 {
        None
    } else {
        Some(n)
    }
}

/// The original file name a request gives in its header (empty when the
/// value is not text).
pub open spec fn given_original_name(h: HeaderField) -> Option<Seq<char>> {
    header_text(h, Seq::empty())
}

/// Reads the original file name of a request.
pub fn original_name(h: &HeaderField) -> (res: Option<String>)
    ensures
        res.deep_view() == given_original_name(*h),
{
    match h {
        HeaderField::Absent => None,
        HeaderField::Unreadable => Some(String::new()),
        HeaderField::Text(t) => Some(t.clone()),
    }
}

/// The name a record is stored under: the custom name the request gives as
/// text, else the generated one.
pub open spec fn chosen_name(custom: HeaderField, generated: Seq<char>) -> Seq<char> {
    match custom {
        HeaderField::Text(s) => s@,
        _ => generated,
    }
}

/// Picks the name a record is stored under.
pub fn choose_name(custom: HeaderField, generated: String) -> (res: String)
    ensures
        res@ == chosen_name(custom, generated@),
{
    match custom {
        HeaderField::Text(s) => s,
        _ => generated,
    }
}

/// The link to a record stored under `name`.
pub open spec fn link_to(base: Seq<char>, name: Seq<char>) -> Seq<char> {
    base + "/"@ + name
}

/// The reply to a successful upload or link creation.
pub open spec fn created_reply(base: Seq<char>, name: Seq<char>) -> ReplyView {
    ReplyView::Json { status: 200, body: JsonView::Upload { status: "ok"@, link: link_to(base, name) } }
}

/// The last step of a successful upload or link creation: the record is
/// stored under `name`, and the reply links to it.
pub struct LinkPending {
    name: String,
}

impl LinkPending {
    /// The name the record is stored under.
    pub closed spec fn name(&self) -> Seq<char> {
        self.name@
    }

    pub fn new(name: String) -> (res: LinkPending)
        ensures
            res.name() == name@,
    {
        LinkPending { name }
    }

    /// Replies `200` with the link under the service's base URL `base`.
    pub fn on_base_url(self, base: String) -> (res: Reply)
        ensures
            res@ == created_reply(base@, self.name()),
    {
        let mut link = base;
        link.append("/");
        link.append(self.name.as_str());
        Reply::Json {
            status: 200,
            body: JsonBody::Upload(UploadResponse { status: String::from_str("ok"), link }),
        }
    }
}

/// A max-views header whose text reads as a nonzero `i64` `n` asks for at
/// most `n` views, whatever `n` is; text that reads as `0`, text that is no
/// `i64`, and an absent header ask for no limit.
pub proof fn law_view_limit_is_the_number(s: String, n: i64)
    ensures
        parsed_i64(s@) == Some(n) && n != 0 ==> view_limit(HeaderField::Text(s)) == Some(n),
        parsed_i64(s@) == Some(0i64) ==> view_limit(HeaderField::Text(s)) is None,
        parsed_i64(s@) is None ==> view_limit(HeaderField::Text(s)) is None,
        view_limit(HeaderField::Absent) is None,
{
}

/// A custom name given as text is the name a record is stored under,
/// whatever its length or content; without one, the generated name is used.
pub proof fn law_custom_name_is_kept(s: String, generated: Seq<char>)
    ensures
        chosen_name(HeaderField::Text(s), generated) == s@,
        chosen_name(HeaderField::Absent, generated) == generated,
        chosen_name(HeaderField::Unreadable, generated) == generated,
{
}

} // verus!
