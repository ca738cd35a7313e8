//! `POST` of a short link: a token-holding user gives a destination, it is
//! recorded under a fresh (or custom) name, and the reply links to it.
use crate::database::ids::{TokenId, UserId};
use crate::database::models::{Token, UrlRequest};
use crate::modules::random::{
    is_candidate, name_gen, name_query, name_step, DBType, NameAction, NameGen, NameLookup,
};
use crate::routes::api::v1::{
    authenticate, choose_name, chosen_name, error_reply, max_views, require_token, token_answer,
    view_limit, Error, LinkPending,
};
use crate::routes::{header_text, HeaderField, Reply};
use crate::text::{trim, trimmed};
use vstd::prelude::*;

verus! {

/// The request headers a link creation reads.
pub struct CreateHeaders {
    pub token: HeaderField,
    pub max_views: HeaderField,
    pub destination: HeaderField,
    pub custom_name: HeaderField,
}

/// Handles a link creation: reads the token from the headers.  A request
/// without a token is refused with `401`, one whose token is no UUID with
/// `400`; otherwise the token is looked up next.
pub fn create(headers: CreateHeaders) -> (res: Result<CreateAuthorizing, Reply>)
    ensures
        match token_answer(headers.token) {
            Ok(t) => res matches Ok(a) && a.token() == t && a.headers() == headers,
            Err(r) => res matches Err(e) && e@ == r,
        },
{
    match authenticate(&headers.token) {
        Ok(token) => Ok(CreateAuthorizing { token, headers }),
        Err(r) => Err(r),
    }
}

/// Waits for the database to say whether the presented token is valid.
pub struct CreateAuthorizing {
    token: TokenId,
    headers: CreateHeaders,
}

/// The destination a link creation gives: the trimmed text of its header
/// (empty when the value is not text), or `None` when the header is absent.
pub open spec fn given_destination(h: HeaderField) -> Option<Seq<char>> {
    match header_text(h, Seq::empty()) {
        Some(t) => Some(trimmed(t)),
        None => None,
    }
}

/// The name search for a link.
pub open spec fn link_name_search(g: NameGen) -> bool {
    &&& g.length() == 10
    &&& g.target() == DBType::Url
    &&& g.ext() is None
}

impl CreateAuthorizing {
    /// The token to look up.
    pub closed spec fn token(&self) -> TokenId {
        self.token
    }

    /// The headers of the request.
    pub closed spec fn headers(&self) -> CreateHeaders {
        self.headers
    }

    /// The token to look up.
    pub fn token_id(&self) -> (res: TokenId)
        ensures
            res == self.token(),
    {
        self.token
    }

    /// No valid token ends the request with `401`; a missing or empty
    /// destination with `400`.  Otherwise a name for the link is searched
    /// for.
    pub fn on_token(self, found: Option<Token>) -> (res: Result<(CreateNaming, NameAction), Reply>)
        ensures
            found is None ==> (res matches Err(e) && e@ == error_reply(
                401,
                "Unauthorized"@,
                "No valid token provided"@,
            )),
            found is Some && (given_destination(self.headers().destination) matches Some(d)
                ==> d.len() == 0) ==> (res matches Err(e) && e@ == error_reply(
                400,
                "Bad Request"@,
                "No destination provided"@,
            )),
            found matches Some(t) ==> (given_destination(self.headers().destination) matches Some(
                d,
            ) ==> (d.len() > 0 ==> (res matches Ok((n, a)) && n.user() == t.user_id
                && n.destination() == d && n.headers() == self.headers() && link_name_search(
                n.search(),
            ) && n.search().found() is None && (a matches NameAction::Check { name, query }
                && n.search().pending() == Some(name@) && query@ == name_query(DBType::Url))))),
    {
        let token = match require_token(found) {
            Ok(t) => t,
            Err(r) => return Err(r),
        };
        let ghost h = self.headers;
        let limit = max_views(&self.headers.max_views);
        let raw = match &self.headers.destination {
            HeaderField::Absent => {
                return Err(Error::bad_request(String::from_str("No destination provided")));
            },
            HeaderField::Unreadable => "",
            HeaderField::Text(t) => t.as_str(),
        };
        proof {
            reveal_strlit("");
            assert(raw@ =~= header_text(h.destination, Seq::empty())->0);
        }
        let destination = trim(raw);
        if destination.unicode_len() == 0 {
            return Err(Error::bad_request(String::from_str("No destination provided")));
        }
        let (gen, action) = name_gen(10, DBType::Url, None);
        Ok(
            (
                CreateNaming {
                    user_id: token.user_id,
                    max_views: limit,
                    destination,
                    custom_name: self.headers.custom_name,
                    headers: Ghost(h),
                    search: gen,
                },
                action,
            ),
        )
    }
}

/// Waits for the name search of a link.
pub struct CreateNaming {
    user_id: UserId,
    max_views: Option<i64>,
    destination: String,
    custom_name: HeaderField,
    headers: Ghost<CreateHeaders>,
    search: NameGen,
}

impl CreateNaming {
    #[verifier::type_invariant]
    spec fn inv(self) -> bool {
        &&& self.max_views == view_limit(self.headers@.max_views)
        &&& self.custom_name == self.headers@.custom_name
        &&& link_name_search(self.search)
    }

    /// The user the link belongs to.
    pub closed spec fn user(&self) -> UserId {
        self.user_id
    }

    /// Where the link leads.
    pub closed spec fn destination(&self) -> Seq<char> {
        self.destination@
    }

    /// The headers of the request.
    pub closed spec fn headers(&self) -> CreateHeaders {
        self.headers@
    }

    /// The search for the link's name.
    pub closed spec fn search(&self) -> NameGen {
        self.search
    }

    /// Whether a lookup of a candidate name is awaited.
    pub fn is_searching(&self) -> (res: bool)
        ensures
            res == self.search().pending() is Some,
    {
        self.search.is_waiting()
    }

    /// Whether the search has found a free name.
    pub fn has_name(&self) -> (res: bool)
        ensures
            res == self.search().found() is Some,
    {
        self.search.found_name().is_some()
    }

    /// Takes the report of the awaited lookup and says what the search does
    /// next.
    pub fn on_lookup(self, lookup: NameLookup) -> (res: (CreateNaming, NameAction))
        requires
            self.search().pending() is Some,
        ensures
            name_step(self.search(), res.0.search(), lookup, res.1),
            res.0.user() == self.user(),
            res.0.destination() == self.destination(),
            res.0.headers() == self.headers(),
    {
        proof {
            use_type_invariant(&self);
        }
        let mut search = self.search;
        let action = search.step(lookup);
        (
            CreateNaming {
                user_id: self.user_id,
                max_views: self.max_views,
                destination: self.destination,
                custom_name: self.custom_name,
                headers: self.headers,
                search,
            },
            action,
        )
    }

    /// Once the search has found a free name, the link is recorded under the
    /// custom name of the request if it gives one as text, else under the
    /// name found: ten random letters or digits.
    pub fn on_name(self) -> (res: CreateRecording)
        requires
            self.search().found() is Some,
        ensures
            res.request().name@ == chosen_name(self.headers().custom_name, self.search().found()->0),
            is_candidate(self.search().found()->0, 10, None),
            res.request().destination@ == self.destination(),
            res.request().max_views == view_limit(self.headers().max_views),
            res.request().user_id == self.user(),
    {
        proof {
            use_type_invariant(&self);
        }
        let generated = match self.search.found_name() {
            Some(n) => n,
            None => String::new(),
        };
        let name = choose_name(self.custom_name, generated);
        CreateRecording {
            request: UrlRequest {
                name,
                destination: self.destination,
                max_views: self.max_views,
                user_id: self.user_id,
            },
        }
    }
}

/// Waits for the database to record the link.
pub struct CreateRecording {
    request: UrlRequest,
}

impl CreateRecording {
    /// The record to write.
    pub closed spec fn request(&self) -> UrlRequest {
        self.request
    }

    /// The record to write.
    pub fn url_request(&self) -> (res: &UrlRequest)
        ensures
            *res == self.request(),
    {
        &self.request
    }

    /// Once the link is recorded, the reply links to its name.
    pub fn on_recorded(self) -> (res: LinkPending)
        ensures
            res.name() == self.request().name@,
    {
        LinkPending::new(self.request.name)
    }
}

} // verus!
