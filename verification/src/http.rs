//! From a request to its reply: the route table, and what each route answers.

use crate::handlers::{health, health_body, hello, hello_body, status_ok};
use crate::query::{query_pairs, read_name, requested_name, HelloQuery, QueryError};
use crate::text::str_eq;
use vstd::prelude::*;

verus! {

/// The status of a reply to a request that was served.
pub const OK: u16 = 200;

/// The status of a reply to a request whose query string could not be read.
pub const BAD_REQUEST: u16 = 400;

/// The status of a reply to a request that no route serves.
pub const NOT_FOUND: u16 = 404;

/// The routes of the service.
#[derive(Clone, Copy, Debug, PartialEq, Eq, Structural)]
pub enum Route {
    /// `GET /hello`
    Hello,
    /// `GET /health`
    Health,
}

/// What kind of text a reply's body is.
#[derive(Clone, Copy, Debug, PartialEq, Eq, Structural)]
pub enum ContentType {
    /// `application/json`
    Json,
    /// `text/plain; charset=utf-8`
    Text,
}

/// What goes back to the client.
#[derive(Debug)]
pub struct Reply {
    /// The HTTP status code.
    pub status: u16,
    /// The kind of the body; `None` where there is no body.
    pub content_type: Option<ContentType>,
    /// The body.
    pub body: String,
}

/// A reply as a plain value.
pub struct ReplyView {
    /// The HTTP status code.
    pub status: u16,
    /// The kind of the body; `None` where there is no body.
    pub content_type: Option<ContentType>,
    /// The characters of the body.
    pub body: Seq<char>,
}

impl View for Reply {
    type V = ReplyView;

    open spec fn view(&self) -> ReplyView {
        ReplyView { status: self.status, content_type: self.content_type, body: self.body@ }
    }
}

/// The route that serves a request, by its method and its path. Both are
/// compared as they stand: a method in another case, or a path with
/// anything more or less in it, has no route.
pub open spec fn route_of(method: Seq<char>, path: Seq<char>) -> Option<Route> {
    if method != "GET"@ {
        None
    } else if path == "/hello"@ {
        Some(Route::Hello)
    } else if path == "/health"@ {
        Some(Route::Health)
    } else {
        None
    }
}

/// The reply to a greeting request, by the name that was read from its query
/// string or the reason why none was.
pub open spec fn hello_reply(name: Result<Seq<char>, QueryError>) -> ReplyView {
    match name {
        Ok(name) => ReplyView {
            status: OK,
            content_type: Some(ContentType::Json),
            body: hello_body(name),
        },
        Err(e) => ReplyView {
            status: BAD_REQUEST,
            content_type: Some(ContentType::Text),
            body: e.text(),
        },
    }
}

/// The reply to a health request.
pub open spec fn health_reply() -> ReplyView {
    ReplyView { status: OK, content_type: Some(ContentType::Json), body: health_body(status_ok()) }
}

/// The reply to a request that no route serves.
pub open spec fn not_found_reply() -> ReplyView {
    ReplyView { status: NOT_FOUND, content_type: None, body: Seq::empty() }
}

/// The reply to a request, by its method, its path and the pairs of its
/// query string.
pub open spec fn reply_for(
    method: Seq<char>,
    path: Seq<char>,
    pairs: Seq<(Seq<char>, Seq<char>)>,
) -> ReplyView {
    match route_of(method, path) {
        Some(Route::Hello) => hello_reply(requested_name(pairs)),
        Some(Route::Health) => health_reply(),
        None => not_found_reply(),
    }
}

impl ContentType {
    /// The value of the `Content-Type` header.
    pub open spec fn mime(self) -> Seq<char> {
        match self {
            ContentType::Json => "application/json"@,
            ContentType::Text => "text/plain; charset=utf-8"@,
        }
    }

    /// The value of the `Content-Type` header.
    pub fn as_str(&self) -> (mime: &'static str)
        ensures
            mime@ == self.mime(),
    {
        match self {
            ContentType::Json => "application/json",
            ContentType::Text => "text/plain; charset=utf-8",
        }
    }
}

/// Finds the route that serves a request.
pub fn route(method: &str, path: &str) -> (found: Option<Route>)
    ensures
        found == route_of(method@, path@),
{
    if !str_eq(method, "GET") {
        None
    } else if str_eq(path, "/hello") {
        Some(Route::Hello)
    } else if str_eq(path, "/health") {
        Some(Route::Health)
    } else {
        None
    }
}

/// Replies to a greeting request whose query string was read: with the
/// greeting where it named someone, and with the reason where it did not.
pub fn reply_to_hello(read: Result<HelloQuery, QueryError>) -> (reply: Reply)
    ensures
        reply@ == hello_reply(read_name(read)),
{
    match read {
        Ok(info) => Reply {
            status: OK,
            content_type: Some(ContentType::Json),
            body: hello(info).to_json(),
        },
        Err(e) => Reply {
            status: BAD_REQUEST,
            content_type: Some(ContentType::Text),
            body: e.message().to_owned(),
        },
    }
}

/// Replies to a health request.
pub fn reply_to_health() -> (reply: Reply)
    ensures
        reply@ == health_reply(),
{
    Reply { status: OK, content_type: Some(ContentType::Json), body: health().to_json() }
}

/// Replies to a request that no route serves.
pub fn not_found() -> (reply: Reply)
    ensures
        reply@ == not_found_reply(),
{
    Reply { status: NOT_FOUND, content_type: None, body: String::new() }
}

/// Replies to a request, given by its method, its path and its query string
/// (what follows the `?`, or the empty string).
pub fn respond(method: &str, path: &str, query: &str) -> (reply: Reply)
    ensures
        reply@ == reply_for(method@, path@, query_pairs(query@)),
        query@.len() == 0 ==> reply@ == reply_for(method@, path@, Seq::empty()),
{
    match route(method, path) {
        Some(Route::Hello) => reply_to_hello(HelloQuery::from_query(query)),
        Some(Route::Health) => reply_to_health(),
        None => not_found(),
    }
}

} // verus!
