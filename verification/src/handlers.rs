//! The two handlers, and the JSON bodies of what they answer.

use crate::json::{
    lemma_parse_string_literal, parse_string_literal, push_string_literal, string_literal,
};
use crate::query::HelloQuery;
use vstd::prelude::*;

verus! {

/// What the greeting handler answers.
#[derive(Debug)]
pub struct HelloResponse {
    /// The name that the request gave.
    pub hello: String,
}

/// What the health handler answers.
#[derive(Debug)]
pub struct HealthResponse {
    /// The state of the service.
    pub status: String,
}

/// The state that a running service reports.
pub open spec fn status_ok() -> Seq<char> {
    "OK"@
}

/// A JSON object with one member, whose value is a string.
pub open spec fn object_with(key: Seq<char>, value: Seq<char>) -> Seq<char> {
    seq!['{'] + string_literal(key) + seq![':'] + string_literal(value) + seq!['}']
}

/// The body for a greeting of `hello`.
pub open spec fn hello_body(hello: Seq<char>) -> Seq<char> {
    object_with("hello"@, hello)
}

/// The body for a service in the state `status`.
pub open spec fn health_body(status: Seq<char>) -> Seq<char> {
    object_with("status"@, status)
}

/// The value of the one member of a JSON object written as [`object_with`]
/// writes it, where `body` is such an object and the member is named `key`.
pub open spec fn member_of(body: Seq<char>, key: Seq<char>) -> Option<Seq<char>> {
    let head = seq!['{'] + string_literal(key) + seq![':'];
    if body.len() > head.len() && body.take(head.len() as int) == head && body.last() == '}' {
        parse_string_literal(body.subrange(head.len() as int, body.len() - 1))
    } else {
        None
    }
}

/// The member of an object with one member reads as the value that the
/// object was written with, whatever characters the value holds.
pub proof fn lemma_member_of_object(key: Seq<char>, value: Seq<char>)
    ensures
        member_of(object_with(key, value), key) == Some(value),
{
    let head = seq!['{'] + string_literal(key) + seq![':'];
    let body = object_with(key, value);
    assert(body == head + string_literal(value) + seq!['}']);
    assert(body.take(head.len() as int) == head);
    assert(body.subrange(head.len() as int, body.len() - 1) == string_literal(value));
    lemma_parse_string_literal(value);
}

/// Greets whom the request names.
pub fn hello(info: HelloQuery) -> (response: HelloResponse)
    ensures
        response.hello@ == info.name@,
{
    HelloResponse { hello: info.name }
}

/// Reports that the service is running.
pub fn health() -> (response: HealthResponse)
    ensures
        response.status@ == status_ok(),
{
    HealthResponse { status: "OK".to_owned() }
}

fn object_json(key: &str, value: &str) -> (body: String)
    ensures
        body@ == object_with(key@, value@),
{
    let mut body = String::new();
    body.push('{');
    push_string_literal(&mut body, key);
    body.push(':');
    push_string_literal(&mut body, value);
    body.push('}');
    body
}

impl HelloResponse {
    /// The response as JSON text.
    pub fn to_json(&self) -> (body: String)
        ensures
            body@ == hello_body(self.hello@),
    {
        object_json("hello", self.hello.as_str())
    }
}

impl HealthResponse {
    /// The response as JSON text.
    pub fn to_json(&self) -> (body: String)
        ensures
            body@ == health_body(self.status@),
    {
        object_json("status", self.status.as_str())
    }
}

} // verus!
