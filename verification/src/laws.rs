//! What holds of every request and its reply.
//!
//! A reply is a function of the request alone: [`respond`](crate::http::respond)
//! takes the request and nothing else, and its contract gives the reply as
//! [`reply_for`] of the request. The laws below are stated over `reply_for`,
//! and so hold of every call, in whatever order or number the calls are made.

use crate::handlers::{health_body, lemma_member_of_object, member_of, status_ok};
use crate::http::{reply_for, ContentType, ReplyView, BAD_REQUEST, NOT_FOUND, OK};
use crate::json::escape;
use crate::query::{lemma_name_values_absent, name_key, name_values, QueryError};
use vstd::prelude::*;

verus! {

/// A greeting request that gives `name` once is served, and the member
/// `hello` of the JSON body reads as that very name, whatever characters it
/// holds: quotation marks, reverse solidi and control characters too.
pub proof fn lemma_greeting_reads_back(pairs: Seq<(Seq<char>, Seq<char>)>, name: Seq<char>)
    requires
        name_values(pairs) == seq![name],
    ensures
        reply_for("GET"@, "/hello"@, pairs).status == OK,
        reply_for("GET"@, "/hello"@, pairs).content_type == Some(ContentType::Json),
        member_of(reply_for("GET"@, "/hello"@, pairs).body, "hello"@) == Some(name),
{
    lemma_member_of_object("hello"@, name);
}

/// A greeting request that does not give `name` is the client's error: it is
/// answered with status 400, which is neither a success nor a server error.
pub proof fn lemma_greeting_without_name(pairs: Seq<(Seq<char>, Seq<char>)>)
    requires
        forall|i: int| 0 <= i < pairs.len() ==> (#[trigger] pairs[i]).0 != name_key(),
    ensures
        reply_for("GET"@, "/hello"@, pairs).status == BAD_REQUEST,
        400 <= reply_for("GET"@, "/hello"@, pairs).status < 500,
        reply_for("GET"@, "/hello"@, pairs).body == QueryError::MissingField.text(),
{
    lemma_name_values_absent(pairs);
}

/// A health request is always served, with one and the same body, whatever
/// its query string holds.
pub proof fn lemma_health_is_constant(pairs: Seq<(Seq<char>, Seq<char>)>)
    ensures
        reply_for("GET"@, "/health"@, pairs) == (ReplyView {
            status: OK,
            content_type: Some(ContentType::Json),
            body: "{\"status\":\"OK\"}"@,
        }),
{
    lemma_paths_differ();
    lemma_health_body();
}

/// Two greeting requests are each answered with their own name, and where
/// the names differ, so do the bodies: no reply holds anything of another
/// request.
pub proof fn lemma_greetings_do_not_mix(
    first: Seq<(Seq<char>, Seq<char>)>,
    first_name: Seq<char>,
    second: Seq<(Seq<char>, Seq<char>)>,
    second_name: Seq<char>,
)
    requires
        name_values(first) == seq![first_name],
        name_values(second) == seq![second_name],
    ensures
        member_of(reply_for("GET"@, "/hello"@, first).body, "hello"@) == Some(first_name),
        member_of(reply_for("GET"@, "/hello"@, second).body, "hello"@) == Some(second_name),
        first_name != second_name ==> reply_for("GET"@, "/hello"@, first).body != reply_for(
            "GET"@,
            "/hello"@,
            second,
        ).body,
{
    lemma_greeting_reads_back(first, first_name);
    lemma_greeting_reads_back(second, second_name);
}

/// A request with another method than `GET`, or for another path than the
/// two that are served, is answered with status 404 and no body.
pub proof fn lemma_elsewhere_not_found(
    method: Seq<char>,
    path: Seq<char>,
    pairs: Seq<(Seq<char>, Seq<char>)>,
)
    requires
        method != "GET"@ || (path != "/hello"@ && path != "/health"@),
    ensures
        reply_for(method, path, pairs).status == NOT_FOUND,
        reply_for(method, path, pairs).body.len() == 0,
{
}

/// The two paths that are served are not the same path.
proof fn lemma_paths_differ()
    ensures
        "/hello"@ != "/health"@,
{
    reveal_strlit("/hello");
    reveal_strlit("/health");
    assert("/hello"@.len() != "/health"@.len());
}

/// The body of a health reply, written out.
proof fn lemma_health_body()
    ensures
        health_body(status_ok()) == "{\"status\":\"OK\"}"@,
{
    reveal_strlit("status");
    reveal_strlit("OK");
    reveal_strlit("{\"status\":\"OK\"}");
    reveal_with_fuel(escape, 8);
    let key = "status"@;
    let value = "OK"@;
    assert(key == seq!['s', 't', 'a', 't', 'u', 's']);
    assert(value == seq!['O', 'K']);
    assert(escape(value) == value);
    assert(escape(key) == key);
}

} // verus!
