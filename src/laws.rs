use vstd::prelude::*;
use vstd::utf8::encode_utf8;

use crate::dispatch::{
    bad_request, spec_dispatch, spec_respond, Action, ResponseView, STATUS_BAD_REQUEST,
    STATUS_OK,
};
use crate::json::{
    is_json_string, lemma_encode_utf8_concat, lemma_quote_text_is_json_string, quote_text,
    spec_not_found_body, spec_not_found_text,
};
use crate::route::{lemma_route_of_path, spec_route, Operation};

verus! {

/// A request on the path of an operation, with a body that was read, calls
/// exactly that operation, once, on exactly those bytes, and no other.
pub proof fn lemma_known_path_invokes(op: Operation, body: Seq<u8>)
    ensures
        spec_dispatch(op.spec_path(), Some(body)) == Action::Invoke(op, body),
{
    lemma_route_of_path(op);
}

/// A request on any other path calls no operation and is answered with the
/// not-found error, which holds the path as a JSON string.
pub proof fn lemma_unknown_path_not_found(path: Seq<char>, body: Seq<u8>)
    requires
        spec_route(path) is None,
    ensures
        spec_dispatch(path, Some(body)) == Action::Reply(
            ResponseView { status: STATUS_OK, body: spec_not_found_body(path) },
        ),
        ({
            let head = "{"@ + quote_text("error"@) + ":"@ + quote_text("not_found"@) + ","@
                + quote_text("path"@) + ":"@;
            let start = encode_utf8(head).len() as int;
            let q = encode_utf8(quote_text(path));
            spec_not_found_body(path).subrange(start, start + q.len() as int) == q
        }),
{
    let head = "{"@ + quote_text("error"@) + ":"@ + quote_text("not_found"@) + ","@ + quote_text(
        "path"@,
    ) + ":"@;
    let q = quote_text(path);
    assert(spec_not_found_text(path) =~= head + q + "}"@);
    lemma_encode_utf8_concat(head + q, "}"@);
    lemma_encode_utf8_concat(head, q);
    let b = encode_utf8(head) + encode_utf8(q) + encode_utf8("}"@);
    assert(b.subrange(encode_utf8(head).len() as int, encode_utf8(head).len() + encode_utf8(q).len() as int) =~= encode_utf8(q));
}

/// The not-found error is the UTF-8 encoding of a JSON object with two
/// members, `error` and `path`, whose keys and values are JSON strings.
pub proof fn lemma_not_found_body_is_json_object(path: Seq<char>)
    ensures
        spec_not_found_body(path) == encode_utf8(
            seq!['{'] + quote_text("error"@) + seq![':'] + quote_text("not_found"@) + seq![',']
                + quote_text("path"@) + seq![':'] + quote_text(path) + seq!['}'],
        ),
        is_json_string(quote_text("error"@)),
        is_json_string(quote_text("not_found"@)),
        is_json_string(quote_text("path"@)),
        is_json_string(quote_text(path)),
{
    reveal_strlit("{");
    reveal_strlit(":");
    reveal_strlit(",");
    reveal_strlit("}");
    assert(spec_not_found_text(path) =~= seq!['{'] + quote_text("error"@) + seq![':']
        + quote_text("not_found"@) + seq![','] + quote_text("path"@) + seq![':'] + quote_text(
        path,
    ) + seq!['}']);
    lemma_quote_text_is_json_string("error"@);
    lemma_quote_text_is_json_string("not_found"@);
    lemma_quote_text_is_json_string("path"@);
    lemma_quote_text_is_json_string(path);
}

/// A body that could not be read is answered with status 400 and no bytes,
/// and no operation is called.
pub proof fn lemma_read_failure(path: Seq<char>, outcome: Result<Seq<u8>, Seq<u8>>)
    ensures
        spec_dispatch(path, None) == Action::Reply(bad_request()),
        spec_respond(path, None, outcome).status == STATUS_BAD_REQUEST,
        spec_respond(path, None, outcome).body.len() == 0,
{
}

/// The body of a response is empty only where the request's body could not
/// be read; otherwise it is the document of the operation's outcome, success
/// or error alike, or the not-found error object, always under status 200.
pub proof fn lemma_response_body(
    path: Seq<char>,
    body: Option<Seq<u8>>,
    outcome: Result<Seq<u8>, Seq<u8>>,
)
    ensures
        ({
            let resp = spec_respond(path, body, outcome);
            &&& body is None ==> resp == bad_request()
            &&& body is Some ==> resp.status == STATUS_OK
            &&& body is Some && spec_route(path) is Some ==> resp.body == match outcome {
                Ok(v) => v,
                Err(e) => e,
            }
            &&& body is Some && spec_route(path) is None ==> resp.body == spec_not_found_body(
                path,
            )
        }),
{
}

/// Routing and encoding are deterministic: the same request, answered by an
/// operation that returns the same outcome, gets the same response.
pub proof fn lemma_same_request_same_response(
    path1: Seq<char>,
    body1: Option<Seq<u8>>,
    outcome1: Result<Seq<u8>, Seq<u8>>,
    path2: Seq<char>,
    body2: Option<Seq<u8>>,
    outcome2: Result<Seq<u8>, Seq<u8>>,
)
    requires
        path1 == path2,
        body1 == body2,
        outcome1 == outcome2,
    ensures
        spec_dispatch(path1, body1) == spec_dispatch(path2, body2),
        spec_respond(path1, body1, outcome1) == spec_respond(path2, body2, outcome2),
{
}

} // verus!
