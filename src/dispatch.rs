use vstd::prelude::*;

use crate::json::{not_found_body, spec_not_found_body};
use crate::route::{route, spec_route, Operation};

verus! {

/// Status of every response whose body was read.
pub const STATUS_OK: u16 = 200;

/// Status of the response to a request whose body could not be read.
pub const STATUS_BAD_REQUEST: u16 = 400;

/// A response on the wire: a status and the body's bytes.
pub struct Response {
    pub status: u16,
    pub body: Vec<u8>,
}

/// The mathematical value of a [`Response`].
pub struct ResponseView {
    pub status: u16,
    pub body: Seq<u8>,
}

impl View for Response {
    type V = ResponseView;

    open spec fn view(&self) -> ResponseView {
        ResponseView { status: self.status, body: self.body@ }
    }
}

/// What the dispatcher asks for next: a call of one domain operation on the
/// request's body, or a response that is already complete.
pub enum Step {
    Invoke(Operation, Vec<u8>),
    Reply(Response),
}

/// The mathematical value of a [`Step`].
pub enum Action {
    Invoke(Operation, Seq<u8>),
    Reply(ResponseView),
}

impl View for Step {
    type V = Action;

    open spec fn view(&self) -> Action {
        match self {
            Step::Invoke(op, body) => Action::Invoke(*op, body@),
            Step::Reply(resp) => Action::Reply(resp@),
        }
    }
}

/// The request body as read, or `None` where reading it failed.
pub open spec fn body_view(body: Option<Vec<u8>>) -> Option<Seq<u8>> {
    match body {
        Some(b) => Some(b@),
        None => None,
    }
}

/// The outcome of a domain operation: its success or error document.
pub open spec fn outcome_view(outcome: Result<Vec<u8>, Vec<u8>>) -> Result<Seq<u8>, Seq<u8>> {
    match outcome {
        Ok(v) => Ok(v@),
        Err(e) => Err(e@),
    }
}

/// The empty response that answers a body that could not be read.
pub open spec fn bad_request() -> ResponseView {
    ResponseView { status: STATUS_BAD_REQUEST, body: Seq::empty() }
}

/// Routes a request: a failed read is answered at once; a known path calls
/// its operation on the body; any other path is answered with the not-found
/// error that names it.
pub open spec fn spec_dispatch(path: Seq<char>, body: Option<Seq<u8>>) -> Action {
    match body {
        None => Action::Reply(bad_request()),
        Some(b) => match spec_route(path) {
            Some(op) => Action::Invoke(op, b),
            None => Action::Reply(
                ResponseView { status: STATUS_OK, body: spec_not_found_body(path) },
            ),
        },
    }
}

/// The response that carries a domain outcome: its document, success and
/// error alike, under the same status.
pub open spec fn spec_complete(outcome: Result<Seq<u8>, Seq<u8>>) -> ResponseView {
    match outcome {
        Ok(v) => ResponseView { status: STATUS_OK, body: v },
        Err(e) => ResponseView { status: STATUS_OK, body: e },
    }
}

/// The response to a request, where `outcome` is what the routed operation
/// returns if one is called.
pub open spec fn spec_respond(
    path: Seq<char>,
    body: Option<Seq<u8>>,
    outcome: Result<Seq<u8>, Seq<u8>>,
) -> ResponseView {
    match spec_dispatch(path, body) {
        Action::Invoke(_, _) => spec_complete(outcome),
        Action::Reply(resp) => resp,
    }
}

/// Decides what a request with the given path and body (`None`: the body
/// could not be read) leads to.
pub fn dispatch(path: &str, body: Option<Vec<u8>>) -> (r: Step)
    ensures
        r@ == spec_dispatch(path@, body_view(body)),
{
    let bytes = match body {
        Some(b) => b,
        None => {
            return Step::Reply(Response { status: STATUS_BAD_REQUEST, body: Vec::new() });
        },
    };
    match route(path) {
        Some(op) => Step::Invoke(op, bytes),
        None => Step::Reply(Response { status: STATUS_OK, body: not_found_body(path) }),
    }
}

/// Turns the outcome of a domain operation into the response.
pub fn complete(outcome: Result<Vec<u8>, Vec<u8>>) -> (r: Response)
    ensures
        r@ == spec_complete(outcome_view(outcome)),
{
    match outcome {
        Ok(doc) => Response { status: STATUS_OK, body: doc },
        Err(doc) => Response { status: STATUS_OK, body: doc },
    }
}

/// Handles one request: routes it, calls `operation` on the routed operation
/// and the body where the path is known, and builds the response.
pub fn handle<F>(path: &str, body: Option<Vec<u8>>, operation: F) -> (r: Response)
    where
        F: Fn(Operation, Vec<u8>) -> Result<Vec<u8>, Vec<u8>>,
    requires
        forall|op: Operation, b: Vec<u8>| operation.requires((op, b)),
    ensures
        match spec_dispatch(path@, body_view(body)) {
            Action::Reply(resp) => r@ == resp,
            Action::Invoke(op, b) => exists|arg: Vec<u8>, out: Result<Vec<u8>, Vec<u8>>|
                #[trigger] operation.ensures((op, arg), out) && arg@ == b
                    && r@ == spec_complete(outcome_view(out)),
        },
{
    match dispatch(path, body) {
        Step::Invoke(op, bytes) => {
            let ghost arg = bytes;
            let out = operation(op, bytes);
            let resp = complete(out);
            assert(operation.ensures((op, arg), out));
            resp
        },
        Step::Reply(resp) => resp,
    }
}

} // verus!
