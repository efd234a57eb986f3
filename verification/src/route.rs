//! The route table and the responses it gives.

use vstd::prelude::*;

use crate::text::text_equal;

verus! {

/// Status of the response to a liveness probe.
pub const STATUS_OK: u16 = 200;

/// Status of the response to a request that no route matches.
pub const STATUS_NOT_FOUND: u16 = 404;

/// What goes back to the client: a status code and, where the handler gave
/// one, a text body. Without a body the response leaves as the HTTP framework
/// sends a bare status.
#[derive(Clone, Copy, Debug, PartialEq, Eq)]
pub struct Response {
    pub status: u16,
    pub body: Option<&'static str>,
}

/// A response as a mathematical value.
pub struct ResponseView {
    pub status: int,
    pub body: Option<Seq<char>>,
}

impl View for Response {
    type V = ResponseView;

    open spec fn view(&self) -> ResponseView {
        ResponseView {
            status: self.status as int,
            body: match self.body {
                Some(text) => Some(text@),
                None => None,
            },
        }
    }
}

/// The body of the liveness response: the two characters `ok`.
pub open spec fn health_body() -> Seq<char> {
    seq!['o', 'k']
}

/// The liveness handler. It reads nothing of the request and returns `ok`.
pub fn healthz() -> (body: &'static str)
    ensures
        body@ == health_body(),
{
    proof {
        reveal_strlit("ok");
    }
    "ok"
}

/// The method of the one route: `GET`, in upper case.
pub open spec fn probe_method() -> Seq<char> {
    seq!['G', 'E', 'T']
}

/// The path of the one route: `/`.
pub open spec fn probe_path() -> Seq<char> {
    seq!['/']
}

/// The route table's one entry: a request is a liveness probe when its
/// method is `GET` and its path is `/`, both exactly.
pub open spec fn is_probe(method: Seq<char>, path: Seq<char>) -> bool {
    method == probe_method() && path == probe_path()
}

/// The response that a request is owed: `200` with `ok` for the probe, a
/// bare `404` for everything else.
pub open spec fn response_for(method: Seq<char>, path: Seq<char>) -> ResponseView {
    if is_probe(method, path) {
        ResponseView { status: 200, body: Some(health_body()) }
    } else {
        ResponseView { status: 404, body: None }
    }
}

/// Looks a request up in the route table: `true` for `GET /` and for nothing
/// else. `path` is the request's path without its query.
pub fn is_probe_request(method: &str, path: &str) -> (hit: bool)
    ensures
        hit == is_probe(method@, path@),
{
    proof {
        reveal_strlit("GET");
        reveal_strlit("/");
    }
    assert("GET"@ =~= probe_method());
    assert("/"@ =~= probe_path());
    text_equal(method, "GET") && text_equal(path, "/")
}

/// Answers a request, given its method and its path.
///
/// `GET /` is answered by [`healthz`] with status `200`. Any other path, and
/// any other method on `/`, gets `404` and no body. The answer depends on
/// these two values alone.
pub fn respond(method: &str, path: &str) -> (response: Response)
    ensures
        response@ == response_for(method@, path@),
        method@ == probe_method() && path@ == probe_path() ==> response.status == 200
            && response@.body == Some(health_body()),
        path@ != probe_path() || method@ != probe_method() ==> response.status == 404
            && response.body is None,
{
    if is_probe_request(method, path) {
        Response { status: STATUS_OK, body: Some(healthz()) }
    } else {
        Response { status: STATUS_NOT_FOUND, body: None }
    }
}

/// Answering is idempotent: whatever [`respond`] returns for a request, it
/// returns the same status and the same body when the request is repeated,
/// however many requests came in between. Nothing is kept from one answer
/// to the next.
pub proof fn lemma_repeated_request_same_response(
    method: Seq<char>,
    path: Seq<char>,
    first: Response,
    again: Response,
)
    requires
        first@ == response_for(method, path),
        again@ == response_for(method, path),
    ensures
        again.status == first.status,
        again@.body == first@.body,
{
}

} // verus!
