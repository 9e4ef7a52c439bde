//! The routing table of the service, and the response each request gets.
//!
//! Two routes are registered: `GET /health` and `GET /name/{name}`, where
//! `{name}` stands for one non-empty path segment. A request whose path
//! matches a route but whose method is not `GET` gets the method-not-allowed
//! status; a request whose path matches no route gets the not-found status,
//! as the hosting framework's defaults have it.

use crate::body::{health_body, name_body, spec_health_body, spec_name_body};
use crate::text::str_eq;
use vstd::prelude::*;
use vstd::string::*;

verus! {

/// A response as the service hands it to the hosting framework: a status
/// code, an optional content type, and a body.
pub struct Response {
    pub status: u16,
    pub content_type: Option<String>,
    pub body: String,
}

/// The mathematical model of a `Response`.
#[verifier::ext_equal]
pub ghost struct ResponseModel {
    pub status: u16,
    pub content_type: Option<Seq<char>>,
    pub body: Seq<char>,
}

impl View for Response {
    type V = ResponseModel;

    open spec fn view(&self) -> ResponseModel {
        ResponseModel {
            status: self.status,
            content_type: match self.content_type {
                Some(ct) => Some(ct@),
                None => None,
            },
            body: self.body@,
        }
    }
}

/// The path of the health route.
pub open spec fn spec_health_path() -> Seq<char> {
    "/health"@
}

/// The fixed part of the greeting route's path, up to the parameter segment.
pub open spec fn spec_name_prefix() -> Seq<char> {
    "/name/"@
}

/// The content type of both endpoints' responses.
pub open spec fn spec_json_content_type() -> Seq<char> {
    "application/json"@
}

/// The parameter a path gives to the greeting route: the non-empty remainder
/// after the fixed prefix, provided it holds no further slash (it must be one
/// whole segment); `None` where the path does not match the route.
pub open spec fn spec_name_param(path: Seq<char>) -> Option<Seq<char>> {
    let pre_len = spec_name_prefix().len() as int;
    if path.len() > pre_len && path.subrange(0, pre_len) == spec_name_prefix() && (forall|i: int|
        pre_len <= i < path.len() ==> path[i] != '/')
    {
        Some(path.subrange(pre_len, path.len() as int))
    } else {
        None
    }
}

/// True when the path matches some registered route's path pattern.
pub open spec fn spec_path_registered(path: Seq<char>) -> bool {
    path == spec_health_path() || spec_name_param(path) is Some
}

/// The response the service gives to a request, by method and path.
pub open spec fn spec_handle_request(method: Seq<char>, path: Seq<char>) -> ResponseModel {
    if method == "GET"@ && path == spec_health_path() {
        ResponseModel {
            status: 200,
            content_type: Some(spec_json_content_type()),
            body: spec_health_body(),
        }
    } else if method == "GET"@ && spec_name_param(path) is Some {
        ResponseModel {
            status: 200,
            content_type: Some(spec_json_content_type()),
            body: spec_name_body(spec_name_param(path)->Some_0),
        }
    } else if spec_path_registered(path) {
        ResponseModel { status: 405, content_type: None, body: Seq::empty() }
    } else {
        ResponseModel { status: 404, content_type: None, body: Seq::empty() }
    }
}

/// Extracts the greeting route's parameter from a path.
#[verifier::loop_isolation(false)]
pub fn name_param<'a>(path: &'a str) -> (r: Option<&'a str>)
    ensures
        match r {
            Some(p) => spec_name_param(path@) == Some(p@),
            None => spec_name_param(path@) is None,
        },
{
    proof {
        reveal_strlit("/name/");
    }
    let len = path.unicode_len();
    if len <= 6 {
        return None;
    }
    let head = path.substring_char(0, 6);
    if !str_eq(head, "/name/") {
        return None;
    }
    let rest = path.substring_char(6, len);
    let rest_len = rest.unicode_len();
    let mut i: usize = 0;
    while i < rest_len
        invariant
            forall|j: int| 0 <= j < i ==> rest@[j] != '/',
        decreases rest_len - i,
    {
        if rest.get_char(i) == '/' {
            proof {
                assert(path@[6 + i] == rest@[i as int]);
            }
            return None;
        }
        i = i + 1;
    }
    proof {
        assert forall|k: int| 6 <= k < path@.len() implies path@[k] != '/' by {
            assert(path@[k] == rest@[k - 6]);
        }
    }
    Some(rest)
}

/// Builds a successful JSON response.
fn json_ok(body: String) -> (r: Response)
    ensures
        r@ == (ResponseModel {
            status: 200,
            content_type: Some(spec_json_content_type()),
            body: body@,
        }),
{
    Response { status: 200, content_type: Some(String::from_str("application/json")), body }
}

/// Builds a response that carries a status code alone, as the framework's
/// default error responses do.
fn status_only(status: u16) -> (r: Response)
    ensures
        r@ == (ResponseModel { status: status, content_type: None, body: Seq::empty() }),
{
    Response { status, content_type: None, body: String::new() }
}

/// Dispatches a request to the registered routes and returns the response.
pub fn handle_request(method: &str, path: &str) -> (r: Response)
    ensures
        r@ == spec_handle_request(method@, path@),
{
    let get = str_eq(method, "GET");
    if str_eq(path, "/health") {
        if get {
            json_ok(health_body())
        } else {
            status_only(405)
        }
    } else {
        match name_param(path) {
            Some(nm) => {
                if get {
                    json_ok(name_body(nm))
                } else {
                    status_only(405)
                }
            },
            None => status_only(404),
        }
    }
}

/// A request whose path matches no registered route gets the not-found
/// status, whatever its method.
pub proof fn lemma_unknown_path_not_found(method: Seq<char>, path: Seq<char>)
    requires
        !spec_path_registered(path),
    ensures
        spec_handle_request(method, path).status == 404,
        spec_handle_request(method, path).body == Seq::<char>::empty(),
{
}

/// A request whose path matches a registered route but whose method is not
/// `GET` gets the method-not-allowed status.
pub proof fn lemma_wrong_method_not_allowed(method: Seq<char>, path: Seq<char>)
    requires
        method != "GET"@,
        spec_path_registered(path),
    ensures
        spec_handle_request(method, path).status == 405,
        spec_handle_request(method, path).body == Seq::<char>::empty(),
{
}

/// A `GET` of the greeting route with any non-empty, slash-free parameter
/// succeeds, and its body embeds the parameter unchanged.
pub proof fn lemma_name_route(name: Seq<char>)
    requires
        name.len() > 0,
        forall|i: int| 0 <= i < name.len() ==> name[i] != '/',
    ensures
        spec_handle_request("GET"@, spec_name_prefix() + name) == (ResponseModel {
            status: 200,
            content_type: Some(spec_json_content_type()),
            body: spec_name_body(name),
        }),
{
    reveal_strlit("/name/");
    reveal_strlit("/health");
    let path = spec_name_prefix() + name;
    assert(path.subrange(0, 6) =~= spec_name_prefix());
    assert forall|i: int| 6 <= i < path.len() implies path[i] != '/' by {
        assert(path[i] == name[i - 6]);
    }
    assert(path.subrange(6, path.len() as int) =~= name);
    assert(path[1] == 'n');
    assert(path != spec_health_path());
}

} // verus!
