//! The health API: one route, `GET /health`.
//!
//! The answer to a request is a function of its method and its path alone.
//! It depends on nothing that the process holds or does elsewhere.

use vstd::prelude::*;
use crate::text::str_equal;

verus! {

/// What the health API answers a request with.
#[derive(Clone, Copy, Debug, PartialEq, Eq, Structural)]
pub enum Reply {
    /// The process is reachable: `200 OK` with the fixed payload.
    Health,
    /// No route has this path: `404 Not Found`.
    NotFound,
    /// The path is that of the route, the method is not: `405 Method Not
    /// Allowed`.
    MethodNotAllowed,
}

/// The path of the one route.
pub open spec fn health_path() -> Seq<char> {
    "/health"@
}

/// The method of the one route.
pub open spec fn health_method() -> Seq<char> {
    "GET"@
}

/// The payload of the one route: the text that the reply carries as a JSON
/// string.
pub open spec fn health_payload() -> Seq<char> {
    "Server is running"@
}

/// The reply to a request with the given method and path. The path decides
/// first: a request for another path is not found, whatever its method.
pub open spec fn route(method: Seq<char>, path: Seq<char>) -> Reply {
    if path != health_path() {
        Reply::NotFound
    } else if method != health_method() {
        Reply::MethodNotAllowed
    } else {
        Reply::Health
    }
}

impl Reply {
    /// The HTTP status code of the reply.
    pub open spec fn status_spec(self) -> u16 {
        match self {
            Reply::Health => 200,
            Reply::NotFound => 404,
            Reply::MethodNotAllowed => 405,
        }
    }

    /// The text that the reply carries as a JSON string, where it carries
    /// one.
    pub open spec fn payload_spec(self) -> Option<Seq<char>> {
        match self {
            Reply::Health => Some(health_payload()),
            _ => None,
        }
    }

    /// The HTTP status code of the reply.
    pub fn status(&self) -> (status: u16)
        ensures
            status == self.status_spec(),
    {
        match self {
            Reply::Health => 200,
            Reply::NotFound => 404,
            Reply::MethodNotAllowed => 405,
        }
    }

    /// The text that the reply carries as a JSON string, where it carries
    /// one: `Server is running` for the health reply, nothing for a
    /// rejection.
    pub fn payload(&self) -> (payload: Option<&'static str>)
        ensures
            match payload {
                Some(text) => self.payload_spec() == Some(text@),
                None => self.payload_spec() is None,
            },
    {
        match self {
            Reply::Health => Some("Server is running"),
            _ => None,
        }
    }
}

/// The JSON reply of the `warp` framework. Verified code sees nothing inside
/// one: it is made by [`json_reply`] and handed on as it is.
#[verifier::external_type_specification]
#[verifier::external_body]
pub struct ExJson(warp::reply::Json);

/// The reply that `warp::reply::json` makes of a text: the text encoded as a
/// JSON string, to be sent as `application/json`. It depends on the text
/// alone.
pub uninterp spec fn json_of(text: Seq<char>) -> warp::reply::Json;

/// Calls `warp::reply::json` on the text. The claim is that the reply it
/// returns is the one that the function makes of this text, and so the same
/// for the same text: the function encodes its argument and reads nothing
/// else.
#[verifier::external_body]
fn json_reply(text: &str) -> (reply: warp::reply::Json)
    ensures
        reply == json_of(text@),
{
    warp::reply::json(&text)
}

impl Reply {
    /// The body of the reply: the JSON reply that the framework makes of the
    /// payload, where the reply carries one.
    pub open spec fn json_spec(self) -> Option<warp::reply::Json> {
        match self.payload_spec() {
            Some(text) => Some(json_of(text)),
            None => None,
        }
    }

    /// The body of the reply, encoded as JSON by the framework: that of the
    /// payload `Server is running` for the health reply, nothing for a
    /// rejection.
    pub fn json(&self) -> (body: Option<warp::reply::Json>)
        ensures
            body == self.json_spec(),
    {
        match self.payload() {
            Some(text) => Some(json_reply(text)),
            None => None,
        }
    }
}

/// Answers a request to the health API. `method` is the request's method as
/// it is written in the request line, `path` the path of its target, without
/// a query.
///
/// `GET /health` is answered with the health reply. Any other path is not
/// found; any other method on `/health` is not allowed.
pub fn routes(method: &str, path: &str) -> (reply: Reply)
    ensures
        reply == route(method@, path@),
{
    if !str_equal(path, "/health") {
        Reply::NotFound
    } else if !str_equal(method, "GET") {
        Reply::MethodNotAllowed
    } else {
        Reply::Health
    }
}

/// `GET /health` is always answered with `200` and the fixed payload, its
/// body being the JSON reply made of that payload, and nothing else is.
pub proof fn health_is_always_served(method: Seq<char>, path: Seq<char>)
    ensures
        route(health_method(), health_path()) == Reply::Health,
        Reply::Health.status_spec() == 200,
        Reply::Health.payload_spec() == Some(health_payload()),
        Reply::Health.json_spec() == Some(json_of(health_payload())),
        route(method, path) != Reply::Health ==> route(method, path).json_spec() is None,
        route(method, path) == Reply::Health <==> method == health_method() && path
            == health_path(),
        route(method, path).status_spec() == 200 <==> route(method, path) == Reply::Health,
{
}

} // verus!
