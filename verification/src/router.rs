//! The HTTP layer's decisions: the route table, the fallback body, the
//! timeout translation and the middleware limits, as plain functions the
//! serving shell consults.

use vstd::prelude::*;
use vstd::string::{StringExecFns, StrSliceExecFns};

use crate::errors::{entries_model, error_body_of, validation_body_of, validation_body_spec,
    FieldError, FieldErrorModel};
use crate::json::{append_u64, dec_str, error_body_spec};
use crate::model::str_eq;

verus! {

/// The request methods the route table distinguishes.
#[derive(Clone, Copy, Debug, PartialEq, Eq, Structural)]
pub enum HttpMethod {
    Get,
    Post,
    Delete,
    Put,
    Patch,
    Other,
}

/// Where a request goes: one of the two handlers, or the fallback.
#[derive(Clone, Copy, Debug, PartialEq, Eq, Structural)]
pub enum RouteTarget {
    ListUsers,
    Signup,
    NotFound,
}

/// The middleware limits, passed in explicitly rather than held as
/// process-wide state.
pub struct RouterConfig {
    pub timeout_seconds: u64,
    pub buffer_depth: usize,
    pub rate_per_second: u64,
}

impl Default for RouterConfig {
    /// The served defaults: a 30 second timeout, a queue of depth 1024,
    /// and 5 requests per second globally.
    fn default() -> (c: Self)
        ensures
            c.timeout_seconds == 30,
            c.buffer_depth == 1024,
            c.rate_per_second == 5,
    {
        RouterConfig { timeout_seconds: 30, buffer_depth: 1024, rate_per_second: 5 }
    }
}

/// The route table under the versioned prefix: listing at the root,
/// signup at `/signup`, everything else the fallback.
pub open spec fn route_spec(m: HttpMethod, path: Seq<char>) -> RouteTarget {
    if m == HttpMethod::Get && path == "/api/v1/"@ {
        RouteTarget::ListUsers
    } else if m == HttpMethod::Post && path == "/api/v1/signup"@ {
        RouteTarget::Signup
    } else {
        RouteTarget::NotFound
    }
}

/// The body of the fallback response.
pub open spec fn not_found_body() -> Seq<char> {
    validation_body_spec(
        seq![
            FieldErrorModel {
                field: "message"@,
                messages: seq!["The requested resource does not exist on this server!"@],
            },
        ],
    )
}

/// The message of a timeout response, carrying the configured duration.
pub open spec fn timeout_msg(secs: nat) -> Seq<char> {
    "request took longer than the configured "@ + dec_str(secs) + " second timeout"@
}

pub struct AppRouter;

impl AppRouter {
    /// Dispatches one request line against the route table.
    pub fn route(method: HttpMethod, path: &str) -> (r: RouteTarget)
        ensures
            r == route_spec(method, path@),
    {
        match method {
            HttpMethod::Get => {
                if str_eq(path, "/api/v1/") {
                    RouteTarget::ListUsers
                } else {
                    RouteTarget::NotFound
                }
            },
            HttpMethod::Post => {
                if str_eq(path, "/api/v1/signup") {
                    RouteTarget::Signup
                } else {
                    RouteTarget::NotFound
                }
            },
            _ => RouteTarget::NotFound,
        }
    }

    /// The fallback handler: status 404 with its fixed body.
    pub fn handle_404() -> (r: (u16, String))
        ensures
            r.0 == 404,
            r.1@ == not_found_body(),
    {
        let mut msgs: Vec<String> = Vec::new();
        msgs.push(String::from_str("The requested resource does not exist on this server!"));
        let mut entries: Vec<FieldError> = Vec::new();
        entries.push(FieldError { field: String::from_str("message"), messages: msgs });
        let body = validation_body_of(&entries);
        proof {
            assert(entries_model(entries@) =~~= seq![
                FieldErrorModel {
                    field: "message"@,
                    messages: seq!["The requested resource does not exist on this server!"@],
                },
            ]);
        }
        (404, body)
    }

    /// Translates an error escaping the middleware chain: a timeout gets
    /// status 408 and the configured duration in its message, anything
    /// else status 500 with the error's own rendering appended.
    pub fn handle_timeout_error(timed_out: bool, timeout_seconds: u64, message: &str) -> (r: (
        u16,
        String,
    ))
        ensures
            r.0 == if timed_out { 408int } else { 500int },
            timed_out ==> r.1@ == error_body_spec(timeout_msg(timeout_seconds as nat)),
            !timed_out ==> r.1@ == error_body_spec("unhandled internal error: "@ + message@),
    {
        if timed_out {
            let mut msg = String::from_str("request took longer than the configured ");
            append_u64(&mut msg, timeout_seconds);
            msg.append(" second timeout");
            let body = error_body_of(msg.as_str());
            (408, body)
        } else {
            let mut msg = String::from_str("unhandled internal error: ");
            msg.append(message);
            let body = error_body_of(msg.as_str());
            (500, body)
        }
    }
}

} // verus!
