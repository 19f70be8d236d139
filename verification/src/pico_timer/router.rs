//! The HTTP interface of the firmware: which request sends which key command.
//!
//! Every path is served for GET only; HEAD runs the GET handler and drops the
//! body; any other method is refused. Paths are matched exactly, as the server
//! hands them over: without the query string, and with each percent-escape
//! other than an escaped `/` already decoded.
use vstd::prelude::*;
use super::hid::KeyEvent;
use super::switch_descriptor::{SwitchButton, SwitchHatValues};
use crate::text::str_eq;

verus! {

/// How long the hold and d-pad paths hold their input, in milliseconds.
pub const HOLD_DURATION_MS: u64 = 2000;

/// What a GET request on a known path does: the key command it queues, if
/// any, and the body of the reply.
pub struct Route {
    pub command: Option<KeyEvent>,
    pub body: &'static str,
}

/// The answer to a request.
pub enum RouteOutcome {
    /// The path's handler runs: its command is queued and its reply is sent,
    /// with the body when `with_body` holds (GET) and without it for HEAD.
    Served { route: Route, with_body: bool },
    /// The path is served, but not for this method: nothing is queued.
    MethodNotAllowed,
    /// The path is not served: nothing is queued.
    NotFound,
}

/// The paths the firmware serves.
pub open spec fn is_known_path(p: Seq<char>) -> bool {
    ||| p == "/"@
    ||| p == "/hold"@
    ||| p == "/dpad/up"@
    ||| p == "/dpad/down"@
    ||| p == "/dpad/left"@
    ||| p == "/dpad/right"@
    ||| p == "/status"@
}

/// The key command queued by a request on path `p`.
pub open spec fn path_command(p: Seq<char>) -> Option<KeyEvent> {
    if p == "/"@ {
        Some(KeyEvent::Tap(SwitchButton::BtnA))
    } else if p == "/hold"@ {
        Some(KeyEvent::Hold(SwitchButton::BtnA, HOLD_DURATION_MS))
    } else if p == "/dpad/up"@ {
        Some(KeyEvent::DPad(SwitchHatValues::Up, HOLD_DURATION_MS))
    } else if p == "/dpad/down"@ {
        Some(KeyEvent::DPad(SwitchHatValues::Down, HOLD_DURATION_MS))
    } else if p == "/dpad/left"@ {
        Some(KeyEvent::DPad(SwitchHatValues::Left, HOLD_DURATION_MS))
    } else if p == "/dpad/right"@ {
        Some(KeyEvent::DPad(SwitchHatValues::Right, HOLD_DURATION_MS))
    } else {
        None
    }
}

/// The reply body for path `p`: the status path answers "ONLINE", the others "OK".
pub open spec fn path_reply(p: Seq<char>) -> Seq<char> {
    if p == "/status"@ {
        "ONLINE"@
    } else {
        "OK"@
    }
}

/// The answer to a request with method `method` (as sent, case-sensitive) on
/// path `path`.
pub fn route(method: &str, path: &str) -> (r: RouteOutcome)
    ensures
        !is_known_path(path@) ==> r is NotFound,
        is_known_path(path@) && method@ != "GET"@ && method@ != "HEAD"@ ==> r is MethodNotAllowed,
        is_known_path(path@) && (method@ == "GET"@ || method@ == "HEAD"@) ==> (r matches
            RouteOutcome::Served { route, with_body } && route.command == path_command(path@)
            && route.body@ == path_reply(path@) && with_body == (method@ == "GET"@)),
{
    proof {
        reveal_strlit("GET");
        reveal_strlit("HEAD");
    }
    match route_path(path) {
        None => RouteOutcome::NotFound,
        Some(route) => {
            if str_eq(method, "GET") {
                RouteOutcome::Served { route, with_body: true }
            } else if str_eq(method, "HEAD") {
                RouteOutcome::Served { route, with_body: false }
            } else {
                RouteOutcome::MethodNotAllowed
            }
        },
    }
}

/// The GET route of a request path; `None` for a path the firmware does not serve.
pub fn route_path(path: &str) -> (r: Option<Route>)
    ensures
        r is Some <==> is_known_path(path@),
        r matches Some(rt) ==> rt.command == path_command(path@),
        r matches Some(rt) ==> rt.body@ == path_reply(path@),
{
    proof {
        reveal_strlit("/");
        reveal_strlit("/hold");
        reveal_strlit("/dpad/up");
        reveal_strlit("/dpad/down");
        reveal_strlit("/dpad/left");
        reveal_strlit("/dpad/right");
        reveal_strlit("/status");
        reveal_strlit("OK");
        reveal_strlit("ONLINE");
        assert("/"@.len() != "/status"@.len());
        assert("/dpad/up"@.len() != "/status"@.len());
        assert("/dpad/down"@.len() != "/status"@.len());
        assert("/dpad/left"@.len() != "/status"@.len());
        assert("/dpad/right"@.len() != "/status"@.len());
    }
    if str_eq(path, "/") {
        Some(Route { command: Some(KeyEvent::Tap(SwitchButton::BtnA)), body: "OK" })
    } else if str_eq(path, "/hold") {
        Some(Route { command: Some(KeyEvent::Hold(SwitchButton::BtnA, HOLD_DURATION_MS)), body: "OK" })
    } else if str_eq(path, "/dpad/up") {
        Some(Route { command: Some(KeyEvent::DPad(SwitchHatValues::Up, HOLD_DURATION_MS)), body: "OK" })
    } else if str_eq(path, "/dpad/down") {
        Some(Route { command: Some(KeyEvent::DPad(SwitchHatValues::Down, HOLD_DURATION_MS)), body: "OK" })
    } else if str_eq(path, "/dpad/left") {
        Some(Route { command: Some(KeyEvent::DPad(SwitchHatValues::Left, HOLD_DURATION_MS)), body: "OK" })
    } else if str_eq(path, "/dpad/right") {
        Some(Route { command: Some(KeyEvent::DPad(SwitchHatValues::Right, HOLD_DURATION_MS)), body: "OK" })
    } else if str_eq(path, "/status") {
        Some(Route { command: None, body: "ONLINE" })
    } else {
        None
    }
}

} // verus!
