//! Which upstream a request goes to, and what is done to it on the way.

use crate::error::ResponseError;
use crate::text::{is_prefix, opt_str, starts_with, str_eq};
use vstd::prelude::*;
use vstd::string::*;

verus! {

/// The base address of the platform API.
pub const URL_PLATFORM_API: &'static str = "https://api.openai.com";

/// The base address of the chat API.
pub const URL_CHATGPT_API: &'static str = "https://chat.openai.com";

/// Most bytes that a request body may have.
pub const BODY_LIMIT: usize = 209715200;

/// The content type of an event stream.
pub const EVENT_STREAM: &'static str = "text/event-stream";

/// The name of the header that says what the body is.
pub const CONTENT_TYPE: &'static str = "content-type";

/// The four groups of proxied paths.
#[derive(Clone, Copy, Debug, PartialEq, Eq, Structural)]
pub enum RouteClass {
    /// `/dashboard/..` of the platform API.
    OfficialDashboard,
    /// `/v1/..` of the platform API.
    OfficialV1,
    /// `/backend-api/..` of the chat API.
    UnofficialBackend,
    /// `/public-api/..` of the chat API.
    UnofficialPublic,
}

impl RouteClass {
    /// What every path of the class starts with.
    pub open spec fn prefix(self) -> Seq<char> {
        match self {
            RouteClass::OfficialDashboard => "/dashboard/"@,
            RouteClass::OfficialV1 => "/v1/"@,
            RouteClass::UnofficialBackend => "/backend-api/"@,
            RouteClass::UnofficialPublic => "/public-api/"@,
        }
    }

    /// A path belongs to a class when it starts with the class's prefix and
    /// goes on behind it.
    pub open spec fn holds(self, path: Seq<char>) -> bool {
        is_prefix(self.prefix(), path) && path.len() > self.prefix().len()
    }

    /// The class of a path, if it has one. No path has two: the four
    /// prefixes differ in their second character.
    pub open spec fn class_of(path: Seq<char>) -> Option<RouteClass> {
        if RouteClass::OfficialDashboard.holds(path) {
            Some(RouteClass::OfficialDashboard)
        } else if RouteClass::OfficialV1.holds(path) {
            Some(RouteClass::OfficialV1)
        } else if RouteClass::UnofficialBackend.holds(path) {
            Some(RouteClass::UnofficialBackend)
        } else if RouteClass::UnofficialPublic.holds(path) {
            Some(RouteClass::UnofficialPublic)
        } else {
            None
        }
    }

    /// The base address that the class is forwarded to.
    pub open spec fn upstream_of(self) -> Seq<char> {
        match self {
            RouteClass::OfficialDashboard => URL_PLATFORM_API@,
            RouteClass::OfficialV1 => URL_PLATFORM_API@,
            RouteClass::UnofficialBackend => URL_CHATGPT_API@,
            RouteClass::UnofficialPublic => URL_CHATGPT_API@,
        }
    }

    /// Requests of the class are checked for a credential and counted
    /// against the client's rate.
    pub open spec fn is_guarded(self) -> bool {
        self != RouteClass::UnofficialPublic
    }

    fn prefix_text(self) -> (text: &'static str)
        ensures
            text@ == self.prefix(),
    {
        match self {
            RouteClass::OfficialDashboard => "/dashboard/",
            RouteClass::OfficialV1 => "/v1/",
            RouteClass::UnofficialBackend => "/backend-api/",
            RouteClass::UnofficialPublic => "/public-api/",
        }
    }

    fn matches_path(self, path: &str) -> (yes: bool)
        ensures
            yes == self.holds(path@),
    {
        let prefix = self.prefix_text();
        starts_with(path, prefix) && path.unicode_len() > prefix.unicode_len()
    }

    /// The class of a request path, if it is proxied at all.
    pub fn classify(path: &str) -> (class: Option<RouteClass>)
        ensures
            class == RouteClass::class_of(path@),
    {
        if RouteClass::OfficialDashboard.matches_path(path) {
            Some(RouteClass::OfficialDashboard)
        } else if RouteClass::OfficialV1.matches_path(path) {
            Some(RouteClass::OfficialV1)
        } else if RouteClass::UnofficialBackend.matches_path(path) {
            Some(RouteClass::UnofficialBackend)
        } else if RouteClass::UnofficialPublic.matches_path(path) {
            Some(RouteClass::UnofficialPublic)
        } else {
            None
        }
    }

    /// The base address that requests of the class are forwarded to.
    pub fn upstream(self) -> (base: &'static str)
        ensures
            base@ == self.upstream_of(),
    {
        match self {
            RouteClass::OfficialDashboard => URL_PLATFORM_API,
            RouteClass::OfficialV1 => URL_PLATFORM_API,
            RouteClass::UnofficialBackend => URL_CHATGPT_API,
            RouteClass::UnofficialPublic => URL_CHATGPT_API,
        }
    }

    /// Whether requests of the class pass the credential check and the
    /// limiter before they are forwarded.
    pub fn guarded(self) -> (yes: bool)
        ensures
            yes == self.is_guarded(),
    {
        match self {
            RouteClass::UnofficialPublic => false,
            _ => true,
        }
    }
}

/// A path belongs to at most one class.
pub proof fn law_classes_are_disjoint(path: Seq<char>, a: RouteClass, b: RouteClass)
    requires
        a.holds(path),
        b.holds(path),
    ensures
        a == b,
{
    reveal_strlit("/dashboard/");
    reveal_strlit("/v1/");
    reveal_strlit("/backend-api/");
    reveal_strlit("/public-api/");
    assert(path.subrange(0, a.prefix().len() as int)[1] == path[1]);
    assert(path.subrange(0, b.prefix().len() as int)[1] == path[1]);
}

/// A header that belongs to one connection and is not passed on.
pub open spec fn hop_by_hop(name: Seq<char>) -> bool {
    ||| name == "connection"@
    ||| name == "keep-alive"@
    ||| name == "proxy-authenticate"@
    ||| name == "proxy-authorization"@
    ||| name == "te"@
    ||| name == "trailer"@
    ||| name == "transfer-encoding"@
    ||| name == "upgrade"@
}

/// Whether a header, named in lower case, belongs to one connection only.
pub fn is_hop_by_hop(name: &str) -> (yes: bool)
    ensures
        yes == hop_by_hop(name@),
{
    str_eq(name, "connection") || str_eq(name, "keep-alive") || str_eq(name, "proxy-authenticate")
        || str_eq(name, "proxy-authorization") || str_eq(name, "te") || str_eq(name, "trailer")
        || str_eq(name, "transfer-encoding") || str_eq(name, "upgrade")
}

/// One header: its name in lower case, and its value.
pub struct Header {
    /// The name, in lower case.
    pub name: String,
    /// The value.
    pub value: String,
}

impl View for Header {
    type V = (Seq<char>, Seq<char>);

    open spec fn view(&self) -> (Seq<char>, Seq<char>) {
        (self.name@, self.value@)
    }
}

/// The names and values of a list of headers.
pub open spec fn pairs(headers: Seq<Header>) -> Seq<(Seq<char>, Seq<char>)> {
    headers.map_values(|h: Header| h@)
}

/// A header that the sender of a message writes anew, whatever came in.
pub open spec fn written_anew(name: Seq<char>) -> bool {
    name == "host"@ || name == "content-length"@
}

/// Whether a header, named in lower case, is written anew by the sender.
pub fn is_written_anew(name: &str) -> (yes: bool)
    ensures
        yes == written_anew(name@),
{
    str_eq(name, "host") || str_eq(name, "content-length")
}

/// Whether a header is handed on: never a hop-by-hop one, and on the way to
/// another host (`forward`) none that is written anew.
pub open spec fn handed_on(name: Seq<char>, forward: bool) -> bool {
    !hop_by_hop(name) && !(forward && written_anew(name))
}

/// The headers that are passed on: all but the hop-by-hop ones, in order.
pub open spec fn passed_on(headers: Seq<(Seq<char>, Seq<char>)>) -> Seq<(Seq<char>, Seq<char>)> {
    headers.filter(|h: (Seq<char>, Seq<char>)| handed_on(h.0, false))
}

/// The headers that go to another host: those that are passed on, without
/// the ones that are written anew.
pub open spec fn forwarded(headers: Seq<(Seq<char>, Seq<char>)>) -> Seq<(Seq<char>, Seq<char>)> {
    headers.filter(|h: (Seq<char>, Seq<char>)| handed_on(h.0, true))
}

fn select(headers: &Vec<Header>, forward: bool) -> (kept: Vec<Header>)
    ensures
        pairs(kept@) == pairs(headers@).filter(
            |h: (Seq<char>, Seq<char>)| handed_on(h.0, forward),
        ),
{
    let mut kept: Vec<Header> = Vec::new();
    let mut i: usize = 0;
    let ghost keep = |h: (Seq<char>, Seq<char>)| handed_on(h.0, forward);
    let ghost all = pairs(headers@);
    proof {
        reveal(Seq::filter);
        assert(all.take(0) =~= Seq::empty());
        assert(pairs(kept@) =~= Seq::empty());
    }
    while i < headers.len()
        invariant
            i <= headers.len(),
            all == pairs(headers@),
            keep == |h: (Seq<char>, Seq<char>)| handed_on(h.0, forward),
            pairs(kept@) == all.take(i as int).filter(keep),
        decreases headers.len() - i,
    {
        let ghost before = pairs(kept@);
        proof {
            reveal(Seq::filter);
            let next = all.take(i + 1);
            assert(next.drop_last() =~= all.take(i as int));
            assert(next.last() == headers@[i as int]@);
        }
        let name = headers[i].name.as_str();
        if !is_hop_by_hop(name) && !(forward && is_written_anew(name)) {
            let header = Header { name: headers[i].name.clone(), value: headers[i].value.clone() };
            kept.push(header);
            proof {
                assert(pairs(kept@) =~= before.push(header@));
            }
        }
        i += 1;
    }
    proof {
        assert(all.take(headers.len() as int) =~= all);
    }
    kept
}

/// The headers of `headers` that are passed on to the other side.
pub fn strip_hop_by_hop(headers: &Vec<Header>) -> (kept: Vec<Header>)
    ensures
        pairs(kept@) == passed_on(pairs(headers@)),
{
    select(headers, false)
}

/// The cookie header that carries the captured cookie upstream.
pub open spec fn captured_header(name: Seq<char>, value: Seq<char>) -> (Seq<char>, Seq<char>) {
    ("cookie"@, name + "="@ + value)
}

/// The headers of the request that goes upstream: those of the client's
/// request that are forwarded, and behind them the captured cookie where one
/// is at hand.
pub fn request_headers(headers: &Vec<Header>, cookie_name: &str, captured: Option<&str>) -> (sent:
    Vec<Header>)
    ensures
        pairs(sent@) == forwarded(pairs(headers@)) + (match captured {
            Some(value) => seq![captured_header(cookie_name@, value@)],
            None => Seq::empty(),
        }),
{
    let mut sent = select(headers, true);
    match captured {
        Some(value) => {
            let ghost before = pairs(sent@);
            let header = Header {
                name: "cookie".to_owned(),
                value: cookie_name.to_owned().concat("=").concat(value),
            };
            sent.push(header);
            assert(pairs(sent@) =~= before + seq![captured_header(cookie_name@, value@)]);
        },
        None => {
            assert(pairs(sent@) =~= pairs(sent@) + Seq::empty());
        },
    }
    sent
}

/// Some header of the answer says that it is an event stream.
pub open spec fn streams(headers: Seq<(Seq<char>, Seq<char>)>) -> bool {
    exists|i: int|
        0 <= i < headers.len() && (#[trigger] headers[i]).0 == CONTENT_TYPE@ && is_prefix(
            EVENT_STREAM@,
            headers[i].1,
        )
}

/// How the upstream's answer goes back to the client.
pub struct Relay {
    /// The status, as the upstream gave it.
    pub status: u16,
    /// The headers that are forwarded.
    pub headers: Vec<Header>,
    /// The body is an event stream, to be converted piece by piece; else it
    /// is passed through as it comes.
    pub streaming: bool,
}

/// Decides how the upstream's answer goes back: with its status, with the
/// headers that are forwarded, and converted where it is an event stream.
pub fn relay(status: u16, headers: &Vec<Header>) -> (plan: Relay)
    ensures
        plan.status == status,
        pairs(plan.headers@) == forwarded(pairs(headers@)),
        plan.streaming == streams(pairs(headers@)),
{
    let mut streaming = false;
    let mut i: usize = 0;
    while i < headers.len()
        invariant
            i <= headers.len(),
            streaming == streams(pairs(headers@).take(i as int)),
        decreases headers.len() - i,
    {
        let ghost all = pairs(headers@);
        let hit = str_eq(headers[i].name.as_str(), CONTENT_TYPE) && is_event_stream(
            headers[i].value.as_str(),
        );
        proof {
            let before = all.take(i as int);
            let next = all.take(i + 1);
            assert(next[i as int] == headers@[i as int]@);
            if streams(before) {
                let j = choose|j: int|
                    0 <= j < before.len() && (#[trigger] before[j]).0 == CONTENT_TYPE@
                        && is_prefix(EVENT_STREAM@, before[j].1);
                assert(next[j] == before[j]);
            }
            if streams(next) && !hit {
                let j = choose|j: int|
                    0 <= j < next.len() && (#[trigger] next[j]).0 == CONTENT_TYPE@ && is_prefix(
                        EVENT_STREAM@,
                        next[j].1,
                    );
                assert(before[j] == next[j]);
            }
        }
        streaming = streaming || hit;
        i += 1;
    }
    proof {
        assert(pairs(headers@).take(headers.len() as int) =~= pairs(headers@));
    }
    Relay { status, headers: select(headers, true), streaming }
}

/// Whether a response with this content type is an event stream, to be
/// converted piece by piece.
pub fn is_event_stream(content_type: &str) -> (yes: bool)
    ensures
        yes == is_prefix(EVENT_STREAM@, content_type@),
{
    starts_with(content_type, EVENT_STREAM)
}

/// What is done with a request before anything is sent upstream.
#[derive(Debug)]
pub enum Dispatch {
    /// The path is none of the proxied ones.
    NotProxied,
    /// The body is larger than a request body may be.
    BodyTooLarge,
    /// The request is forwarded.
    Forward {
        /// The class of the path.
        class: RouteClass,
        /// The credential check and the limiter come first.
        guarded: bool,
        /// The address to call: the upstream's base and the request path.
        url: String,
    },
}

/// Decides what is done with a request from its path and the size of its
/// body: a path of no class is not proxied, a body over the limit is refused
/// before anything is sent, and every other request goes to the base address
/// of its class under its own path.
pub fn dispatch(path: &str, body_len: usize) -> (plan: Dispatch)
    ensures
        match RouteClass::class_of(path@) {
            None => plan is NotProxied,
            Some(class) => if body_len > BODY_LIMIT {
                plan is BodyTooLarge
            } else {
                plan matches Dispatch::Forward { class: c, guarded: g, url: u } && c == class && g
                    == class.is_guarded() && u@ == class.upstream_of() + path@
            },
        },
{
    match RouteClass::classify(path) {
        None => Dispatch::NotProxied,
        Some(class) => {
            if body_len > BODY_LIMIT {
                Dispatch::BodyTooLarge
            } else {
                let url = class.upstream().to_owned().concat(path);
                Dispatch::Forward { class, guarded: class.guarded(), url }
            }
        },
    }
}

/// The pre-shared key that guards the login endpoint, where one is set,
/// must come with the request and be the same.
pub open spec fn key_accepted(configured: Option<Seq<char>>, presented: Option<Seq<char>>) -> bool {
    configured matches Some(key) ==> presented == Some(key)
}

/// Checks the pre-shared key of a login request. Where none is configured
/// every request passes; else a request without a key, or with another key,
/// is refused as unauthorized.
pub fn check_auth_key(configured: Option<&str>, presented: Option<&str>) -> (checked: Result<
    (),
    ResponseError,
>)
    ensures
        checked is Ok <==> key_accepted(opt_str(configured), opt_str(presented)),
        checked matches Err(e) ==> e matches ResponseError::Unauthorized(m) && m@ == (
        if presented is None {
            "Login Authentication Key required!"@
        } else {
            "Authentication Key error!"@
        }),
{
    match configured {
        None => Ok(()),
        Some(key) => match presented {
            None => Err(
                ResponseError::Unauthorized("Login Authentication Key required!".to_owned()),
            ),
            Some(given) => {
                if str_eq(given, key) {
                    Ok(())
                } else {
                    Err(ResponseError::Unauthorized("Authentication Key error!".to_owned()))
                }
            },
        },
    }
}

} // verus!
