//! Finding the WebSocket endpoint of a debugging target.

use vstd::prelude::*;
use vstd::string::*;

use crate::error::ClientError;
use crate::ws_url::{is_plain_ws_url, plain_ws_url};
use crate::text::{decimal, decimal_denotes, decimal_string, digits_value, is_digit, str_equals};

verus! {

/// Where to find the target to debug. When several are given, a WebSocket
/// URL wins over an HTTP endpoint, and an HTTP endpoint over a port.
#[derive(Clone, Debug, PartialEq)]
pub struct ConnectionArgs {
    /// Direct WebSocket URL.
    pub websocket: Option<String>,
    /// HTTP endpoint that lists the targets as JSON.
    pub http_url: Option<String>,
    /// Port of a debugger on localhost.
    pub port: Option<u16>,
}

/// One entry of the target list that a debugger serves over HTTP.
#[derive(Clone, Debug, PartialEq)]
pub struct CDPTarget {
    pub websocket_debugger_url: String,
    pub target_type: String,
    pub id: String,
    pub title: Option<String>,
}

/// What the client does to learn the WebSocket URL.
#[derive(Debug, PartialEq)]
pub enum ResolvePlan {
    /// Connect to this WebSocket URL.
    Direct(String),
    /// Fetch the target list from this HTTP URL and pick a target from it.
    FetchTargets(String),
}

/// The port that a Node.js debugger listens on by default.
pub const DEFAULT_PORT: u16 = 9229;

/// The target list URL of a debugger on localhost at `port`.
pub open spec fn localhost_list_url(port: nat) -> Seq<char> {
    "http://localhost:"@ + decimal(port) + "/json"@
}

/// The HTTP URL from which the target list is fetched.
pub open spec fn spec_target_list_url(args: ConnectionArgs) -> Seq<char> {
    match args.http_url {
        Some(u) => u@,
        None => match args.port {
            Some(p) => localhost_list_url(p as nat),
            None => "http://localhost:9229/json"@,
        },
    }
}

/// The HTTP URL from which the target list is fetched: the endpoint given,
/// else the localhost endpoint at the port given, else the one at the
/// default port.
pub fn target_list_url(args: &ConnectionArgs) -> (res: String)
    ensures
        res@ == spec_target_list_url(*args),
{
    match &args.http_url {
        Some(u) => u.clone(),
        None => match args.port {
            Some(p) => {
                let mut s = "http://localhost:".to_owned();
                let digits = decimal_string(p as u64);
                s.append(digits.as_str());
                s.append("/json");
                s
            },
            None => "http://localhost:9229/json".to_owned(),
        },
    }
}

/// Decides how to find the WebSocket URL: a WebSocket URL given is used as
/// it is; otherwise the target list is fetched from `target_list_url`.
pub fn plan_resolution(args: &ConnectionArgs) -> (res: ResolvePlan)
    ensures
        match args.websocket {
            Some(ws) => res == ResolvePlan::Direct(ws),
            None => res matches ResolvePlan::FetchTargets(u) && u@ == spec_target_list_url(*args),
        },
{
    match &args.websocket {
        Some(ws) => ResolvePlan::Direct(ws.clone()),
        None => ResolvePlan::FetchTargets(target_list_url(args)),
    }
}

/// With neither an HTTP endpoint nor a port, the target list is fetched from
/// the same URL as with the default port 9229.
pub proof fn default_endpoint_is_default_port(args: ConnectionArgs)
    requires
        args.http_url is None,
        args.port is None,
    ensures
        spec_target_list_url(args) == localhost_list_url(DEFAULT_PORT as nat),
{
    reveal_strlit("http://localhost:9229/json");
    reveal_strlit("http://localhost:");
    reveal_strlit("/json");
    reveal_with_fuel(decimal, 5);
    assert(decimal(9229) =~= seq!['9', '2', '2', '9']);
    assert(spec_target_list_url(args) =~= localhost_list_url(DEFAULT_PORT as nat));
}

/// With no HTTP endpoint, the target list of a debugger on port `p` is
/// fetched from `http://localhost:` followed by the decimal numeral of `p`
/// (digits only, no leading zero, denoting `p`) and `/json`, whatever `p` is.
pub proof fn port_endpoint_names_the_port(args: ConnectionArgs)
    requires
        args.http_url is None,
        args.port is Some,
    ensures
        ({
            let p = args.port->0;
            let url = spec_target_list_url(args);
            let digits = url.subrange(17, url.len() - 5);
            &&& url == "http://localhost:"@ + digits + "/json"@
            &&& digits.len() > 0
            &&& forall|i: int| 0 <= i < digits.len() ==> is_digit(#[trigger] digits[i])
            &&& digits_value(digits) == p
            &&& (digits.len() > 1 ==> digits[0] != '0')
        }),
{
    let p = args.port->0;
    reveal_strlit("http://localhost:");
    reveal_strlit("/json");
    decimal_denotes(p as nat);
    let url = spec_target_list_url(args);
    assert(url.subrange(17, url.len() - 5) =~= decimal(p as nat));
}

/// Whether the target at `i` is the first one of type `ty`.
pub open spec fn first_of_type(targets: Seq<CDPTarget>, ty: Seq<char>, i: int) -> bool {
    &&& 0 <= i < targets.len()
    &&& targets[i].target_type@ == ty
    &&& forall|j: int| 0 <= j < i ==> targets[j].target_type@ != ty
}

/// Whether some target has type `ty`.
pub open spec fn has_type(targets: Seq<CDPTarget>, ty: Seq<char>) -> bool {
    exists|j: int| 0 <= j < targets.len() && targets[j].target_type@ == ty
}

/// The target the client picks: the first of type "node", else the first of
/// type "page", else the first one.
pub open spec fn is_chosen_target(targets: Seq<CDPTarget>, i: int) -> bool {
    if has_type(targets, "node"@) {
        first_of_type(targets, "node"@, i)
    } else if has_type(targets, "page"@) {
        first_of_type(targets, "page"@, i)
    } else {
        i == 0 && targets.len() > 0
    }
}

fn find_type(targets: &Vec<CDPTarget>, ty: &str) -> (res: Option<usize>)
    ensures
        match res {
            Some(i) => first_of_type(targets@, ty@, i as int),
            None => !has_type(targets@, ty@),
        },
{
    let n: usize = targets.len();
    let mut i: usize = 0;
    while i < n
        invariant
            n == targets@.len(),
            i <= n,
            forall|j: int| 0 <= j < i ==> targets@[j].target_type@ != ty@,
        decreases n - i,
    {
        if str_equals(targets[i].target_type.as_str(), ty) {
            return Some(i);
        }
        i = i + 1;
    }
    None
}

/// Whether some target in `targets` has type `ty`, counting from the first.
pub open spec fn any_of_type(targets: Seq<CDPTarget>, ty: Seq<char>) -> bool {
    exists|j: int| 0 <= j < targets.len() && #[trigger] targets[j].target_type@ == ty
}

/// The target chosen from a list is the one the debugger should be reached
/// through: the earliest target, counting from the first, of type "node";
/// when there is none, the earliest of type "page"; when there is neither,
/// the first target. The choice is unique.
pub proof fn chosen_target_is_earliest(targets: Seq<CDPTarget>, i: int, k: int)
    requires
        is_chosen_target(targets, i),
    ensures
        0 <= i < targets.len(),
        any_of_type(targets, "node"@) ==> targets[i].target_type@ == "node"@ && forall|j: int|
            0 <= j < i ==> targets[j].target_type@ != "node"@,
        !any_of_type(targets, "node"@) && any_of_type(targets, "page"@) ==> targets[i].target_type@
            == "page"@ && forall|j: int| 0 <= j < i ==> targets[j].target_type@ != "page"@,
        !any_of_type(targets, "node"@) && !any_of_type(targets, "page"@) ==> i == 0,
        is_chosen_target(targets, k) ==> k == i,
{
    if any_of_type(targets, "node"@) {
        let j = choose|j: int| 0 <= j < targets.len() && #[trigger] targets[j].target_type@ == "node"@;
        assert(has_type(targets, "node"@));
    } else {
        if has_type(targets, "node"@) {
            let j = choose|j: int| 0 <= j < targets.len() && targets[j].target_type@ == "node"@;
            assert(any_of_type(targets, "node"@));
        }
        if any_of_type(targets, "page"@) {
            let j = choose|j: int| 0 <= j < targets.len() && #[trigger] targets[j].target_type@ == "page"@;
            assert(has_type(targets, "page"@));
        } else if has_type(targets, "page"@) {
            let j = choose|j: int| 0 <= j < targets.len() && targets[j].target_type@ == "page"@;
            assert(any_of_type(targets, "page"@));
        }
    }
    if is_chosen_target(targets, k) && k != i {
        if has_type(targets, "node"@) {
            assert(targets[k].target_type@ == "node"@);
            assert(targets[i].target_type@ == "node"@);
        } else if has_type(targets, "page"@) {
            assert(targets[k].target_type@ == "page"@);
            assert(targets[i].target_type@ == "page"@);
        }
    }
}

/// Picks the target to connect to: the first target of type "node", else the
/// first of type "page", else the first target. An empty list is an error.
pub fn select_target(targets: &Vec<CDPTarget>) -> (res: Result<usize, ClientError>)
    ensures
        targets@.len() == 0 <==> res == Err::<usize, ClientError>(ClientError::NoTargets),
        match res {
            Ok(i) => is_chosen_target(targets@, i as int),
            Err(e) => e == ClientError::NoTargets,
        },
{
    if targets.len() == 0 {
        return Err(ClientError::NoTargets);
    }
    let node = "node";
    let page = "page";
    match find_type(targets, node) {
        Some(i) => Ok(i),
        None => match find_type(targets, page) {
            Some(i) => Ok(i),
            None => Ok(0),
        },
    }
}

/// The title shown for a target: its own, or "untitled".
pub fn target_title(target: &CDPTarget) -> (res: &str)
    ensures
        res@ == match target.title {
            Some(t) => t@,
            None => "untitled"@,
        },
{
    match &target.title {
        Some(t) => t.as_str(),
        None => "untitled",
    }
}

/// The serialization of the URL that `url::Url::parse` makes of `input`,
/// or `None` when it refuses `input`.
pub uninterp spec fn url_parse(input: Seq<char>) -> Option<Seq<char>>;

/// Calls `url::Url::parse` on `input` and hands back the serialization of the
/// URL it made (`String::from(url)`). The contract claims that the outcome
/// is `url_parse(input)`, and that a `ws` URL to this machine already in
/// serialized form (see `is_plain_ws_url`) parses and serializes to itself,
/// as the URL Standard's serializer makes parsing a serialization give it
/// back, and as the crate's own example of `Url::as_str` shows. Which other
/// inputs it accepts and how it normalizes them is left unsaid.
#[verifier::external_body]
fn parse_url(input: &str) -> (res: Option<String>)
    ensures
        match res {
            Some(u) => url_parse(input@) == Some(u@),
            None => url_parse(input@) is None,
        },
        is_plain_ws_url(input@) ==> res is Some && res.unwrap()@ == input@,
{
    match url::Url::parse(input) {
        Ok(url) => Some(String::from(url)),
        Err(_) => None,
    }
}

/// The URL to connect to, given what parsing the WebSocket URL gave: the
/// parsed URL, or `InvalidWebSocketUrl` when it did not parse.
pub fn connection_url_from(parsed: Option<String>) -> (res: Result<String, ClientError>)
    ensures
        match parsed {
            Some(u) => res == Ok::<String, ClientError>(u),
            None => res == Err::<String, ClientError>(ClientError::InvalidWebSocketUrl),
        },
{
    match parsed {
        Some(u) => Ok(u),
        None => Err(ClientError::InvalidWebSocketUrl),
    }
}

/// Parses the WebSocket URL of the target before connecting to it. A `ws`
/// URL to this machine already in serialized form is connected to exactly
/// as given, character for character.
pub fn connection_url(ws_url: &str) -> (res: Result<String, ClientError>)
    ensures
        match url_parse(ws_url@) {
            Some(u) => res matches Ok(s) && s@ == u,
            None => res == Err::<String, ClientError>(ClientError::InvalidWebSocketUrl),
        },
        is_plain_ws_url(ws_url@) ==> (res matches Ok(s) && s@ == ws_url@),
{
    let parsed = parse_url(ws_url);
    if plain_ws_url(ws_url) {
        return Ok(ws_url.to_owned());
    }
    connection_url_from(parsed)
}

} // verus!
