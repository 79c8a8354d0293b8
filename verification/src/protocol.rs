//! Framing requests and matching their responses.

use vstd::prelude::*;
use vstd::string::*;

use crate::error::ClientError;
use crate::json::{JsonNumber, JsonValue};

verus! {

/// A command to send: a method name and its parameters.
#[derive(Debug, PartialEq)]
pub struct Command {
    pub method: String,
    pub params: JsonValue,
}

/// A request as it goes on the wire.
#[derive(Debug, PartialEq)]
pub struct CDPRequest {
    pub id: u64,
    pub method: String,
    pub params: JsonValue,
}

/// A message from the target, read as a response: absent fields are `None`.
#[derive(Debug, PartialEq)]
pub struct CDPResponse {
    pub id: Option<u64>,
    pub result: Option<JsonValue>,
    pub error: Option<JsonValue>,
}

/// The request counter of a session: the id that the next request gets.
#[derive(Debug, PartialEq)]
pub struct CDPClient {
    pub counter: u64,
}

/// What arrived on the connection while a request waits for its response.
#[derive(Debug, PartialEq)]
pub enum WireEvent {
    /// A text message, and the response read from it when it reads as one.
    Text(Option<CDPResponse>),
    /// A message of another kind.
    Other,
    /// The connection closed.
    Closed,
}

/// Whether the wait for a response goes on or is over.
#[derive(Debug, PartialEq)]
pub enum WaitStep {
    Pending,
    Complete(Result<JsonValue, ClientError>),
}

/// The outcome of a wait step for the request with id `req_id`.
pub open spec fn spec_wait_step(req_id: u64, event: WireEvent) -> WaitStep {
    match event {
        WireEvent::Closed => WaitStep::Complete(Err(ClientError::ConnectionClosed)),
        WireEvent::Other => WaitStep::Pending,
        WireEvent::Text(None) => WaitStep::Pending,
        WireEvent::Text(Some(resp)) => {
            if resp.id == Some(req_id) {
                match resp.error {
                    Some(e) => WaitStep::Complete(Err(ClientError::Protocol(e))),
                    None => match resp.result {
                        Some(r) => WaitStep::Complete(Ok(r)),
                        None => WaitStep::Complete(Err(ClientError::EmptyResult)),
                    },
                }
            } else {
                WaitStep::Pending
            }
        },
    }
}

/// Whether `v` is the object without members.
pub open spec fn is_empty_object(v: JsonValue) -> bool {
    v matches JsonValue::Object(m) && m@.len() == 0
}

/// Whether `v` is an object whose one member is named `key` and holds `value`.
pub open spec fn is_single_member(v: JsonValue, key: Seq<char>, value: JsonValue) -> bool {
    v matches JsonValue::Object(m) && m@.len() == 1 && m@[0].0@ == key && m@[0].1 == value
}

/// Whether `v` is an object whose one member is named `key` and holds the string `text`.
pub open spec fn is_single_string_member(v: JsonValue, key: Seq<char>, text: Seq<char>) -> bool {
    v matches JsonValue::Object(m) && m@.len() == 1 && m@[0].0@ == key && m@[0].1.spec_as_str()
        == Some(text)
}

/// The object without members.
pub fn empty_object() -> (res: JsonValue)
    ensures
        is_empty_object(res),
{
    JsonValue::Object(Vec::new())
}

/// The object with the single member `key`, holding `value`.
pub fn single_member(key: &str, value: JsonValue) -> (res: JsonValue)
    ensures
        is_single_member(res, key@, value),
{
    let mut members: Vec<(String, JsonValue)> = Vec::new();
    members.push((key.to_owned(), value));
    JsonValue::Object(members)
}

impl Command {
    /// The command `method` with the parameters `params`.
    pub fn new(method: &str, params: JsonValue) -> (res: Command)
        ensures
            res.method@ == method@,
            res.params == params,
    {
        Command { method: method.to_owned(), params }
    }

    /// The command that evaluates the JavaScript expression `expr`.
    pub fn evaluate(expr: &str) -> (res: Command)
        ensures
            res.method@ == "Runtime.evaluate"@,
            is_single_string_member(res.params, "expression"@, expr@),
    {
        let value = JsonValue::Str(expr.to_owned());
        Command::new("Runtime.evaluate", single_member("expression", value))
    }
}

/// Whether `req` is the request that `begin_request` frames from the
/// session `before`, leaving the session `after`.
pub open spec fn issues(before: CDPClient, req: CDPRequest, after: CDPClient) -> bool {
    req.id == before.counter && after.counter == before.counter + 1
}

impl CDPClient {
    /// A fresh session: its first request gets id 1.
    pub fn new() -> (res: CDPClient)
        ensures
            res.counter == 1,
    {
        CDPClient { counter: 1 }
    }

    /// Frames `command` as the next request: it takes the current counter as
    /// its id, and the counter moves on by one.
    pub fn begin_request(&mut self, command: Command) -> (req: CDPRequest)
        requires
            old(self).counter < u64::MAX,
        ensures
            issues(*old(self), req, *final(self)),
            req.method == command.method,
            req.params == command.params,
    {
        let id: u64 = self.counter;
        self.counter = self.counter + 1;
        CDPRequest { id, method: command.method, params: command.params }
    }
}

impl CDPRequest {
    /// One step of the wait for this request's response: only a response
    /// that carries this request's id ends it. Its error, when it has one, is
    /// the outcome; else its result; and without either the outcome is
    /// `EmptyResult`. A closed connection ends the wait with
    /// `ConnectionClosed`; anything else leaves it pending.
    pub fn on_event(&self, event: WireEvent) -> (res: WaitStep)
        ensures
            res == spec_wait_step(self.id, event),
    {
        match event {
            WireEvent::Closed => WaitStep::Complete(Err(ClientError::ConnectionClosed)),
            WireEvent::Other => WaitStep::Pending,
            WireEvent::Text(None) => WaitStep::Pending,
            WireEvent::Text(Some(resp)) => {
                let matches = match resp.id {
                    Some(id) => id == self.id,
                    None => false,
                };
                if matches {
                    match resp.error {
                        Some(e) => WaitStep::Complete(Err(ClientError::Protocol(e))),
                        None => match resp.result {
                            Some(r) => WaitStep::Complete(Ok(r)),
                            None => WaitStep::Complete(Err(ClientError::EmptyResult)),
                        },
                    }
                } else {
                    WaitStep::Pending
                }
            },
        }
    }
}

proof fn ids_count_up(clients: Seq<CDPClient>, reqs: Seq<CDPRequest>, k: int)
    requires
        clients.len() == reqs.len() + 1,
        forall|m: int| 0 <= m < reqs.len() ==> issues(clients[m], #[trigger] reqs[m], clients[m + 1]),
        0 <= k <= reqs.len(),
    ensures
        clients[k].counter == clients[0].counter + k,
    decreases k,
{
    if k > 0 {
        ids_count_up(clients, reqs, k - 1);
        assert(issues(clients[k - 1], reqs[k - 1], clients[k]));
    }
}

/// Within one session, each request gets a larger id than every request
/// framed before it, so no two requests share an id.
pub proof fn request_ids_increase(clients: Seq<CDPClient>, reqs: Seq<CDPRequest>)
    requires
        clients.len() == reqs.len() + 1,
        forall|m: int| 0 <= m < reqs.len() ==> issues(clients[m], #[trigger] reqs[m], clients[m + 1]),
    ensures
        forall|i: int, j: int| 0 <= i < j < reqs.len() ==> reqs[i].id < reqs[j].id,
{
    assert forall|i: int, j: int| 0 <= i < j < reqs.len() implies reqs[i].id < reqs[j].id by {
        ids_count_up(clients, reqs, i);
        ids_count_up(clients, reqs, j);
        assert(issues(clients[i], reqs[i], clients[i + 1]));
        assert(issues(clients[j], reqs[j], clients[j + 1]));
    }
}

/// A response to an earlier request of the session, arriving while a later
/// request waits, leaves the later request waiting.
pub proof fn earlier_response_is_ignored(
    clients: Seq<CDPClient>,
    reqs: Seq<CDPRequest>,
    i: int,
    j: int,
    resp: CDPResponse,
)
    requires
        clients.len() == reqs.len() + 1,
        forall|m: int| 0 <= m < reqs.len() ==> issues(clients[m], #[trigger] reqs[m], clients[m + 1]),
        0 <= i < j < reqs.len(),
        resp.id == Some(reqs[i].id),
    ensures
        spec_wait_step(reqs[j].id, WireEvent::Text(Some(resp))) == WaitStep::Pending,
{
    request_ids_increase(clients, reqs);
    assert(reqs[i].id < reqs[j].id);
}

/// The response that carries a request's id ends that request's wait: with
/// the target's error when it sent one, else with its result.
pub proof fn own_response_completes(before: CDPClient, req: CDPRequest, after: CDPClient, resp: CDPResponse)
    requires
        issues(before, req, after),
        resp.id == Some(before.counter),
    ensures
        spec_wait_step(req.id, WireEvent::Text(Some(resp))) == match resp.error {
            Some(e) => WaitStep::Complete(Err(ClientError::Protocol(e))),
            None => match resp.result {
                Some(r) => WaitStep::Complete(Ok(r)),
                None => WaitStep::Complete(Err(ClientError::EmptyResult)),
            },
        },
{
}

} // verus!
