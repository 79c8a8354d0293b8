//! Collecting a heap snapshot: the commands that start it, and the state
//! kept while its chunks stream in.

use vstd::prelude::*;
use vstd::string::*;

use crate::error::ClientError;
use crate::json::{JsonNumber, JsonValue};
use crate::protocol::{empty_object, is_empty_object, is_single_member, single_member, Command};
use crate::text::str_equals;

verus! {

/// How long, in seconds, the collection may take.
pub const SNAPSHOT_DEADLINE_SECS: u64 = 120;

/// How many quiet polls end the wait for late chunks.
pub const DRAIN_POLLS: u32 = 5;

/// The pause, in milliseconds, before each poll for a late chunk.
pub const DRAIN_PAUSE_MILLIS: u64 = 200;

/// How long, in milliseconds, each poll for a late chunk waits.
pub const DRAIN_POLL_MILLIS: u64 = 100;

/// The command that enables the heap profiler.
pub fn heap_profiler_enable() -> (res: Command)
    ensures
        res.method@ == "HeapProfiler.enable"@,
        is_empty_object(res.params),
{
    Command::new("HeapProfiler.enable", empty_object())
}

/// The command that forces a garbage collection.
pub fn collect_garbage() -> (res: Command)
    ensures
        res.method@ == "HeapProfiler.collectGarbage"@,
        is_empty_object(res.params),
{
    Command::new("HeapProfiler.collectGarbage", empty_object())
}

/// The command that takes a heap snapshot and reports its progress.
pub fn take_heap_snapshot() -> (res: Command)
    ensures
        res.method@ == "HeapProfiler.takeHeapSnapshot"@,
        is_single_member(res.params, "reportProgress"@, JsonValue::Bool(true)),
{
    Command::new("HeapProfiler.takeHeapSnapshot", single_member("reportProgress", JsonValue::Bool(true)))
}

/// The event method that carries a chunk of the snapshot.
pub open spec fn chunk_method() -> Seq<char> {
    "HeapProfiler.addHeapSnapshotChunk"@
}

/// The event method that reports the snapshot's progress.
pub open spec fn progress_method() -> Seq<char> {
    "HeapProfiler.reportHeapSnapshotProgress"@
}

/// The `method` of a message, when it is a string.
pub open spec fn event_method(ev: JsonValue) -> Option<Seq<char>> {
    match ev.field("method"@) {
        Some(m) => m.spec_as_str(),
        None => None,
    }
}

/// The member `key` of the message's `params`.
pub open spec fn param(ev: JsonValue, key: Seq<char>) -> Option<JsonValue> {
    match ev.field("params"@) {
        Some(p) => p.field(key),
        None => None,
    }
}

/// Whether the message is the response to the request with id `req_id`.
pub open spec fn answers(ev: JsonValue, req_id: u64) -> bool {
    ev.field("id"@) matches Some(i) && i.spec_as_u64() == Some(req_id)
}

/// The snapshot chunk that the message carries.
pub open spec fn carried_chunk(ev: JsonValue) -> Option<Seq<char>> {
    if event_method(ev) == Some(chunk_method()) {
        match param(ev, "chunk"@) {
            Some(c) => c.spec_as_str(),
            None => None,
        }
    } else {
        None
    }
}

/// A message whose `method` is the string `HeapProfiler.addHeapSnapshotChunk`
/// and whose `params` has a string `chunk` carries exactly that string, of
/// whatever length, both while the snapshot streams in and while late chunks
/// are awaited; a message with any other method carries no chunk.
pub proof fn chunk_message_carries_its_chunk(ev: JsonValue, method: String, params: JsonValue, chunk: String, req_id: u64)
    ensures
        ev.field("method"@) == Some(JsonValue::Str(method)) && method@
            == "HeapProfiler.addHeapSnapshotChunk"@ && ev.field("params"@) == Some(params)
            && params.field("chunk"@) == Some(JsonValue::Str(chunk)) ==> {
            &&& carried_chunk(ev) == Some(chunk@)
            &&& drain_chunk(Some(&ev)) == Some(chunk@)
            &&& !answers(ev, req_id) ==> main_chunk(req_id, Some(&ev)) == Some(chunk@)
        },
        ev.field("method"@) == Some(JsonValue::Str(method)) && method@
            != "HeapProfiler.addHeapSnapshotChunk"@ ==> carried_chunk(ev) is None,
{
}

/// A progress message reports the snapshot finished exactly when its
/// `params.finished` is `true`, and reports the whole percentage of `done`
/// out of a non-zero `total`: at most 100 while `done` does not pass `total`,
/// and never less for more done.
pub proof fn progress_message_reports_its_fields(
    ev: JsonValue,
    method: String,
    params: JsonValue,
    done: u64,
    total: u64,
    more: u64,
    fin: bool,
)
    ensures
        ev.field("method"@) == Some(JsonValue::Str(method)) && method@
            == "HeapProfiler.reportHeapSnapshotProgress"@ && ev.field("params"@) == Some(params) ==> {
            &&& params.field("finished"@) == Some(JsonValue::Bool(fin)) ==> reports_finished(ev)
                == fin
            &&& params.field("done"@) == Some(JsonValue::Number(JsonNumber::Unsigned(done)))
                && params.field("total"@) == Some(JsonValue::Number(JsonNumber::Unsigned(total)))
                ==> {
                &&& total == 0 ==> reported_progress(ev) is None
                &&& total > 0 ==> reported_progress(ev) == Some((done * 100) / (total as int))
            }
        },
        total > 0 && done <= total ==> (done * 100) / (total as int) <= 100,
        total > 0 && done <= more ==> (done * 100) / (total as int) <= (more * 100) / (total as int),
{
    if total > 0 && done <= total {
        assert((done * 100) / (total as int) <= 100) by (nonlinear_arith)
            requires
                total > 0,
                done <= total,
        ;
    }
    if total > 0 && done <= more {
        assert((done * 100) / (total as int) <= (more * 100) / (total as int)) by (nonlinear_arith)
            requires
                total > 0,
                done <= more,
        ;
    }
}

/// Appending a chunk keeps every chunk already stored, in place, and puts
/// the new chunk, unchanged, after them.
pub proof fn appending_keeps_earlier_chunks(before: SnapshotCollector, after: SnapshotCollector, chunk: Seq<char>)
    requires
        appends(before, after, Some(chunk)),
    ensures
        after.chunks@.len() == before.chunks@.len() + 1,
        forall|i: int| 0 <= i < before.chunks@.len() ==> #[trigger] after.chunks@[i]@ == before.chunks@[i]@,
        after.chunks@.last()@ == chunk,
{
    let n = before.chunks@.len();
    assert(texts(after.chunks@).len() == n + 1);
    assert forall|i: int| 0 <= i < n implies #[trigger] after.chunks@[i]@ == before.chunks@[i]@ by {
        assert(texts(after.chunks@)[i] == texts(before.chunks@)[i]);
    }
    assert(texts(after.chunks@)[n as int] == chunk);
}

/// Whether the message reports that the snapshot is complete.
pub open spec fn reports_finished(ev: JsonValue) -> bool {
    &&& event_method(ev) == Some(progress_method())
    &&& param(ev, "finished"@) matches Some(f)
    &&& f.spec_as_bool() == Some(true)
}

/// The percentage of the snapshot done that the message reports.
pub open spec fn reported_progress(ev: JsonValue) -> Option<int> {
    if event_method(ev) == Some(progress_method()) && ev.field("params"@) is Some {
        match (param(ev, "done"@), param(ev, "total"@)) {
            (Some(d), Some(t)) => match (d.spec_as_u64(), t.spec_as_u64()) {
                (Some(done), Some(total)) => if total > 0 {
                    Some((done * 100) / (total as int))
                } else {
                    None
                },
                _ => None,
            },
            _ => None,
        }
    } else {
        None
    }
}

/// The texts of a sequence of strings.
pub open spec fn texts(chunks: Seq<String>) -> Seq<Seq<char>> {
    chunks.map_values(|s: String| s@)
}

/// The concatenation of `parts`, in order.
pub open spec fn concat_all(parts: Seq<Seq<char>>) -> Seq<char>
    decreases parts.len(),
{
    if parts.len() == 0 {
        Seq::empty()
    } else {
        concat_all(parts.drop_last()) + parts.last()
    }
}

/// The sequence that holds `part` when there is one.
pub open spec fn optional(part: Option<Seq<char>>) -> Seq<Seq<char>> {
    match part {
        Some(p) => seq![p],
        None => Seq::empty(),
    }
}

/// Whether the chunks of `after` are those of `before`, followed by `part`
/// when there is one.
pub open spec fn appends(before: SnapshotCollector, after: SnapshotCollector, part: Option<Seq<char>>) -> bool {
    texts(after.chunks@) == texts(before.chunks@) + optional(part)
}

/// The chunk that a message handled by `on_message` adds: none for a
/// message that is not JSON or that answers the snapshot request.
pub open spec fn main_chunk(req_id: u64, event: Option<&JsonValue>) -> Option<Seq<char>> {
    match event {
        Some(ev) => if answers(*ev, req_id) {
            None
        } else {
            carried_chunk(*ev)
        },
        None => None,
    }
}

/// The chunk that a poll handled by `drain_tick` adds.
pub open spec fn drain_chunk(polled: Option<&JsonValue>) -> Option<Seq<char>> {
    match polled {
        Some(ev) => carried_chunk(*ev),
        None => None,
    }
}

/// The chunks among `parts`, in order.
pub open spec fn present(parts: Seq<Option<Seq<char>>>) -> Seq<Seq<char>>
    decreases parts.len(),
{
    if parts.len() == 0 {
        Seq::empty()
    } else {
        present(parts.drop_last()) + optional(parts.last())
    }
}

/// What a snapshot has received so far.
#[derive(Debug, PartialEq)]
pub struct SnapshotCollector {
    /// The id of the request that takes the snapshot.
    pub req_id: u64,
    /// Whether the response to that request arrived.
    pub request_completed: bool,
    /// Whether the target reported the snapshot complete.
    pub finished: bool,
    /// The chunks received, in order.
    pub chunks: Vec<String>,
    /// Polls made since the last late chunk.
    pub drain_polls: u32,
}

/// A chunk that was just stored: how many there are now, and whether that
/// count is one that is reported in detail (the first five, then every tenth).
#[derive(Clone, Copy, Debug, PartialEq, Eq)]
pub struct ChunkNote {
    pub count: usize,
    pub verbose: bool,
}

/// What handling a message led to.
#[derive(Debug, PartialEq)]
pub struct MessageReport {
    /// The message was the response to the snapshot request.
    pub answered: bool,
    /// A chunk was stored.
    pub chunk: Option<ChunkNote>,
    /// The snapshot was reported complete: pause this many seconds.
    pub finish_pause_secs: Option<u64>,
    /// The percentage done that the message reports.
    pub progress: Option<u128>,
    /// The collection moves on to waiting for late chunks.
    pub start_drain: bool,
}

/// Whether `note` describes a store that left `count` chunks.
pub open spec fn noted(note: ChunkNote, count: int) -> bool {
    note.count == count && note.verbose == (count <= 5 || count % 10 == 0)
}

/// The percentage `done` makes of `total`, when `total` is not zero.
pub fn progress_percent(done: u64, total: u64) -> (res: Option<u128>)
    ensures
        total == 0 ==> res is None,
        total > 0 ==> res == Some(((done * 100) / (total as int)) as u128),
{
    if total > 0 {
        let d: u128 = done as u128;
        let t: u128 = total as u128;
        assert(d * 100 <= u64::MAX * 100) by (nonlinear_arith)
            requires
                d <= u64::MAX,
        ;
        Some((d * 100) / t)
    } else {
        None
    }
}

fn method_of(ev: &JsonValue) -> (res: Option<&str>)
    ensures
        match res {
            Some(m) => event_method(*ev) == Some(m@),
            None => event_method(*ev) is None,
        },
{
    match ev.get("method") {
        Some(m) => m.as_str(),
        None => None,
    }
}

fn chunk_of(ev: &JsonValue) -> (res: Option<&str>)
    ensures
        match res {
            Some(c) => carried_chunk(*ev) == Some(c@),
            None => carried_chunk(*ev) is None,
        },
{
    match method_of(ev) {
        Some(m) => {
            if str_equals(m, "HeapProfiler.addHeapSnapshotChunk") {
                match ev.get("params") {
                    Some(p) => match p.get("chunk") {
                        Some(c) => c.as_str(),
                        None => None,
                    },
                    None => None,
                }
            } else {
                None
            }
        },
        None => None,
    }
}

impl SnapshotCollector {
    /// Nothing received yet for the snapshot request `req_id`.
    pub fn new(req_id: u64) -> (res: SnapshotCollector)
        ensures
            res.req_id == req_id,
            !res.request_completed,
            !res.finished,
            res.chunks@.len() == 0,
            res.drain_polls == 0,
    {
        SnapshotCollector {
            req_id,
            request_completed: false,
            finished: false,
            chunks: Vec::new(),
            drain_polls: 0,
        }
    }

    fn store(&mut self, chunk: &str) -> (note: ChunkNote)
        ensures
            final(self).req_id == old(self).req_id,
            final(self).request_completed == old(self).request_completed,
            final(self).finished == old(self).finished,
            final(self).drain_polls == old(self).drain_polls,
            appends(*old(self), *final(self), Some(chunk@)),
            noted(note, final(self).chunks@.len() as int),
    {
        let ghost before = texts(self.chunks@);
        self.chunks.push(chunk.to_owned());
        assert(texts(self.chunks@) =~= before + seq![chunk@]);
        let count: usize = self.chunks.len();
        ChunkNote { count, verbose: count <= 5 || count % 10 == 0 }
    }

    /// Handles a message that arrived while the snapshot is being taken;
    /// `event` is the message read as JSON, `None` when it is not a text
    /// message or does not parse. The response to the snapshot request only
    /// marks the request completed. A chunk event stores its chunk. A
    /// progress event marks the snapshot finished when it says so (then
    /// pause 2 seconds if no chunk came yet, else 1), and reports the
    /// percentage done. Once finished, the collection waits for late chunks.
    pub fn on_message(&mut self, event: Option<&JsonValue>) -> (report: MessageReport)
        ensures
            final(self).req_id == old(self).req_id,
            final(self).drain_polls == old(self).drain_polls,
            appends(*old(self), *final(self), main_chunk(old(self).req_id, event)),
            match event {
                None => {
                    &&& final(self).chunks@ == old(self).chunks@
                    &&& final(self).request_completed == old(self).request_completed
                    &&& final(self).finished == old(self).finished
                    &&& !report.answered
                    &&& report.chunk is None
                    &&& report.finish_pause_secs is None
                    &&& report.progress is None
                    &&& report.start_drain == old(self).finished
                },
                Some(ev) => if answers(*ev, old(self).req_id) {
                    &&& final(self).chunks@ == old(self).chunks@
                    &&& final(self).request_completed
                    &&& final(self).finished == old(self).finished
                    &&& report.answered
                    &&& report.chunk is None
                    &&& report.finish_pause_secs is None
                    &&& report.progress is None
                    &&& !report.start_drain
                } else {
                    &&& final(self).request_completed == old(self).request_completed
                    &&& final(self).finished == (old(self).finished || reports_finished(*ev))
                    &&& !report.answered
                    &&& match report.chunk {
                        Some(note) => carried_chunk(*ev) is Some && noted(
                            note,
                            final(self).chunks@.len() as int,
                        ),
                        None => carried_chunk(*ev) is None,
                    }
                    &&& report.finish_pause_secs == if reports_finished(*ev) {
                        Some(if old(self).chunks@.len() == 0 { 2u64 } else { 1u64 })
                    } else {
                        None::<u64>
                    }
                    &&& report.progress == match reported_progress(*ev) {
                        Some(p) => Some(p as u128),
                        None => None::<u128>,
                    }
                    &&& report.start_drain == final(self).finished
                },
            },
    {
        let mut report = MessageReport {
            answered: false,
            chunk: None,
            finish_pause_secs: None,
            progress: None,
            start_drain: false,
        };
        let ev = match event {
            None => {
                assert(texts(self.chunks@) =~= texts(self.chunks@) + optional(None));
                report.start_drain = self.finished;
                return report;
            },
            Some(ev) => ev,
        };
        let id = match ev.get("id") {
            Some(i) => i.as_u64(),
            None => None,
        };
        if id == Some(self.req_id) {
            assert(texts(self.chunks@) =~= texts(self.chunks@) + optional(None));
            self.request_completed = true;
            report.answered = true;
            return report;
        }
        let ghost before = *self;
        proof {
            reveal_strlit("HeapProfiler.addHeapSnapshotChunk");
            reveal_strlit("HeapProfiler.reportHeapSnapshotProgress");
        }
        match method_of(ev) {
            Some(m) => {
                if str_equals(m, "HeapProfiler.addHeapSnapshotChunk") {
                    assert(chunk_method().len() != progress_method().len());
                    assert(!reports_finished(*ev));
                    match chunk_of(ev) {
                        Some(c) => {
                            report.chunk = Some(self.store(c));
                        },
                        None => {
                            assert(texts(self.chunks@) =~= texts(before.chunks@) + optional(None));
                        },
                    }
                } else {
                    assert(texts(self.chunks@) =~= texts(before.chunks@) + optional(None));
                    if str_equals(m, "HeapProfiler.reportHeapSnapshotProgress") {
                        match ev.get("params") {
                            Some(params) => {
                                let fin = match params.get("finished") {
                                    Some(f) => f.as_bool(),
                                    None => None,
                                };
                                if fin == Some(true) {
                                    self.finished = true;
                                    report.finish_pause_secs = Some(
                                        if self.chunks.len() == 0 { 2 } else { 1 },
                                    );
                                }
                                let done = match params.get("done") {
                                    Some(d) => d.as_u64(),
                                    None => None,
                                };
                                let total = match params.get("total") {
                                    Some(t) => t.as_u64(),
                                    None => None,
                                };
                                match (done, total) {
                                    (Some(d), Some(t)) => {
                                        report.progress = progress_percent(d, t);
                                    },
                                    _ => {},
                                }
                            },
                            None => {},
                        }
                    }
                }
            },
            None => {
                assert(texts(self.chunks@) =~= texts(before.chunks@) + optional(None));
            },
        }
        report.start_drain = self.finished;
        report
    }

    /// Starts the wait for late chunks.
    pub fn begin_drain(&mut self)
        ensures
            final(self).drain_polls == 0,
            final(self).req_id == old(self).req_id,
            final(self).request_completed == old(self).request_completed,
            final(self).finished == old(self).finished,
            final(self).chunks@ == old(self).chunks@,
    {
        self.drain_polls = 0;
    }

    /// Whether another poll for a late chunk is due: fewer than five polls
    /// since the last chunk.
    pub fn drain_pending(&self) -> (res: bool)
        ensures
            res == (self.drain_polls < DRAIN_POLLS),
    {
        self.drain_polls < DRAIN_POLLS
    }

    /// Handles the outcome of one poll for a late chunk: `polled` is the
    /// message that arrived in time, read as JSON, if any. A chunk is stored
    /// and restarts the count of quiet polls; anything else counts as one
    /// more quiet poll.
    pub fn drain_tick(&mut self, polled: Option<&JsonValue>) -> (note: Option<ChunkNote>)
        requires
            old(self).drain_polls < DRAIN_POLLS,
        ensures
            final(self).req_id == old(self).req_id,
            final(self).request_completed == old(self).request_completed,
            final(self).finished == old(self).finished,
            appends(*old(self), *final(self), drain_chunk(polled)),
            match note {
                Some(n) => {
                    &&& drain_chunk(polled) is Some
                    &&& final(self).drain_polls == 0
                    &&& noted(n, final(self).chunks@.len() as int)
                },
                None => {
                    &&& drain_chunk(polled) is None
                    &&& final(self).drain_polls == old(self).drain_polls + 1
                },
            },
    {
        self.drain_polls = self.drain_polls + 1;
        match polled {
            Some(ev) => match chunk_of(ev) {
                Some(c) => {
                    let note = self.store(c);
                    self.drain_polls = 0;
                    Some(note)
                },
                None => {
                    assert(texts(self.chunks@) =~= texts(self.chunks@) + optional(None));
                    None
                },
            },
            None => {
                assert(texts(self.chunks@) =~= texts(self.chunks@) + optional(None));
                None
            },
        }
    }

    /// The outcome of the collection: running past the deadline is an
    /// error; so is having no chunk; otherwise the snapshot is the chunks
    /// joined in the order they came.
    pub fn finish(&self, timed_out: bool) -> (res: Result<String, ClientError>)
        ensures
            timed_out ==> res == Err::<String, ClientError>(ClientError::SnapshotTimedOut),
            !timed_out && self.chunks@.len() == 0 ==> res == Err::<String, ClientError>(
                ClientError::NoSnapshotData {
                    request_completed: self.request_completed,
                    finished: self.finished,
                },
            ),
            !timed_out && self.chunks@.len() > 0 ==> (res matches Ok(s) && s@ == concat_all(
                texts(self.chunks@),
            )),
    {
        if timed_out {
            return Err(ClientError::SnapshotTimedOut);
        }
        if self.chunks.len() == 0 {
            return Err(
                ClientError::NoSnapshotData {
                    request_completed: self.request_completed,
                    finished: self.finished,
                },
            );
        }
        Ok(join_chunks(&self.chunks))
    }
}

/// The chunks joined in order, as `chunks.join("")` makes them.
pub fn join_chunks(chunks: &Vec<String>) -> (res: String)
    ensures
        res@ == concat_all(texts(chunks@)),
{
    let mut res = String::new();
    let n: usize = chunks.len();
    let mut i: usize = 0;
    while i < n
        invariant
            n == chunks@.len(),
            i <= n,
            res@ == concat_all(texts(chunks@.subrange(0, i as int))),
        decreases n - i,
    {
        assert(texts(chunks@.subrange(0, i + 1)).drop_last() =~= texts(chunks@.subrange(0, i as int)));
        res.append(chunks[i].as_str());
        i = i + 1;
    }
    assert(chunks@.subrange(0, n as int) =~= chunks@);
    res
}

proof fn chunks_so_far(states: Seq<SnapshotCollector>, parts: Seq<Option<Seq<char>>>, k: int)
    requires
        states.len() == parts.len() + 1,
        states[0].chunks@.len() == 0,
        forall|m: int| 0 <= m < parts.len() ==> appends(states[m], states[m + 1], #[trigger] parts[m]),
        0 <= k <= parts.len(),
    ensures
        texts(states[k].chunks@) == present(parts.take(k)),
    decreases k,
{
    if k == 0 {
        assert(texts(states[0].chunks@) =~= Seq::<Seq<char>>::empty());
    } else {
        chunks_so_far(states, parts, k - 1);
        assert(appends(states[k - 1], states[k], parts[k - 1]));
        assert(parts.take(k).drop_last() =~= parts.take(k - 1));
    }
}

/// Whatever messages and polls a collection goes through, the chunks it
/// holds are those the messages carried, in the order they arrived; so the
/// snapshot that `finish` saves is their concatenation in that order.
pub proof fn snapshot_keeps_arrival_order(states: Seq<SnapshotCollector>, parts: Seq<Option<Seq<char>>>)
    requires
        states.len() == parts.len() + 1,
        states[0].chunks@.len() == 0,
        forall|m: int| 0 <= m < parts.len() ==> appends(states[m], states[m + 1], #[trigger] parts[m]),
    ensures
        texts(states.last().chunks@) == present(parts),
        concat_all(texts(states.last().chunks@)) == concat_all(present(parts)),
{
    chunks_so_far(states, parts, parts.len() as int);
    assert(parts.take(parts.len() as int) =~= parts);
}

} // verus!
