use cdp_client::capture::{profile_payload, CaptureKind, SAMPLING_INTERVAL};
use cdp_client::console::{console_command, console_output, trim_line, white_space, ConsoleCommand};
use cdp_client::error::ClientError;
use cdp_client::json::{JsonNumber, JsonValue};
use cdp_client::protocol::{CDPClient, CDPResponse, Command, WaitStep, WireEvent};
use cdp_client::snapshot::{
    collect_garbage, heap_profiler_enable, join_chunks, progress_percent, take_heap_snapshot,
    SnapshotCollector,
};
use cdp_client::target::{
    connection_url, connection_url_from, plan_resolution, select_target, target_list_url,
    target_title, CDPTarget, ConnectionArgs, ResolvePlan,
};
use cdp_client::text::{decimal_string, str_equals};

fn s(text: &str) -> JsonValue {
    JsonValue::Str(text.to_string())
}

fn n(v: u64) -> JsonValue {
    JsonValue::Number(JsonNumber::Unsigned(v))
}

fn obj(members: Vec<(&str, JsonValue)>) -> JsonValue {
    JsonValue::Object(members.into_iter().map(|(k, v)| (k.to_string(), v)).collect())
}

fn target(ty: &str, url: &str, title: Option<&str>) -> CDPTarget {
    CDPTarget {
        websocket_debugger_url: url.to_string(),
        target_type: ty.to_string(),
        id: "id".to_string(),
        title: title.map(|t| t.to_string()),
    }
}

fn args(ws: Option<&str>, http: Option<&str>, port: Option<u16>) -> ConnectionArgs {
    ConnectionArgs {
        websocket: ws.map(|x| x.to_string()),
        http_url: http.map(|x| x.to_string()),
        port,
    }
}

// ---- json ----

#[test]
fn json_get_finds_first_member() {
    let v = obj(vec![("a", n(1)), ("b", s("x")), ("a", n(2))]);
    assert_eq!(v.get("a"), Some(&n(1)));
    assert_eq!(v.get("b").and_then(|x| x.as_str()), Some("x"));
    assert_eq!(v.get("c"), None);
    assert_eq!(s("a").get("a"), None);
}

#[test]
fn json_scalar_readers() {
    assert_eq!(n(7).as_u64(), Some(7));
    assert_eq!(JsonValue::Number(JsonNumber::Negative(-3)).as_u64(), None);
    assert_eq!(JsonValue::Number(JsonNumber::NonInteger("1.5".to_string())).as_u64(), None);
    assert_eq!(JsonValue::Bool(true).as_bool(), Some(true));
    assert_eq!(n(1).as_bool(), None);
    assert_eq!(s("hi").as_str(), Some("hi"));
    assert_eq!(JsonValue::Null.as_str(), None);
}

// ---- text ----

#[test]
fn decimal_string_matches_format() {
    for v in [0u64, 7, 10, 99, 100, 9229, 32768, 65535, u64::MAX] {
        assert_eq!(decimal_string(v), format!("{}", v));
    }
}

#[test]
fn str_equals_compares_contents() {
    assert!(str_equals("node", "node"));
    assert!(!str_equals("node", "page"));
    assert!(!str_equals("", "x"));
}

// ---- target ----

#[test]
fn target_list_url_prefers_http_then_port_then_default() {
    assert_eq!(target_list_url(&args(None, Some("http://h:1/json"), Some(5))), "http://h:1/json");
    assert_eq!(target_list_url(&args(None, None, Some(9230))), "http://localhost:9230/json");
    assert_eq!(target_list_url(&args(None, None, None)), "http://localhost:9229/json");
}

#[test]
fn default_endpoint_equals_port_9229() {
    assert_eq!(
        target_list_url(&args(None, None, None)),
        target_list_url(&args(None, None, Some(9229)))
    );
}

#[test]
fn plan_uses_websocket_first() {
    assert_eq!(
        plan_resolution(&args(Some("ws://a/b"), Some("http://x/json"), Some(1))),
        ResolvePlan::Direct("ws://a/b".to_string())
    );
    assert_eq!(
        plan_resolution(&args(None, None, Some(9229))),
        ResolvePlan::FetchTargets("http://localhost:9229/json".to_string())
    );
}

#[test]
fn select_prefers_node_then_page_then_first() {
    let ts = vec![target("other", "ws://0", None), target("page", "ws://1", None), target("node", "ws://2", None), target("node", "ws://3", None)];
    assert_eq!(select_target(&ts), Ok(2));
    let ts = vec![target("other", "ws://0", None), target("page", "ws://1", None), target("page", "ws://2", None)];
    assert_eq!(select_target(&ts), Ok(1));
    let ts = vec![target("worker", "ws://0", None), target("other", "ws://1", None)];
    assert_eq!(select_target(&ts), Ok(0));
}

#[test]
fn select_on_empty_list_is_no_targets() {
    assert_eq!(select_target(&Vec::new()), Err(ClientError::NoTargets));
}

#[test]
fn target_title_defaults_to_untitled() {
    assert_eq!(target_title(&target("node", "ws://x", Some("app.js"))), "app.js");
    assert_eq!(target_title(&target("node", "ws://x", None)), "untitled");
}

#[test]
fn connection_url_normalizes_valid_url() {
    assert_eq!(
        connection_url("WS://LocalHost:9229/abc"),
        Ok("ws://localhost:9229/abc".to_string())
    );
    assert_eq!(
        connection_url("ws://127.0.0.1:9229/12345678-1234-1234-1234-123456789abc"),
        Ok("ws://127.0.0.1:9229/12345678-1234-1234-1234-123456789abc".to_string())
    );
}

#[test]
fn connection_url_rejects_invalid_url() {
    assert_eq!(connection_url("not a url"), Err(ClientError::InvalidWebSocketUrl));
    assert_eq!(connection_url(""), Err(ClientError::InvalidWebSocketUrl));
}

#[test]
fn connection_url_from_maps_outcome() {
    assert_eq!(connection_url_from(Some("ws://a/".to_string())), Ok("ws://a/".to_string()));
    assert_eq!(connection_url_from(None), Err(ClientError::InvalidWebSocketUrl));
}

// ---- protocol ----

#[test]
fn requests_take_successive_ids() {
    let mut c = CDPClient::new();
    let r1 = c.begin_request(Command::new("A.a", obj(vec![])));
    let r2 = c.begin_request(Command::evaluate("1 + 1"));
    assert_eq!(r1.id, 1);
    assert_eq!(r2.id, 2);
    assert_eq!(c.counter, 3);
    assert_eq!(r1.method, "A.a");
    assert_eq!(r2.method, "Runtime.evaluate");
    assert_eq!(r2.params, obj(vec![("expression", s("1 + 1"))]));
}

fn resp(id: Option<u64>, result: Option<JsonValue>, error: Option<JsonValue>) -> WireEvent {
    WireEvent::Text(Some(CDPResponse { id, result, error }))
}

#[test]
fn wait_completes_only_on_own_id() {
    let mut c = CDPClient::new();
    let r = c.begin_request(Command::evaluate("x"));
    assert_eq!(r.on_event(resp(Some(5), Some(n(1)), None)), WaitStep::Pending);
    assert_eq!(r.on_event(resp(None, Some(n(1)), None)), WaitStep::Pending);
    assert_eq!(r.on_event(WireEvent::Text(None)), WaitStep::Pending);
    assert_eq!(r.on_event(WireEvent::Other), WaitStep::Pending);
    assert_eq!(r.on_event(resp(Some(1), Some(n(1)), None)), WaitStep::Complete(Ok(n(1))));
}

#[test]
fn earlier_response_does_not_complete_later_request() {
    let mut c = CDPClient::new();
    let first = c.begin_request(Command::evaluate("a"));
    let second = c.begin_request(Command::evaluate("b"));
    assert_eq!(second.on_event(resp(Some(first.id), Some(n(1)), None)), WaitStep::Pending);
}

#[test]
fn wait_error_wins_over_result() {
    let mut c = CDPClient::new();
    let r = c.begin_request(Command::evaluate("x"));
    let err = obj(vec![("code", JsonValue::Number(JsonNumber::Negative(-32601))), ("message", s("nope"))]);
    assert_eq!(
        r.on_event(resp(Some(1), Some(n(1)), Some(err))),
        WaitStep::Complete(Err(ClientError::Protocol(obj(vec![
            ("code", JsonValue::Number(JsonNumber::Negative(-32601))),
            ("message", s("nope"))
        ]))))
    );
}

#[test]
fn wait_without_result_is_empty_result() {
    let mut c = CDPClient::new();
    let r = c.begin_request(Command::evaluate("x"));
    assert_eq!(r.on_event(resp(Some(1), None, None)), WaitStep::Complete(Err(ClientError::EmptyResult)));
}

#[test]
fn wait_on_close_is_connection_closed() {
    let mut c = CDPClient::new();
    let r = c.begin_request(Command::evaluate("x"));
    assert_eq!(r.on_event(WireEvent::Closed), WaitStep::Complete(Err(ClientError::ConnectionClosed)));
}

// ---- console ----

#[test]
fn trim_line_removes_unicode_whitespace() {
    assert_eq!(trim_line("  2 + 3\n"), "2 + 3");
    assert_eq!(trim_line("\u{3000}\tx y\u{a0}\r\n"), "x y");
    assert_eq!(trim_line(" \t \n"), "");
    assert_eq!(trim_line("abc"), "abc");
    assert_eq!(trim_line(""), "");
    let odd = "\u{2028} é \u{85}";
    assert_eq!(trim_line(odd), odd.trim());
}

#[test]
fn white_space_agrees_with_std() {
    for c in ['\t', '\n', ' ', '\u{85}', '\u{a0}', '\u{1680}', '\u{2000}', '\u{200a}', '\u{2028}', '\u{2029}', '\u{202f}', '\u{205f}', '\u{3000}', 'a', '\u{200b}', '\u{feff}', '0'] {
        assert_eq!(white_space(c), c.is_whitespace(), "{:?}", c);
    }
}

#[test]
fn console_exits_on_empty_or_exit() {
    assert_eq!(console_command("\n"), ConsoleCommand::Exit);
    assert_eq!(console_command(""), ConsoleCommand::Exit);
    assert_eq!(console_command("  exit \n"), ConsoleCommand::Exit);
    assert_eq!(console_command("exit()\n"), ConsoleCommand::Evaluate("exit()".to_string()));
    assert_eq!(console_command(" 2 + 3\n"), ConsoleCommand::Evaluate("2 + 3".to_string()));
    assert_eq!(console_command("Exit"), ConsoleCommand::Evaluate("Exit".to_string()));
}

#[test]
fn console_shows_result_value() {
    let v = obj(vec![("result", obj(vec![("type", s("number")), ("value", n(5))]))]);
    assert_eq!(console_output(&v), Some(&n(5)));
    let undefined = obj(vec![("result", obj(vec![("type", s("undefined"))]))]);
    assert_eq!(console_output(&undefined), None);
    assert_eq!(console_output(&JsonValue::Null), None);
}

// ---- capture ----

#[test]
fn memory_sampling_commands() {
    let start = CaptureKind::MemorySampling.start_commands();
    assert_eq!(start.len(), 2);
    assert_eq!(start[0], Command::new("HeapProfiler.enable", obj(vec![])));
    assert_eq!(start[1], Command::new("HeapProfiler.startSampling", obj(vec![("samplingInterval", n(32768))])));
    assert_eq!(SAMPLING_INTERVAL, 32768);
    assert_eq!(CaptureKind::MemorySampling.stop_command(), Command::new("HeapProfiler.stopSampling", obj(vec![])));
}

#[test]
fn cpu_profile_commands() {
    let start = CaptureKind::CpuProfile.start_commands();
    assert_eq!(start, vec![Command::new("Profiler.enable", obj(vec![])), Command::new("Profiler.start", obj(vec![]))]);
    assert_eq!(CaptureKind::CpuProfile.stop_command(), Command::new("Profiler.stop", obj(vec![])));
}

#[test]
fn profile_payload_prefers_profile_member() {
    let with = obj(vec![("profile", obj(vec![("nodes", JsonValue::Array(vec![]))]))]);
    assert_eq!(profile_payload(&with), &obj(vec![("nodes", JsonValue::Array(vec![]))]));
    let without = obj(vec![("other", n(1))]);
    assert_eq!(profile_payload(&without), &without);
}

// ---- snapshot ----

fn chunk_event(c: &str) -> JsonValue {
    obj(vec![("method", s("HeapProfiler.addHeapSnapshotChunk")), ("params", obj(vec![("chunk", s(c))]))])
}

fn progress_event(done: u64, total: u64, finished: Option<bool>) -> JsonValue {
    let mut params = vec![("done", n(done)), ("total", n(total))];
    if let Some(f) = finished {
        params.push(("finished", JsonValue::Bool(f)));
    }
    obj(vec![("method", s("HeapProfiler.reportHeapSnapshotProgress")), ("params", obj(params))])
}

#[test]
fn snapshot_commands() {
    assert_eq!(heap_profiler_enable(), Command::new("HeapProfiler.enable", obj(vec![])));
    assert_eq!(collect_garbage(), Command::new("HeapProfiler.collectGarbage", obj(vec![])));
    assert_eq!(
        take_heap_snapshot(),
        Command::new("HeapProfiler.takeHeapSnapshot", obj(vec![("reportProgress", JsonValue::Bool(true))]))
    );
}

#[test]
fn progress_percent_values() {
    assert_eq!(progress_percent(50, 200), Some(25));
    assert_eq!(progress_percent(1, 3), Some(33));
    assert_eq!(progress_percent(5, 0), None);
    assert_eq!(progress_percent(u64::MAX, 1), Some(u64::MAX as u128 * 100));
}

#[test]
fn snapshot_collects_chunks_in_order() {
    let mut col = SnapshotCollector::new(7);
    let r = col.on_message(Some(&chunk_event("{\"a\":")));
    assert_eq!(r.chunk.map(|c| (c.count, c.verbose)), Some((1, true)));
    assert!(!r.start_drain);
    let r = col.on_message(Some(&progress_event(50, 100, None)));
    assert_eq!(r.progress, Some(50));
    assert_eq!(r.finish_pause_secs, None);
    let r = col.on_message(Some(&obj(vec![("id", n(7)), ("result", obj(vec![]))])));
    assert!(r.answered);
    assert!(col.request_completed);
    let r = col.on_message(None);
    assert!(!r.start_drain);
    let r = col.on_message(Some(&chunk_event("1}")));
    assert_eq!(r.chunk.map(|c| c.count), Some(2));
    let r = col.on_message(Some(&progress_event(100, 100, Some(true))));
    assert_eq!(r.finish_pause_secs, Some(1));
    assert_eq!(r.progress, Some(100));
    assert!(r.start_drain);
    assert!(col.finished);
    col.begin_drain();
    assert!(col.drain_pending());
    assert_eq!(col.drain_tick(None), None);
    assert_eq!(col.drain_tick(Some(&obj(vec![("id", n(3))]))), None);
    assert_eq!(col.drain_polls, 2);
    let note = col.drain_tick(Some(&chunk_event("")));
    assert_eq!(note.map(|c| c.count), Some(3));
    assert_eq!(col.drain_polls, 0);
    for _ in 0..5 {
        assert!(col.drain_pending());
        assert_eq!(col.drain_tick(None), None);
    }
    assert!(!col.drain_pending());
    assert_eq!(col.finish(false), Ok("{\"a\":1}".to_string()));
}

#[test]
fn snapshot_finish_pause_is_two_seconds_without_chunks() {
    let mut col = SnapshotCollector::new(1);
    let r = col.on_message(Some(&progress_event(0, 0, Some(true))));
    assert_eq!(r.finish_pause_secs, Some(2));
    assert_eq!(r.progress, None);
    assert!(r.start_drain);
}

#[test]
fn snapshot_verbose_chunk_counts() {
    let mut col = SnapshotCollector::new(1);
    let mut verbose = Vec::new();
    for _ in 0..21 {
        let r = col.on_message(Some(&chunk_event("x")));
        verbose.push(r.chunk.unwrap().verbose);
    }
    let expected: Vec<bool> = (1..=21).map(|c| c <= 5 || c % 10 == 0).collect();
    assert_eq!(verbose, expected);
}

#[test]
fn snapshot_ignores_unrelated_messages() {
    let mut col = SnapshotCollector::new(1);
    let r = col.on_message(Some(&obj(vec![("method", s("Runtime.consoleAPICalled")), ("params", obj(vec![("chunk", s("x"))]))])));
    assert_eq!(r.chunk, None);
    let r = col.on_message(Some(&obj(vec![("method", s("HeapProfiler.addHeapSnapshotChunk")), ("params", obj(vec![("chunk", n(3))]))])));
    assert_eq!(r.chunk, None);
    let r = col.on_message(Some(&obj(vec![("id", n(2)), ("method", s("HeapProfiler.addHeapSnapshotChunk")), ("params", obj(vec![("chunk", s("y"))]))])));
    assert_eq!(r.chunk.map(|c| c.count), Some(1));
    assert!(!col.request_completed);
}

#[test]
fn snapshot_errors() {
    let col = SnapshotCollector::new(1);
    assert_eq!(col.finish(true), Err(ClientError::SnapshotTimedOut));
    assert_eq!(
        col.finish(false),
        Err(ClientError::NoSnapshotData { request_completed: false, finished: false })
    );
    let mut col = SnapshotCollector::new(1);
    col.on_message(Some(&chunk_event("x")));
    assert_eq!(col.finish(true), Err(ClientError::SnapshotTimedOut));
}

#[test]
fn join_chunks_concatenates() {
    let parts = vec!["ab".to_string(), "".to_string(), "é€".to_string()];
    assert_eq!(join_chunks(&parts), parts.join(""));
    assert_eq!(join_chunks(&Vec::new()), "");
}
