use louter::api::chat::{
    api_key_from_header, collect_completion_sample, collect_stream_sample, completion_sample_row,
    new_routing_history, new_usage_log, no_target_available, stream_sample_row, usage_counts,
    usage_log_row, ChoiceSummary, ChunkDelta, FailoverState, FailoverStep, StreamEvent,
    StreamForwarder, StreamTally, TokenUsage, exhausted_error, FailoverError,
};
use louter::api::json_text::assistant_message_json;
use louter::api::stamp::{new_record_id, rfc3339_utc, utc_timestamp, uuid_text_from_bytes};
use louter::router::RouteError;

fn is_uuid_v4(s: &str) -> bool {
    let c: Vec<char> = s.chars().collect();
    c.len() == 36
        && c.iter().enumerate().all(|(i, ch)| {
            if i == 8 || i == 13 || i == 18 || i == 23 {
                *ch == '-'
            } else {
                ch.is_ascii_digit() || ('a'..='f').contains(ch)
            }
        })
        && c[14] == '4'
        && "89ab".contains(c[19])
}

#[test]
fn bearer_prefix_is_stripped() {
    assert_eq!(api_key_from_header(Some("Bearer lot_abc")), "lot_abc");
    assert_eq!(api_key_from_header(Some("lot_abc")), "lot_abc");
    assert_eq!(api_key_from_header(Some("bearer lot_abc")), "bearer lot_abc");
    assert_eq!(api_key_from_header(Some("Bearer ")), "");
    assert_eq!(api_key_from_header(None), "");
}

#[test]
fn failover_tries_each_target_in_order() {
    let mut s = FailoverState::new(3);
    let mut tried = Vec::new();
    loop {
        match s.step() {
            FailoverStep::Attempt { index, was_fallback } => {
                assert_eq!(was_fallback, index > 0);
                tried.push(index);
                s.record_failure();
            }
            FailoverStep::Exhausted { tried_any } => {
                assert!(tried_any);
                break;
            }
        }
    }
    assert_eq!(tried, vec![0, 1, 2]);
}

#[test]
fn failover_with_no_targets_gives_no_route() {
    let s = FailoverState::new(0);
    assert!(matches!(s.step(), FailoverStep::Exhausted { tried_any: false }));
    match no_target_available() {
        RouteError::NoRoute(m) => assert_eq!(m, "No routing target available"),
    }
}

#[test]
fn first_attempt_is_not_a_fallback() {
    let s = FailoverState::new(2);
    assert!(matches!(s.step(), FailoverStep::Attempt { index: 0, was_fallback: false }));
}

#[test]
fn usage_counts_convert_like_as() {
    assert_eq!(usage_counts(None), (0, 0));
    assert_eq!(
        usage_counts(Some(TokenUsage { prompt_tokens: 12, completion_tokens: 30 })),
        (12, 30)
    );
    assert_eq!(
        usage_counts(Some(TokenUsage { prompt_tokens: 3_000_000_000, completion_tokens: 1 })),
        (3_000_000_000u32 as i32, 1)
    );
}

#[test]
fn usage_log_row_adds_totals() {
    let row = usage_log_row("id1".to_string(), "t".to_string(), "key", "gpt-4o", "gpt-4o-2024", 10, 5, 99);
    assert_eq!(row.id, "id1");
    assert_eq!(row.key_id.as_deref(), Some("key"));
    assert_eq!(row.provider_id, None);
    assert_eq!(row.request_model, "gpt-4o");
    assert_eq!(row.model_id, "gpt-4o-2024");
    assert_eq!(row.total_tokens, 15);
    assert_eq!(row.status_code, 200);
    assert_eq!(row.latency_ms, 99);
    assert_eq!(row.created_at, "t");
}

#[test]
fn fresh_rows_get_uuid_and_utc_time() {
    let a = new_usage_log("k", "m", "m", 1, 2, 3).unwrap();
    let b = new_usage_log("k", "m", "m", 1, 2, 3).unwrap();
    assert!(is_uuid_v4(&a.id));
    assert_ne!(a.id, b.id);
    assert!(a.created_at.ends_with("+00:00"));
    assert!(a.created_at.len() >= 25);
    let h = new_routing_history("code", "cloud", false, true, 7).unwrap();
    assert!(is_uuid_v4(&h.id));
    assert_eq!(h.task_type, "code");
    assert_eq!(h.routed_to, "cloud");
    assert!(!h.was_successful);
    assert!(h.was_fallback);
    assert_eq!(h.latency_ms, 7);
}

#[test]
fn completion_sample_reads_first_choice() {
    let row = completion_sample_row(
        "id".to_string(),
        "now".to_string(),
        "[]".to_string(),
        None,
        Some(ChoiceSummary { tool_call_count: Some(2), message_json: "{\"role\":\"assistant\"}".to_string() }),
        Some(TokenUsage { prompt_tokens: 4, completion_tokens: 6 }),
        "sonnet-3",
        "sonnet-3-large",
        "anthropic",
        "tool_call",
        "cloud",
        120,
    );
    assert!(row.has_tool_calls);
    assert_eq!(row.response_content, "{\"role\":\"assistant\"}");
    assert_eq!((row.prompt_tokens, row.completion_tokens, row.total_tokens), (4, 6, 10));
    assert!(row.is_successful);
    assert!(!row.is_exported);
    assert_eq!(row.provider_type, "anthropic");
    assert_eq!(row.source, "cloud");
}

#[test]
fn completion_sample_without_tool_calls_or_choice() {
    let empty_calls = collect_completion_sample(
        "[]".to_string(),
        Some("[{}]".to_string()),
        Some(ChoiceSummary { tool_call_count: Some(0), message_json: "m".to_string() }),
        None,
        "a",
        "b",
        "cloud",
        "general",
        "cloud",
        1,
    )
    .unwrap();
    assert!(!empty_calls.has_tool_calls);
    assert_eq!(empty_calls.request_tools.as_deref(), Some("[{}]"));
    assert_eq!(empty_calls.total_tokens, 0);
    assert!(is_uuid_v4(&empty_calls.id));
    let no_choice = collect_completion_sample(
        "[]".to_string(), None, None, None, "a", "b", "cloud", "general", "cloud", 1,
    )
    .unwrap();
    assert!(!no_choice.has_tool_calls);
    assert_eq!(no_choice.response_content, "");
}

fn delta(text: Option<&str>, tools: bool) -> ChunkDelta {
    ChunkDelta { content: text.map(|t| t.to_string()), has_tool_calls: tools }
}

#[test]
fn stream_tally_accumulates_text_and_last_counts() {
    let mut t = StreamTally::new(true);
    t.observe(None, &vec![delta(Some("Hel"), false)]);
    t.observe(Some(TokenUsage { prompt_tokens: 9, completion_tokens: 0 }), &vec![delta(Some("lo"), false), delta(None, false)]);
    t.observe(Some(TokenUsage { prompt_tokens: 0, completion_tokens: 3 }), &vec![delta(Some("!"), true)]);
    assert_eq!(t.content, "Hello!");
    assert!(t.has_tool_calls);
    assert_eq!(t.totals(), (9, 3, 12));
    assert!(t.stores_sample());
}

#[test]
fn stream_tally_without_collection_keeps_only_counts() {
    let mut t = StreamTally::new(false);
    t.observe(Some(TokenUsage { prompt_tokens: 5, completion_tokens: 7 }), &vec![delta(Some("x"), true)]);
    assert_eq!(t.content, "");
    assert!(!t.has_tool_calls);
    assert_eq!(t.totals(), (5, 7, 12));
    assert!(!t.stores_sample());
}

#[test]
fn empty_stream_stores_no_sample() {
    let t = StreamTally::new(true);
    assert!(!t.stores_sample());
    assert_eq!(t.totals(), (0, 0, 0));
}

#[test]
fn stream_sample_is_a_cloud_sample() {
    let mut t = StreamTally::new(true);
    t.observe(Some(TokenUsage { prompt_tokens: 2, completion_tokens: 3 }), &vec![delta(Some("hi"), false)]);
    let row = stream_sample_row(
        "id".to_string(), "now".to_string(), &t, "[]".to_string(), None, "gpt", "gpt-4o", "general", 50,
    );
    assert_eq!(row.response_content, "{\"content\":\"hi\",\"role\":\"assistant\"}");
    assert_eq!(row.provider_type, "cloud");
    assert_eq!(row.source, "cloud");
    assert_eq!(row.total_tokens, 5);
    assert!(!row.has_tool_calls);
    let fresh = collect_stream_sample(&t, "[]".to_string(), None, "gpt", "gpt-4o", "general", 50).unwrap();
    assert!(is_uuid_v4(&fresh.id));
    assert!(fresh.created_at.ends_with("+00:00"));
}

#[test]
fn record_ids_are_fresh_uuid_v4_text() {
    let a = new_record_id().unwrap();
    let b = new_record_id().unwrap();
    assert!(is_uuid_v4(&a));
    assert!(is_uuid_v4(&b));
    assert_ne!(a, b);
}

#[test]
fn timestamps_are_rfc3339_in_utc() {
    let t = utc_timestamp().unwrap();
    let c: Vec<char> = t.chars().collect();
    assert!(t.ends_with("+00:00"));
    assert!([25, 29, 32, 35].contains(&c.len()));
    assert_eq!((c[4], c[7], c[10], c[13], c[16]), ('-', '-', 'T', ':', ':'));
    assert!(t.as_str() >= "2024");
}

#[test]
fn forwarder_passes_chunks_and_closes_with_done() {
    let mut f = StreamForwarder::new(true);
    let a = f.on_event(StreamEvent::Chunk {
        usage: Some(TokenUsage { prompt_tokens: 3, completion_tokens: 4 }),
        deltas: vec![delta(Some("ok"), false)],
        json: "{\"id\":1}".to_string(),
    });
    assert_eq!(a.send, vec!["{\"id\":1}".to_string()]);
    assert!(!a.stop);
    let b = f.on_event(StreamEvent::Ended);
    assert_eq!(b.send, vec!["[DONE]".to_string()]);
    assert!(b.stop);
    assert!(f.finished);
    assert_eq!(f.tally.content, "ok");
    assert_eq!(f.tally.totals(), (3, 4, 7));
}

#[test]
fn forwarder_reports_errors_then_done() {
    let mut f = StreamForwarder::new(false);
    let a = f.on_event(StreamEvent::Failed { message: "upstream timeout".to_string() });
    assert_eq!(
        a.send,
        vec!["{\"error\": \"upstream timeout\"}".to_string(), "[DONE]".to_string()]
    );
    assert!(a.stop);
}

#[test]
fn forwarder_stops_when_client_is_gone() {
    let mut f = StreamForwarder::new(true);
    let _ = f.on_event(StreamEvent::Chunk { usage: None, deltas: vec![], json: "x".to_string() });
    let a = f.on_event(StreamEvent::ClientGone);
    assert_eq!(a.send, vec!["[DONE]".to_string()]);
    assert!(a.stop);
    assert!(f.finished);
}

#[test]
fn stream_sample_needs_collected_text() {
    let mut t = StreamTally::new(true);
    assert!(collect_stream_sample(&t, "[]".to_string(), None, "m", "m", "general", 1).is_none());
    t.observe(None, &vec![delta(Some("a\"b\n"), false)]);
    let row = collect_stream_sample(&t, "[]".to_string(), None, "m", "m", "general", 1).unwrap();
    assert_eq!(row.response_content, "{\"content\":\"a\\\"b\\n\",\"role\":\"assistant\"}");
    let mut off = StreamTally::new(false);
    off.observe(None, &vec![delta(Some("text"), false)]);
    assert!(collect_stream_sample(&off, "[]".to_string(), None, "m", "m", "general", 1).is_none());
}

#[test]
fn assistant_message_json_matches_serde_json() {
    for text in ["", "hello", "quote \" and \\ and \u{1}", "中文"] {
        let mut object = serde_json::Map::new();
        object.insert("role".to_string(), serde_json::Value::String("assistant".to_string()));
        object.insert("content".to_string(), serde_json::Value::String(text.to_string()));
        let expected = serde_json::Value::Object(object).to_string();
        assert_eq!(assistant_message_json(text), expected);
    }
}

#[test]
fn uuid_text_from_given_bytes() {
    let bytes = [0xffu8; 16];
    assert_eq!(uuid_text_from_bytes(bytes), "ffffffff-ffff-4fff-bfff-ffffffffffff");
    let bytes = [0u8; 16];
    assert_eq!(uuid_text_from_bytes(bytes), "00000000-0000-4000-8000-000000000000");
    let bytes = [0x12, 0x34, 0x56, 0x78, 0x9a, 0xbc, 0xde, 0xf0, 0x12, 0x34, 0x56, 0x78, 0x9a, 0xbc, 0xde, 0xf0];
    assert_eq!(uuid_text_from_bytes(bytes), "12345678-9abc-4ef0-9234-56789abcdef0");
}

#[test]
fn rfc3339_of_given_readings() {
    assert_eq!(rfc3339_utc(0, 0).unwrap(), "1970-01-01T00:00:00+00:00");
    assert_eq!(rfc3339_utc(1431648000, 0).unwrap(), "2015-05-15T00:00:00+00:00");
    assert_eq!(rfc3339_utc(1431648000, 5_000_000).unwrap(), "2015-05-15T00:00:00.005+00:00");
    assert_eq!(rfc3339_utc(1431648000, 123_456_789).unwrap(), "2015-05-15T00:00:00.123456789+00:00");
    assert!(rfc3339_utc(u64::MAX, 0).is_none());
    assert!(rfc3339_utc(9_223_372_036_854_775_808, 0).is_none());
}

#[test]
fn exhausted_failover_answers_with_last_error() {
    match exhausted_error(Some("timeout")) {
        FailoverError::Failed(e) => assert_eq!(e, "timeout"),
        FailoverError::NoRoute(_) => panic!("expected the last error"),
    }
    match exhausted_error::<&str>(None) {
        FailoverError::NoRoute(RouteError::NoRoute(m)) => assert_eq!(m, "No routing target available"),
        FailoverError::Failed(_) => panic!("expected NoRoute"),
    }
}
