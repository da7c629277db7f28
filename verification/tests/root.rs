use axum::http::HeaderMap;
use serde_json::Value;
use switchyard_observability::protocol::{AggLlmResponse, LlmRequest, LlmResponse, Response};
use switchyard_observability::root::{record_json, record_root_error, record_root_input};
use switchyard_observability::root::{record_root_outcome, record_root_output};
use switchyard_observability::root::{record_root_route_context, request_span, root_span};
use switchyard_observability::span::{record_pair, Effect, Field, FieldValue, Level};
use switchyard_observability::span::{Span, TraceParent};
use switchyard_observability::vocabulary::{GenericKeys, LangfuseKeys, ResponseOrigin};

fn object(entries: Vec<(&str, Value)>) -> Value {
    let mut map = serde_json::Map::new();
    for (key, value) in entries {
        map.insert(key.to_string(), value);
    }
    Value::Object(map)
}

fn text(text: &str) -> Value {
    Value::String(text.to_string())
}

fn text_block(block: &str) -> Value {
    object(vec![("type", text("text")), ("text", text(block))])
}

fn message(role: &str, content: &str) -> Value {
    object(vec![
        ("role", text(role)),
        ("content", Value::Array(vec![text_block(content)])),
    ])
}

fn capture_root(record: impl FnOnce(&mut Span)) -> Span {
    let mut span = request_span(&HeaderMap::new());
    record(&mut span);
    assert_eq!(span.name, "switchyard.request");
    assert_eq!(span.level, Level::Info);
    span
}

fn shown<'a>(span: &'a Span, key: &str) -> Option<&'a str> {
    match span.get(key) {
        Some(FieldValue::Text(text)) => Some(text.as_str()),
        Some(other) => panic!("{key} is no text: {other:?}"),
        None => None,
    }
}

fn assert_pair(span: &Span, generic: &str, langfuse: &str, value: &str) {
    assert_eq!(shown(span, generic), Some(value), "{generic}");
    assert_eq!(shown(span, langfuse), Some(value), "{langfuse}");
}

fn assert_absent(span: &Span, key: &str) {
    assert_eq!(span.get(key), None, "{key} should be absent");
}

fn assert_route_context(span: &Span, route: &str, algorithm: &str, session: &str) {
    assert_pair(span, GenericKeys::ROUTE_ID, LangfuseKeys::ROUTE_ID, route);
    assert_pair(
        span,
        GenericKeys::ALGORITHM,
        LangfuseKeys::ALGORITHM,
        algorithm,
    );
    assert_eq!(shown(span, LangfuseKeys::SESSION_ID), Some(session));
}

#[test]
fn record_root_input_and_output_populates_gen_ai_prompt_and_completion() {
    let mut span = request_span(&HeaderMap::new());
    let request = LlmRequest {
        messages: vec![message("user", "hello world")],
        ..LlmRequest::default()
    };
    let response = Response {
        llm_response: LlmResponse::Agg(AggLlmResponse {
            model: Some("test-model".to_string()),
            outputs: vec![object(vec![
                ("role", text("assistant")),
                ("content", Value::Array(vec![text_block("the answer")])),
                ("stop_reason", Value::Null),
            ])],
            ..AggLlmResponse::default()
        }),
    };
    record_root_input(&mut span, &request);
    record_root_output(&mut span, &response);
    assert!(
        span.get("gen_ai.prompt").is_some(),
        "gen_ai.prompt should be recorded"
    );
    assert!(
        span.get("gen_ai.completion").is_some(),
        "gen_ai.completion should be recorded for non-streamed Agg response"
    );
    assert_eq!(
        shown(&span, "gen_ai.prompt"),
        Some("[{\"role\":\"user\",\"content\":[{\"type\":\"text\",\"text\":\"hello world\"}]}]")
    );
    assert_eq!(
        shown(&span, "gen_ai.completion"),
        Some(
            "[{\"role\":\"assistant\",\"content\":[{\"type\":\"text\",\"text\":\"the answer\"}],\
             \"stop_reason\":null}]"
        )
    );
}

#[test]
fn record_root_input_skips_empty_messages() {
    let mut span = request_span(&HeaderMap::new());
    let request = LlmRequest::default();
    record_root_input(&mut span, &request);
    assert!(
        span.get("gen_ai.prompt").is_none(),
        "gen_ai.prompt should not be recorded when messages are empty"
    );
    assert!(span.effects.is_empty());
}

#[test]
fn record_root_output_skips_completion_for_agg_with_empty_outputs() {
    let mut span = request_span(&HeaderMap::new());
    let response = Response {
        llm_response: LlmResponse::Agg(AggLlmResponse {
            model: Some("test-model".to_string()),
            outputs: vec![],
            ..AggLlmResponse::default()
        }),
    };
    record_root_output(&mut span, &response);
    assert!(
        span.get("gen_ai.completion").is_none(),
        "gen_ai.completion should not be recorded for Agg response with empty outputs"
    );
    assert!(span.effects.is_empty());
}

#[test]
fn record_root_output_skips_streamed_responses() {
    let mut span = root_span(None);
    let response = Response {
        llm_response: LlmResponse::Stream,
    };
    record_root_output(&mut span, &response);
    assert!(span.effects.is_empty());
}

#[test]
fn json_that_failed_is_not_recorded() {
    let mut span = root_span(None);
    let failed: Result<Value, serde_json::Error> = serde_json::from_str("{");
    record_json(&mut span, "gen_ai.prompt", failed.map(|_| String::new()));
    assert!(span.effects.is_empty());
    record_json(&mut span, "gen_ai.prompt", Ok("[]".to_string()));
    assert_eq!(shown(&span, "gen_ai.prompt"), Some("[]"));
}

#[test]
fn successful_request_summarizes_matching_selected_and_served_target() {
    let span = capture_root(|span| {
        record_root_route_context(
            span,
            Some("auto"),
            "random",
            Some("session-1"),
            Some("user-1"),
        );
        record_root_outcome(span, "primary", Some("primary"));
    });
    assert_route_context(&span, "auto", "random", "session-1");
    assert_pair(
        &span,
        GenericKeys::SELECTED_TARGET,
        LangfuseKeys::SELECTED_TARGET,
        "primary",
    );
    assert_pair(
        &span,
        GenericKeys::SERVED_TARGET,
        LangfuseKeys::SERVED_TARGET,
        "primary",
    );
    assert_pair(
        &span,
        GenericKeys::RESPONSE_ORIGIN,
        LangfuseKeys::RESPONSE_ORIGIN,
        ResponseOrigin::Target.as_str(),
    );
    assert_absent(&span, GenericKeys::CALL_ROLE);
    assert_absent(&span, GenericKeys::CALL_TARGET);
}

#[test]
fn fallback_success_keeps_selected_target_distinct_from_served() {
    let span = capture_root(|span| {
        record_root_route_context(
            span,
            Some("auto"),
            "llm_task_classifier",
            Some("session-2"),
            Some("user-2"),
        );
        record_root_outcome(span, "weak", Some("strong"));
    });
    assert_route_context(&span, "auto", "llm_task_classifier", "session-2");
    assert_pair(
        &span,
        GenericKeys::SELECTED_TARGET,
        LangfuseKeys::SELECTED_TARGET,
        "weak",
    );
    assert_pair(
        &span,
        GenericKeys::SERVED_TARGET,
        LangfuseKeys::SERVED_TARGET,
        "strong",
    );
    assert_pair(
        &span,
        GenericKeys::RESPONSE_ORIGIN,
        LangfuseKeys::RESPONSE_ORIGIN,
        ResponseOrigin::Target.as_str(),
    );
}

#[test]
fn routing_generated_response_does_not_claim_a_target_served_it() {
    let span = capture_root(|span| {
        record_root_route_context(
            span,
            Some("auto"),
            "noop",
            Some("session-3"),
            Some("user-3"),
        );
        record_root_outcome(span, "auto", None);
    });
    assert_route_context(&span, "auto", "noop", "session-3");
    assert_pair(
        &span,
        GenericKeys::SELECTED_TARGET,
        LangfuseKeys::SELECTED_TARGET,
        "auto",
    );
    assert_pair(
        &span,
        GenericKeys::RESPONSE_ORIGIN,
        LangfuseKeys::RESPONSE_ORIGIN,
        ResponseOrigin::RoutingGenerated.as_str(),
    );
    assert_absent(&span, GenericKeys::SERVED_TARGET);
    assert_absent(&span, LangfuseKeys::SERVED_TARGET);
}

#[test]
fn execute_failure_does_not_fabricate_a_terminal_outcome() {
    let span = capture_root(|span| {
        record_root_route_context(
            span,
            Some("auto"),
            "random",
            Some("session-4"),
            Some("user-4"),
        );
    });
    assert_route_context(&span, "auto", "random", "session-4");
    assert_absent(&span, GenericKeys::SELECTED_TARGET);
    assert_absent(&span, LangfuseKeys::SELECTED_TARGET);
    assert_absent(&span, GenericKeys::SERVED_TARGET);
    assert_absent(&span, LangfuseKeys::SERVED_TARGET);
    assert_absent(&span, GenericKeys::RESPONSE_ORIGIN);
    assert_absent(&span, LangfuseKeys::RESPONSE_ORIGIN);
}

#[test]
fn failed_request_marks_the_root_span_error() {
    let span = capture_root(|span| {
        record_root_error(span, "upstream timeout");
    });
    assert_eq!(shown(&span, "otel.status_code"), Some("ERROR"));
    assert_eq!(shown(&span, "outcome"), Some("error"));
    assert!(span.get("error").is_some());
    assert_eq!(
        span.get("error"),
        Some(&FieldValue::Display("upstream timeout".to_string()))
    );
}

#[test]
fn present_user_id_records_langfuse_user_id_on_root_span() {
    let span = capture_root(|span| {
        record_root_route_context(
            span,
            Some("auto"),
            "random",
            Some("session-1"),
            Some("kcasamento"),
        );
    });
    assert_eq!(shown(&span, LangfuseKeys::USER_ID), Some("kcasamento"));
}

#[test]
fn absent_user_id_records_no_langfuse_user_id_on_root_span() {
    let span = capture_root(|span| {
        record_root_route_context(span, Some("auto"), "random", Some("session-1"), None);
    });
    assert_absent(&span, LangfuseKeys::USER_ID);
}

#[test]
fn empty_session_and_user_stay_off_the_root_span() {
    let span = capture_root(|span| {
        record_root_route_context(span, None, "random", Some(""), Some(""));
    });
    assert_absent(&span, LangfuseKeys::SESSION_ID);
    assert_absent(&span, LangfuseKeys::USER_ID);
    assert_absent(&span, GenericKeys::ROUTE_ID);
    assert_absent(&span, LangfuseKeys::ROUTE_ID);
    assert_pair(
        &span,
        GenericKeys::ALGORITHM,
        LangfuseKeys::ALGORITHM,
        "random",
    );
    assert_eq!(span.effects.len(), 2);
}

#[test]
fn new_root_span_shows_its_kind_only() {
    let span = root_span(None);
    assert_eq!(span.target, "switchyard_server");
    assert_eq!(shown(&span, "otel.kind"), Some("server"));
    assert_eq!(shown(&span, "openinference.span.kind"), Some("CHAIN"));
    assert_eq!(span.declared.len(), 19);
    for key in &span.declared {
        if *key != "otel.kind" && *key != "openinference.span.kind" {
            assert_absent(&span, key);
        }
    }
}

#[test]
fn root_span_keeps_the_parent_it_is_given() {
    let parent = TraceParent {
        trace_id: 7,
        span_id: 9,
        sampled: true,
        trace_state: "a=b".to_string(),
    };
    let mut span = root_span(Some(parent));
    record_root_error(&mut span, "boom");
    let kept = span.parent.expect("parent");
    assert_eq!(kept.trace_id, 7);
    assert_eq!(kept.span_id, 9);
    assert!(kept.sampled);
    assert_eq!(kept.trace_state, "a=b");
}

#[test]
fn every_root_write_is_declared() {
    let span = capture_root(|span| {
        record_root_route_context(span, Some("r"), "a", Some("s"), Some("u"));
        record_root_outcome(span, "x", Some("y"));
        record_root_error(span, "e");
        let request = LlmRequest {
            model: None,
            messages: vec![Value::Null],
        };
        record_root_input(span, &request);
    });
    for effect in &span.effects {
        match effect {
            Effect::Record(field) => assert!(span.declares(field.key), "{}", field.key),
            other => panic!("unexpected {other:?}"),
        }
    }
    assert_eq!(shown(&span, "gen_ai.prompt"), Some("[null]"));
}

#[test]
fn later_outcome_replaces_an_earlier_one() {
    let span = capture_root(|span| {
        record_root_outcome(span, "first", Some("first"));
        record_root_outcome(span, "second", Some("third"));
    });
    assert_pair(
        &span,
        GenericKeys::SELECTED_TARGET,
        LangfuseKeys::SELECTED_TARGET,
        "second",
    );
    assert_pair(
        &span,
        GenericKeys::SERVED_TARGET,
        LangfuseKeys::SERVED_TARGET,
        "third",
    );
}

#[test]
fn writes_to_undeclared_names_are_lost() {
    let mut span = root_span(None);
    record_pair(
        &mut span,
        GenericKeys::CALL_ROLE,
        LangfuseKeys::CALL_ROLE,
        "routing_dependency",
    );
    assert_absent(&span, GenericKeys::CALL_ROLE);
    assert_absent(&span, LangfuseKeys::CALL_ROLE);
    assert_eq!(
        span.effects,
        vec![
            Effect::Record(Field {
                key: GenericKeys::CALL_ROLE,
                value: FieldValue::Text("routing_dependency".to_string()),
            }),
            Effect::Record(Field {
                key: LangfuseKeys::CALL_ROLE,
                value: FieldValue::Text("routing_dependency".to_string()),
            }),
        ]
    );
}

#[test]
fn request_that_did_not_fail_is_not_flagged() {
    let span = capture_root(|span| {
        record_root_route_context(span, Some("r"), "a", Some("s"), Some("u"));
        record_root_outcome(span, "x", Some("y"));
    });
    assert_absent(&span, "outcome");
    assert_absent(&span, "otel.status_code");
    assert_absent(&span, "error");
}

#[test]
fn failure_stands_whatever_is_recorded_later() {
    let span = capture_root(|span| {
        record_root_error(span, "boom");
        record_root_outcome(span, "x", None);
        record_root_route_context(span, None, "a", None, None);
    });
    assert_eq!(shown(&span, "outcome"), Some("error"));
    assert_eq!(shown(&span, "otel.status_code"), Some("ERROR"));
    assert_eq!(
        span.get("error"),
        Some(&FieldValue::Display("boom".to_string()))
    );
}

#[test]
fn vocabulary_keys_are_distinct() {
    let mut keys = vec![
        GenericKeys::ROUTE_ID,
        GenericKeys::ALGORITHM,
        GenericKeys::SELECTED_TARGET,
        GenericKeys::SERVED_TARGET,
        GenericKeys::RESPONSE_ORIGIN,
        GenericKeys::CALL_ROLE,
        GenericKeys::CALL_TARGET,
        LangfuseKeys::ROUTE_ID,
        LangfuseKeys::ALGORITHM,
        LangfuseKeys::SELECTED_TARGET,
        LangfuseKeys::SERVED_TARGET,
        LangfuseKeys::RESPONSE_ORIGIN,
        LangfuseKeys::CALL_ROLE,
        LangfuseKeys::CALL_TARGET,
        LangfuseKeys::SESSION_ID,
        LangfuseKeys::USER_ID,
    ];
    keys.sort();
    keys.dedup();
    assert_eq!(keys.len(), 16);
}

#[test]
fn origin_texts() {
    assert_eq!(ResponseOrigin::Target.as_str(), "target");
    assert_eq!(
        ResponseOrigin::RoutingGenerated.as_str(),
        "routing_generated"
    );
}

#[test]
fn failed_request_still_shows_its_context() {
    let span = capture_root(|span| {
        record_root_route_context(span, Some("r"), "a", Some("s"), Some("u"));
        record_root_input(
            span,
            &LlmRequest {
                messages: vec![message("user", "hello")],
                ..LlmRequest::default()
            },
        );
        record_root_error(span, "boom");
    });
    assert_route_context(&span, "r", "a", "s");
    assert_eq!(shown(&span, LangfuseKeys::USER_ID), Some("u"));
    assert_eq!(shown(&span, "outcome"), Some("error"));
}
