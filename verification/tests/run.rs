use serde_json::Value;
use std::time::Duration;
use switchyard_observability::protocol::{AggLlmResponse, LlmRequest, LlmResponse, Metadata};
use switchyard_observability::protocol::{ModelId, Request, Response, Usage};
use switchyard_observability::run::{outcome_value, record_classifier_fail_open};
use switchyard_observability::run::{record_decision, record_internal_call, record_llm_call};
use switchyard_observability::run::{record_route_context, record_run, run_span};
use switchyard_observability::span::{Attribute, Effect, FieldValue, Level, Measurement};
use switchyard_observability::span::{Reading, Span};
use switchyard_observability::vocabulary::{CallRole, GenericKeys, LangfuseKeys};

const PROMPT: &str = "SECRET_PROMPT_DO_NOT_PROMOTE";
const EXTRA_KEY: &str = "secret_key";
const EXTRA_VALUE: &str = "secret-value";

fn request_with(session: Option<&str>, extra: Option<Vec<(String, String)>>) -> Request {
    Request {
        llm_request: LlmRequest {
            model: Some("auto".to_string()),
            messages: vec![Value::String(PROMPT.to_string())],
        },
        metadata: Some(Metadata {
            session_id: session.map(str::to_string),
            extra_metadata: extra,
            ..Metadata::default()
        }),
    }
}

/// The span of one model call, as the driver declares it.
fn call_span() -> Span {
    Span {
        level: Level::Info,
        name: "libsy.llm_call",
        target: "libsy",
        declared: vec![
            "outcome",
            "error",
            "input_tokens",
            "output_tokens",
            "total_tokens",
            "reasoning_tokens",
            GenericKeys::ROUTE_ID,
            GenericKeys::ALGORITHM,
            GenericKeys::SELECTED_TARGET,
            GenericKeys::CALL_ROLE,
            GenericKeys::CALL_TARGET,
            LangfuseKeys::SESSION_ID,
            LangfuseKeys::ROUTE_ID,
            LangfuseKeys::ALGORITHM,
            LangfuseKeys::SELECTED_TARGET,
            LangfuseKeys::CALL_ROLE,
            LangfuseKeys::CALL_TARGET,
        ],
        attributes: vec![],
        effects: vec![],
        parent: None,
    }
}

fn buffered(usage: Usage) -> Response {
    Response {
        llm_response: LlmResponse::Agg(AggLlmResponse {
            usage,
            ..AggLlmResponse::default()
        }),
    }
}

fn shown<'a>(span: &'a Span, key: &str) -> Option<&'a str> {
    match span.get(key) {
        Some(FieldValue::Text(text)) => Some(text.as_str()),
        Some(other) => panic!("{key} is no text: {other:?}"),
        None => None,
    }
}

fn assert_pair(span: &Span, generic: &str, langfuse: &str, value: &str) {
    assert_eq!(shown(span, generic), Some(value), "{generic}");
    assert_eq!(shown(span, langfuse), Some(value), "{langfuse}");
}

fn assert_content_not_promoted(span: &Span) {
    assert_eq!(span.get(EXTRA_KEY), None, "extra metadata key promoted");
    assert_eq!(span.get("gen_ai.prompt"), None, "prompt promoted");
    assert_eq!(span.get("gen_ai.completion"), None, "completion promoted");
    let recorded = span.effects.iter().filter_map(|effect| match effect {
        Effect::Record(field) => Some(field),
        _ => None,
    });
    for field in span.attributes.iter().chain(recorded) {
        assert!(field.key != EXTRA_KEY);
        if field.key != "extra_metadata" {
            assert!(
                !format!("{:?}", field.value).contains(PROMPT),
                "{} leaked request content",
                field.key
            );
        }
    }
}

#[test]
fn successful_run_emits_shared_vocabulary_without_promoting_content() {
    const ALGO: &str = "vocab-success";
    const TARGET: &str = "vocab-success-target";
    let extra = vec![(EXTRA_KEY.to_string(), EXTRA_VALUE.to_string())];
    let request = request_with(Some("session-1"), Some(extra));
    let mut run = run_span(ALGO, &request);
    let mut call = call_span();
    record_internal_call(&mut call, ALGO, &request, TARGET);
    let result: Result<Response, String> = Ok(buffered(Usage::default()));
    record_llm_call(ALGO, TARGET, Duration::from_millis(3), &result, &mut call);
    record_decision(&mut run, ALGO, &ModelId::new(TARGET));
    let ended: Result<(), String> = Ok(());
    record_run(ALGO, Duration::from_millis(5), &ended, &mut run);

    assert_eq!(run.name, "libsy.run");
    assert_eq!(run.level, Level::Info);
    assert_eq!(shown(&run, "algorithm"), Some(ALGO));
    assert_eq!(shown(&run, "switchyard.algorithm"), Some(ALGO));
    assert_eq!(shown(&run, "switchyard.route"), Some("auto"));
    assert_eq!(shown(&run, "session_id"), Some("session-1"));
    assert_eq!(shown(&run, "session.id"), Some("session-1"));
    assert_eq!(shown(&run, "outcome"), Some("ok"));
    assert_pair(&run, GenericKeys::ROUTE_ID, LangfuseKeys::ROUTE_ID, "auto");
    assert_pair(&run, GenericKeys::ALGORITHM, LangfuseKeys::ALGORITHM, ALGO);
    assert_pair(
        &run,
        GenericKeys::SELECTED_TARGET,
        LangfuseKeys::SELECTED_TARGET,
        TARGET,
    );
    assert_eq!(shown(&run, LangfuseKeys::SESSION_ID), Some("session-1"));
    assert_eq!(
        run.get("extra_metadata"),
        Some(&FieldValue::Debug(vec![(
            EXTRA_KEY.to_string(),
            EXTRA_VALUE.to_string()
        )]))
    );
    assert_content_not_promoted(&run);

    assert_eq!(shown(&call, "outcome"), Some("ok"));
    assert_pair(&call, GenericKeys::ROUTE_ID, LangfuseKeys::ROUTE_ID, "auto");
    assert_pair(&call, GenericKeys::ALGORITHM, LangfuseKeys::ALGORITHM, ALGO);
    assert_pair(
        &call,
        GenericKeys::SELECTED_TARGET,
        LangfuseKeys::SELECTED_TARGET,
        TARGET,
    );
    assert_pair(
        &call,
        GenericKeys::CALL_ROLE,
        LangfuseKeys::CALL_ROLE,
        CallRole::RoutingDependency.as_str(),
    );
    assert_pair(
        &call,
        GenericKeys::CALL_TARGET,
        LangfuseKeys::CALL_TARGET,
        TARGET,
    );
    assert_eq!(shown(&call, LangfuseKeys::SESSION_ID), Some("session-1"));
    assert_content_not_promoted(&call);
}

#[test]
fn observability_fallback_success_keeps_selected_target_distinct_from_served() {
    const ALGO: &str = "vocab-fallback";
    const JUDGE: &str = "vocab-judge";
    const SELECTED: &str = "vocab-selected";
    const FALLBACK: &str = "vocab-fallback-target";
    let request = request_with(Some("session-2"), None);
    let mut run = run_span(ALGO, &request);
    let mut call = call_span();
    record_internal_call(&mut call, ALGO, &request, JUDGE);
    record_decision(&mut run, ALGO, &ModelId::new(SELECTED));
    let ended: Result<(), String> = Ok(());
    record_run(ALGO, Duration::from_millis(1), &ended, &mut run);

    assert_pair(
        &run,
        GenericKeys::SELECTED_TARGET,
        LangfuseKeys::SELECTED_TARGET,
        SELECTED,
    );
    assert_ne!(shown(&run, GenericKeys::SELECTED_TARGET), Some(FALLBACK));
    assert_pair(
        &call,
        GenericKeys::CALL_ROLE,
        LangfuseKeys::CALL_ROLE,
        CallRole::RoutingDependency.as_str(),
    );
    assert_pair(
        &call,
        GenericKeys::CALL_TARGET,
        LangfuseKeys::CALL_TARGET,
        JUDGE,
    );
}

#[test]
fn empty_session_is_not_promoted() {
    const ALGO: &str = "vocab-empty-session";
    const TARGET: &str = "vocab-empty-target";
    let request = request_with(Some(""), None);
    let run = run_span(ALGO, &request);
    assert_eq!(shown(&run, "session_id"), Some(""));
    assert_eq!(shown(&run, "session.id"), Some(""));
    assert_eq!(run.get(LangfuseKeys::SESSION_ID), None);

    let mut call = call_span();
    record_internal_call(&mut call, ALGO, &request, TARGET);
    assert_eq!(call.get(LangfuseKeys::SESSION_ID), None);
}

#[test]
fn run_span_carries_every_correlation_id() {
    let request = Request {
        llm_request: LlmRequest::default(),
        metadata: Some(Metadata {
            session_id: Some("s".to_string()),
            agent_id: Some("a".to_string()),
            task_id: Some("t".to_string()),
            task_kind: Some("k".to_string()),
            agent_role: Some("r".to_string()),
            correlation_id: Some("c".to_string()),
            extra_metadata: None,
        }),
    };
    let run = run_span("algo", &request);
    assert_eq!(shown(&run, "session_id"), Some("s"));
    assert_eq!(shown(&run, "session.id"), Some("s"));
    assert_eq!(shown(&run, "agent_id"), Some("a"));
    assert_eq!(shown(&run, "task_id"), Some("t"));
    assert_eq!(shown(&run, "task_kind"), Some("k"));
    assert_eq!(shown(&run, "agent_role"), Some("r"));
    assert_eq!(shown(&run, "correlation_id"), Some("c"));
    assert_eq!(run.get("switchyard.route"), None);
    assert_eq!(run.get(GenericKeys::ROUTE_ID), None);
    assert_eq!(run.get("extra_metadata"), None);
    assert_eq!(shown(&run, "openinference.span.kind"), Some("CHAIN"));
    assert_eq!(run.target, "libsy");
}

#[test]
fn run_span_without_metadata() {
    let run = run_span("algo", &Request::default());
    assert_eq!(run.get("session_id"), None);
    assert_eq!(run.get(GenericKeys::SELECTED_TARGET), None);
    assert_eq!(run.effects.len(), 2);
    assert_pair(
        &run,
        GenericKeys::ALGORITHM,
        LangfuseKeys::ALGORITHM,
        "algo",
    );
}

#[test]
fn run_span_does_not_depend_on_messages() {
    let with = request_with(Some("s"), None);
    let mut without = request_with(Some("s"), None);
    without.llm_request.messages.clear();
    assert_eq!(run_span("a", &with), run_span("a", &without));
}

#[test]
fn failed_run_is_counted_timed_and_warned_of() {
    let mut run = run_span("algo", &Request::default());
    run.effects.clear();
    let failed: Result<u8, String> = Err("no targets".to_string());
    record_run("algo", Duration::from_millis(7), &failed, &mut run);
    assert_eq!(shown(&run, "outcome"), Some("error"));
    assert_eq!(
        run.get("error"),
        Some(&FieldValue::Display("no targets".to_string()))
    );
    assert_eq!(run.effects.len(), 5);
    match &run.effects[2] {
        Effect::Log(event) => {
            assert_eq!(event.level, Level::Warn);
            assert_eq!(event.target, Some("libsy"));
            assert_eq!(event.message, "algorithm run failed");
            assert_eq!(event.fields.len(), 2);
            assert_eq!(event.fields[0].key, "algorithm");
            assert_eq!(event.fields[1].key, "error");
        }
        other => panic!("unexpected {other:?}"),
    }
    let attributes = || {
        vec![
            Attribute {
                key: "algorithm",
                value: "algo".to_string(),
            },
            Attribute {
                key: "outcome",
                value: "error".to_string(),
            },
        ]
    };
    assert_eq!(
        run.effects[3],
        Effect::Measure(Measurement {
            instrument: "switchyard.runs",
            reading: Reading::Increment(1),
            attributes: attributes(),
        })
    );
    assert_eq!(
        run.effects[4],
        Effect::Measure(Measurement {
            instrument: "switchyard.run_duration_ms",
            reading: Reading::Elapsed(Duration::from_millis(7)),
            attributes: attributes(),
        })
    );
}

#[test]
fn successful_run_is_not_warned_of() {
    let mut run = run_span("algo", &Request::default());
    run.effects.clear();
    let ended: Result<(), String> = Ok(());
    record_run("algo", Duration::from_millis(7), &ended, &mut run);
    assert_eq!(run.effects.len(), 3);
    assert!(!run.effects.iter().any(|effect| matches!(effect, Effect::Log(_))));
    assert_eq!(run.get("error"), None);
}

#[test]
fn buffered_call_shows_the_tokens_that_are_known() {
    let mut call = call_span();
    let result: Result<Response, String> = Ok(buffered(Usage {
        input_tokens: Some(10),
        output_tokens: Some(0),
        total_tokens: Some(u64::MAX),
        reasoning_tokens: None,
    }));
    record_llm_call("algo", "model", Duration::from_millis(2), &result, &mut call);
    assert_eq!(shown(&call, "outcome"), Some("ok"));
    assert_eq!(call.get("input_tokens"), Some(&FieldValue::Number(10)));
    assert_eq!(call.get("output_tokens"), Some(&FieldValue::Number(0)));
    assert_eq!(call.get("total_tokens"), Some(&FieldValue::Number(u64::MAX)));
    assert_eq!(call.get("reasoning_tokens"), None);
}

#[test]
fn streamed_call_shows_no_tokens() {
    let mut call = call_span();
    let result: Result<Response, String> = Ok(Response {
        llm_response: LlmResponse::Stream,
    });
    record_llm_call("algo", "model", Duration::from_millis(2), &result, &mut call);
    assert_eq!(call.effects.len(), 3);
    assert_eq!(call.get("input_tokens"), None);
    match &call.effects[1] {
        Effect::Measure(measurement) => {
            assert_eq!(measurement.instrument, "switchyard.llm_calls");
            assert_eq!(measurement.reading, Reading::Increment(1));
            let keys: Vec<&str> = measurement.attributes.iter().map(|a| a.key).collect();
            assert_eq!(keys, vec!["algorithm", "selected_model", "outcome"]);
        }
        other => panic!("unexpected {other:?}"),
    }
    match &call.effects[2] {
        Effect::Measure(measurement) => {
            assert_eq!(measurement.instrument, "switchyard.llm_call_duration_ms");
            assert_eq!(
                measurement.reading,
                Reading::Elapsed(Duration::from_millis(2))
            );
        }
        other => panic!("unexpected {other:?}"),
    }
}

#[test]
fn failed_call_is_warned_of() {
    let mut call = call_span();
    let result: Result<Response, String> = Err("timeout".to_string());
    record_llm_call("algo", "model", Duration::from_millis(2), &result, &mut call);
    assert_eq!(shown(&call, "outcome"), Some("error"));
    assert_eq!(
        call.get("error"),
        Some(&FieldValue::Display("timeout".to_string()))
    );
    match &call.effects[4] {
        Effect::Log(event) => {
            assert_eq!(event.level, Level::Warn);
            assert_eq!(event.message, "model call failed");
            let keys: Vec<&str> = event.fields.iter().map(|field| field.key).collect();
            assert_eq!(keys, vec!["algorithm", "selected_model", "error"]);
        }
        other => panic!("unexpected {other:?}"),
    }
}

#[test]
fn decision_is_logged_and_counted() {
    let mut run = run_span("algo", &Request::default());
    run.effects.clear();
    record_decision(&mut run, "algo", &ModelId::new("model"));
    assert_eq!(run.effects.len(), 4);
    match &run.effects[2] {
        Effect::Log(event) => {
            assert_eq!(event.level, Level::Debug);
            assert_eq!(event.message, "routing decision");
            assert_eq!(
                event.fields[1].value,
                FieldValue::Display("model".to_string())
            );
        }
        other => panic!("unexpected {other:?}"),
    }
    match &run.effects[3] {
        Effect::Measure(measurement) => {
            assert_eq!(measurement.instrument, "switchyard.decisions");
            let keys: Vec<&str> = measurement.attributes.iter().map(|a| a.key).collect();
            assert_eq!(keys, vec!["algorithm", "selected_model"]);
        }
        other => panic!("unexpected {other:?}"),
    }
}

#[test]
fn classifier_fail_open_is_counted() {
    let measurement = record_classifier_fail_open("judge", "timeout");
    assert_eq!(measurement.instrument, "switchyard.classifier_fail_open");
    assert_eq!(measurement.reading, Reading::Increment(1));
    assert_eq!(measurement.attributes[0].key, "judge_model");
    assert_eq!(measurement.attributes[0].value, "judge");
    assert_eq!(measurement.attributes[1].key, "reason");
    assert_eq!(measurement.attributes[1].value, "timeout");
}

#[test]
fn route_context_is_written_to_any_span() {
    let mut span = call_span();
    record_route_context(&mut span, "algo", &request_with(Some("s"), None));
    assert_pair(&span, GenericKeys::ROUTE_ID, LangfuseKeys::ROUTE_ID, "auto");
    assert_eq!(shown(&span, LangfuseKeys::SESSION_ID), Some("s"));
    assert_eq!(span.get(GenericKeys::CALL_ROLE), None);
}

#[test]
fn outcome_is_ok_or_error() {
    let ok: Result<u8, String> = Ok(1);
    let err: Result<u8, String> = Err(String::new());
    assert_eq!(outcome_value(&ok), "ok");
    assert_eq!(outcome_value(&err), "error");
    assert_eq!(CallRole::RoutingDependency.as_str(), "routing_dependency");
}
