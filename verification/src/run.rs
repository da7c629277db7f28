//! Telemetry of the algorithm layer: the span of one algorithm run, the span of one offloaded
//! model call, and the metrics and log events around them.
//!
//! Attribute cardinality is bounded: `algorithm` and `selected_model` come from small configured
//! sets and `outcome` is `ok` or `error`. Nothing per-request becomes a metric attribute;
//! correlation ids ride on the run span instead.

use std::time::Duration;
use vstd::prelude::*;

use crate::protocol::{borrow_text, Metadata, MetadataView, ModelId, Request, RequestView};
use crate::protocol::{Response, Usage};
use crate::span::{attribute, attributes_view, copy_entries, display_field, effects_view};
use crate::span::{emitted_in_turn, fields_view, names_view, nonempty_record, optional_record, pair_records};
use crate::span::{record_pair, text_field, text_record, Attribute, Effect, EffectView, Field};
use crate::span::{FieldValue, FieldView, Level, LogEvent, LogEventView, Measurement};
use crate::span::{MeasurementView, Reading, Span, SpanView};
use crate::vocabulary::{CallRole, GenericKeys, LangfuseKeys};

verus! {

/// The scope under which the metrics are recorded.
pub const METRICS_SCOPE: &'static str = "switchyard";

/// The target of the spans and log events.
pub const TRACING_TARGET: &'static str = "libsy";

/// The `outcome` attribute of a result: `ok` or `error`.
pub open spec fn outcome_text<T, E>(result: Result<T, E>) -> Seq<char> {
    match result {
        Ok(_) => "ok"@,
        Err(_) => "error"@,
    }
}

/// The error of a result, as text.
pub open spec fn error_text<T>(result: Result<T, String>) -> Option<Seq<char>> {
    match result {
        Ok(_) => None,
        Err(error) => Some(error@),
    }
}

/// The fields of the span of one algorithm run.
pub open spec fn run_fields() -> Seq<Seq<char>> {
    seq![
        "algorithm"@,
        "switchyard.algorithm"@,
        "openinference.span.kind"@,
        "switchyard.route"@,
        "session_id"@,
        "session.id"@,
        "agent_id"@,
        "task_id"@,
        "task_kind"@,
        "agent_role"@,
        "correlation_id"@,
        "extra_metadata"@,
        "outcome"@,
        "error"@,
        GenericKeys::ROUTE_ID@,
        GenericKeys::ALGORITHM@,
        GenericKeys::SELECTED_TARGET@,
        LangfuseKeys::SESSION_ID@,
        LangfuseKeys::ROUTE_ID@,
        LangfuseKeys::ALGORITHM@,
        LangfuseKeys::SELECTED_TARGET@,
    ]
}

/// What a run span carries of the inbound route, the algorithm and the session.
///
/// An empty session is left out.
pub open spec fn route_context_records(algorithm: Seq<char>, request: RequestView) -> Seq<
    EffectView,
> {
    pair_records(GenericKeys::ALGORITHM@, LangfuseKeys::ALGORITHM@, algorithm) + (
    match request.model {
        Some(route) => pair_records(GenericKeys::ROUTE_ID@, LangfuseKeys::ROUTE_ID@, route),
        None => seq![],
    }) + nonempty_record(LangfuseKeys::SESSION_ID@, request.session())
}

/// What a run span carries of the request's metadata.
///
/// The host's own labels are one field: none of them becomes a field name.
pub open spec fn metadata_records(metadata: MetadataView) -> Seq<EffectView> {
    optional_record("session_id"@, metadata.session_id) + optional_record(
        "agent_id"@,
        metadata.agent_id,
    ) + optional_record("task_id"@, metadata.task_id) + optional_record(
        "task_kind"@,
        metadata.task_kind,
    ) + optional_record("agent_role"@, metadata.agent_role) + optional_record(
        "correlation_id"@,
        metadata.correlation_id,
    ) + optional_record("session.id"@, metadata.session_id) + (match metadata.extra_metadata {
        Some(entries) => seq![EffectView::Record("extra_metadata"@, FieldView::Debug(entries))],
        None => seq![],
    })
}

/// The writes with which a run span starts.
pub open spec fn run_span_records(algorithm: Seq<char>, request: RequestView) -> Seq<EffectView> {
    optional_record("switchyard.route"@, request.model) + (match request.metadata {
        Some(metadata) => metadata_records(metadata),
        None => seq![],
    }) + route_context_records(algorithm, request)
}

/// The span of one algorithm run, before anything is emitted on it.
pub open spec fn new_run_span_view(algorithm: Seq<char>) -> SpanView {
    SpanView {
        level: Level::Info,
        name: "libsy.run"@,
        target: TRACING_TARGET@,
        declared: run_fields(),
        attributes: seq![
            ("algorithm"@, FieldView::Text(algorithm)),
            ("switchyard.algorithm"@, FieldView::Text(algorithm)),
            ("openinference.span.kind"@, FieldView::Text("CHAIN"@)),
        ],
        effects: seq![],
        parent: None,
    }
}

/// The span of one algorithm run on a request.
pub open spec fn run_span_view(algorithm: Seq<char>, request: RequestView) -> SpanView {
    SpanView { effects: run_span_records(algorithm, request), ..new_run_span_view(algorithm) }
}

/// What the span of a call made for routing carries.
pub open spec fn internal_call_records(
    algorithm: Seq<char>,
    request: RequestView,
    call_target: Seq<char>,
) -> Seq<EffectView> {
    route_context_records(algorithm, request) + pair_records(
        GenericKeys::SELECTED_TARGET@,
        LangfuseKeys::SELECTED_TARGET@,
        call_target,
    ) + pair_records(
        GenericKeys::CALL_ROLE@,
        LangfuseKeys::CALL_ROLE@,
        CallRole::RoutingDependency.text(),
    ) + pair_records(GenericKeys::CALL_TARGET@, LangfuseKeys::CALL_TARGET@, call_target)
}

/// A counter that goes up by one.
pub open spec fn counted(instrument: Seq<char>, attributes: Seq<(Seq<char>, Seq<char>)>) -> EffectView {
    EffectView::Measure(
        MeasurementView { instrument, reading: Reading::Increment(1), attributes },
    )
}

/// A histogram that takes an elapsed time.
pub open spec fn timed(
    instrument: Seq<char>,
    elapsed: Duration,
    attributes: Seq<(Seq<char>, Seq<char>)>,
) -> EffectView {
    EffectView::Measure(
        MeasurementView { instrument, reading: Reading::Elapsed(elapsed), attributes },
    )
}

/// What the end of one algorithm run emits: `error` is that of a run that failed.
pub open spec fn run_effects(
    algorithm: Seq<char>,
    duration: Duration,
    outcome: Seq<char>,
    error: Option<Seq<char>>,
) -> Seq<EffectView> {
    let attributes = seq![("algorithm"@, algorithm), ("outcome"@, outcome)];
    seq![text_record("outcome"@, outcome)] + (match error {
        Some(text) => seq![
            EffectView::Record("error"@, FieldView::Display(text)),
            EffectView::Log(
                LogEventView {
                    level: Level::Warn,
                    target: Some(TRACING_TARGET@),
                    message: "algorithm run failed"@,
                    fields: seq![
                        ("algorithm"@, FieldView::Text(algorithm)),
                        ("error"@, FieldView::Display(text)),
                    ],
                },
            ),
        ],
        None => seq![],
    }) + seq![
        counted("switchyard.runs"@, attributes),
        timed("switchyard.run_duration_ms"@, duration, attributes),
    ]
}

/// The write of a token count, where there is one.
pub open spec fn count_record(key: Seq<char>, count: Option<u64>) -> Seq<EffectView> {
    match count {
        Some(number) => seq![EffectView::Record(key, FieldView::Number(number))],
        None => seq![],
    }
}

/// The writes of a call's token counts.
pub open spec fn usage_records(usage: Usage) -> Seq<EffectView> {
    count_record("input_tokens"@, usage.input_tokens) + count_record(
        "output_tokens"@,
        usage.output_tokens,
    ) + count_record("total_tokens"@, usage.total_tokens) + count_record(
        "reasoning_tokens"@,
        usage.reasoning_tokens,
    )
}

/// What the end of one offloaded model call emits.
pub open spec fn llm_call_effects(
    algorithm: Seq<char>,
    selected_model: Seq<char>,
    duration: Duration,
    result: Result<Response, String>,
) -> Seq<EffectView> {
    let outcome = outcome_text(result);
    let attributes = seq![
        ("algorithm"@, algorithm),
        ("selected_model"@, selected_model),
        ("outcome"@, outcome),
    ];
    seq![
        text_record("outcome"@, outcome),
        counted("switchyard.llm_calls"@, attributes),
        timed("switchyard.llm_call_duration_ms"@, duration, attributes),
    ] + (match result {
        Ok(response) => match response.usage() {
            Some(usage) => usage_records(usage),
            None => seq![],
        },
        Err(error) => seq![
            EffectView::Record("error"@, FieldView::Display(error@)),
            EffectView::Log(
                LogEventView {
                    level: Level::Warn,
                    target: Some(TRACING_TARGET@),
                    message: "model call failed"@,
                    fields: seq![
                        ("algorithm"@, FieldView::Text(algorithm)),
                        ("selected_model"@, FieldView::Text(selected_model)),
                        ("error"@, FieldView::Display(error@)),
                    ],
                },
            ),
        ],
    })
}

/// What one published routing decision emits.
pub open spec fn decision_effects(algorithm: Seq<char>, selected_model: Seq<char>) -> Seq<
    EffectView,
> {
    pair_records(
        GenericKeys::SELECTED_TARGET@,
        LangfuseKeys::SELECTED_TARGET@,
        selected_model,
    ) + seq![
        EffectView::Log(
            LogEventView {
                level: Level::Debug,
                target: Some(TRACING_TARGET@),
                message: "routing decision"@,
                fields: seq![
                    ("algorithm"@, FieldView::Text(algorithm)),
                    ("selected_model"@, FieldView::Display(selected_model)),
                ],
            },
        ),
        counted(
            "switchyard.decisions"@,
            seq![("algorithm"@, algorithm), ("selected_model"@, selected_model)],
        ),
    ]
}

/// `outcome` attribute value for a result: `ok` or `error`.
pub fn outcome_value<T, E>(result: &Result<T, E>) -> (outcome: &'static str)
    ensures
        outcome@ == outcome_text(*result),
{
    match result {
        Ok(_) => "ok",
        Err(_) => "error",
    }
}

/// Span covering one algorithm run.
///
/// Correlation ids of the request's metadata are recorded as span fields where they are there.
/// Labels of the host ride in the `extra_metadata` field as a whole: they are never promoted
/// into attribute names of their own. `outcome` and `error` are filled in by [`record_run`] when
/// the run ends, the selected target by [`record_decision`].
pub fn run_span(algorithm: &str, request: &Request) -> (span: Span)
    ensures
        span@ == run_span_view(algorithm@, request@),
{
    let mut span = new_run_span(algorithm);
    span.record_optional("switchyard.route", request.model_id());
    if let Some(metadata) = &request.metadata {
        record_metadata(&mut span, metadata);
    }
    record_route_context(&mut span, algorithm, request);
    span
}

fn new_run_span(algorithm: &str) -> (span: Span)
    ensures
        span@ == new_run_span_view(algorithm@),
{
    let declared: Vec<&'static str> = vec![
        "algorithm",
        "switchyard.algorithm",
        "openinference.span.kind",
        "switchyard.route",
        "session_id",
        "session.id",
        "agent_id",
        "task_id",
        "task_kind",
        "agent_role",
        "correlation_id",
        "extra_metadata",
        "outcome",
        "error",
        GenericKeys::ROUTE_ID,
        GenericKeys::ALGORITHM,
        GenericKeys::SELECTED_TARGET,
        LangfuseKeys::SESSION_ID,
        LangfuseKeys::ROUTE_ID,
        LangfuseKeys::ALGORITHM,
        LangfuseKeys::SELECTED_TARGET,
    ];
    assert(names_view(declared@) =~= run_fields());
    let attributes: Vec<Field> = vec![
        text_field("algorithm", algorithm),
        text_field("switchyard.algorithm", algorithm),
        text_field("openinference.span.kind", "CHAIN"),
    ];
    assert(fields_view(attributes@) =~= seq![
        ("algorithm"@, FieldView::Text(algorithm@)),
        ("switchyard.algorithm"@, FieldView::Text(algorithm@)),
        ("openinference.span.kind"@, FieldView::Text("CHAIN"@)),
    ]);
    let effects: Vec<Effect> = Vec::new();
    assert(effects_view(effects@) =~= Seq::<EffectView>::empty());
    Span {
        level: Level::Info,
        name: "libsy.run",
        target: TRACING_TARGET,
        declared,
        attributes,
        effects,
        parent: None,
    }
}

fn record_metadata(span: &mut Span, metadata: &Metadata)
    ensures
        final(span)@ == old(span)@.emit(metadata_records(metadata@)),
{
    let ghost start = span@;
    let ghost session = optional_record("session_id"@, metadata@.session_id);
    let ghost agent = session + optional_record("agent_id"@, metadata@.agent_id);
    let ghost task = agent + optional_record("task_id"@, metadata@.task_id);
    let ghost kind = task + optional_record("task_kind"@, metadata@.task_kind);
    let ghost role = kind + optional_record("agent_role"@, metadata@.agent_role);
    let ghost correlation = role + optional_record("correlation_id"@, metadata@.correlation_id);
    let ghost whole = correlation + optional_record("session.id"@, metadata@.session_id);
    span.record_optional("session_id", borrow_text(&metadata.session_id));
    span.record_optional("agent_id", borrow_text(&metadata.agent_id));
    span.record_optional("task_id", borrow_text(&metadata.task_id));
    span.record_optional("task_kind", borrow_text(&metadata.task_kind));
    span.record_optional("agent_role", borrow_text(&metadata.agent_role));
    span.record_optional("correlation_id", borrow_text(&metadata.correlation_id));
    span.record_optional("session.id", borrow_text(&metadata.session_id));
    assert(span@ == start.emit(whole)) by {
        emitted_in_turn(start, session, optional_record("agent_id"@, metadata@.agent_id));
        emitted_in_turn(start, agent, optional_record("task_id"@, metadata@.task_id));
        emitted_in_turn(start, task, optional_record("task_kind"@, metadata@.task_kind));
        emitted_in_turn(start, kind, optional_record("agent_role"@, metadata@.agent_role));
        emitted_in_turn(start, role, optional_record("correlation_id"@, metadata@.correlation_id));
        emitted_in_turn(start, correlation, optional_record("session.id"@, metadata@.session_id));
    }
    if let Some(extra) = &metadata.extra_metadata {
        span.emit(
            Effect::Record(
                Field { key: "extra_metadata", value: FieldValue::Debug(copy_entries(extra)) },
            ),
        );
    }
}

/// Records route, algorithm, selected target, call role, and call target on the span of an
/// internal model call. Internal calls are always [`CallRole::RoutingDependency`]. Must run
/// before a candidate is stamped onto the request's model.
pub fn record_internal_call(span: &mut Span, algorithm: &str, request: &Request, call_target: &str)
    ensures
        final(span)@ == old(span)@.emit(
            internal_call_records(algorithm@, request@, call_target@),
        ),
{
    record_route_context(span, algorithm, request);
    record_pair(
        span,
        GenericKeys::SELECTED_TARGET,
        LangfuseKeys::SELECTED_TARGET,
        call_target,
    );
    record_pair(
        span,
        GenericKeys::CALL_ROLE,
        LangfuseKeys::CALL_ROLE,
        CallRole::RoutingDependency.as_str(),
    );
    record_pair(span, GenericKeys::CALL_TARGET, LangfuseKeys::CALL_TARGET, call_target);
}

/// Records the inbound route, algorithm, and non-empty session onto `span`.
///
/// Empty sessions stay off `langfuse.session.id`. Request content and extra metadata keys are
/// not attributes.
pub fn record_route_context(span: &mut Span, algorithm: &str, request: &Request)
    ensures
        final(span)@ == old(span)@.emit(route_context_records(algorithm@, request@)),
{
    record_pair(span, GenericKeys::ALGORITHM, LangfuseKeys::ALGORITHM, algorithm);
    if let Some(route) = request.model_id() {
        record_pair(span, GenericKeys::ROUTE_ID, LangfuseKeys::ROUTE_ID, route);
    }
    span.record_nonempty(LangfuseKeys::SESSION_ID, request.session());
}

/// Records the end of one algorithm run: the run counter and duration histogram, the
/// `outcome`/`error` fields on `span`, and a warning when the run failed.
pub fn record_run<T>(algorithm: &str, duration: Duration, result: &Result<T, String>, span: &mut Span)
    ensures
        final(span)@ == old(span)@.emit(
            run_effects(algorithm@, duration, outcome_text(*result), error_text(*result)),
        ),
{
    let outcome = outcome_value(result);
    span.record("outcome", outcome);
    if let Err(error) = result {
        span.emit(Effect::Record(display_field("error", error.as_str())));
        let fields: Vec<Field> = vec![
            text_field("algorithm", algorithm),
            display_field("error", error.as_str()),
        ];
        assert(fields_view(fields@) =~= seq![
            ("algorithm"@, FieldView::Text(algorithm@)),
            ("error"@, FieldView::Display(error@)),
        ]);
        span.emit(
            Effect::Log(
                LogEvent {
                    level: Level::Warn,
                    target: Some(TRACING_TARGET),
                    message: "algorithm run failed",
                    fields,
                },
            ),
        );
    }
    count(span, "switchyard.runs", run_attributes(algorithm, outcome));
    time(span, "switchyard.run_duration_ms", duration, run_attributes(algorithm, outcome));
}

fn run_attributes(algorithm: &str, outcome: &str) -> (attributes: Vec<Attribute>)
    ensures
        attributes_view(attributes@) == seq![("algorithm"@, algorithm@), ("outcome"@, outcome@)],
{
    let attributes: Vec<Attribute> = vec![
        attribute("algorithm", algorithm),
        attribute("outcome", outcome),
    ];
    assert(attributes_view(attributes@) =~= seq![("algorithm"@, algorithm@), ("outcome"@, outcome@)]);
    attributes
}

fn count(span: &mut Span, instrument: &'static str, attributes: Vec<Attribute>)
    ensures
        final(span)@ == old(span)@.emit(
            seq![counted(instrument@, attributes_view(attributes@))],
        ),
{
    span.emit(
        Effect::Measure(Measurement { instrument, reading: Reading::Increment(1), attributes }),
    );
}

fn time(span: &mut Span, instrument: &'static str, elapsed: Duration, attributes: Vec<Attribute>)
    ensures
        final(span)@ == old(span)@.emit(
            seq![timed(instrument@, elapsed, attributes_view(attributes@))],
        ),
{
    span.emit(
        Effect::Measure(
            Measurement { instrument, reading: Reading::Elapsed(elapsed), attributes },
        ),
    );
}

/// Records a judge failure that made the classifier route without a verdict.
pub fn record_classifier_fail_open(judge_model: &str, reason: &str) -> (measurement: Measurement)
    ensures
        measurement@ == (MeasurementView {
            instrument: "switchyard.classifier_fail_open"@,
            reading: Reading::Increment(1),
            attributes: seq![("judge_model"@, judge_model@), ("reason"@, reason@)],
        }),
{
    let attributes: Vec<Attribute> = vec![
        attribute("judge_model", judge_model),
        attribute("reason", reason),
    ];
    assert(attributes_view(attributes@) =~= seq![
        ("judge_model"@, judge_model@),
        ("reason"@, reason@),
    ]);
    Measurement {
        instrument: "switchyard.classifier_fail_open",
        reading: Reading::Increment(1),
        attributes,
    }
}

/// Records the resolution of one offloaded model call: the call counter and latency histogram,
/// the `outcome`/`error`/token fields on `span`, and a warning when the call failed.
///
/// Token usage exists only once a response is buffered; a streamed response resolves before its
/// usage is known, so none is recorded.
pub fn record_llm_call(
    algorithm: &str,
    selected_model: &str,
    duration: Duration,
    result: &Result<Response, String>,
    span: &mut Span,
)
    ensures
        final(span)@ == old(span)@.emit(
            llm_call_effects(algorithm@, selected_model@, duration, *result),
        ),
{
    let outcome = outcome_value(result);
    span.record("outcome", outcome);
    count(span, "switchyard.llm_calls", call_attributes(algorithm, selected_model, outcome));
    time(
        span,
        "switchyard.llm_call_duration_ms",
        duration,
        call_attributes(algorithm, selected_model, outcome),
    );
    match result {
        Ok(response) => {
            if let Some(agg) = response.llm_response.as_agg() {
                record_usage(span, &agg.usage);
            }
        },
        Err(error) => {
            span.emit(Effect::Record(display_field("error", error.as_str())));
            let fields: Vec<Field> = vec![
                text_field("algorithm", algorithm),
                text_field("selected_model", selected_model),
                display_field("error", error.as_str()),
            ];
            assert(fields_view(fields@) =~= seq![
                ("algorithm"@, FieldView::Text(algorithm@)),
                ("selected_model"@, FieldView::Text(selected_model@)),
                ("error"@, FieldView::Display(error@)),
            ]);
            span.emit(
                Effect::Log(
                    LogEvent {
                        level: Level::Warn,
                        target: Some(TRACING_TARGET),
                        message: "model call failed",
                        fields,
                    },
                ),
            );
        },
    }
}

fn call_attributes(algorithm: &str, selected_model: &str, outcome: &str) -> (attributes: Vec<
    Attribute,
>)
    ensures
        attributes_view(attributes@) == seq![
            ("algorithm"@, algorithm@),
            ("selected_model"@, selected_model@),
            ("outcome"@, outcome@),
        ],
{
    let attributes: Vec<Attribute> = vec![
        attribute("algorithm", algorithm),
        attribute("selected_model", selected_model),
        attribute("outcome", outcome),
    ];
    assert(attributes_view(attributes@) =~= seq![
        ("algorithm"@, algorithm@),
        ("selected_model"@, selected_model@),
        ("outcome"@, outcome@),
    ]);
    attributes
}

fn record_count(span: &mut Span, key: &'static str, count: Option<u64>)
    ensures
        final(span)@ == old(span)@.emit(count_record(key@, count)),
{
    if let Some(number) = count {
        span.emit(Effect::Record(Field { key, value: FieldValue::Number(number) }));
    }
}

fn record_usage(span: &mut Span, usage: &Usage)
    ensures
        final(span)@ == old(span)@.emit(usage_records(*usage)),
{
    record_count(span, "input_tokens", usage.input_tokens);
    record_count(span, "output_tokens", usage.output_tokens);
    record_count(span, "total_tokens", usage.total_tokens);
    record_count(span, "reasoning_tokens", usage.reasoning_tokens);
}

/// Records one published routing decision: the decision counter plus a structured debug event.
///
/// Also writes the selected target onto `span`, the current run span. Metric labels stay
/// `algorithm` and `selected_model`: the shared vocabulary is for spans only.
pub fn record_decision(span: &mut Span, algorithm: &str, selected_model: &ModelId)
    ensures
        final(span)@ == old(span)@.emit(decision_effects(algorithm@, selected_model@)),
{
    record_pair(
        span,
        GenericKeys::SELECTED_TARGET,
        LangfuseKeys::SELECTED_TARGET,
        selected_model.as_str(),
    );
    let fields: Vec<Field> = vec![
        text_field("algorithm", algorithm),
        display_field("selected_model", selected_model.as_str()),
    ];
    assert(fields_view(fields@) =~= seq![
        ("algorithm"@, FieldView::Text(algorithm@)),
        ("selected_model"@, FieldView::Display(selected_model@)),
    ]);
    span.emit(
        Effect::Log(
            LogEvent {
                level: Level::Debug,
                target: Some(TRACING_TARGET),
                message: "routing decision",
                fields,
            },
        ),
    );
    let attributes: Vec<Attribute> = vec![
        attribute("algorithm", algorithm),
        attribute("selected_model", selected_model.as_str()),
    ];
    assert(attributes_view(attributes@) =~= seq![
        ("algorithm"@, algorithm@),
        ("selected_model"@, selected_model@),
    ]);
    count(span, "switchyard.decisions", attributes);
}

} // verus!
