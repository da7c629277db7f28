//! Telemetry of the server: the root span of one request.

use axum::http::{HeaderMap, HeaderValue};
use vstd::prelude::*;

use crate::outside::{json_array, json_array_text};
use crate::propagation::{continues_trace, incoming_parent, remote_parent};
use crate::protocol::{LlmRequest, Response};
use crate::span::{display_field, effects_view, fields_view, names_view, nonempty_record};
use crate::span::{optional_record, pair_records, record_pair, text_field, text_record};
use crate::span::{Effect, EffectView, Field, FieldView, Level, Span, SpanView};
use crate::span::{TraceParent, TraceParentView};
use crate::vocabulary::{GenericKeys, LangfuseKeys, ResponseOrigin};

verus! {

/// The fields of the root span of a request.
///
/// Langfuse derives the input and output of a trace from `gen_ai.prompt` and
/// `gen_ai.completion` of its root, and flags a failed trace by the root's own status.
pub open spec fn root_fields() -> Seq<Seq<char>> {
    seq![
        "otel.kind"@,
        "openinference.span.kind"@,
        "gen_ai.prompt"@,
        "gen_ai.completion"@,
        "outcome"@,
        "otel.status_code"@,
        "error"@,
        GenericKeys::ROUTE_ID@,
        GenericKeys::ALGORITHM@,
        GenericKeys::SELECTED_TARGET@,
        GenericKeys::SERVED_TARGET@,
        GenericKeys::RESPONSE_ORIGIN@,
        LangfuseKeys::SESSION_ID@,
        LangfuseKeys::USER_ID@,
        LangfuseKeys::ROUTE_ID@,
        LangfuseKeys::ALGORITHM@,
        LangfuseKeys::SELECTED_TARGET@,
        LangfuseKeys::SERVED_TARGET@,
        LangfuseKeys::RESPONSE_ORIGIN@,
    ]
}

/// The root span of a request, before anything is emitted on it.
pub open spec fn root_span_view(parent: Option<TraceParentView>) -> SpanView {
    SpanView {
        level: Level::Info,
        name: "switchyard.request"@,
        target: "switchyard_server"@,
        declared: root_fields(),
        attributes: seq![
            ("otel.kind"@, FieldView::Text("server"@)),
            ("openinference.span.kind"@, FieldView::Text("CHAIN"@)),
        ],
        effects: seq![],
        parent,
    }
}

/// What the root span carries of route, algorithm, session and user. An empty session and an
/// empty user are left out.
pub open spec fn root_context_records(
    route_id: Option<Seq<char>>,
    algorithm: Seq<char>,
    session_id: Option<Seq<char>>,
    user_id: Option<Seq<char>>,
) -> Seq<EffectView> {
    pair_records(GenericKeys::ALGORITHM@, LangfuseKeys::ALGORITHM@, algorithm) + (match route_id {
        Some(route) => pair_records(GenericKeys::ROUTE_ID@, LangfuseKeys::ROUTE_ID@, route),
        None => seq![],
    }) + nonempty_record(LangfuseKeys::SESSION_ID@, session_id) + nonempty_record(
        LangfuseKeys::USER_ID@,
        user_id,
    )
}

/// Who produced the answer: the target that served it, or the router where none did.
pub open spec fn origin_of(served_target: Option<Seq<char>>) -> ResponseOrigin {
    match served_target {
        Some(_) => ResponseOrigin::Target,
        None => ResponseOrigin::RoutingGenerated,
    }
}

/// What the root span carries of the terminal selection.
pub open spec fn root_outcome_records(
    selected_target: Seq<char>,
    served_target: Option<Seq<char>>,
) -> Seq<EffectView> {
    pair_records(
        GenericKeys::SELECTED_TARGET@,
        LangfuseKeys::SELECTED_TARGET@,
        selected_target,
    ) + (match served_target {
        Some(served) => pair_records(
            GenericKeys::SERVED_TARGET@,
            LangfuseKeys::SERVED_TARGET@,
            served,
        ),
        None => seq![],
    }) + pair_records(
        GenericKeys::RESPONSE_ORIGIN@,
        LangfuseKeys::RESPONSE_ORIGIN@,
        origin_of(served_target).text(),
    )
}

/// What the root span carries of the messages: their JSON text, if there are any.
pub open spec fn root_input_records(messages: Seq<serde_json::Value>) -> Seq<EffectView> {
    if messages.len() == 0 {
        seq![]
    } else {
        optional_record("gen_ai.prompt"@, json_array_text(messages))
    }
}

/// What the root span carries of the outputs: their JSON text, if the response is buffered and
/// has any.
pub open spec fn root_output_records(outputs: Option<Seq<serde_json::Value>>) -> Seq<EffectView> {
    match outputs {
        Some(outputs) if outputs.len() > 0 => optional_record(
            "gen_ai.completion"@,
            json_array_text(outputs),
        ),
        _ => seq![],
    }
}

/// What the root span carries of a failure.
pub open spec fn root_error_records(error: Seq<char>) -> Seq<EffectView> {
    seq![
        text_record("outcome"@, "error"@),
        text_record("otel.status_code"@, "ERROR"@),
        EffectView::Record("error"@, FieldView::Display(error)),
    ]
}

/// Creates the server request span with any incoming W3C trace context as its parent.
pub fn request_span(headers: &HeaderMap<HeaderValue>) -> (span: Span)
    ensures
        span@ == root_span_view(remote_parent(*headers)),
        continues_trace(*headers, span@.parent),
{
    root_span(incoming_parent(headers))
}

/// The server request span with a given parent.
pub fn root_span(parent: Option<TraceParent>) -> (span: Span)
    ensures
        span@ == root_span_view(
            match parent {
                Some(parent) => Some(parent@),
                None => None,
            },
        ),
{
    let declared: Vec<&'static str> = vec![
        "otel.kind",
        "openinference.span.kind",
        "gen_ai.prompt",
        "gen_ai.completion",
        "outcome",
        "otel.status_code",
        "error",
        GenericKeys::ROUTE_ID,
        GenericKeys::ALGORITHM,
        GenericKeys::SELECTED_TARGET,
        GenericKeys::SERVED_TARGET,
        GenericKeys::RESPONSE_ORIGIN,
        LangfuseKeys::SESSION_ID,
        LangfuseKeys::USER_ID,
        LangfuseKeys::ROUTE_ID,
        LangfuseKeys::ALGORITHM,
        LangfuseKeys::SELECTED_TARGET,
        LangfuseKeys::SERVED_TARGET,
        LangfuseKeys::RESPONSE_ORIGIN,
    ];
    assert(names_view(declared@) =~= root_fields());
    let attributes: Vec<Field> = vec![
        text_field("otel.kind", "server"),
        text_field("openinference.span.kind", "CHAIN"),
    ];
    assert(fields_view(attributes@) =~= seq![
        ("otel.kind"@, FieldView::Text("server"@)),
        ("openinference.span.kind"@, FieldView::Text("CHAIN"@)),
    ]);
    let effects: Vec<Effect> = Vec::new();
    assert(effects_view(effects@) =~= Seq::<EffectView>::empty());
    Span {
        level: Level::Info,
        name: "switchyard.request",
        target: "switchyard_server",
        declared,
        attributes,
        effects,
        parent,
    }
}

/// Records a JSON text on a field, where there is one.
pub fn record_json(
    span: &mut Span,
    key: &'static str,
    json: Result<String, serde_json::Error>,
)
    ensures
        final(span)@ == old(span)@.emit(
            match json {
                Ok(text) => seq![text_record(key@, text@)],
                Err(_) => seq![],
            },
        ),
{
    if let Ok(text) = json {
        span.record(key, text.as_str());
    }
}

/// Records the request's messages on the root span so that Langfuse populates trace-level input.
pub fn record_root_input(span: &mut Span, request: &LlmRequest)
    ensures
        final(span)@ == old(span)@.emit(root_input_records(request.messages@)),
{
    if request.messages.is_empty() {
        return;
    }
    record_json(span, "gen_ai.prompt", json_array(&request.messages));
}

/// Records inbound route, algorithm, non-empty session, and non-empty user id on the root span.
///
/// Empty sessions stay off `langfuse.session.id` and empty user ids off `langfuse.user.id`. Call
/// this after the route resolves and before the request is executed, so that failures still
/// identify the route without a fabricated terminal outcome.
pub fn record_root_route_context(
    span: &mut Span,
    route_id: Option<&str>,
    algorithm: &str,
    session_id: Option<&str>,
    user_id: Option<&str>,
)
    ensures
        final(span)@ == old(span)@.emit(
            root_context_records(
                route_id.deep_view(),
                algorithm@,
                session_id.deep_view(),
                user_id.deep_view(),
            ),
        ),
{
    record_pair(span, GenericKeys::ALGORITHM, LangfuseKeys::ALGORITHM, algorithm);
    if let Some(route) = route_id {
        record_pair(span, GenericKeys::ROUTE_ID, LangfuseKeys::ROUTE_ID, route);
    }
    span.record_nonempty(LangfuseKeys::SESSION_ID, session_id);
    span.record_nonempty(LangfuseKeys::USER_ID, user_id);
}

/// Records the successful terminal selection on the root span.
///
/// `served_target` is the target that actually served the answer. `None` means that the router
/// generated the response, so the origin is `routing_generated` and the served target is left
/// unset.
pub fn record_root_outcome(span: &mut Span, selected_target: &str, served_target: Option<&str>)
    ensures
        final(span)@ == old(span)@.emit(
            root_outcome_records(selected_target@, served_target.deep_view()),
        ),
{
    record_pair(
        span,
        GenericKeys::SELECTED_TARGET,
        LangfuseKeys::SELECTED_TARGET,
        selected_target,
    );
    match served_target {
        Some(served) => {
            record_pair(span, GenericKeys::SERVED_TARGET, LangfuseKeys::SERVED_TARGET, served);
            record_pair(
                span,
                GenericKeys::RESPONSE_ORIGIN,
                LangfuseKeys::RESPONSE_ORIGIN,
                ResponseOrigin::Target.as_str(),
            );
        },
        None => record_pair(
            span,
            GenericKeys::RESPONSE_ORIGIN,
            LangfuseKeys::RESPONSE_ORIGIN,
            ResponseOrigin::RoutingGenerated.as_str(),
        ),
    }
}

/// Records a response's output on the root span so that Langfuse populates trace-level output.
///
/// Only a buffered response has its output here: a streamed response's body is drained by the
/// host after this span closes, so its output is left to the nested observation of the call.
pub fn record_root_output(span: &mut Span, response: &Response)
    ensures
        final(span)@ == old(span)@.emit(root_output_records(response.outputs())),
{
    if let Some(agg) = response.llm_response.as_agg() {
        if agg.outputs.is_empty() {
            return;
        }
        record_json(span, "gen_ai.completion", json_array(&agg.outputs));
    }
}

/// Marks the root span as failed so that Langfuse flags the trace itself, not only the nested
/// observation of the call. `error` is the error as it displays. Call this on the error paths of
/// the request handler before returning, since the span closes on return.
pub fn record_root_error(span: &mut Span, error: &str)
    ensures
        final(span)@ == old(span)@.emit(root_error_records(error@)),
{
    span.record("outcome", "error");
    span.record("otel.status_code", "ERROR");
    span.emit(Effect::Record(display_field("error", error)));
}

} // verus!
