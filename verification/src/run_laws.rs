//! What holds of the span of an algorithm run, of that of a model call, and of the metrics
//! around them.

use std::time::Duration;
use vstd::prelude::*;

use crate::protocol::{LlmResponse, MetadataView, ModelId, Request, RequestView, Response, Usage};
use crate::run::{count_record, counted, decision_effects, error_text, internal_call_records};
use crate::run::{llm_call_effects, metadata_records, outcome_text, route_context_records};
use crate::run::{outcome_value, record_classifier_fail_open, record_decision};
use crate::run::{record_internal_call, record_llm_call, record_route_context, record_run};
use crate::run::{run_effects, run_fields, run_span, run_span_records, run_span_view, timed};
use crate::run::{usage_records, METRICS_SCOPE, TRACING_TARGET};
use crate::span::{added, all_write, emitting_only_adds, events, only_adds, readings};
use crate::span::{readings_and_events_in_turn, writes_in_turn, writes_measure_and_log_nothing};
use crate::span::{entries_view, measurement_is_seen_whole, span_is_seen_whole};
use crate::span::{LogEventView, Measurement, MeasurementView};
use crate::span::{Reading, Span};
use crate::span::{emitted_effects_decide, last_field, last_record, later_record_wins};
use crate::span::{leaves_alone, nonempty_record, nonempty_record_shows_its_value};
use crate::span::{optional_record, optional_record_shows_its_value, pair_records};
use crate::span::{pair_shows_its_value, single_record_shows_its_value};
use crate::span::{unwritten_field_has_no_record, writes_only, EffectView, FieldView, Level};
use crate::span::SpanView;
use crate::vocabulary::{keys_told_apart, vocabulary_is_spelled_so};
use crate::vocabulary::{CallRole, GenericKeys, LangfuseKeys};

verus! {

/// One call that records something on the span of an algorithm run.
pub enum RunRecord {
    /// Of `record_decision`.
    Decision { algorithm: Seq<char>, selected_model: Seq<char> },
    /// Of `record_run`: `error` is that of a run that failed.
    End {
        algorithm: Seq<char>,
        duration: Duration,
        outcome: Seq<char>,
        error: Option<Seq<char>>,
    },
}

/// What one call emits.
pub open spec fn run_call_effects(call: RunRecord) -> Seq<EffectView> {
    match call {
        RunRecord::Decision { algorithm, selected_model } => decision_effects(
            algorithm,
            selected_model,
        ),
        RunRecord::End { algorithm, duration, outcome, error } => run_effects(
            algorithm,
            duration,
            outcome,
            error,
        ),
    }
}

/// The span of an algorithm run after a number of calls.
pub open spec fn run_after(
    algorithm: Seq<char>,
    request: RequestView,
    calls: Seq<RunRecord>,
) -> SpanView
    decreases calls.len(),
{
    if calls.len() == 0 {
        run_span_view(algorithm, request)
    } else {
        run_after(algorithm, request, calls.drop_last()).emit(run_call_effects(calls.last()))
    }
}

/// A generic key of the run span and its Langfuse counterpart.
pub open spec fn is_run_pair(generic_key: Seq<char>, langfuse_key: Seq<char>) -> bool {
    ||| generic_key == GenericKeys::ROUTE_ID@ && langfuse_key == LangfuseKeys::ROUTE_ID@
    ||| generic_key == GenericKeys::ALGORITHM@ && langfuse_key == LangfuseKeys::ALGORITHM@
    ||| generic_key == GenericKeys::SELECTED_TARGET@ && langfuse_key
        == LangfuseKeys::SELECTED_TARGET@
}

/// Enough of the other keys of the run span and of the call span to tell them from each other
/// and from those of the vocabulary.
proof fn lemma_run_keys()
    ensures
        "algorithm"@.len() == 9,
        "algorithm"@[0] == 'a',
        "switchyard.algorithm"@.len() == 20,
        "openinference.span.kind"@.len() == 23,
        "switchyard.route"@.len() == 16,
        "switchyard.route"@[0] == 's',
        "session_id"@.len() == 10,
        "session_id"@[0] == 's',
        "session_id"@[7] == '_',
        "session.id"@.len() == 10,
        "session.id"@[0] == 's',
        "session.id"@[7] == '.',
        "agent_id"@.len() == 8,
        "task_id"@.len() == 7,
        "task_id"@[0] == 't',
        "task_kind"@.len() == 9,
        "task_kind"@[0] == 't',
        "agent_role"@.len() == 10,
        "agent_role"@[0] == 'a',
        "correlation_id"@.len() == 14,
        "correlation_id"@[0] == 'c',
        "extra_metadata"@.len() == 14,
        "extra_metadata"@[0] == 'e',
        "outcome"@.len() == 7,
        "outcome"@[0] == 'o',
        "error"@.len() == 5,
        "input_tokens"@.len() == 12,
        "input_tokens"@[0] == 'i',
        "output_tokens"@.len() == 13,
        "total_tokens"@.len() == 12,
        "total_tokens"@[0] == 't',
        "reasoning_tokens"@.len() == 16,
        "reasoning_tokens"@[0] == 'r',
{
    reveal_strlit("algorithm");
    reveal_strlit("switchyard.algorithm");
    reveal_strlit("openinference.span.kind");
    reveal_strlit("switchyard.route");
    reveal_strlit("session_id");
    reveal_strlit("session.id");
    reveal_strlit("agent_id");
    reveal_strlit("task_id");
    reveal_strlit("task_kind");
    reveal_strlit("agent_role");
    reveal_strlit("correlation_id");
    reveal_strlit("extra_metadata");
    reveal_strlit("outcome");
    reveal_strlit("error");
    reveal_strlit("input_tokens");
    reveal_strlit("output_tokens");
    reveal_strlit("total_tokens");
    reveal_strlit("reasoning_tokens");
}

/// A text as a field shows it.
pub open spec fn shown_text(value: Option<Seq<char>>) -> Option<FieldView> {
    match value {
        Some(text) => Some(FieldView::Text(text)),
        None => None,
    }
}

/// What a field shows of route, algorithm and session.
pub open spec fn route_context_value(
    algorithm: Seq<char>,
    request: RequestView,
    key: Seq<char>,
) -> Option<FieldView> {
    if key == GenericKeys::ALGORITHM@ || key == LangfuseKeys::ALGORITHM@ {
        Some(FieldView::Text(algorithm))
    } else if key == GenericKeys::ROUTE_ID@ || key == LangfuseKeys::ROUTE_ID@ {
        shown_text(request.model)
    } else if key == LangfuseKeys::SESSION_ID@ && request.session() is Some && request.session()->0
        .len() > 0 {
        shown_text(request.session())
    } else {
        None
    }
}

/// What a field shows of the request's metadata.
pub open spec fn metadata_value(metadata: MetadataView, key: Seq<char>) -> Option<FieldView> {
    if key == "session_id"@ || key == "session.id"@ {
        shown_text(metadata.session_id)
    } else if key == "agent_id"@ {
        shown_text(metadata.agent_id)
    } else if key == "task_id"@ {
        shown_text(metadata.task_id)
    } else if key == "task_kind"@ {
        shown_text(metadata.task_kind)
    } else if key == "agent_role"@ {
        shown_text(metadata.agent_role)
    } else if key == "correlation_id"@ {
        shown_text(metadata.correlation_id)
    } else if key == "extra_metadata"@ && metadata.extra_metadata is Some {
        Some(FieldView::Debug(metadata.extra_metadata->0))
    } else {
        None
    }
}

/// What a field of a new run span shows of the request and of the algorithm.
pub open spec fn new_run_value(
    algorithm: Seq<char>,
    request: RequestView,
    key: Seq<char>,
) -> Option<FieldView> {
    if route_context_value(algorithm, request, key) is Some {
        route_context_value(algorithm, request, key)
    } else if request.metadata is Some && metadata_value(request.metadata->0, key) is Some {
        metadata_value(request.metadata->0, key)
    } else if key == "switchyard.route"@ {
        shown_text(request.model)
    } else {
        None
    }
}

/// What a field shows of a call.
pub open spec fn run_call_value(call: RunRecord, key: Seq<char>) -> Option<FieldView> {
    match call {
        RunRecord::Decision { selected_model, .. } => if key == GenericKeys::SELECTED_TARGET@ || key
            == LangfuseKeys::SELECTED_TARGET@ {
            Some(FieldView::Text(selected_model))
        } else {
            None
        },
        RunRecord::End { outcome, error, .. } => if key == "outcome"@ {
            Some(FieldView::Text(outcome))
        } else if key == "error"@ && error is Some {
            Some(FieldView::Display(error->0))
        } else {
            None
        },
    }
}

proof fn lemma_route_context_records(algorithm: Seq<char>, request: RequestView, key: Seq<char>)
    ensures
        last_record(route_context_records(algorithm, request), key) == route_context_value(
            algorithm,
            request,
            key,
        ),
{
    keys_told_apart();
    let of_algorithm = pair_records(GenericKeys::ALGORITHM@, LangfuseKeys::ALGORITHM@, algorithm);
    let of_route = match request.model {
        Some(route) => pair_records(GenericKeys::ROUTE_ID@, LangfuseKeys::ROUTE_ID@, route),
        None => seq![],
    };
    let of_session = nonempty_record(LangfuseKeys::SESSION_ID@, request.session());
    pair_shows_its_value(GenericKeys::ALGORITHM@, LangfuseKeys::ALGORITHM@, algorithm, key);
    if let Some(route) = request.model {
        pair_shows_its_value(GenericKeys::ROUTE_ID@, LangfuseKeys::ROUTE_ID@, route, key);
    }
    nonempty_record_shows_its_value(LangfuseKeys::SESSION_ID@, request.session(), key);
    later_record_wins(of_algorithm, of_route, key);
    later_record_wins(of_algorithm + of_route, of_session, key);
}

proof fn lemma_metadata_records(metadata: MetadataView, key: Seq<char>)
    ensures
        last_record(metadata_records(metadata), key) == metadata_value(metadata, key),
{
    lemma_run_keys();
    let session = optional_record("session_id"@, metadata.session_id);
    let agent = optional_record("agent_id"@, metadata.agent_id);
    let task = optional_record("task_id"@, metadata.task_id);
    let kind = optional_record("task_kind"@, metadata.task_kind);
    let role = optional_record("agent_role"@, metadata.agent_role);
    let correlation = optional_record("correlation_id"@, metadata.correlation_id);
    let dotted = optional_record("session.id"@, metadata.session_id);
    let extra = match metadata.extra_metadata {
        Some(entries) => seq![EffectView::Record("extra_metadata"@, FieldView::Debug(entries))],
        None => seq![],
    };
    optional_record_shows_its_value("session_id"@, metadata.session_id, key);
    optional_record_shows_its_value("agent_id"@, metadata.agent_id, key);
    optional_record_shows_its_value("task_id"@, metadata.task_id, key);
    optional_record_shows_its_value("task_kind"@, metadata.task_kind, key);
    optional_record_shows_its_value("agent_role"@, metadata.agent_role, key);
    optional_record_shows_its_value("correlation_id"@, metadata.correlation_id, key);
    optional_record_shows_its_value("session.id"@, metadata.session_id, key);
    if let Some(entries) = metadata.extra_metadata {
        single_record_shows_its_value("extra_metadata"@, FieldView::Debug(entries), key);
    }
    let to_agent = session + agent;
    let to_task = to_agent + task;
    let to_kind = to_task + kind;
    let to_role = to_kind + role;
    let to_correlation = to_role + correlation;
    let to_dotted = to_correlation + dotted;
    later_record_wins(session, agent, key);
    later_record_wins(to_agent, task, key);
    later_record_wins(to_task, kind, key);
    later_record_wins(to_kind, role, key);
    later_record_wins(to_role, correlation, key);
    later_record_wins(to_correlation, dotted, key);
    later_record_wins(to_dotted, extra, key);
    assert(metadata_records(metadata) == to_dotted + extra);
}

proof fn lemma_run_span_records(algorithm: Seq<char>, request: RequestView, key: Seq<char>)
    ensures
        last_record(run_span_records(algorithm, request), key) == new_run_value(
            algorithm,
            request,
            key,
        ),
{
    keys_told_apart();
    lemma_run_keys();
    let of_route = optional_record("switchyard.route"@, request.model);
    let of_metadata = match request.metadata {
        Some(metadata) => metadata_records(metadata),
        None => seq![],
    };
    let of_context = route_context_records(algorithm, request);
    optional_record_shows_its_value("switchyard.route"@, request.model, key);
    if let Some(metadata) = request.metadata {
        lemma_metadata_records(metadata, key);
    }
    lemma_route_context_records(algorithm, request, key);
    later_record_wins(of_route, of_metadata, key);
    later_record_wins(of_route + of_metadata, of_context, key);
}

proof fn lemma_run_call_records(call: RunRecord, key: Seq<char>)
    ensures
        last_record(run_call_effects(call), key) == run_call_value(call, key),
{
    keys_told_apart();
    lemma_run_keys();
    let effects = run_call_effects(call);
    match call {
        RunRecord::Decision { algorithm, selected_model } => {
            let pair = pair_records(
                GenericKeys::SELECTED_TARGET@,
                LangfuseKeys::SELECTED_TARGET@,
                selected_model,
            );
            let rest = effects.skip(2);
            assert(effects =~= pair + rest);
            assert(leaves_alone(rest, key));
            unwritten_field_has_no_record(rest, key);
            later_record_wins(pair, rest, key);
            pair_shows_its_value(
                GenericKeys::SELECTED_TARGET@,
                LangfuseKeys::SELECTED_TARGET@,
                selected_model,
                key,
            );
        },
        RunRecord::End { algorithm, duration, outcome, error } => {
            let first = seq![EffectView::Record("outcome"@, FieldView::Text(outcome))];
            single_record_shows_its_value("outcome"@, FieldView::Text(outcome), key);
            match error {
                Some(text) => {
                    let second = seq![EffectView::Record("error"@, FieldView::Display(text))];
                    let rest = effects.skip(2);
                    assert(effects =~= first + second + rest);
                    assert(leaves_alone(rest, key));
                    unwritten_field_has_no_record(rest, key);
                    single_record_shows_its_value("error"@, FieldView::Display(text), key);
                    later_record_wins(first, second, key);
                    later_record_wins(first + second, rest, key);
                },
                None => {
                    let rest = effects.skip(1);
                    assert(effects =~= first + rest);
                    assert(leaves_alone(rest, key));
                    unwritten_field_has_no_record(rest, key);
                    later_record_wins(first, rest, key);
                },
            }
        },
    }
}

proof fn lemma_run_declares()
    ensures
        forall|algorithm: Seq<char>, request: RequestView, key: Seq<char>|
            (#[trigger] new_run_value(algorithm, request, key)) is Some ==> run_fields().contains(
                key,
            ),
        forall|call: RunRecord, key: Seq<char>|
            (#[trigger] run_call_value(call, key)) is Some ==> run_fields().contains(key),
{
    assert(run_fields()[3] == "switchyard.route"@);
    assert(run_fields()[4] == "session_id"@);
    assert(run_fields()[5] == "session.id"@);
    assert(run_fields()[6] == "agent_id"@);
    assert(run_fields()[7] == "task_id"@);
    assert(run_fields()[8] == "task_kind"@);
    assert(run_fields()[9] == "agent_role"@);
    assert(run_fields()[10] == "correlation_id"@);
    assert(run_fields()[11] == "extra_metadata"@);
    assert(run_fields()[12] == "outcome"@);
    assert(run_fields()[13] == "error"@);
    assert(run_fields()[14] == GenericKeys::ROUTE_ID@);
    assert(run_fields()[15] == GenericKeys::ALGORITHM@);
    assert(run_fields()[16] == GenericKeys::SELECTED_TARGET@);
    assert(run_fields()[17] == LangfuseKeys::SESSION_ID@);
    assert(run_fields()[18] == LangfuseKeys::ROUTE_ID@);
    assert(run_fields()[19] == LangfuseKeys::ALGORITHM@);
    assert(run_fields()[20] == LangfuseKeys::SELECTED_TARGET@);
}

/// Every field with which a run span starts is one that the span declares, whatever the request
/// holds: no write is lost, and no label of the host becomes a field name.
pub proof fn run_span_writes_are_declared(algorithm: Seq<char>, request: RequestView)
    ensures
        writes_only(run_span_records(algorithm, request), run_fields()),
{
    let effects = run_span_records(algorithm, request);
    lemma_run_declares();
    assert forall|i: int| 0 <= i < effects.len() implies match #[trigger] effects[i] {
        EffectView::Record(name, _) => run_fields().contains(name),
        _ => true,
    } by {
        if let EffectView::Record(name, _) = effects[i] {
            lemma_run_span_records(algorithm, request, name);
            unwritten_field_has_no_record(effects, name);
            assert(new_run_value(algorithm, request, name) is Some);
        }
    }
}

/// Every field that a call writes is one that the run span declares, so no write is lost.
pub proof fn run_writes_are_declared(call: RunRecord)
    ensures
        writes_only(run_call_effects(call), run_fields()),
{
    let effects = run_call_effects(call);
    lemma_run_declares();
    assert forall|i: int| 0 <= i < effects.len() implies match #[trigger] effects[i] {
        EffectView::Record(name, _) => run_fields().contains(name),
        _ => true,
    } by {
        if let EffectView::Record(name, _) = effects[i] {
            lemma_run_call_records(call, name);
            unwritten_field_has_no_record(effects, name);
            assert(run_call_value(call, name) is Some);
        }
    }
}

/// What a new run span shows under each field: the algorithm, the kind of the span, and what the
/// request gives. An empty session shows under the plain session fields and not under the
/// Langfuse one.
pub proof fn new_run_span_shows_the_request(
    algorithm: Seq<char>,
    request: RequestView,
    key: Seq<char>,
)
    ensures
        run_span_view(algorithm, request).field(key) == (if key == "algorithm"@ || key
            == "switchyard.algorithm"@ {
            Some(FieldView::Text(algorithm))
        } else if key == "openinference.span.kind"@ {
            Some(FieldView::Text("CHAIN"@))
        } else {
            new_run_value(algorithm, request, key)
        }),
{
    keys_told_apart();
    lemma_run_keys();
    lemma_run_declares();
    lemma_run_span_records(algorithm, request, key);
    let attributes = run_span_view(algorithm, request).attributes;
    reveal_with_fuel(last_field, 4);
    assert(attributes.drop_last() =~= seq![
        ("algorithm"@, FieldView::Text(algorithm)),
        ("switchyard.algorithm"@, FieldView::Text(algorithm)),
    ]);
    assert(attributes.drop_last().drop_last() =~= seq![
        ("algorithm"@, FieldView::Text(algorithm)),
    ]);
    assert(attributes.drop_last().drop_last().drop_last() =~= Seq::<
        (Seq<char>, FieldView),
    >::empty());
    assert(run_fields()[0] == "algorithm"@);
    assert(run_fields()[1] == "switchyard.algorithm"@);
    assert(run_fields()[2] == "openinference.span.kind"@);
}

/// What the messages of a request say has no part in its run span, nor in the span of a call
/// made for routing.
pub proof fn request_content_is_not_promoted(
    algorithm: Seq<char>,
    request: RequestView,
    other: RequestView,
    call_target: Seq<char>,
)
    requires
        request.model == other.model,
        request.metadata == other.metadata,
    ensures
        run_span_view(algorithm, request) == run_span_view(algorithm, other),
        internal_call_records(algorithm, request, call_target) == internal_call_records(
            algorithm,
            other,
            call_target,
        ),
{
}

/// The run span keeps its level, its name and its fields, whatever is recorded on it.
pub proof fn run_keeps_its_identity(
    algorithm: Seq<char>,
    request: RequestView,
    calls: Seq<RunRecord>,
)
    ensures
        run_after(algorithm, request, calls).level == Level::Info,
        run_after(algorithm, request, calls).name == "libsy.run"@,
        run_after(algorithm, request, calls).declared == run_fields(),
        run_after(algorithm, request, calls).attributes == run_span_view(
            algorithm,
            request,
        ).attributes,
    decreases calls.len(),
{
    if calls.len() > 0 {
        run_keeps_its_identity(algorithm, request, calls.drop_last());
    }
}

/// After a call, the run span shows under each field what the call wrote to it, and what it
/// showed before where the call did not write to it.
pub proof fn run_shows_the_last_call(
    algorithm: Seq<char>,
    request: RequestView,
    calls: Seq<RunRecord>,
    call: RunRecord,
    key: Seq<char>,
)
    ensures
        run_after(algorithm, request, calls.push(call)).field(key) == (if run_call_value(
            call,
            key,
        ) is Some {
            run_call_value(call, key)
        } else {
            run_after(algorithm, request, calls).field(key)
        }),
{
    assert(calls.push(call).drop_last() =~= calls);
    run_keeps_its_identity(algorithm, request, calls);
    lemma_run_call_records(call, key);
    lemma_run_declares();
    emitted_effects_decide(run_after(algorithm, request, calls), run_call_effects(call), key);
    unwritten_field_has_no_record(run_call_effects(call), key);
}

/// A generic key of the run span and its Langfuse counterpart always show the same.
pub proof fn run_pairs_agree(
    algorithm: Seq<char>,
    request: RequestView,
    calls: Seq<RunRecord>,
    generic_key: Seq<char>,
    langfuse_key: Seq<char>,
)
    requires
        is_run_pair(generic_key, langfuse_key),
    ensures
        run_after(algorithm, request, calls).field(generic_key) == run_after(
            algorithm,
            request,
            calls,
        ).field(langfuse_key),
    decreases calls.len(),
{
    keys_told_apart();
    lemma_run_keys();
    if calls.len() == 0 {
        new_run_span_shows_the_request(algorithm, request, generic_key);
        new_run_span_shows_the_request(algorithm, request, langfuse_key);
    } else {
        let earlier = calls.drop_last();
        assert(earlier.push(calls.last()) =~= calls);
        run_pairs_agree(algorithm, request, earlier, generic_key, langfuse_key);
        run_shows_the_last_call(algorithm, request, earlier, calls.last(), generic_key);
        run_shows_the_last_call(algorithm, request, earlier, calls.last(), langfuse_key);
    }
}

/// A run that publishes no decision shows no selected target.
pub proof fn no_decision_is_fabricated(
    algorithm: Seq<char>,
    request: RequestView,
    calls: Seq<RunRecord>,
    key: Seq<char>,
)
    requires
        key == GenericKeys::SELECTED_TARGET@ || key == LangfuseKeys::SELECTED_TARGET@,
        forall|i: int| 0 <= i < calls.len() ==> !((#[trigger] calls[i]) is Decision),
    ensures
        run_after(algorithm, request, calls).field(key) is None,
    decreases calls.len(),
{
    keys_told_apart();
    lemma_run_keys();
    if calls.len() == 0 {
        new_run_span_shows_the_request(algorithm, request, key);
    } else {
        let earlier = calls.drop_last();
        assert(earlier.push(calls.last()) =~= calls);
        assert(calls[calls.len() - 1] == calls.last());
        assert forall|i: int| 0 <= i < earlier.len() implies !((
        #[trigger] earlier[i]) is Decision) by {
            assert(earlier[i] == calls[i]);
        }
        no_decision_is_fabricated(algorithm, request, earlier, key);
        run_shows_the_last_call(algorithm, request, earlier, calls.last(), key);
    }
}

/// The selected target stands on the run span from its decision on, until another decision is
/// published: the end of the run, and whichever target then serves, change nothing.
pub proof fn decision_stands(
    algorithm: Seq<char>,
    request: RequestView,
    before: Seq<RunRecord>,
    decision: RunRecord,
    after: Seq<RunRecord>,
)
    requires
        decision is Decision,
        forall|i: int| 0 <= i < after.len() ==> !((#[trigger] after[i]) is Decision),
    ensures
        ({
            let span = run_after(algorithm, request, before.push(decision) + after);
            let selected = Some(FieldView::Text(decision->selected_model));
            &&& span.field(GenericKeys::SELECTED_TARGET@) == selected
            &&& span.field(LangfuseKeys::SELECTED_TARGET@) == selected
        }),
    decreases after.len(),
{
    keys_told_apart();
    lemma_run_keys();
    let generic = GenericKeys::SELECTED_TARGET@;
    let langfuse = LangfuseKeys::SELECTED_TARGET@;
    if after.len() == 0 {
        assert(before.push(decision) + after =~= before.push(decision));
        run_shows_the_last_call(algorithm, request, before, decision, generic);
        run_shows_the_last_call(algorithm, request, before, decision, langfuse);
    } else {
        let earlier = after.drop_last();
        let calls = before.push(decision) + earlier;
        let call = after.last();
        assert(calls.push(call) =~= before.push(decision) + after);
        assert(after[after.len() - 1] == call);
        assert forall|i: int| 0 <= i < earlier.len() implies !((
        #[trigger] earlier[i]) is Decision) by {
            assert(earlier[i] == after[i]);
        }
        decision_stands(algorithm, request, before, decision, earlier);
        run_shows_the_last_call(algorithm, request, calls, call, generic);
        run_shows_the_last_call(algorithm, request, calls, call, langfuse);
    }
}

/// The session that the run span shows to Langfuse is never the empty text.
pub proof fn run_session_is_never_empty(
    algorithm: Seq<char>,
    request: RequestView,
    calls: Seq<RunRecord>,
)
    ensures
        match run_after(algorithm, request, calls).field(LangfuseKeys::SESSION_ID@) {
            Some(FieldView::Text(text)) => text.len() > 0,
            Some(_) => false,
            None => true,
        },
    decreases calls.len(),
{
    keys_told_apart();
    lemma_run_keys();
    if calls.len() == 0 {
        new_run_span_shows_the_request(algorithm, request, LangfuseKeys::SESSION_ID@);
    } else {
        let earlier = calls.drop_last();
        assert(earlier.push(calls.last()) =~= calls);
        run_session_is_never_empty(algorithm, request, earlier);
        run_shows_the_last_call(
            algorithm,
            request,
            earlier,
            calls.last(),
            LangfuseKeys::SESSION_ID@,
        );
    }
}

/// What the span of a call made for routing shows, where it declares the fields: the call is a
/// routing dependency, and its target is the selected one.
pub proof fn internal_call_is_a_routing_dependency(
    span: SpanView,
    algorithm: Seq<char>,
    request: RequestView,
    call_target: Seq<char>,
    key: Seq<char>,
)
    requires
        span.declared.contains(key),
    ensures
        span.emit(internal_call_records(algorithm, request, call_target)).field(key) == (if key
            == GenericKeys::CALL_ROLE@ || key == LangfuseKeys::CALL_ROLE@ {
            Some(FieldView::Text(CallRole::RoutingDependency.text()))
        } else if key == GenericKeys::CALL_TARGET@ || key == LangfuseKeys::CALL_TARGET@ || key
            == GenericKeys::SELECTED_TARGET@ || key == LangfuseKeys::SELECTED_TARGET@ {
            Some(FieldView::Text(call_target))
        } else if route_context_value(algorithm, request, key) is Some {
            route_context_value(algorithm, request, key)
        } else {
            span.field(key)
        }),
{
    keys_told_apart();
    let role = CallRole::RoutingDependency.text();
    let of_context = route_context_records(algorithm, request);
    let of_selected = pair_records(
        GenericKeys::SELECTED_TARGET@,
        LangfuseKeys::SELECTED_TARGET@,
        call_target,
    );
    let of_role = pair_records(GenericKeys::CALL_ROLE@, LangfuseKeys::CALL_ROLE@, role);
    let of_target = pair_records(
        GenericKeys::CALL_TARGET@,
        LangfuseKeys::CALL_TARGET@,
        call_target,
    );
    lemma_route_context_records(algorithm, request, key);
    pair_shows_its_value(
        GenericKeys::SELECTED_TARGET@,
        LangfuseKeys::SELECTED_TARGET@,
        call_target,
        key,
    );
    pair_shows_its_value(GenericKeys::CALL_ROLE@, LangfuseKeys::CALL_ROLE@, role, key);
    pair_shows_its_value(GenericKeys::CALL_TARGET@, LangfuseKeys::CALL_TARGET@, call_target, key);
    later_record_wins(of_context, of_selected, key);
    later_record_wins(of_context + of_selected, of_role, key);
    later_record_wins(of_context + of_selected + of_role, of_target, key);
    let records = internal_call_records(algorithm, request, call_target);
    emitted_effects_decide(span, records, key);
    unwritten_field_has_no_record(records, key);
}

/// The token count under a key.
pub open spec fn token_count(result: Result<Response, String>, key: Seq<char>) -> Option<u64> {
    match result {
        Ok(response) => match response.usage() {
            Some(usage) => if key == "input_tokens"@ {
                usage.input_tokens
            } else if key == "output_tokens"@ {
                usage.output_tokens
            } else if key == "total_tokens"@ {
                usage.total_tokens
            } else if key == "reasoning_tokens"@ {
                usage.reasoning_tokens
            } else {
                None
            },
            None => None,
        },
        Err(_) => None,
    }
}

proof fn lemma_count_record(name: Seq<char>, count: Option<u64>, key: Seq<char>)
    ensures
        last_record(count_record(name, count), key) == (match count {
            Some(number) if key == name => Some(FieldView::Number(number)),
            _ => None,
        }),
{
    if let Some(number) = count {
        single_record_shows_its_value(name, FieldView::Number(number), key);
    }
}

/// What the span of a model call shows at its end, where it declares the fields: how the call
/// went, its error if it failed, and each token count that a buffered response tells. A call
/// that failed shows no token count, nor does one whose response is streamed.
pub proof fn llm_call_shows_its_outcome(
    span: SpanView,
    algorithm: Seq<char>,
    selected_model: Seq<char>,
    duration: Duration,
    result: Result<Response, String>,
    key: Seq<char>,
)
    requires
        span.declared.contains(key),
    ensures
        span.emit(llm_call_effects(algorithm, selected_model, duration, result)).field(key) == (
        if key == "outcome"@ {
            Some(FieldView::Text(outcome_text(result)))
        } else if key == "error"@ && result is Err {
            Some(FieldView::Display(result->Err_0@))
        } else if token_count(result, key) is Some {
            Some(FieldView::Number(token_count(result, key)->0))
        } else {
            span.field(key)
        }),
{
    lemma_run_keys();
    let effects = llm_call_effects(algorithm, selected_model, duration, result);
    let outcome = outcome_text(result);
    let head = seq![EffectView::Record("outcome"@, FieldView::Text(outcome))];
    let metrics = effects.subrange(1, 3);
    let tail = effects.skip(3);
    assert(effects =~= head + metrics + tail);
    single_record_shows_its_value("outcome"@, FieldView::Text(outcome), key);
    assert(leaves_alone(metrics, key));
    unwritten_field_has_no_record(metrics, key);
    later_record_wins(head, metrics, key);
    later_record_wins(head + metrics, tail, key);
    match result {
        Ok(response) => {
            if let Some(usage) = response.usage() {
                let input = count_record("input_tokens"@, usage.input_tokens);
                let output = count_record("output_tokens"@, usage.output_tokens);
                let total = count_record("total_tokens"@, usage.total_tokens);
                let reasoning = count_record("reasoning_tokens"@, usage.reasoning_tokens);
                assert(tail =~= usage_records(usage));
                lemma_count_record("input_tokens"@, usage.input_tokens, key);
                lemma_count_record("output_tokens"@, usage.output_tokens, key);
                lemma_count_record("total_tokens"@, usage.total_tokens, key);
                lemma_count_record("reasoning_tokens"@, usage.reasoning_tokens, key);
                later_record_wins(input, output, key);
                later_record_wins(input + output, total, key);
                later_record_wins(input + output + total, reasoning, key);
            } else {
                assert(tail =~= Seq::<EffectView>::empty());
            }
        },
        Err(error) => {
            let shown = seq![EffectView::Record("error"@, FieldView::Display(error@))];
            let log = tail.skip(1);
            assert(tail =~= shown + log);
            assert(leaves_alone(log, key));
            unwritten_field_has_no_record(log, key);
            single_record_shows_its_value("error"@, FieldView::Display(error@), key);
            later_record_wins(shown, log, key);
        },
    }
    emitted_effects_decide(span, effects, key);
    unwritten_field_has_no_record(effects, key);
}

/// Metric attributes of bounded cardinality: the algorithm, the selected model, and an outcome
/// that is `ok` or `error`. Nothing of a request is among them, and no key of the span
/// vocabulary.
pub open spec fn bounded_attributes(
    effects: Seq<EffectView>,
    algorithm: Seq<char>,
    selected_model: Option<Seq<char>>,
) -> bool {
    forall|i: int, j: int|
        #![trigger effects[i]->Measure_0.attributes[j]]
        0 <= i < effects.len() && effects[i] is Measure && 0 <= j
            < effects[i]->Measure_0.attributes.len() ==> {
            let attribute = effects[i]->Measure_0.attributes[j];
            ||| attribute == ("algorithm"@, algorithm)
            ||| selected_model is Some && attribute == ("selected_model"@, selected_model->0)
            ||| attribute == ("outcome"@, "ok"@)
            ||| attribute == ("outcome"@, "error"@)
        }
}

/// The metrics of a run, of a call and of a decision carry attributes of bounded cardinality.
pub proof fn metric_attributes_are_bounded<T>(
    algorithm: Seq<char>,
    selected_model: Seq<char>,
    duration: Duration,
    run: Result<T, String>,
    call: Result<Response, String>,
)
    ensures
        bounded_attributes(
            run_effects(algorithm, duration, outcome_text(run), error_text(run)),
            algorithm,
            None,
        ),
        bounded_attributes(
            llm_call_effects(algorithm, selected_model, duration, call),
            algorithm,
            Some(selected_model),
        ),
        bounded_attributes(
            decision_effects(algorithm, selected_model),
            algorithm,
            Some(selected_model),
        ),
{
    if let Ok(response) = call {
        if let Some(usage) = response.usage() {
            lemma_usage_is_records_only(usage);
        }
    }
}

proof fn lemma_usage_is_records_only(usage: Usage)
    ensures
        forall|i: int|
            0 <= i < usage_records(usage).len() ==> (#[trigger] usage_records(usage)[i]) is Record,
{
}

/// Whether a warning is among the effects.
pub open spec fn logs_a_warning(effects: Seq<EffectView>) -> bool {
    exists|i: int|
        0 <= i < effects.len() && (#[trigger] effects[i]) is Log && effects[i]->Log_0.level
            == Level::Warn
}

/// The end of a run counts one run and takes its duration, and warns exactly if the run failed.
pub proof fn run_is_counted_and_warned_of(
    algorithm: Seq<char>,
    duration: Duration,
    outcome: Seq<char>,
    error: Option<Seq<char>>,
)
    ensures
        ({
            let effects = run_effects(algorithm, duration, outcome, error);
            let attributes = seq![("algorithm"@, algorithm), ("outcome"@, outcome)];
            &&& effects.contains(counted("switchyard.runs"@, attributes))
            &&& effects.contains(timed("switchyard.run_duration_ms"@, duration, attributes))
            &&& logs_a_warning(effects) <==> error is Some
        }),
{
    let effects = run_effects(algorithm, duration, outcome, error);
    let attributes = seq![("algorithm"@, algorithm), ("outcome"@, outcome)];
    let n = effects.len() as int;
    assert(effects[n - 2] == counted("switchyard.runs"@, attributes));
    assert(effects[n - 1] == timed("switchyard.run_duration_ms"@, duration, attributes));
    if error is Some {
        assert(effects[2] is Log && effects[2]->Log_0.level == Level::Warn);
    }
}

proof fn lemma_reading(measurement: MeasurementView)
    ensures
        readings(seq![EffectView::Measure(measurement)]) == seq![measurement],
        events(seq![EffectView::Measure(measurement)]) == Seq::<LogEventView>::empty(),
{
    let effects = seq![EffectView::Measure(measurement)];
    assert(effects.drop_last() =~= Seq::<EffectView>::empty());
    reveal_with_fuel(readings, 2);
    reveal_with_fuel(events, 2);
    assert(readings(effects) =~= seq![measurement]);
}

proof fn lemma_event(event: LogEventView)
    ensures
        readings(seq![EffectView::Log(event)]) == Seq::<MeasurementView>::empty(),
        events(seq![EffectView::Log(event)]) == seq![event],
{
    let effects = seq![EffectView::Log(event)];
    assert(effects.drop_last() =~= Seq::<EffectView>::empty());
    reveal_with_fuel(readings, 2);
    reveal_with_fuel(events, 2);
    assert(events(effects) =~= seq![event]);
}

/// Whoever records a routing decision has it counted once, by one, under its algorithm and its
/// model, and nothing else measured; has it logged once, at debug level; and has the span show
/// the model as the selected target under both of its names, and everything else as before.
pub proof fn decision_is_counted_logged_and_shown(
    span: &mut Span,
    algorithm: &str,
    selected_model: &ModelId,
    key: Seq<char>,
)
    requires
        call_ensures(record_decision, (span, algorithm, selected_model), ()),
    ensures
        only_adds(old(span)@, final(span)@),
        ({
            let new = added(old(span)@, final(span)@);
            &&& new.len() == 4
            &&& readings(new).len() == 1
            &&& readings(new)[0].instrument == "switchyard.decisions"@
            &&& readings(new)[0].reading == Reading::Increment(1)
            &&& readings(new)[0].attributes == seq![
                ("algorithm"@, algorithm@),
                ("selected_model"@, selected_model.id@),
            ]
            &&& events(new).len() == 1
            &&& events(new)[0].level == Level::Debug
            &&& events(new)[0].target == Some("libsy"@)
            &&& events(new)[0].message == "routing decision"@
            &&& events(new)[0].fields == seq![
                ("algorithm"@, FieldView::Text(algorithm@)),
                ("selected_model"@, FieldView::Display(selected_model.id@)),
            ]
        }),
        old(span)@.declared.contains(key) ==> final(span)@.field(key) == (if key
            == "switchyard.routing.selected_target"@ || key
            == "langfuse.observation.metadata.switchyard.selected_target"@ {
            Some(FieldView::Text(selected_model.id@))
        } else {
            old(span)@.field(key)
        }),
{
    vocabulary_is_spelled_so();
    let effects = decision_effects(algorithm@, selected_model@);
    emitting_only_adds(old(span)@, effects);
    let writes = effects.take(2);
    let event = effects[2]->Log_0;
    let reading = effects[3]->Measure_0;
    assert(effects =~= writes + seq![EffectView::Log(event)] + seq![EffectView::Measure(reading)]);
    writes_measure_and_log_nothing(writes);
    lemma_event(event);
    lemma_reading(reading);
    readings_and_events_in_turn(writes, seq![EffectView::Log(event)]);
    readings_and_events_in_turn(
        writes + seq![EffectView::Log(event)],
        seq![EffectView::Measure(reading)],
    );
    let call = RunRecord::Decision { algorithm: algorithm@, selected_model: selected_model@ };
    lemma_run_call_records(call, key);
    emitted_effects_decide(old(span)@, effects, key);
    unwritten_field_has_no_record(effects, key);
}

/// Whoever records the end of a run has it counted once, by one, and timed once, both under its
/// algorithm and under `error` exactly if the run failed, else under `ok`; has a failure, and
/// only that, logged as a warning with its error; and has the span show the outcome and the error,
/// and everything else as before.
pub proof fn run_is_counted_timed_and_shown<T>(
    algorithm: &str,
    duration: Duration,
    result: &Result<T, String>,
    span: &mut Span,
    key: Seq<char>,
)
    requires
        call_ensures(record_run::<T>, (algorithm, duration, result, span), ()),
    ensures
        only_adds(old(span)@, final(span)@),
        ({
            let new = added(old(span)@, final(span)@);
            let outcome = if *result is Err {
                "error"@
            } else {
                "ok"@
            };
            let attributes = seq![("algorithm"@, algorithm@), ("outcome"@, outcome)];
            &&& readings(new).len() == 2
            &&& readings(new)[0].instrument == "switchyard.runs"@
            &&& readings(new)[0].reading == Reading::Increment(1)
            &&& readings(new)[0].attributes == attributes
            &&& readings(new)[1].instrument == "switchyard.run_duration_ms"@
            &&& readings(new)[1].reading == Reading::Elapsed(duration)
            &&& readings(new)[1].attributes == attributes
            &&& *result is Ok ==> new.len() == 3 && events(new).len() == 0
            &&& *result matches Err(error) ==> {
                &&& new.len() == 5
                &&& events(new).len() == 1
                &&& events(new)[0].level == Level::Warn
                &&& events(new)[0].target == Some("libsy"@)
                &&& events(new)[0].message == "algorithm run failed"@
                &&& events(new)[0].fields == seq![
                    ("algorithm"@, FieldView::Text(algorithm@)),
                    ("error"@, FieldView::Display(error@)),
                ]
            }
            &&& old(span)@.declared.contains(key) ==> final(span)@.field(key) == (if key
                == "outcome"@ {
                Some(FieldView::Text(outcome))
            } else if key == "error"@ && *result is Err {
                Some(FieldView::Display((*result)->Err_0@))
            } else {
                old(span)@.field(key)
            })
        }),
{
    vocabulary_is_spelled_so();
    let outcome = outcome_text(*result);
    let error = error_text(*result);
    let effects = run_effects(algorithm@, duration, outcome, error);
    emitting_only_adds(old(span)@, effects);
    lemma_run_readings(algorithm@, duration, outcome, error);
    let call = RunRecord::End { algorithm: algorithm@, duration, outcome, error };
    lemma_run_call_records(call, key);
    emitted_effects_decide(old(span)@, effects, key);
    unwritten_field_has_no_record(effects, key);
}

/// What the end of a run measures and logs.
proof fn lemma_run_readings(
    algorithm: Seq<char>,
    duration: Duration,
    outcome: Seq<char>,
    error: Option<Seq<char>>,
)
    ensures
        ({
            let effects = run_effects(algorithm, duration, outcome, error);
            let n = effects.len() as int;
            &&& n == (if error is Some {
                5int
            } else {
                3
            })
            &&& readings(effects) == seq![effects[n - 2]->Measure_0, effects[n - 1]->Measure_0]
            &&& error is Some ==> events(effects) == seq![effects[2]->Log_0]
            &&& error is None ==> events(effects).len() == 0
        }),
{
    let effects = run_effects(algorithm, duration, outcome, error);
    let n = effects.len() as int;
    let counter = effects[n - 2]->Measure_0;
    let timer = effects[n - 1]->Measure_0;
    let before = effects.take(n - 2);
    let counted = seq![EffectView::Measure(counter)];
    let timed = seq![EffectView::Measure(timer)];
    assert(effects =~= before + counted + timed);
    if error is Some {
        let writes = effects.take(2);
        let event = effects[2]->Log_0;
        let logged = seq![EffectView::Log(event)];
        assert(before =~= writes + logged);
        writes_measure_and_log_nothing(writes);
        lemma_event(event);
        readings_and_events_in_turn(writes, logged);
        assert(events(before) =~= seq![event]);
    } else {
        writes_measure_and_log_nothing(before);
    }
    lemma_reading(counter);
    lemma_reading(timer);
    readings_and_events_in_turn(before, counted);
    readings_and_events_in_turn(before + counted, timed);
    assert(readings(effects) =~= seq![counter, timer]);
    assert(events(effects) =~= events(before));
}

/// How many of four token counts there are.
pub open spec fn known_counts(usage: Usage) -> int {
    (if usage.input_tokens is Some { 1int } else { 0 }) + (if usage.output_tokens is Some {
        1int
    } else {
        0
    }) + (if usage.total_tokens is Some { 1int } else { 0 }) + (if usage.reasoning_tokens is Some {
        1int
    } else {
        0
    })
}

/// Whoever records the end of a model call has it counted once, by one, and timed once, both
/// under its algorithm, its model, and `error` exactly if the call failed, else `ok`; has a
/// failure, and only that, logged as a warning with its error; and has the span show the outcome,
/// the error of a call that failed, each token count of a buffered response under its own name,
/// and everything else as before.
pub proof fn llm_call_is_counted_timed_and_shown(
    algorithm: &str,
    selected_model: &str,
    duration: Duration,
    result: &Result<Response, String>,
    span: &mut Span,
    key: Seq<char>,
)
    requires
        call_ensures(record_llm_call, (algorithm, selected_model, duration, result, span), ()),
    ensures
        only_adds(old(span)@, final(span)@),
        ({
            let new = added(old(span)@, final(span)@);
            let outcome = if *result is Err {
                "error"@
            } else {
                "ok"@
            };
            let attributes = seq![
                ("algorithm"@, algorithm@),
                ("selected_model"@, selected_model@),
                ("outcome"@, outcome),
            ];
            &&& readings(new).len() == 2
            &&& readings(new)[0].instrument == "switchyard.llm_calls"@
            &&& readings(new)[0].reading == Reading::Increment(1)
            &&& readings(new)[0].attributes == attributes
            &&& readings(new)[1].instrument == "switchyard.llm_call_duration_ms"@
            &&& readings(new)[1].reading == Reading::Elapsed(duration)
            &&& readings(new)[1].attributes == attributes
            &&& *result is Ok ==> events(new).len() == 0
            &&& *result matches Ok(response) ==> match response.llm_response {
                LlmResponse::Agg(agg) => new.len() == 3 + known_counts(agg.usage),
                LlmResponse::Stream => new.len() == 3,
            }
            &&& *result matches Err(error) ==> {
                &&& new.len() == 5
                &&& events(new).len() == 1
                &&& events(new)[0].level == Level::Warn
                &&& events(new)[0].target == Some("libsy"@)
                &&& events(new)[0].message == "model call failed"@
                &&& events(new)[0].fields == seq![
                    ("algorithm"@, FieldView::Text(algorithm@)),
                    ("selected_model"@, FieldView::Text(selected_model@)),
                    ("error"@, FieldView::Display(error@)),
                ]
            }
            &&& old(span)@.declared.contains(key) ==> {
                let usage = match *result {
                    Ok(Response { llm_response: LlmResponse::Agg(agg) }) => Some(agg.usage),
                    _ => None,
                };
                let count = if usage is None {
                    None
                } else if key == "input_tokens"@ {
                    usage->0.input_tokens
                } else if key == "output_tokens"@ {
                    usage->0.output_tokens
                } else if key == "total_tokens"@ {
                    usage->0.total_tokens
                } else if key == "reasoning_tokens"@ {
                    usage->0.reasoning_tokens
                } else {
                    None
                };
                final(span)@.field(key) == (if key == "outcome"@ {
                    Some(FieldView::Text(outcome))
                } else if key == "error"@ && *result is Err {
                    Some(FieldView::Display((*result)->Err_0@))
                } else if count is Some {
                    Some(FieldView::Number(count->0))
                } else {
                    old(span)@.field(key)
                })
            }
        }),
{
    let effects = llm_call_effects(algorithm@, selected_model@, duration, *result);
    emitting_only_adds(old(span)@, effects);
    lemma_llm_readings(algorithm@, selected_model@, duration, *result);
    if old(span)@.declared.contains(key) {
        llm_call_shows_its_outcome(
            old(span)@,
            algorithm@,
            selected_model@,
            duration,
            *result,
            key,
        );
    }
}

/// What the end of a model call measures and logs.
proof fn lemma_llm_readings(
    algorithm: Seq<char>,
    selected_model: Seq<char>,
    duration: Duration,
    result: Result<Response, String>,
)
    ensures
        ({
            let effects = llm_call_effects(algorithm, selected_model, duration, result);
            &&& readings(effects) == seq![effects[1]->Measure_0, effects[2]->Measure_0]
            &&& result is Err ==> effects.len() == 5 && events(effects) == seq![effects[4]->Log_0]
            &&& result is Ok ==> events(effects).len() == 0
            &&& result matches Ok(response) ==> match response.llm_response {
                LlmResponse::Agg(agg) => effects.len() == 3 + known_counts(agg.usage),
                LlmResponse::Stream => effects.len() == 3,
            }
        }),
{
    let effects = llm_call_effects(algorithm, selected_model, duration, result);
    let head = effects.take(1);
    let counter = effects[1]->Measure_0;
    let timer = effects[2]->Measure_0;
    let tail = effects.skip(3);
    let counted = seq![EffectView::Measure(counter)];
    let timed = seq![EffectView::Measure(timer)];
    assert(effects =~= head + counted + timed + tail);
    writes_measure_and_log_nothing(head);
    lemma_reading(counter);
    lemma_reading(timer);
    readings_and_events_in_turn(head, counted);
    readings_and_events_in_turn(head + counted, timed);
    readings_and_events_in_turn(head + counted + timed, tail);
    match result {
        Ok(response) => {
            if let Some(usage) = response.usage() {
                assert(tail =~= usage_records(usage));
                lemma_usage_is_records_only(usage);
            } else {
                assert(tail =~= Seq::<EffectView>::empty());
            }
            writes_measure_and_log_nothing(tail);
        },
        Err(error) => {
            let write = tail.take(1);
            let event = tail[1]->Log_0;
            let logged = seq![EffectView::Log(event)];
            assert(tail =~= write + logged);
            writes_measure_and_log_nothing(write);
            lemma_event(event);
            readings_and_events_in_turn(write, logged);
            assert(events(tail) =~= seq![event]);
        },
    }
    assert(readings(effects) =~= seq![counter, timer]);
    assert(events(effects) =~= events(tail));
}

/// Whoever records that the classifier failed open has one reading, of one, under the judge and
/// the reason.
pub proof fn fail_open_is_counted(judge_model: &str, reason: &str, measurement: Measurement)
    requires
        call_ensures(record_classifier_fail_open, (judge_model, reason), measurement),
    ensures
        measurement.instrument@ == "switchyard.classifier_fail_open"@,
        measurement.reading == Reading::Increment(1),
        measurement.attributes@.len() == 2,
        measurement.attributes@[0].key@ == "judge_model"@,
        measurement.attributes@[0].value@ == judge_model@,
        measurement.attributes@[1].key@ == "reason"@,
        measurement.attributes@[1].value@ == reason@,
{
    measurement_is_seen_whole(measurement);
    assert(measurement@.attributes.len() == 2);
    assert(measurement@.attributes[0] == ("judge_model"@, judge_model@));
    assert(measurement@.attributes[1] == ("reason"@, reason@));
}

/// An outcome is `error` exactly for a result that is an error, and else `ok`.
pub proof fn outcome_tells_errors<T, E>(result: &Result<T, E>, outcome: &'static str)
    requires
        call_ensures(outcome_value::<T, E>, (result,), outcome),
    ensures
        outcome@ == (if *result is Err {
            "error"@
        } else {
            "ok"@
        }),
{
}

/// An optional text, as a field shows it.
pub open spec fn plain_text(text: Option<String>) -> Option<FieldView> {
    match text {
        Some(text) => Some(FieldView::Text(text@)),
        None => None,
    }
}

/// The session of a request as Langfuse is to see it: the session id of the metadata, where it
/// is there and is not empty.
pub open spec fn langfuse_session(request: Request) -> Option<FieldView> {
    match request.metadata {
        Some(metadata) => if metadata.session_id is Some && metadata.session_id->0@.len() > 0 {
            Some(FieldView::Text(metadata.session_id->0@))
        } else {
            None
        },
        None => None,
    }
}

/// The names of the fields that the span of an algorithm run can hold.
pub open spec fn is_run_field(key: Seq<char>) -> bool {
    ||| key == "algorithm"@
    ||| key == "switchyard.algorithm"@
    ||| key == "openinference.span.kind"@
    ||| key == "switchyard.route"@
    ||| key == "session_id"@
    ||| key == "session.id"@
    ||| key == "agent_id"@
    ||| key == "task_id"@
    ||| key == "task_kind"@
    ||| key == "agent_role"@
    ||| key == "correlation_id"@
    ||| key == "extra_metadata"@
    ||| key == "outcome"@
    ||| key == "error"@
    ||| key == "switchyard.route.id"@
    ||| key == "switchyard.routing.algorithm"@
    ||| key == "switchyard.routing.selected_target"@
    ||| key == "langfuse.session.id"@
    ||| key == "langfuse.observation.metadata.switchyard.route_id"@
    ||| key == "langfuse.observation.metadata.switchyard.algorithm"@
    ||| key == "langfuse.observation.metadata.switchyard.selected_target"@
}

/// What a new run span shows under a field, but for the labels of the host.
pub open spec fn run_span_shows(algorithm: Seq<char>, request: Request, key: Seq<char>) -> Option<
    FieldView,
> {
    if key == "algorithm"@ || key == "switchyard.algorithm"@ || key
        == "switchyard.routing.algorithm"@ || key
        == "langfuse.observation.metadata.switchyard.algorithm"@ {
        Some(FieldView::Text(algorithm))
    } else if key == "openinference.span.kind"@ {
        Some(FieldView::Text("CHAIN"@))
    } else if key == "switchyard.route"@ || key == "switchyard.route.id"@ || key
        == "langfuse.observation.metadata.switchyard.route_id"@ {
        plain_text(request.llm_request.model)
    } else if key == "langfuse.session.id"@ {
        langfuse_session(request)
    } else if request.metadata is None {
        None
    } else if key == "session_id"@ || key == "session.id"@ {
        plain_text(request.metadata->0.session_id)
    } else if key == "agent_id"@ {
        plain_text(request.metadata->0.agent_id)
    } else if key == "task_id"@ {
        plain_text(request.metadata->0.task_id)
    } else if key == "task_kind"@ {
        plain_text(request.metadata->0.task_kind)
    } else if key == "agent_role"@ {
        plain_text(request.metadata->0.agent_role)
    } else if key == "correlation_id"@ {
        plain_text(request.metadata->0.correlation_id)
    } else {
        None
    }
}

/// Whoever makes the span of a run has a span of that name, at info level and without a remote
/// parent, which can hold the fields of a run and no others. It shows the algorithm, the kind of
/// the span, and the route, session and other ids of the request, each under its own names, and
/// the labels of the host whole under one name. Nothing is measured or logged.
pub proof fn run_span_shows_its_request(
    algorithm: &str,
    request: &Request,
    span: Span,
    key: Seq<char>,
)
    requires
        call_ensures(run_span, (algorithm, request), span),
    ensures
        span.name@ == "libsy.run"@,
        span.target@ == "libsy"@,
        span.level == Level::Info,
        span.parent is None,
        span@.declared.contains(key) <==> is_run_field(key),
        all_write(span@.effects),
        key != "extra_metadata"@ ==> span@.field(key) == run_span_shows(algorithm@, *request, key),
        request.metadata is Some && request.metadata->0.extra_metadata is Some ==> {
            let labels = request.metadata->0.extra_metadata->0@;
            &&& span@.field("extra_metadata"@) matches Some(FieldView::Debug(shown))
                && shown.len() == labels.len() && forall|i: int|
                0 <= i < labels.len() ==> (#[trigger] shown[i]) == (labels[i].0@, labels[i].1@)
        },
        request.metadata is None || request.metadata->0.extra_metadata is None ==> span@.field(
            "extra_metadata"@,
        ) is None,
{
    span_is_seen_whole(span);
    lemma_run_fields(key);
    lemma_run_span_writes(algorithm@, request@);
    if key != "extra_metadata"@ {
        lemma_run_span_shows(algorithm@, *request, key);
    }
    lemma_run_span_shows_labels(algorithm@, *request);
    vocabulary_is_spelled_so();
}

proof fn lemma_run_span_writes(algorithm: Seq<char>, request: RequestView)
    ensures
        all_write(run_span_records(algorithm, request)),
{
    let route = optional_record("switchyard.route"@, request.model);
    let of_metadata = match request.metadata {
        Some(metadata) => metadata_records(metadata),
        None => seq![],
    };
    if let Some(metadata) = request.metadata {
        lemma_metadata_writes(metadata);
    }
    lemma_route_context_writes(algorithm, request);
    writes_in_turn(route, of_metadata);
    writes_in_turn(route + of_metadata, route_context_records(algorithm, request));
}

proof fn lemma_route_context_writes(algorithm: Seq<char>, request: RequestView)
    ensures
        all_write(route_context_records(algorithm, request)),
{
    let of_algorithm = pair_records(GenericKeys::ALGORITHM@, LangfuseKeys::ALGORITHM@, algorithm);
    let of_route = match request.model {
        Some(route) => pair_records(GenericKeys::ROUTE_ID@, LangfuseKeys::ROUTE_ID@, route),
        None => seq![],
    };
    writes_in_turn(of_algorithm, of_route);
    writes_in_turn(
        of_algorithm + of_route,
        nonempty_record(LangfuseKeys::SESSION_ID@, request.session()),
    );
}

proof fn lemma_metadata_writes(metadata: MetadataView)
    ensures
        all_write(metadata_records(metadata)),
{
    let session = optional_record("session_id"@, metadata.session_id);
    let agent = optional_record("agent_id"@, metadata.agent_id);
    let task = optional_record("task_id"@, metadata.task_id);
    let kind = optional_record("task_kind"@, metadata.task_kind);
    let role = optional_record("agent_role"@, metadata.agent_role);
    let correlation = optional_record("correlation_id"@, metadata.correlation_id);
    let dotted = optional_record("session.id"@, metadata.session_id);
    let extra = match metadata.extra_metadata {
        Some(entries) => seq![EffectView::Record("extra_metadata"@, FieldView::Debug(entries))],
        None => seq![],
    };
    let to_agent = session + agent;
    let to_task = to_agent + task;
    let to_kind = to_task + kind;
    let to_role = to_kind + role;
    let to_correlation = to_role + correlation;
    let to_dotted = to_correlation + dotted;
    writes_in_turn(session, agent);
    writes_in_turn(to_agent, task);
    writes_in_turn(to_task, kind);
    writes_in_turn(to_kind, role);
    writes_in_turn(to_role, correlation);
    writes_in_turn(to_correlation, dotted);
    writes_in_turn(to_dotted, extra);
    assert(metadata_records(metadata) == to_dotted + extra);
}

proof fn lemma_run_span_shows(algorithm: Seq<char>, request: Request, key: Seq<char>)
    requires
        key != "extra_metadata"@,
    ensures
        run_span_view(algorithm, request@).field(key) == run_span_shows(algorithm, request, key),
{
    vocabulary_is_spelled_so();
    keys_told_apart();
    lemma_run_keys();
    new_run_span_shows_the_request(algorithm, request@, key);
}

proof fn lemma_run_span_shows_labels(algorithm: Seq<char>, request: Request)
    ensures
        run_span_view(algorithm, request@).field("extra_metadata"@) == (match request.metadata {
            Some(metadata) => match metadata.extra_metadata {
                Some(labels) => Some(FieldView::Debug(entries_view(labels@))),
                None => None,
            },
            None => None,
        }),
{
    keys_told_apart();
    lemma_run_keys();
    new_run_span_shows_the_request(algorithm, request@, "extra_metadata"@);
}

proof fn lemma_run_fields(key: Seq<char>)
    ensures
        run_fields().contains(key) <==> is_run_field(key),
{
    vocabulary_is_spelled_so();
    assert(run_fields()[0] == "algorithm"@);
    assert(run_fields()[1] == "switchyard.algorithm"@);
    assert(run_fields()[2] == "openinference.span.kind"@);
    assert(run_fields()[3] == "switchyard.route"@);
    assert(run_fields()[4] == "session_id"@);
    assert(run_fields()[5] == "session.id"@);
    assert(run_fields()[6] == "agent_id"@);
    assert(run_fields()[7] == "task_id"@);
    assert(run_fields()[8] == "task_kind"@);
    assert(run_fields()[9] == "agent_role"@);
    assert(run_fields()[10] == "correlation_id"@);
    assert(run_fields()[11] == "extra_metadata"@);
    assert(run_fields()[12] == "outcome"@);
    assert(run_fields()[13] == "error"@);
    assert(run_fields()[14] == GenericKeys::ROUTE_ID@);
    assert(run_fields()[15] == GenericKeys::ALGORITHM@);
    assert(run_fields()[16] == GenericKeys::SELECTED_TARGET@);
    assert(run_fields()[17] == LangfuseKeys::SESSION_ID@);
    assert(run_fields()[18] == LangfuseKeys::ROUTE_ID@);
    assert(run_fields()[19] == LangfuseKeys::ALGORITHM@);
    assert(run_fields()[20] == LangfuseKeys::SELECTED_TARGET@);
}

/// How many of a number of things are there.
pub open spec fn one_if(there: bool) -> int {
    if there {
        1
    } else {
        0
    }
}

/// A new run span writes each thing it shows once under each of its names: two names for the
/// algorithm, three for a route, two for a session and one more for one that is not empty, one
/// for every other id and for the labels of the host.
pub proof fn run_span_writes_each_field_once(algorithm: &str, request: &Request, span: Span)
    requires
        call_ensures(run_span, (algorithm, request), span),
    ensures
        span.attributes@.len() == 3,
        span.effects@.len() == 2 + 3 * one_if(request.llm_request.model is Some) + one_if(
            langfuse_session(*request) is Some,
        ) + (match request.metadata {
            Some(metadata) => 2 * one_if(metadata.session_id is Some) + one_if(
                metadata.agent_id is Some,
            ) + one_if(metadata.task_id is Some) + one_if(metadata.task_kind is Some) + one_if(
                metadata.agent_role is Some,
            ) + one_if(metadata.correlation_id is Some) + one_if(metadata.extra_metadata is Some),
            None => 0,
        }),
{
    assert(span@.attributes.len() == 3);
    assert(span@.effects == run_span_records(algorithm@, request@));
}

/// Whoever records an internal call has the span show, under both names of each: the algorithm,
/// the route of the request if it has one, the target of the call as the selected one and as the
/// one called, and that the call is a routing dependency; and the session, if there is one that is
/// not empty. Everything else shows as before, and nothing is measured or logged.
pub proof fn internal_call_shows_its_request(
    span: &mut Span,
    algorithm: &str,
    request: &Request,
    call_target: &str,
    key: Seq<char>,
)
    requires
        call_ensures(record_internal_call, (span, algorithm, request, call_target), ()),
    ensures
        only_adds(old(span)@, final(span)@),
        all_write(added(old(span)@, final(span)@)),
        added(old(span)@, final(span)@).len() == 8 + 2 * one_if(request.llm_request.model is Some)
            + one_if(langfuse_session(*request) is Some),
        old(span)@.declared.contains(key) ==> final(span)@.field(key) == (if key
            == "switchyard.routing.algorithm"@ || key
            == "langfuse.observation.metadata.switchyard.algorithm"@ {
            Some(FieldView::Text(algorithm@))
        } else if (key == "switchyard.route.id"@ || key
            == "langfuse.observation.metadata.switchyard.route_id"@)
            && request.llm_request.model is Some {
            plain_text(request.llm_request.model)
        } else if key == "langfuse.session.id"@ && langfuse_session(*request) is Some {
            langfuse_session(*request)
        } else if key == "switchyard.routing.selected_target"@ || key
            == "langfuse.observation.metadata.switchyard.selected_target"@ || key
            == "switchyard.call.target"@ || key
            == "langfuse.observation.metadata.switchyard.call_target"@ {
            Some(FieldView::Text(call_target@))
        } else if key == "switchyard.call.role"@ || key
            == "langfuse.observation.metadata.switchyard.call_role"@ {
            Some(FieldView::Text("routing_dependency"@))
        } else {
            old(span)@.field(key)
        }),
{
    vocabulary_is_spelled_so();
    keys_told_apart();
    let records = internal_call_records(algorithm@, request@, call_target@);
    emitting_only_adds(old(span)@, records);
    lemma_internal_call_writes(algorithm@, request@, call_target@);
    if old(span)@.declared.contains(key) {
        internal_call_is_a_routing_dependency(
            old(span)@,
            algorithm@,
            request@,
            call_target@,
            key,
        );
    }
}

proof fn lemma_internal_call_writes(
    algorithm: Seq<char>,
    request: RequestView,
    call_target: Seq<char>,
)
    ensures
        all_write(internal_call_records(algorithm, request, call_target)),
{
    let of_context = route_context_records(algorithm, request);
    let of_selected = pair_records(
        GenericKeys::SELECTED_TARGET@,
        LangfuseKeys::SELECTED_TARGET@,
        call_target,
    );
    let of_role = pair_records(
        GenericKeys::CALL_ROLE@,
        LangfuseKeys::CALL_ROLE@,
        CallRole::RoutingDependency.text(),
    );
    let of_target = pair_records(
        GenericKeys::CALL_TARGET@,
        LangfuseKeys::CALL_TARGET@,
        call_target,
    );
    lemma_route_context_writes(algorithm, request);
    writes_in_turn(of_context, of_selected);
    writes_in_turn(of_context + of_selected, of_role);
    writes_in_turn(of_context + of_selected + of_role, of_target);
}

/// Whoever records the context of a route has the span show, under both names of each, the
/// algorithm and the route of the request if it has one, and the session if there is one that is
/// not empty. Everything else shows as before, and nothing is measured or logged.
pub proof fn route_context_shows_its_request(
    span: &mut Span,
    algorithm: &str,
    request: &Request,
    key: Seq<char>,
)
    requires
        call_ensures(record_route_context, (span, algorithm, request), ()),
    ensures
        only_adds(old(span)@, final(span)@),
        all_write(added(old(span)@, final(span)@)),
        added(old(span)@, final(span)@).len() == 2 + 2 * one_if(request.llm_request.model is Some)
            + one_if(langfuse_session(*request) is Some),
        old(span)@.declared.contains(key) ==> final(span)@.field(key) == (if key
            == "switchyard.routing.algorithm"@ || key
            == "langfuse.observation.metadata.switchyard.algorithm"@ {
            Some(FieldView::Text(algorithm@))
        } else if (key == "switchyard.route.id"@ || key
            == "langfuse.observation.metadata.switchyard.route_id"@)
            && request.llm_request.model is Some {
            plain_text(request.llm_request.model)
        } else if key == "langfuse.session.id"@ && langfuse_session(*request) is Some {
            langfuse_session(*request)
        } else {
            old(span)@.field(key)
        }),
{
    vocabulary_is_spelled_so();
    keys_told_apart();
    let records = route_context_records(algorithm@, request@);
    emitting_only_adds(old(span)@, records);
    lemma_route_context_records(algorithm@, request@, key);
    emitted_effects_decide(old(span)@, records, key);
    unwritten_field_has_no_record(records, key);
}

/// The names under which telemetry is found: the scope of the metrics, and the target of spans
/// and events.
pub proof fn scope_and_target_are_spelled_so()
    ensures
        METRICS_SCOPE@ == "switchyard"@,
        TRACING_TARGET@ == "libsy"@,
{
}

} // verus!
