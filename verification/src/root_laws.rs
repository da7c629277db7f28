//! What holds of the root span of a request, whatever is recorded on it and in whatever order.

use axum::http::{HeaderMap, HeaderValue};
use serde_json::Value;
use vstd::prelude::*;

use crate::outside::{all_visible, ascii_text, header_lookup, is_traceparent, is_tracestate};
use crate::outside::{json_array_text, traceparent_span_id, traceparent_trace_id, w3c_context};
use crate::propagation::{carrier_view, handed_on};
use crate::protocol::{LlmRequest, LlmResponse, Response};
use crate::root::{record_json, record_root_error, record_root_input, record_root_outcome};
use crate::root::{record_root_output, record_root_route_context, request_span, root_span};
use crate::root::{origin_of, root_context_records, root_error_records, root_fields};
use crate::root::{root_input_records, root_outcome_records, root_output_records, root_span_view};
use crate::span::{added, all_write, emitting_only_adds, only_adds, span_is_seen_whole, Span};
use crate::span::{emitted_effects_decide, last_field, last_record, later_record_wins};
use crate::span::{nonempty_record, nonempty_record_shows_its_value};
use crate::span::{optional_record_shows_its_value, pair_records, pair_shows_its_value};
use crate::span::{single_record_shows_its_value, unwritten_field_has_no_record, writes_only};
use crate::span::{EffectView, FieldView, Level, SpanView, TraceParent, TraceParentView};
use crate::vocabulary::{keys_told_apart, vocabulary_is_spelled_so, GenericKeys, LangfuseKeys};

verus! {

/// One call that records something on the root span of a request.
pub enum RootRecord {
    /// Of `record_root_route_context`.
    Context {
        route_id: Option<Seq<char>>,
        algorithm: Seq<char>,
        session_id: Option<Seq<char>>,
        user_id: Option<Seq<char>>,
    },
    /// Of `record_root_outcome`.
    Outcome { selected_target: Seq<char>, served_target: Option<Seq<char>> },
    /// Of `record_root_input`.
    Input { messages: Seq<Value> },
    /// Of `record_root_output`.
    Output { outputs: Option<Seq<Value>> },
    /// Of `record_root_error`.
    Failure { error: Seq<char> },
}

/// What one call emits.
pub open spec fn root_effects(call: RootRecord) -> Seq<EffectView> {
    match call {
        RootRecord::Context { route_id, algorithm, session_id, user_id } => root_context_records(
            route_id,
            algorithm,
            session_id,
            user_id,
        ),
        RootRecord::Outcome { selected_target, served_target } => root_outcome_records(
            selected_target,
            served_target,
        ),
        RootRecord::Input { messages } => root_input_records(messages),
        RootRecord::Output { outputs } => root_output_records(outputs),
        RootRecord::Failure { error } => root_error_records(error),
    }
}

/// The root span of a request after a number of calls.
pub open spec fn root_after(parent: Option<TraceParentView>, calls: Seq<RootRecord>) -> SpanView
    decreases calls.len(),
{
    if calls.len() == 0 {
        root_span_view(parent)
    } else {
        root_after(parent, calls.drop_last()).emit(root_effects(calls.last()))
    }
}

/// The keys of the terminal outcome.
pub open spec fn is_outcome_key(key: Seq<char>) -> bool {
    ||| key == GenericKeys::SELECTED_TARGET@
    ||| key == LangfuseKeys::SELECTED_TARGET@
    ||| key == GenericKeys::SERVED_TARGET@
    ||| key == LangfuseKeys::SERVED_TARGET@
    ||| key == GenericKeys::RESPONSE_ORIGIN@
    ||| key == LangfuseKeys::RESPONSE_ORIGIN@
}

/// A generic key of the root span and its Langfuse counterpart.
pub open spec fn is_root_pair(generic_key: Seq<char>, langfuse_key: Seq<char>) -> bool {
    ||| generic_key == GenericKeys::ROUTE_ID@ && langfuse_key == LangfuseKeys::ROUTE_ID@
    ||| generic_key == GenericKeys::ALGORITHM@ && langfuse_key == LangfuseKeys::ALGORITHM@
    ||| generic_key == GenericKeys::SELECTED_TARGET@ && langfuse_key
        == LangfuseKeys::SELECTED_TARGET@
    ||| generic_key == GenericKeys::SERVED_TARGET@ && langfuse_key == LangfuseKeys::SERVED_TARGET@
    ||| generic_key == GenericKeys::RESPONSE_ORIGIN@ && langfuse_key
        == LangfuseKeys::RESPONSE_ORIGIN@
}

/// Enough of the other keys of the root span to tell them from each other and from those of the
/// vocabulary.
proof fn lemma_root_keys()
    ensures
        "otel.kind"@.len() == 9,
        "openinference.span.kind"@.len() == 23,
        "gen_ai.prompt"@.len() == 13,
        "gen_ai.completion"@.len() == 17,
        "outcome"@.len() == 7,
        "otel.status_code"@.len() == 16,
        "otel.status_code"@[0] == 'o',
        "error"@.len() == 5,
{
    reveal_strlit("otel.kind");
    reveal_strlit("openinference.span.kind");
    reveal_strlit("gen_ai.prompt");
    reveal_strlit("gen_ai.completion");
    reveal_strlit("outcome");
    reveal_strlit("otel.status_code");
    reveal_strlit("error");
}

/// What a field shows of route, algorithm, session and user.
pub open spec fn context_value(
    route_id: Option<Seq<char>>,
    algorithm: Seq<char>,
    session_id: Option<Seq<char>>,
    user_id: Option<Seq<char>>,
    key: Seq<char>,
) -> Option<FieldView> {
    if key == GenericKeys::ALGORITHM@ || key == LangfuseKeys::ALGORITHM@ {
        Some(FieldView::Text(algorithm))
    } else if route_id is Some && (key == GenericKeys::ROUTE_ID@ || key == LangfuseKeys::ROUTE_ID@) {
        Some(FieldView::Text(route_id->0))
    } else if session_id is Some && session_id->0.len() > 0 && key == LangfuseKeys::SESSION_ID@ {
        Some(FieldView::Text(session_id->0))
    } else if user_id is Some && user_id->0.len() > 0 && key == LangfuseKeys::USER_ID@ {
        Some(FieldView::Text(user_id->0))
    } else {
        None
    }
}

/// What a field shows of the terminal selection.
pub open spec fn selection_value(
    selected_target: Seq<char>,
    served_target: Option<Seq<char>>,
    key: Seq<char>,
) -> Option<FieldView> {
    if key == GenericKeys::SELECTED_TARGET@ || key == LangfuseKeys::SELECTED_TARGET@ {
        Some(FieldView::Text(selected_target))
    } else if served_target is Some && (key == GenericKeys::SERVED_TARGET@ || key
        == LangfuseKeys::SERVED_TARGET@) {
        Some(FieldView::Text(served_target->0))
    } else if key == GenericKeys::RESPONSE_ORIGIN@ || key == LangfuseKeys::RESPONSE_ORIGIN@ {
        Some(FieldView::Text(origin_of(served_target).text()))
    } else {
        None
    }
}

/// What a field shows of a failure.
pub open spec fn failure_value(error: Seq<char>, key: Seq<char>) -> Option<FieldView> {
    if key == "outcome"@ {
        Some(FieldView::Text("error"@))
    } else if key == "otel.status_code"@ {
        Some(FieldView::Text("ERROR"@))
    } else if key == "error"@ {
        Some(FieldView::Display(error))
    } else {
        None
    }
}

/// What a field shows of a call.
pub open spec fn call_value(call: RootRecord, key: Seq<char>) -> Option<FieldView> {
    match call {
        RootRecord::Context { route_id, algorithm, session_id, user_id } => context_value(
            route_id,
            algorithm,
            session_id,
            user_id,
            key,
        ),
        RootRecord::Outcome { selected_target, served_target } => selection_value(
            selected_target,
            served_target,
            key,
        ),
        RootRecord::Input { messages } => if messages.len() > 0 && json_array_text(
            messages,
        ) is Some && key == "gen_ai.prompt"@ {
            Some(FieldView::Text(json_array_text(messages)->0))
        } else {
            None
        },
        RootRecord::Output { outputs } => if outputs is Some && outputs->0.len() > 0
            && json_array_text(outputs->0) is Some && key == "gen_ai.completion"@ {
            Some(FieldView::Text(json_array_text(outputs->0)->0))
        } else {
            None
        },
        RootRecord::Failure { error } => failure_value(error, key),
    }
}

proof fn lemma_context_records(
    route_id: Option<Seq<char>>,
    algorithm: Seq<char>,
    session_id: Option<Seq<char>>,
    user_id: Option<Seq<char>>,
    key: Seq<char>,
)
    ensures
        last_record(root_context_records(route_id, algorithm, session_id, user_id), key)
            == context_value(route_id, algorithm, session_id, user_id, key),
{
    keys_told_apart();
    let of_algorithm = pair_records(GenericKeys::ALGORITHM@, LangfuseKeys::ALGORITHM@, algorithm);
    let of_route = match route_id {
        Some(route) => pair_records(GenericKeys::ROUTE_ID@, LangfuseKeys::ROUTE_ID@, route),
        None => seq![],
    };
    let of_session = nonempty_record(LangfuseKeys::SESSION_ID@, session_id);
    let of_user = nonempty_record(LangfuseKeys::USER_ID@, user_id);
    pair_shows_its_value(GenericKeys::ALGORITHM@, LangfuseKeys::ALGORITHM@, algorithm, key);
    if let Some(route) = route_id {
        pair_shows_its_value(GenericKeys::ROUTE_ID@, LangfuseKeys::ROUTE_ID@, route, key);
    }
    nonempty_record_shows_its_value(LangfuseKeys::SESSION_ID@, session_id, key);
    nonempty_record_shows_its_value(LangfuseKeys::USER_ID@, user_id, key);
    later_record_wins(of_algorithm, of_route, key);
    later_record_wins(of_algorithm + of_route, of_session, key);
    later_record_wins(of_algorithm + of_route + of_session, of_user, key);
}

proof fn lemma_outcome_records(
    selected_target: Seq<char>,
    served_target: Option<Seq<char>>,
    key: Seq<char>,
)
    ensures
        last_record(root_outcome_records(selected_target, served_target), key) == selection_value(
            selected_target,
            served_target,
            key,
        ),
{
    keys_told_apart();
    let origin = origin_of(served_target).text();
    let of_selected = pair_records(
        GenericKeys::SELECTED_TARGET@,
        LangfuseKeys::SELECTED_TARGET@,
        selected_target,
    );
    let of_served = match served_target {
        Some(served) => pair_records(
            GenericKeys::SERVED_TARGET@,
            LangfuseKeys::SERVED_TARGET@,
            served,
        ),
        None => seq![],
    };
    let of_origin = pair_records(
        GenericKeys::RESPONSE_ORIGIN@,
        LangfuseKeys::RESPONSE_ORIGIN@,
        origin,
    );
    pair_shows_its_value(
        GenericKeys::SELECTED_TARGET@,
        LangfuseKeys::SELECTED_TARGET@,
        selected_target,
        key,
    );
    if let Some(served) = served_target {
        pair_shows_its_value(GenericKeys::SERVED_TARGET@, LangfuseKeys::SERVED_TARGET@, served, key);
    }
    pair_shows_its_value(GenericKeys::RESPONSE_ORIGIN@, LangfuseKeys::RESPONSE_ORIGIN@, origin, key);
    later_record_wins(of_selected, of_served, key);
    later_record_wins(of_selected + of_served, of_origin, key);
}

proof fn lemma_failure_records(error: Seq<char>, key: Seq<char>)
    ensures
        last_record(root_error_records(error), key) == failure_value(error, key),
{
    lemma_root_keys();
    let outcome = EffectView::Record("outcome"@, FieldView::Text("error"@));
    let status = EffectView::Record("otel.status_code"@, FieldView::Text("ERROR"@));
    let shown = EffectView::Record("error"@, FieldView::Display(error));
    single_record_shows_its_value("outcome"@, FieldView::Text("error"@), key);
    single_record_shows_its_value("otel.status_code"@, FieldView::Text("ERROR"@), key);
    single_record_shows_its_value("error"@, FieldView::Display(error), key);
    later_record_wins(seq![outcome], seq![status], key);
    later_record_wins(seq![outcome] + seq![status], seq![shown], key);
    assert(root_error_records(error) =~= seq![outcome] + seq![status] + seq![shown]);
}

proof fn lemma_call_records(call: RootRecord, key: Seq<char>)
    ensures
        last_record(root_effects(call), key) == call_value(call, key),
{
    match call {
        RootRecord::Context { route_id, algorithm, session_id, user_id } => {
            lemma_context_records(route_id, algorithm, session_id, user_id, key);
        },
        RootRecord::Outcome { selected_target, served_target } => {
            lemma_outcome_records(selected_target, served_target, key);
        },
        RootRecord::Input { messages } => {
            optional_record_shows_its_value("gen_ai.prompt"@, json_array_text(messages), key);
        },
        RootRecord::Output { outputs } => {
            if let Some(outputs) = outputs {
                optional_record_shows_its_value("gen_ai.completion"@, json_array_text(outputs), key);
            }
        },
        RootRecord::Failure { error } => {
            lemma_failure_records(error, key);
        },
    }
}

proof fn lemma_root_declares()
    ensures
        root_fields().contains("gen_ai.prompt"@),
        root_fields().contains("gen_ai.completion"@),
        root_fields().contains("outcome"@),
        root_fields().contains("otel.status_code"@),
        root_fields().contains("error"@),
        root_fields().contains(GenericKeys::ROUTE_ID@),
        root_fields().contains(GenericKeys::ALGORITHM@),
        root_fields().contains(GenericKeys::SELECTED_TARGET@),
        root_fields().contains(GenericKeys::SERVED_TARGET@),
        root_fields().contains(GenericKeys::RESPONSE_ORIGIN@),
        root_fields().contains(LangfuseKeys::SESSION_ID@),
        root_fields().contains(LangfuseKeys::USER_ID@),
        root_fields().contains(LangfuseKeys::ROUTE_ID@),
        root_fields().contains(LangfuseKeys::ALGORITHM@),
        root_fields().contains(LangfuseKeys::SELECTED_TARGET@),
        root_fields().contains(LangfuseKeys::SERVED_TARGET@),
        root_fields().contains(LangfuseKeys::RESPONSE_ORIGIN@),
{
    assert(root_fields()[2] == "gen_ai.prompt"@);
    assert(root_fields()[3] == "gen_ai.completion"@);
    assert(root_fields()[4] == "outcome"@);
    assert(root_fields()[5] == "otel.status_code"@);
    assert(root_fields()[6] == "error"@);
    assert(root_fields()[7] == GenericKeys::ROUTE_ID@);
    assert(root_fields()[8] == GenericKeys::ALGORITHM@);
    assert(root_fields()[9] == GenericKeys::SELECTED_TARGET@);
    assert(root_fields()[10] == GenericKeys::SERVED_TARGET@);
    assert(root_fields()[11] == GenericKeys::RESPONSE_ORIGIN@);
    assert(root_fields()[12] == LangfuseKeys::SESSION_ID@);
    assert(root_fields()[13] == LangfuseKeys::USER_ID@);
    assert(root_fields()[14] == LangfuseKeys::ROUTE_ID@);
    assert(root_fields()[15] == LangfuseKeys::ALGORITHM@);
    assert(root_fields()[16] == LangfuseKeys::SELECTED_TARGET@);
    assert(root_fields()[17] == LangfuseKeys::SERVED_TARGET@);
    assert(root_fields()[18] == LangfuseKeys::RESPONSE_ORIGIN@);
}

/// Every field that a call writes is one that the root span declares, so no write is lost.
pub proof fn root_writes_are_declared(call: RootRecord)
    ensures
        writes_only(root_effects(call), root_fields()),
{
    let effects = root_effects(call);
    assert forall|i: int| 0 <= i < effects.len() implies match #[trigger] effects[i] {
        EffectView::Record(name, _) => root_fields().contains(name),
        _ => true,
    } by {
        if let EffectView::Record(name, _) = effects[i] {
            lemma_root_declares();
            lemma_call_records(call, name);
            unwritten_field_has_no_record(effects, name);
        }
    }
}

/// After a call, the root span shows under each field what the call wrote to it, and what it
/// showed before where the call did not write to it.
pub proof fn root_shows_the_last_call(
    parent: Option<TraceParentView>,
    calls: Seq<RootRecord>,
    call: RootRecord,
    key: Seq<char>,
)
    ensures
        root_after(parent, calls.push(call)).field(key) == (if call_value(call, key) is Some {
            call_value(call, key)
        } else {
            root_after(parent, calls).field(key)
        }),
{
    assert(calls.push(call).drop_last() =~= calls);
    root_keeps_its_identity(parent, calls);
    let span = root_after(parent, calls);
    lemma_call_records(call, key);
    lemma_root_declares();
    emitted_effects_decide(span, root_effects(call), key);
    unwritten_field_has_no_record(root_effects(call), key);
}

/// The root span keeps its level, its name, its fields and its parent, whatever is recorded on it.
pub proof fn root_keeps_its_identity(parent: Option<TraceParentView>, calls: Seq<RootRecord>)
    ensures
        root_after(parent, calls).level == Level::Info,
        root_after(parent, calls).name == "switchyard.request"@,
        root_after(parent, calls).declared == root_fields(),
        root_after(parent, calls).attributes == root_span_view(parent).attributes,
        root_after(parent, calls).parent == parent,
    decreases calls.len(),
{
    if calls.len() > 0 {
        root_keeps_its_identity(parent, calls.drop_last());
    }
}

/// A new root span shows nothing but what kind of span it is.
pub proof fn new_root_shows_its_kind_only(parent: Option<TraceParentView>, key: Seq<char>)
    ensures
        root_span_view(parent).field(key) == (if key == "otel.kind"@ {
            Some(FieldView::Text("server"@))
        } else if key == "openinference.span.kind"@ {
            Some(FieldView::Text("CHAIN"@))
        } else {
            None
        }),
{
    lemma_root_keys();
    let attributes = root_span_view(parent).attributes;
    reveal_with_fuel(last_field, 3);
    assert(attributes.drop_last() =~= seq![("otel.kind"@, FieldView::Text("server"@))]);
    assert(attributes.drop_last().drop_last() =~= Seq::<(Seq<char>, FieldView)>::empty());
    assert(root_fields()[0] == "otel.kind"@);
    assert(root_fields()[1] == "openinference.span.kind"@);
}

/// A generic key and its Langfuse counterpart always show the same.
pub proof fn root_pairs_agree(
    parent: Option<TraceParentView>,
    calls: Seq<RootRecord>,
    generic_key: Seq<char>,
    langfuse_key: Seq<char>,
)
    requires
        is_root_pair(generic_key, langfuse_key),
    ensures
        root_after(parent, calls).field(generic_key) == root_after(parent, calls).field(
            langfuse_key,
        ),
    decreases calls.len(),
{
    keys_told_apart();
    lemma_root_keys();
    if calls.len() == 0 {
        new_root_shows_its_kind_only(parent, generic_key);
        new_root_shows_its_kind_only(parent, langfuse_key);
    } else {
        let earlier = calls.drop_last();
        assert(earlier.push(calls.last()) =~= calls);
        root_pairs_agree(parent, earlier, generic_key, langfuse_key);
        root_shows_the_last_call(parent, earlier, calls.last(), generic_key);
        root_shows_the_last_call(parent, earlier, calls.last(), langfuse_key);
    }
}

/// A field that no call has written shows what the new span showed.
pub proof fn unwritten_root_field_is_as_new(
    parent: Option<TraceParentView>,
    calls: Seq<RootRecord>,
    key: Seq<char>,
)
    requires
        forall|i: int| 0 <= i < calls.len() ==> call_value(#[trigger] calls[i], key) is None,
    ensures
        root_after(parent, calls).field(key) == root_span_view(parent).field(key),
    decreases calls.len(),
{
    if calls.len() > 0 {
        let earlier = calls.drop_last();
        assert(earlier.push(calls.last()) =~= calls);
        assert(calls[calls.len() - 1] == calls.last());
        assert forall|i: int| 0 <= i < earlier.len() implies call_value(
            #[trigger] earlier[i],
            key,
        ) is None by {
            assert(earlier[i] == calls[i]);
        }
        unwritten_root_field_is_as_new(parent, earlier, key);
        root_shows_the_last_call(parent, earlier, calls.last(), key);
    }
}

/// A request that records no terminal outcome shows none: neither a selected target, nor a
/// served one, nor an origin. So a failed execution does not fabricate an outcome.
pub proof fn no_outcome_is_fabricated(
    parent: Option<TraceParentView>,
    calls: Seq<RootRecord>,
    key: Seq<char>,
)
    requires
        is_outcome_key(key),
        forall|i: int| 0 <= i < calls.len() ==> !((#[trigger] calls[i]) is Outcome),
    ensures
        root_after(parent, calls).field(key) is None,
{
    keys_told_apart();
    lemma_root_keys();
    assert forall|i: int| 0 <= i < calls.len() implies call_value(
        #[trigger] calls[i],
        key,
    ) is None by {}
    unwritten_root_field_is_as_new(parent, calls, key);
    new_root_shows_its_kind_only(parent, key);
}

/// A request that no target served does not claim that one did.
pub proof fn no_served_target_is_claimed(
    parent: Option<TraceParentView>,
    calls: Seq<RootRecord>,
    key: Seq<char>,
)
    requires
        key == GenericKeys::SERVED_TARGET@ || key == LangfuseKeys::SERVED_TARGET@,
        forall|i: int|
            0 <= i < calls.len() ==> match #[trigger] calls[i] {
                RootRecord::Outcome { served_target, .. } => served_target is None,
                _ => true,
            },
    ensures
        root_after(parent, calls).field(key) is None,
{
    keys_told_apart();
    lemma_root_keys();
    assert forall|i: int| 0 <= i < calls.len() implies call_value(
        #[trigger] calls[i],
        key,
    ) is None by {}
    unwritten_root_field_is_as_new(parent, calls, key);
    new_root_shows_its_kind_only(parent, key);
}

proof fn lemma_context_stands(
    parent: Option<TraceParentView>,
    before: Seq<RootRecord>,
    context: RootRecord,
    after: Seq<RootRecord>,
    key: Seq<char>,
)
    requires
        context is Context,
        call_value(context, key) is Some,
        forall|i: int| 0 <= i < after.len() ==> !((#[trigger] after[i]) is Context),
    ensures
        root_after(parent, before.push(context) + after).field(key) == call_value(context, key),
    decreases after.len(),
{
    keys_told_apart();
    lemma_root_keys();
    if after.len() == 0 {
        assert(before.push(context) + after =~= before.push(context));
        root_shows_the_last_call(parent, before, context, key);
    } else {
        let earlier = after.drop_last();
        let calls = before.push(context) + earlier;
        let call = after.last();
        assert(calls.push(call) =~= before.push(context) + after);
        assert(after[after.len() - 1] == call);
        assert forall|i: int| 0 <= i < earlier.len() implies !((
        #[trigger] earlier[i]) is Context) by {
            assert(earlier[i] == after[i]);
        }
        lemma_context_stands(parent, before, context, earlier, key);
        root_shows_the_last_call(parent, calls, call, key);
    }
}

/// Route, algorithm, session and user stand from the call that records them on, as long as no
/// other such call follows: a request that fails later still shows its route.
pub proof fn context_stands(
    parent: Option<TraceParentView>,
    before: Seq<RootRecord>,
    route_id: Option<Seq<char>>,
    algorithm: Seq<char>,
    session_id: Option<Seq<char>>,
    user_id: Option<Seq<char>>,
    after: Seq<RootRecord>,
)
    requires
        forall|i: int| 0 <= i < after.len() ==> !((#[trigger] after[i]) is Context),
    ensures
        ({
            let context = RootRecord::Context { route_id, algorithm, session_id, user_id };
            let span = root_after(parent, before.push(context) + after);
            &&& span.field(GenericKeys::ALGORITHM@) == Some(FieldView::Text(algorithm))
            &&& span.field(LangfuseKeys::ALGORITHM@) == Some(FieldView::Text(algorithm))
            &&& route_id matches Some(route) ==> {
                &&& span.field(GenericKeys::ROUTE_ID@) == Some(FieldView::Text(route))
                &&& span.field(LangfuseKeys::ROUTE_ID@) == Some(FieldView::Text(route))
            }
            &&& session_id is Some && session_id->0.len() > 0 ==> span.field(
                LangfuseKeys::SESSION_ID@,
            ) == Some(FieldView::Text(session_id->0))
            &&& user_id is Some && user_id->0.len() > 0 ==> span.field(LangfuseKeys::USER_ID@)
                == Some(FieldView::Text(user_id->0))
        }),
{
    keys_told_apart();
    let context = RootRecord::Context { route_id, algorithm, session_id, user_id };
    lemma_context_stands(parent, before, context, after, GenericKeys::ALGORITHM@);
    lemma_context_stands(parent, before, context, after, LangfuseKeys::ALGORITHM@);
    if route_id is Some {
        lemma_context_stands(parent, before, context, after, GenericKeys::ROUTE_ID@);
        lemma_context_stands(parent, before, context, after, LangfuseKeys::ROUTE_ID@);
    }
    if session_id is Some && session_id->0.len() > 0 {
        lemma_context_stands(parent, before, context, after, LangfuseKeys::SESSION_ID@);
    }
    if user_id is Some && user_id->0.len() > 0 {
        lemma_context_stands(parent, before, context, after, LangfuseKeys::USER_ID@);
    }
}

/// The terminal outcome stands from the call that records it on, as long as no other is
/// recorded: the selected target as it was selected, the served target as it was served, be they
/// the same or not, and the origin that follows.
pub proof fn outcome_stands(
    parent: Option<TraceParentView>,
    before: Seq<RootRecord>,
    selected_target: Seq<char>,
    served_target: Option<Seq<char>>,
    after: Seq<RootRecord>,
)
    requires
        forall|i: int| 0 <= i < after.len() ==> !((#[trigger] after[i]) is Outcome),
    ensures
        ({
            let outcome = RootRecord::Outcome { selected_target, served_target };
            let span = root_after(parent, before.push(outcome) + after);
            let origin = Some(FieldView::Text(origin_of(served_target).text()));
            &&& span.field(GenericKeys::SELECTED_TARGET@) == Some(FieldView::Text(selected_target))
            &&& span.field(LangfuseKeys::SELECTED_TARGET@) == Some(FieldView::Text(selected_target))
            &&& span.field(GenericKeys::RESPONSE_ORIGIN@) == origin
            &&& span.field(LangfuseKeys::RESPONSE_ORIGIN@) == origin
            &&& served_target matches Some(served) ==> {
                &&& span.field(GenericKeys::SERVED_TARGET@) == Some(FieldView::Text(served))
                &&& span.field(LangfuseKeys::SERVED_TARGET@) == Some(FieldView::Text(served))
            }
        }),
    decreases after.len(),
{
    keys_told_apart();
    lemma_root_keys();
    let outcome = RootRecord::Outcome { selected_target, served_target };
    if after.len() == 0 {
        assert(before.push(outcome) + after =~= before.push(outcome));
        root_shows_the_last_call(parent, before, outcome, GenericKeys::SELECTED_TARGET@);
        root_shows_the_last_call(parent, before, outcome, LangfuseKeys::SELECTED_TARGET@);
        root_shows_the_last_call(parent, before, outcome, GenericKeys::SERVED_TARGET@);
        root_shows_the_last_call(parent, before, outcome, LangfuseKeys::SERVED_TARGET@);
        root_shows_the_last_call(parent, before, outcome, GenericKeys::RESPONSE_ORIGIN@);
        root_shows_the_last_call(parent, before, outcome, LangfuseKeys::RESPONSE_ORIGIN@);
    } else {
        let earlier = after.drop_last();
        let calls = before.push(outcome) + earlier;
        let call = after.last();
        assert(calls.push(call) =~= before.push(outcome) + after);
        assert(after[after.len() - 1] == call);
        assert forall|i: int| 0 <= i < earlier.len() implies !((
        #[trigger] earlier[i]) is Outcome) by {
            assert(earlier[i] == after[i]);
        }
        outcome_stands(parent, before, selected_target, served_target, earlier);
        root_shows_the_last_call(parent, calls, call, GenericKeys::SELECTED_TARGET@);
        root_shows_the_last_call(parent, calls, call, LangfuseKeys::SELECTED_TARGET@);
        root_shows_the_last_call(parent, calls, call, GenericKeys::SERVED_TARGET@);
        root_shows_the_last_call(parent, calls, call, LangfuseKeys::SERVED_TARGET@);
        root_shows_the_last_call(parent, calls, call, GenericKeys::RESPONSE_ORIGIN@);
        root_shows_the_last_call(parent, calls, call, LangfuseKeys::RESPONSE_ORIGIN@);
    }
}

/// The session and the user that the root span shows are never empty texts.
pub proof fn root_session_and_user_are_never_empty(
    parent: Option<TraceParentView>,
    calls: Seq<RootRecord>,
    key: Seq<char>,
)
    requires
        key == LangfuseKeys::SESSION_ID@ || key == LangfuseKeys::USER_ID@,
    ensures
        match root_after(parent, calls).field(key) {
            Some(FieldView::Text(text)) => text.len() > 0,
            Some(_) => false,
            None => true,
        },
    decreases calls.len(),
{
    keys_told_apart();
    lemma_root_keys();
    if calls.len() == 0 {
        new_root_shows_its_kind_only(parent, key);
    } else {
        let earlier = calls.drop_last();
        assert(earlier.push(calls.last()) =~= calls);
        root_session_and_user_are_never_empty(parent, earlier, key);
        root_shows_the_last_call(parent, earlier, calls.last(), key);
    }
}

/// The root span never shows the role or the target of a single model call.
pub proof fn root_shows_no_single_call(
    parent: Option<TraceParentView>,
    calls: Seq<RootRecord>,
    key: Seq<char>,
)
    requires
        key == GenericKeys::CALL_ROLE@ || key == LangfuseKeys::CALL_ROLE@ || key
            == GenericKeys::CALL_TARGET@ || key == LangfuseKeys::CALL_TARGET@,
    ensures
        root_after(parent, calls).field(key) is None,
{
    keys_told_apart();
    lemma_root_keys();
    root_keeps_its_identity(parent, calls);
    assert forall|i: int| 0 <= i < root_fields().len() implies (#[trigger] root_fields()[i])
        != key by {}
}

/// A failure that is recorded on the root span is never taken back by what is recorded later.
pub proof fn failure_stands(
    parent: Option<TraceParentView>,
    before: Seq<RootRecord>,
    error: Seq<char>,
    after: Seq<RootRecord>,
)
    ensures
        ({
            let span = root_after(parent, before.push(RootRecord::Failure { error }) + after);
            &&& span.field("outcome"@) == Some(FieldView::Text("error"@))
            &&& span.field("otel.status_code"@) == Some(FieldView::Text("ERROR"@))
            &&& span.field("error"@) is Some
        }),
    decreases after.len(),
{
    keys_told_apart();
    lemma_root_keys();
    let failure = RootRecord::Failure { error };
    if after.len() == 0 {
        assert(before.push(failure) + after =~= before.push(failure));
        root_shows_the_last_call(parent, before, failure, "outcome"@);
        root_shows_the_last_call(parent, before, failure, "otel.status_code"@);
        root_shows_the_last_call(parent, before, failure, "error"@);
    } else {
        let earlier = after.drop_last();
        let calls = before.push(failure) + earlier;
        let call = after.last();
        assert(calls.push(call) =~= before.push(failure) + after);
        failure_stands(parent, before, error, earlier);
        root_shows_the_last_call(parent, calls, call, "outcome"@);
        root_shows_the_last_call(parent, calls, call, "otel.status_code"@);
        root_shows_the_last_call(parent, calls, call, "error"@);
    }
}

/// A request that records no failure is not flagged as failed.
pub proof fn no_failure_is_fabricated(
    parent: Option<TraceParentView>,
    calls: Seq<RootRecord>,
    key: Seq<char>,
)
    requires
        key == "outcome"@ || key == "otel.status_code"@ || key == "error"@,
        forall|i: int| 0 <= i < calls.len() ==> !((#[trigger] calls[i]) is Failure),
    ensures
        root_after(parent, calls).field(key) is None,
{
    keys_told_apart();
    lemma_root_keys();
    assert forall|i: int| 0 <= i < calls.len() implies call_value(
        #[trigger] calls[i],
        key,
    ) is None by {}
    unwritten_root_field_is_as_new(parent, calls, key);
    new_root_shows_its_kind_only(parent, key);
}

/// The names of the fields that the root span of a request can hold.
pub open spec fn is_root_field(key: Seq<char>) -> bool {
    ||| key == "otel.kind"@
    ||| key == "openinference.span.kind"@
    ||| key == "gen_ai.prompt"@
    ||| key == "gen_ai.completion"@
    ||| key == "outcome"@
    ||| key == "otel.status_code"@
    ||| key == "error"@
    ||| key == "switchyard.route.id"@
    ||| key == "switchyard.routing.algorithm"@
    ||| key == "switchyard.routing.selected_target"@
    ||| key == "switchyard.response.served_target"@
    ||| key == "switchyard.response.origin"@
    ||| key == "langfuse.session.id"@
    ||| key == "langfuse.user.id"@
    ||| key == "langfuse.observation.metadata.switchyard.route_id"@
    ||| key == "langfuse.observation.metadata.switchyard.algorithm"@
    ||| key == "langfuse.observation.metadata.switchyard.selected_target"@
    ||| key == "langfuse.observation.metadata.switchyard.served_target"@
    ||| key == "langfuse.observation.metadata.switchyard.response_origin"@
}

/// What holds of every new root span, whatever its parent: it has its name, is at info level, can
/// hold the fields of a request and no others, shows what kind of span it is, and nothing was
/// emitted on it.
pub open spec fn is_new_root(span: Span, key: Seq<char>) -> bool {
    &&& span.name@ == "switchyard.request"@
    &&& span.target@ == "switchyard_server"@
    &&& span.level == Level::Info
    &&& span.effects@.len() == 0
    &&& span.attributes@.len() == 2
    &&& span@.declared.contains(key) <==> is_root_field(key)
    &&& span@.field(key) == (if key == "otel.kind"@ {
        Some(FieldView::Text("server"@))
    } else if key == "openinference.span.kind"@ {
        Some(FieldView::Text("CHAIN"@))
    } else {
        None
    })
}

proof fn lemma_root_fields(key: Seq<char>)
    ensures
        root_fields().contains(key) <==> is_root_field(key),
{
    vocabulary_is_spelled_so();
    lemma_root_declares();
    assert(root_fields()[0] == "otel.kind"@);
    assert(root_fields()[1] == "openinference.span.kind"@);
}

proof fn lemma_new_root(span: Span, parent: Option<TraceParentView>, key: Seq<char>)
    requires
        span@ == root_span_view(parent),
    ensures
        is_new_root(span, key),
{
    span_is_seen_whole(span);
    lemma_root_fields(key);
    new_root_shows_its_kind_only(parent, key);
    assert(span@.attributes.len() == 2);
}

/// Whoever makes a root span over a remote parent has that parent, in every part.
pub proof fn root_span_has_its_parent(
    parent: Option<TraceParent>,
    span: Span,
    key: Seq<char>,
)
    requires
        call_ensures(root_span, (parent,), span),
    ensures
        is_new_root(span, key),
        parent is None ==> span.parent is None,
        parent matches Some(remote) ==> {
            &&& span.parent is Some
            &&& span.parent->0.trace_id == remote.trace_id
            &&& span.parent->0.span_id == remote.span_id
            &&& span.parent->0.sampled == remote.sampled
            &&& span.parent->0.trace_state@ == remote.trace_state@
        },
{
    let seen = match parent {
        Some(parent) => Some(parent@),
        None => None,
    };
    lemma_new_root(span, seen, key);
    span_is_seen_whole(span);
    assert(span@.parent == seen);
}

/// Whoever makes the root span of a request whose `traceparent` header is well formed has the
/// remote span as its parent: its trace id, its span id, its flag, and the `tracestate` header as
/// it is where that is well formed, or no trace state where there is no such header. Whoever makes
/// it of a request without a `traceparent` header that is text has no parent.
pub proof fn request_span_continues_the_trace(
    headers: &HeaderMap<HeaderValue>,
    span: Span,
    key: Seq<char>,
)
    requires
        call_ensures(request_span, (headers,), span),
    ensures
        is_new_root(span, key),
        ({
            let found = header_lookup(*headers);
            let text = ascii_text(found["traceparent"@]);
            let state = ascii_text(found["tracestate"@]);
            let given = found.contains_key("traceparent"@) && all_visible(found["traceparent"@]);
            let stated = found.contains_key("tracestate"@) && all_visible(found["tracestate"@]);
            &&& !given ==> span.parent is None
            &&& given && is_traceparent(text) ==> {
                &&& span.parent is Some
                &&& span.parent->0.trace_id as nat == traceparent_trace_id(text)
                &&& span.parent->0.span_id as nat == traceparent_span_id(text)
                &&& span.parent->0.sampled <==> text[54] == '1'
                &&& !stated ==> span.parent->0.trace_state@.len() == 0
                &&& stated && is_tracestate(state) ==> span.parent->0.trace_state@ == state
            }
        }),
{
    lemma_new_root(span, span@.parent, key);
    span_is_seen_whole(span);
}

/// Whoever makes the root span of a request, whatever its headers say, has as its parent exactly
/// what the propagator makes of the two headers.
pub proof fn request_span_has_what_was_extracted(headers: &HeaderMap<HeaderValue>, span: Span)
    requires
        call_ensures(request_span, (headers,), span),
    ensures
        w3c_context(handed_on(*headers)) == (match span.parent {
            Some(remote) => Some(
                (remote.trace_id, remote.span_id, remote.sampled, remote.trace_state@),
            ),
            None => None,
        }),
{
    span_is_seen_whole(span);
    assert(carrier_view(*headers) =~= handed_on(*headers));
}

/// Whoever records the context of a route on the root span has it show, under both names of each,
/// the algorithm and the route if there is one, and the session and the user where they are there
/// and not empty. Everything else shows as before, and nothing is measured or logged.
pub proof fn root_context_shows_its_route(
    span: &mut Span,
    route_id: Option<&str>,
    algorithm: &str,
    session_id: Option<&str>,
    user_id: Option<&str>,
    key: Seq<char>,
)
    requires
        call_ensures(
            record_root_route_context,
            (span, route_id, algorithm, session_id, user_id),
            (),
        ),
    ensures
        only_adds(old(span)@, final(span)@),
        all_write(added(old(span)@, final(span)@)),
        added(old(span)@, final(span)@).len() == 2 + (if route_id is Some {
            2int
        } else {
            0
        }) + (if session_id is Some && session_id->0@.len() > 0 {
            1int
        } else {
            0
        }) + (if user_id is Some && user_id->0@.len() > 0 {
            1int
        } else {
            0
        }),
        old(span)@.declared.contains(key) ==> final(span)@.field(key) == (if key
            == "switchyard.routing.algorithm"@ || key
            == "langfuse.observation.metadata.switchyard.algorithm"@ {
            Some(FieldView::Text(algorithm@))
        } else if (key == "switchyard.route.id"@ || key
            == "langfuse.observation.metadata.switchyard.route_id"@) && route_id is Some {
            Some(FieldView::Text(route_id->0@))
        } else if key == "langfuse.session.id"@ && session_id is Some && session_id->0@.len() > 0 {
            Some(FieldView::Text(session_id->0@))
        } else if key == "langfuse.user.id"@ && user_id is Some && user_id->0@.len() > 0 {
            Some(FieldView::Text(user_id->0@))
        } else {
            old(span)@.field(key)
        }),
{
    vocabulary_is_spelled_so();
    keys_told_apart();
    let records = root_context_records(
        route_id.deep_view(),
        algorithm@,
        session_id.deep_view(),
        user_id.deep_view(),
    );
    emitting_only_adds(old(span)@, records);
    lemma_context_records(
        route_id.deep_view(),
        algorithm@,
        session_id.deep_view(),
        user_id.deep_view(),
        key,
    );
    emitted_effects_decide(old(span)@, records, key);
    unwritten_field_has_no_record(records, key);
}

/// Whoever records the outcome on the root span has it show, under both names of each, the
/// selected target, the target that served if one did, and as the origin `target` exactly if one
/// did, else `routing_generated`. Everything else shows as before, and nothing is measured or
/// logged.
pub proof fn root_outcome_shows_who_served(
    span: &mut Span,
    selected_target: &str,
    served_target: Option<&str>,
    key: Seq<char>,
)
    requires
        call_ensures(record_root_outcome, (span, selected_target, served_target), ()),
    ensures
        only_adds(old(span)@, final(span)@),
        all_write(added(old(span)@, final(span)@)),
        added(old(span)@, final(span)@).len() == (if served_target is Some {
            6int
        } else {
            4
        }),
        old(span)@.declared.contains(key) ==> final(span)@.field(key) == (if key
            == "switchyard.routing.selected_target"@ || key
            == "langfuse.observation.metadata.switchyard.selected_target"@ {
            Some(FieldView::Text(selected_target@))
        } else if (key == "switchyard.response.served_target"@ || key
            == "langfuse.observation.metadata.switchyard.served_target"@)
            && served_target is Some {
            Some(FieldView::Text(served_target->0@))
        } else if key == "switchyard.response.origin"@ || key
            == "langfuse.observation.metadata.switchyard.response_origin"@ {
            Some(
                FieldView::Text(
                    if served_target is Some {
                        "target"@
                    } else {
                        "routing_generated"@
                    },
                ),
            )
        } else {
            old(span)@.field(key)
        }),
{
    vocabulary_is_spelled_so();
    keys_told_apart();
    let records = root_outcome_records(selected_target@, served_target.deep_view());
    emitting_only_adds(old(span)@, records);
    lemma_outcome_records(selected_target@, served_target.deep_view(), key);
    emitted_effects_decide(old(span)@, records, key);
    unwritten_field_has_no_record(records, key);
}

/// Whoever records the input on the root span has it show the JSON text of the messages as the
/// prompt, if there are messages and they have one, and everything else as before; without them
/// the span stays as it is.
pub proof fn root_input_shows_the_messages(span: &mut Span, request: &LlmRequest, key: Seq<char>)
    requires
        call_ensures(record_root_input, (span, request), ()),
    ensures
        ({
            let json = json_array_text(request.messages@);
            if request.messages@.len() > 0 && json is Some {
                &&& only_adds(old(span)@, final(span)@)
                &&& added(old(span)@, final(span)@) == seq![
                    EffectView::Record("gen_ai.prompt"@, FieldView::Text(json->0)),
                ]
                &&& old(span)@.declared.contains(key) ==> final(span)@.field(key) == (if key
                    == "gen_ai.prompt"@ {
                    Some(FieldView::Text(json->0))
                } else {
                    old(span)@.field(key)
                })
            } else {
                final(span)@ == old(span)@
            }
        }),
{
    let records = root_input_records(request.messages@);
    emitting_only_adds(old(span)@, records);
    lemma_call_records(RootRecord::Input { messages: request.messages@ }, key);
    emitted_effects_decide(old(span)@, records, key);
    unwritten_field_has_no_record(records, key);
}

/// Whoever records the output on the root span has it show the JSON text of the outputs as the
/// completion, if the response is buffered and has outputs that have one, and everything else as
/// before; without them the span stays as it is.
pub proof fn root_output_shows_the_outputs(span: &mut Span, response: &Response, key: Seq<char>)
    requires
        call_ensures(record_root_output, (span, response), ()),
    ensures
        match response.llm_response {
            LlmResponse::Agg(agg) => {
                let json = json_array_text(agg.outputs@);
                if agg.outputs@.len() > 0 && json is Some {
                    &&& only_adds(old(span)@, final(span)@)
                    &&& added(old(span)@, final(span)@) == seq![
                        EffectView::Record("gen_ai.completion"@, FieldView::Text(json->0)),
                    ]
                    &&& old(span)@.declared.contains(key) ==> final(span)@.field(key) == (if key
                        == "gen_ai.completion"@ {
                        Some(FieldView::Text(json->0))
                    } else {
                        old(span)@.field(key)
                    })
                } else {
                    final(span)@ == old(span)@
                }
            },
            LlmResponse::Stream => final(span)@ == old(span)@,
        },
{
    let records = root_output_records(response.outputs());
    emitting_only_adds(old(span)@, records);
    lemma_call_records(RootRecord::Output { outputs: response.outputs() }, key);
    emitted_effects_decide(old(span)@, records, key);
    unwritten_field_has_no_record(records, key);
}

/// Whoever records a JSON text has it written under the field that was named, and a failure to
/// make one leaves the span as it is.
pub proof fn json_is_written_where_there_is_some(
    span: &mut Span,
    key: &'static str,
    json: Result<String, serde_json::Error>,
)
    requires
        call_ensures(record_json, (span, key, json), ()),
    ensures
        json matches Ok(text) ==> {
            &&& only_adds(old(span)@, final(span)@)
            &&& added(old(span)@, final(span)@) == seq![
                EffectView::Record(key@, FieldView::Text(text@)),
            ]
        },
        json is Err ==> final(span)@ == old(span)@,
{
    if let Ok(text) = json {
        emitting_only_adds(old(span)@, seq![EffectView::Record(key@, FieldView::Text(text@))]);
    }
}

/// Whoever records a failure on the root span has it show the outcome `error`, the status `ERROR`
/// and the error as it displays, and everything else as before. Nothing is measured or logged.
pub proof fn root_error_shows_the_failure(span: &mut Span, error: &str, key: Seq<char>)
    requires
        call_ensures(record_root_error, (span, error), ()),
    ensures
        only_adds(old(span)@, final(span)@),
        all_write(added(old(span)@, final(span)@)),
        added(old(span)@, final(span)@).len() == 3,
        old(span)@.declared.contains(key) ==> final(span)@.field(key) == (if key == "outcome"@ {
            Some(FieldView::Text("error"@))
        } else if key == "otel.status_code"@ {
            Some(FieldView::Text("ERROR"@))
        } else if key == "error"@ {
            Some(FieldView::Display(error@))
        } else {
            old(span)@.field(key)
        }),
{
    let records = root_error_records(error@);
    emitting_only_adds(old(span)@, records);
    lemma_failure_records(error@, key);
    emitted_effects_decide(old(span)@, records, key);
    unwritten_field_has_no_record(records, key);
}

} // verus!
