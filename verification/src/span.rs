//! Spans as plain values: the fields a span was made with, and what was emitted on it since.
//!
//! A [`Span`] collects, in order, everything that has to happen on a tracing span: field writes,
//! log events, and metric readings. The host performs the effects on the span it stands for.

use std::time::Duration;
use vstd::prelude::*;

use crate::text::same_text;

verus! {

/// A field's value, in the form in which it is handed to the tracing facade.
#[derive(Debug, PartialEq)]
pub enum FieldValue {
    /// A string value.
    Text(String),
    /// An unsigned integer.
    Number(u64),
    /// The `Display` form of a value.
    Display(String),
    /// A string map, recorded whole in its `Debug` form.
    Debug(Vec<(String, String)>),
}

/// The mathematical value of a [`FieldValue`].
#[verifier::ext_equal]
pub enum FieldView {
    Text(Seq<char>),
    Number(u64),
    Display(Seq<char>),
    Debug(Seq<(Seq<char>, Seq<char>)>),
}

/// The texts of a list of string pairs.
pub open spec fn entries_view(entries: Seq<(String, String)>) -> Seq<(Seq<char>, Seq<char>)> {
    entries.map_values(|entry: (String, String)| (entry.0@, entry.1@))
}

impl View for FieldValue {
    type V = FieldView;

    open spec fn view(&self) -> FieldView {
        match *self {
            FieldValue::Text(text) => FieldView::Text(text@),
            FieldValue::Number(number) => FieldView::Number(number),
            FieldValue::Display(text) => FieldView::Display(text@),
            FieldValue::Debug(entries) => FieldView::Debug(entries_view(entries@)),
        }
    }
}

/// A field: its name and a value for it.
#[derive(Debug, PartialEq)]
pub struct Field {
    pub key: &'static str,
    pub value: FieldValue,
}

impl View for Field {
    type V = (Seq<char>, FieldView);

    open spec fn view(&self) -> (Seq<char>, FieldView) {
        (self.key@, self.value@)
    }
}

pub open spec fn fields_view(fields: Seq<Field>) -> Seq<(Seq<char>, FieldView)> {
    fields.map_values(|field: Field| field@)
}

/// How severe a log event is, or how much detail a span adds.
#[derive(Clone, Copy, Debug, PartialEq, Eq, Structural)]
pub enum Level {
    Debug,
    Info,
    Warn,
}

/// A structured log event.
#[derive(Debug, PartialEq)]
pub struct LogEvent {
    pub level: Level,
    /// The event's target; without one it is the module that logs.
    pub target: Option<&'static str>,
    pub message: &'static str,
    pub fields: Vec<Field>,
}

#[verifier::ext_equal]
pub struct LogEventView {
    pub level: Level,
    pub target: Option<Seq<char>>,
    pub message: Seq<char>,
    pub fields: Seq<(Seq<char>, FieldView)>,
}

impl View for LogEvent {
    type V = LogEventView;

    open spec fn view(&self) -> LogEventView {
        LogEventView {
            level: self.level,
            target: self.target.deep_view(),
            message: self.message@,
            fields: fields_view(self.fields@),
        }
    }
}

/// What an instrument is given.
#[derive(Debug, PartialEq)]
pub enum Reading {
    /// A counter goes up by this much.
    Increment(u64),
    /// A histogram in milliseconds takes this elapsed time.
    Elapsed(Duration),
}

/// A metric attribute.
#[derive(Debug, PartialEq)]
pub struct Attribute {
    pub key: &'static str,
    pub value: String,
}

impl View for Attribute {
    type V = (Seq<char>, Seq<char>);

    open spec fn view(&self) -> (Seq<char>, Seq<char>) {
        (self.key@, self.value@)
    }
}

pub open spec fn attributes_view(attributes: Seq<Attribute>) -> Seq<(Seq<char>, Seq<char>)> {
    attributes.map_values(|attribute: Attribute| attribute@)
}

/// One reading of one metric instrument.
#[derive(Debug, PartialEq)]
pub struct Measurement {
    pub instrument: &'static str,
    pub reading: Reading,
    pub attributes: Vec<Attribute>,
}

#[verifier::ext_equal]
pub struct MeasurementView {
    pub instrument: Seq<char>,
    pub reading: Reading,
    pub attributes: Seq<(Seq<char>, Seq<char>)>,
}

impl View for Measurement {
    type V = MeasurementView;

    open spec fn view(&self) -> MeasurementView {
        MeasurementView {
            instrument: self.instrument@,
            reading: self.reading,
            attributes: attributes_view(self.attributes@),
        }
    }
}

/// One thing that has to happen on a span.
#[derive(Debug, PartialEq)]
pub enum Effect {
    /// Give a field a value.
    Record(Field),
    /// Log an event inside the span.
    Log(LogEvent),
    /// Take a metric reading.
    Measure(Measurement),
}

#[verifier::ext_equal]
pub enum EffectView {
    Record(Seq<char>, FieldView),
    Log(LogEventView),
    Measure(MeasurementView),
}

impl View for Effect {
    type V = EffectView;

    open spec fn view(&self) -> EffectView {
        match *self {
            Effect::Record(field) => EffectView::Record(field.key@, field.value@),
            Effect::Log(event) => EffectView::Log(event@),
            Effect::Measure(measurement) => EffectView::Measure(measurement@),
        }
    }
}

pub open spec fn effects_view(effects: Seq<Effect>) -> Seq<EffectView> {
    effects.map_values(|effect: Effect| effect@)
}

/// The remote span that a request continues.
#[derive(Debug, PartialEq)]
pub struct TraceParent {
    pub trace_id: u128,
    pub span_id: u64,
    /// Whether the remote side sampled the trace.
    pub sampled: bool,
    /// The vendor-specific trace state, as its header has it.
    pub trace_state: String,
}

#[verifier::ext_equal]
pub struct TraceParentView {
    pub trace_id: u128,
    pub span_id: u64,
    pub sampled: bool,
    pub trace_state: Seq<char>,
}

impl View for TraceParent {
    type V = TraceParentView;

    open spec fn view(&self) -> TraceParentView {
        TraceParentView {
            trace_id: self.trace_id,
            span_id: self.span_id,
            sampled: self.sampled,
            trace_state: self.trace_state@,
        }
    }
}

pub open spec fn names_view(names: Seq<&'static str>) -> Seq<Seq<char>> {
    names.map_values(|name: &'static str| name@)
}

/// A span: what it was made with, and what was emitted on it since.
#[derive(Debug, PartialEq)]
pub struct Span {
    pub level: Level,
    pub name: &'static str,
    pub target: &'static str,
    /// The names of all the fields that the span can ever hold. A span cannot grow field names
    /// once it is made: a write to any other name is lost.
    pub declared: Vec<&'static str>,
    /// The fields that got their value when the span was made.
    pub attributes: Vec<Field>,
    /// What was emitted since, in order.
    pub effects: Vec<Effect>,
    /// The remote span that this one continues.
    pub parent: Option<TraceParent>,
}

#[verifier::ext_equal]
pub struct SpanView {
    pub level: Level,
    pub name: Seq<char>,
    pub target: Seq<char>,
    pub declared: Seq<Seq<char>>,
    pub attributes: Seq<(Seq<char>, FieldView)>,
    pub effects: Seq<EffectView>,
    pub parent: Option<TraceParentView>,
}

impl View for Span {
    type V = SpanView;

    open spec fn view(&self) -> SpanView {
        SpanView {
            level: self.level,
            name: self.name@,
            target: self.target@,
            declared: names_view(self.declared@),
            attributes: fields_view(self.attributes@),
            effects: effects_view(self.effects@),
            parent: match self.parent {
                Some(parent) => Some(parent@),
                None => None,
            },
        }
    }
}

/// The value of the last of `fields` named `key`.
pub open spec fn last_field(fields: Seq<(Seq<char>, FieldView)>, key: Seq<char>) -> Option<
    FieldView,
>
    decreases fields.len(),
{
    if fields.len() == 0 {
        None
    } else if fields.last().0 == key {
        Some(fields.last().1)
    } else {
        last_field(fields.drop_last(), key)
    }
}

/// What the last of `effects` that writes `key` writes to it.
pub open spec fn last_record(effects: Seq<EffectView>, key: Seq<char>) -> Option<FieldView>
    decreases effects.len(),
{
    if effects.len() == 0 {
        None
    } else {
        match effects.last() {
            EffectView::Record(name, value) if name == key => Some(value),
            _ => last_record(effects.drop_last(), key),
        }
    }
}

impl SpanView {
    /// The span once `more` has been emitted on it.
    pub open spec fn emit(self, more: Seq<EffectView>) -> SpanView {
        SpanView { effects: self.effects + more, ..self }
    }

    /// What the span shows under `key`: the last value written to it, else the value that the
    /// span was made with, and nothing at all under a name that the span does not declare.
    pub open spec fn field(self, key: Seq<char>) -> Option<FieldView> {
        if !self.declared.contains(key) {
            None
        } else if last_record(self.effects, key) is Some {
            last_record(self.effects, key)
        } else {
            last_field(self.attributes, key)
        }
    }
}

/// Effects emitted one after the other are emitted as a whole.
pub proof fn emitted_in_turn(span: SpanView, first: Seq<EffectView>, then: Seq<EffectView>)
    ensures
        span.emit(first).emit(then) == span.emit(first + then),
{
    assert(span.effects + first + then =~= span.effects + (first + then));
}

/// Effects that write no field named `key`.
pub open spec fn leaves_alone(effects: Seq<EffectView>, key: Seq<char>) -> bool {
    forall|i: int|
        0 <= i < effects.len() ==> match #[trigger] effects[i] {
            EffectView::Record(name, _) => name != key,
            _ => true,
        }
}

/// Effects that write declared fields only, so that no write is lost.
pub open spec fn writes_only(effects: Seq<EffectView>, declared: Seq<Seq<char>>) -> bool {
    forall|i: int|
        0 <= i < effects.len() ==> match #[trigger] effects[i] {
            EffectView::Record(name, _) => declared.contains(name),
            _ => true,
        }
}

/// The later of two runs of effects decides what a field shows, if it writes the field at all.
pub proof fn later_record_wins(first: Seq<EffectView>, then: Seq<EffectView>, key: Seq<char>)
    ensures
        last_record(first + then, key) == (if last_record(then, key) is Some {
            last_record(then, key)
        } else {
            last_record(first, key)
        }),
    decreases then.len(),
{
    if then.len() == 0 {
        assert(first + then =~= first);
    } else {
        assert((first + then).drop_last() =~= first + then.drop_last());
        assert((first + then).last() == then.last());
        later_record_wins(first, then.drop_last(), key);
    }
}

/// Effects show nothing under a field exactly when they leave it alone.
pub proof fn unwritten_field_has_no_record(effects: Seq<EffectView>, key: Seq<char>)
    ensures
        last_record(effects, key) is None <==> leaves_alone(effects, key),
    decreases effects.len(),
{
    if effects.len() > 0 {
        let rest = effects.drop_last();
        unwritten_field_has_no_record(rest, key);
        assert(leaves_alone(effects, key) ==> leaves_alone(rest, key)) by {
            assert forall|i: int|
                leaves_alone(effects, key) && 0 <= i < rest.len() implies match #[trigger] rest[i] {
                EffectView::Record(name, _) => name != key,
                _ => true,
            } by {
                assert(rest[i] == effects[i]);
            }
        }
        assert(effects[effects.len() - 1] == effects.last());
        match effects.last() {
            EffectView::Record(name, _) if name == key => {},
            _ => {
                assert forall|i: int|
                    leaves_alone(rest, key) && 0 <= i < effects.len() implies match
                #[trigger] effects[i] {
                    EffectView::Record(name, _) => name != key,
                    _ => true,
                } by {
                    if i < rest.len() {
                        assert(rest[i] == effects[i]);
                    }
                }
            },
        }
    }
}

/// Emitting effects changes what a span shows under a declared field to what they last write to
/// it, and changes nothing where they leave it alone.
pub proof fn emitted_effects_decide(span: SpanView, more: Seq<EffectView>, key: Seq<char>)
    ensures
        span.declared.contains(key) && last_record(more, key) is Some ==> span.emit(more).field(key)
            == last_record(more, key),
        leaves_alone(more, key) ==> span.emit(more).field(key) == span.field(key),
{
    later_record_wins(span.effects, more, key);
    unwritten_field_has_no_record(more, key);
}

/// A span shows nothing under a name that it does not declare, whatever is emitted on it.
pub proof fn undeclared_field_is_lost(span: SpanView, more: Seq<EffectView>, key: Seq<char>)
    requires
        !span.declared.contains(key),
    ensures
        span.emit(more).field(key) is None,
{
}

/// The write of a string value.
pub open spec fn text_record(key: Seq<char>, value: Seq<char>) -> EffectView {
    EffectView::Record(key, FieldView::Text(value))
}

/// The write of a string value, where there is one.
pub open spec fn optional_record(key: Seq<char>, value: Option<Seq<char>>) -> Seq<EffectView> {
    match value {
        Some(text) => seq![text_record(key, text)],
        None => seq![],
    }
}

/// The write of a string value, where there is one and it is not empty.
pub open spec fn nonempty_record(key: Seq<char>, value: Option<Seq<char>>) -> Seq<EffectView> {
    match value {
        Some(text) if text.len() > 0 => seq![text_record(key, text)],
        _ => seq![],
    }
}

/// The write of one value under a generic key and under its Langfuse counterpart.
pub open spec fn pair_records(
    generic_key: Seq<char>,
    langfuse_key: Seq<char>,
    value: Seq<char>,
) -> Seq<EffectView> {
    seq![text_record(generic_key, value), text_record(langfuse_key, value)]
}

/// What a pair of writes shows: its value, under its two keys.
pub proof fn pair_shows_its_value(
    generic_key: Seq<char>,
    langfuse_key: Seq<char>,
    value: Seq<char>,
    key: Seq<char>,
)
    ensures
        last_record(pair_records(generic_key, langfuse_key, value), key) == (if key == generic_key
            || key == langfuse_key {
            Some(FieldView::Text(value))
        } else {
            None
        }),
{
    let records = pair_records(generic_key, langfuse_key, value);
    reveal_with_fuel(last_record, 3);
    assert(records.drop_last() =~= seq![text_record(generic_key, value)]);
    assert(records.drop_last().drop_last() =~= Seq::<EffectView>::empty());
}

/// What one write shows: its value, under its key.
pub proof fn single_record_shows_its_value(name: Seq<char>, value: FieldView, key: Seq<char>)
    ensures
        last_record(seq![EffectView::Record(name, value)], key) == (if key == name {
            Some(value)
        } else {
            None
        }),
{
    let records = seq![EffectView::Record(name, value)];
    reveal_with_fuel(last_record, 2);
    assert(records.drop_last() =~= Seq::<EffectView>::empty());
}

/// What an optional write shows: its value, under its key, where there is one.
pub proof fn optional_record_shows_its_value(
    name: Seq<char>,
    value: Option<Seq<char>>,
    key: Seq<char>,
)
    ensures
        last_record(optional_record(name, value), key) == (match value {
            Some(text) if key == name => Some(FieldView::Text(text)),
            _ => None,
        }),
{
    if let Some(text) = value {
        single_record_shows_its_value(name, FieldView::Text(text), key);
    }
}

/// What a write that leaves out the empty text shows: its value, under its key, where there is
/// one that is not empty.
pub proof fn nonempty_record_shows_its_value(
    name: Seq<char>,
    value: Option<Seq<char>>,
    key: Seq<char>,
)
    ensures
        last_record(nonempty_record(name, value), key) == (match value {
            Some(text) if key == name && text.len() > 0 => Some(FieldView::Text(text)),
            _ => None,
        }),
{
    if let Some(text) = value {
        single_record_shows_its_value(name, FieldView::Text(text), key);
    }
}

/// A string field.
pub fn text_field(key: &'static str, value: &str) -> (field: Field)
    ensures
        field@ == (key@, FieldView::Text(value@)),
{
    Field { key, value: FieldValue::Text(value.to_owned()) }
}

/// A field in its `Display` form.
pub fn display_field(key: &'static str, value: &str) -> (field: Field)
    ensures
        field@ == (key@, FieldView::Display(value@)),
{
    Field { key, value: FieldValue::Display(value.to_owned()) }
}

/// A metric attribute.
pub fn attribute(key: &'static str, value: &str) -> (made: Attribute)
    ensures
        made@ == (key@, value@),
{
    Attribute { key, value: value.to_owned() }
}

/// Copies a list of string pairs.
pub fn copy_entries(entries: &Vec<(String, String)>) -> (copy: Vec<(String, String)>)
    ensures
        entries_view(copy@) == entries_view(entries@),
{
    let mut copy: Vec<(String, String)> = Vec::new();
    for i in 0..entries.len()
        invariant
            entries_view(copy@) =~= entries_view(entries@).take(i as int),
    {
        let ghost before = entries_view(copy@);
        copy.push((entries[i].0.clone(), entries[i].1.clone()));
        assert(entries_view(copy@) =~= before.push((entries@[i as int].0@, entries@[i as int].1@)));
    }
    copy
}

impl Span {
    /// Emits one effect on the span.
    pub fn emit(&mut self, effect: Effect)
        ensures
            final(self)@ == old(self)@.emit(seq![effect@]),
    {
        self.effects.push(effect);
        assert(effects_view(self.effects@) =~= old(self)@.effects + seq![effect@]);
    }

    /// Writes a string value to a field.
    pub fn record(&mut self, key: &'static str, value: &str)
        ensures
            final(self)@ == old(self)@.emit(seq![text_record(key@, value@)]),
    {
        self.emit(Effect::Record(text_field(key, value)));
    }

    /// Writes a string value to a field, where there is a value.
    pub fn record_optional(&mut self, key: &'static str, value: Option<&str>)
        ensures
            final(self)@ == old(self)@.emit(optional_record(key@, value.deep_view())),
    {
        if let Some(text) = value {
            self.record(key, text);
        }
    }

    /// Writes a string value to a field, where there is a value and it is not empty.
    pub fn record_nonempty(&mut self, key: &'static str, value: Option<&str>)
        ensures
            final(self)@ == old(self)@.emit(nonempty_record(key@, value.deep_view())),
    {
        if let Some(text) = value {
            if !text.is_empty() {
                self.record(key, text);
            }
        }
    }

    /// What the span shows under a field name.
    pub fn get(&self, key: &str) -> (found: Option<&FieldValue>)
        ensures
            match found {
                Some(value) => self@.field(key@) == Some(value@),
                None => self@.field(key@) is None,
            },
    {
        if !self.declares(key) {
            return None;
        }
        let mut i: usize = self.effects.len();
        assert(self@.effects.take(i as int) =~= self@.effects);
        while i > 0
            invariant
                i <= self.effects@.len(),
                self@.declared.contains(key@),
                last_record(self@.effects, key@) == last_record(
                    self@.effects.take(i as int),
                    key@,
                ),
            decreases i,
        {
            assert(self@.effects.take(i as int).drop_last() =~= self@.effects.take(i - 1));
            assert(self@.effects.take(i as int).last() == self.effects@[i - 1]@);
            i = i - 1;
            if let Effect::Record(field) = &self.effects[i] {
                if same_text(field.key, key) {
                    return Some(&field.value);
                }
            }
        }
        let mut j: usize = self.attributes.len();
        assert(self@.attributes.take(j as int) =~= self@.attributes);
        while j > 0
            invariant
                j <= self.attributes@.len(),
                self@.declared.contains(key@),
                last_record(self@.effects, key@) is None,
                last_field(self@.attributes, key@) == last_field(
                    self@.attributes.take(j as int),
                    key@,
                ),
            decreases j,
        {
            assert(self@.attributes.take(j as int).drop_last() =~= self@.attributes.take(j - 1));
            assert(self@.attributes.take(j as int).last() == self.attributes@[j - 1]@);
            j = j - 1;
            if same_text(self.attributes[j].key, key) {
                return Some(&self.attributes[j].value);
            }
        }
        None
    }

    /// Tells whether the span can hold a field of this name.
    pub fn declares(&self, key: &str) -> (answer: bool)
        ensures
            answer == self@.declared.contains(key@),
    {
        for i in 0..self.declared.len()
            invariant
                forall|j: int| 0 <= j < i ==> (#[trigger] self@.declared[j]) != key@,
        {
            assert(self@.declared[i as int] == self.declared@[i as int]@);
            if same_text(self.declared[i], key) {
                return true;
            }
        }
        false
    }
}

/// Writes the same value to a generic key and its Langfuse observation metadata key.
pub fn record_pair(
    span: &mut Span,
    generic_key: &'static str,
    langfuse_key: &'static str,
    value: &str,
)
    ensures
        final(span)@ == old(span)@.emit(pair_records(generic_key@, langfuse_key@, value@)),
{
    span.record(generic_key, value);
    span.record(langfuse_key, value);
}

/// A field value is seen as it is: its form, and every text and number in it.
pub proof fn field_value_is_seen_whole(value: FieldValue)
    ensures
        match value {
            FieldValue::Text(text) => value@ == FieldView::Text(text@),
            FieldValue::Number(number) => value@ == FieldView::Number(number),
            FieldValue::Display(text) => value@ == FieldView::Display(text@),
            FieldValue::Debug(entries) => value@ matches FieldView::Debug(seen) && seen.len()
                == entries@.len() && forall|i: int|
                0 <= i < seen.len() ==> (#[trigger] seen[i]) == (entries@[i].0@, entries@[i].1@),
        },
{
}

/// A log event is seen as it is: its level, target and message, and each of its fields.
pub proof fn log_event_is_seen_whole(event: LogEvent)
    ensures
        event@.level == event.level,
        event.target matches Some(target) ==> event@.target == Some(target@),
        event.target is None ==> event@.target is None,
        event@.message == event.message@,
        event@.fields.len() == event.fields@.len(),
        forall|i: int|
            0 <= i < event.fields@.len() ==> (#[trigger] event@.fields[i]) == (
                event.fields@[i].key@,
                event.fields@[i].value@,
            ),
{
}

/// A metric reading is seen as it is: its instrument, its amount, and each of its attributes.
pub proof fn measurement_is_seen_whole(measurement: Measurement)
    ensures
        measurement@.instrument == measurement.instrument@,
        measurement@.reading == measurement.reading,
        measurement@.attributes.len() == measurement.attributes@.len(),
        forall|i: int|
            0 <= i < measurement.attributes@.len() ==> (#[trigger] measurement@.attributes[i]) == (
                measurement.attributes@[i].key@,
                measurement.attributes@[i].value@,
            ),
{
}

/// An effect is seen as it is: what is done, and with what.
pub proof fn effect_is_seen_whole(effect: Effect)
    ensures
        match effect {
            Effect::Record(field) => effect@ == EffectView::Record(field.key@, field.value@),
            Effect::Log(event) => effect@ == EffectView::Log(event@),
            Effect::Measure(measurement) => effect@ == EffectView::Measure(measurement@),
        },
{
}

/// A span is seen as it is: what it was made with, and every effect in its place.
pub proof fn span_is_seen_whole(span: Span)
    ensures
        span@.level == span.level,
        span@.name == span.name@,
        span@.target == span.target@,
        span@.declared.len() == span.declared@.len(),
        forall|i: int|
            0 <= i < span.declared@.len() ==> (#[trigger] span@.declared[i]) == span.declared@[i]@,
        span@.attributes.len() == span.attributes@.len(),
        forall|i: int|
            0 <= i < span.attributes@.len() ==> (#[trigger] span@.attributes[i]) == (
                span.attributes@[i].key@,
                span.attributes@[i].value@,
            ),
        span@.effects.len() == span.effects@.len(),
        forall|i: int|
            0 <= i < span.effects@.len() ==> (#[trigger] span@.effects[i]) == span.effects@[i]@,
        span.parent is None ==> span@.parent is None,
        span.parent matches Some(parent) ==> {
            &&& span@.parent is Some
            &&& span@.parent->0.trace_id == parent.trace_id
            &&& span@.parent->0.span_id == parent.span_id
            &&& span@.parent->0.sampled == parent.sampled
            &&& span@.parent->0.trace_state == parent.trace_state@
        },
{
}

/// An effect that writes a field of this name.
pub open spec fn writes_to(effect: EffectView, key: Seq<char>) -> bool {
    effect matches EffectView::Record(name, _) && name == key
}

/// A declared field shows the value of the last effect that writes it.
pub proof fn field_shows_its_last_write(span: SpanView, key: Seq<char>, value: FieldView, i: int)
    requires
        span.declared.contains(key),
        0 <= i < span.effects.len(),
        span.effects[i] == EffectView::Record(key, value),
        forall|j: int| i < j < span.effects.len() ==> !writes_to(#[trigger] span.effects[j], key),
    ensures
        span.field(key) == Some(value),
{
    let head = span.effects.take(i);
    let tail = span.effects.skip(i + 1);
    assert(span.effects =~= head + seq![EffectView::Record(key, value)] + tail);
    assert forall|j: int| 0 <= j < tail.len() implies match #[trigger] tail[j] {
        EffectView::Record(name, _) => name != key,
        _ => true,
    } by {
        assert(tail[j] == span.effects[i + 1 + j]);
        assert(!writes_to(span.effects[i + 1 + j], key));
    }
    unwritten_field_has_no_record(tail, key);
    single_record_shows_its_value(key, value, key);
    later_record_wins(head, seq![EffectView::Record(key, value)], key);
    later_record_wins(head + seq![EffectView::Record(key, value)], tail, key);
}

/// A declared field that no effect writes shows the value that the span was made with, the last
/// one if there are more, or nothing if there is none.
pub proof fn unwritten_field_shows_its_attribute(span: SpanView, key: Seq<char>)
    requires
        span.declared.contains(key),
        forall|j: int| 0 <= j < span.effects.len() ==> !writes_to(#[trigger] span.effects[j], key),
    ensures
        forall|i: int|
            0 <= i < span.attributes.len() && (#[trigger] span.attributes[i]).0 == key && (forall|
                j: int,
            |
                i < j < span.attributes.len() ==> (#[trigger] span.attributes[j]).0 != key)
                ==> span.field(key) == Some(span.attributes[i].1),
        (forall|j: int| 0 <= j < span.attributes.len() ==> (#[trigger] span.attributes[j]).0 != key)
            ==> span.field(key) is None,
{
    assert(leaves_alone(span.effects, key)) by {
        assert forall|j: int| 0 <= j < span.effects.len() implies match #[trigger] span.effects[j] {
            EffectView::Record(name, _) => name != key,
            _ => true,
        } by {
            assert(!writes_to(span.effects[j], key));
        }
    }
    unwritten_field_has_no_record(span.effects, key);
    lemma_last_field(span.attributes, key);
}

proof fn lemma_last_field(fields: Seq<(Seq<char>, FieldView)>, key: Seq<char>)
    ensures
        forall|i: int|
            0 <= i < fields.len() && (#[trigger] fields[i]).0 == key && (forall|j: int|
                i < j < fields.len() ==> (#[trigger] fields[j]).0 != key) ==> last_field(fields, key)
                == Some(fields[i].1),
        (forall|j: int| 0 <= j < fields.len() ==> (#[trigger] fields[j]).0 != key) ==> last_field(
            fields,
            key,
        ) is None,
    decreases fields.len(),
{
    if fields.len() > 0 {
        let rest = fields.drop_last();
        lemma_last_field(rest, key);
        assert(fields[fields.len() - 1] == fields.last());
        assert forall|i: int|
            0 <= i < fields.len() && (#[trigger] fields[i]).0 == key && (forall|j: int|
                i < j < fields.len() ==> (#[trigger] fields[j]).0 != key) implies last_field(
            fields,
            key,
        ) == Some(fields[i].1) by {
            if i < fields.len() - 1 {
                assert(fields[fields.len() - 1].0 != key);
                assert(rest[i] == fields[i]);
                assert forall|j: int| i < j < rest.len() implies (#[trigger] rest[j]).0 != key by {
                    assert(rest[j] == fields[j]);
                }
            }
        }
        if forall|j: int| 0 <= j < fields.len() ==> (#[trigger] fields[j]).0 != key {
            assert forall|j: int| 0 <= j < rest.len() implies (#[trigger] rest[j]).0 != key by {
                assert(rest[j] == fields[j]);
            }
        }
    }
}

/// What a caller of [`Span::get`] finds under a declared name that an effect writes: the value of
/// the last such effect. Under a name that the span does not declare nothing is found.
pub proof fn get_finds_the_last_write<'a>(
    span: &'a Span,
    key: &str,
    found: Option<&'a FieldValue>,
    field: Field,
    i: int,
)
    requires
        call_ensures(Span::get, (span, key), found),
    ensures
        (exists|d: int| 0 <= d < span.declared@.len() && (#[trigger] span.declared@[d])@ == key@)
            && 0 <= i < span.effects@.len() && span.effects@[i] == Effect::Record(field)
            && field.key@ == key@ && (forall|j: int|
            i < j < span.effects@.len() ==> !writes_to(
                (#[trigger] span.effects@[j])@,
                key@,
            )) ==> found is Some && found->0@ == field.value@,
        (forall|d: int| 0 <= d < span.declared@.len() ==> (#[trigger] span.declared@[d])@ != key@)
            ==> found is None,
{
    if (exists|d: int| 0 <= d < span.declared@.len() && (#[trigger] span.declared@[d])@ == key@)
        && 0 <= i < span.effects@.len() && span.effects@[i] == Effect::Record(field) && field.key@
        == key@ && (forall|j: int|
        i < j < span.effects@.len() ==> !writes_to((#[trigger] span.effects@[j])@, key@)) {
        let d = choose|d: int|
            0 <= d < span.declared@.len() && (#[trigger] span.declared@[d])@ == key@;
        assert(span@.declared[d] == key@);
        assert forall|j: int| i < j < span@.effects.len() implies !writes_to(
            #[trigger] span@.effects[j],
            key@,
        ) by {
            assert(span@.effects[j] == span.effects@[j]@);
        }
        field_shows_its_last_write(span@, key@, field.value@, i);
    }
    if forall|d: int| 0 <= d < span.declared@.len() ==> (#[trigger] span.declared@[d])@ != key@ {
        assert forall|d: int| 0 <= d < span@.declared.len() implies (#[trigger] span@.declared[d])
            != key@ by {
            assert(span@.declared[d] == span.declared@[d]@);
        }
    }
}

/// What was emitted between two states of a span.
pub open spec fn added(before: SpanView, after: SpanView) -> Seq<EffectView> {
    after.effects.skip(before.effects.len() as int)
}

/// One state of a span follows another by effects alone: what the span was made with is the same,
/// and what had been emitted stands in its place.
pub open spec fn only_adds(before: SpanView, after: SpanView) -> bool {
    &&& after.level == before.level
    &&& after.name == before.name
    &&& after.target == before.target
    &&& after.declared == before.declared
    &&& after.attributes == before.attributes
    &&& after.parent == before.parent
    &&& before.effects.len() <= after.effects.len()
    &&& forall|i: int|
        0 <= i < before.effects.len() ==> (#[trigger] after.effects[i]) == before.effects[i]
}

/// Emitting adds, and adds what is emitted.
pub proof fn emitting_only_adds(before: SpanView, more: Seq<EffectView>)
    ensures
        only_adds(before, before.emit(more)),
        added(before, before.emit(more)) == more,
{
    assert(added(before, before.emit(more)) =~= more);
}

/// The readings among effects, in order.
pub open spec fn readings(effects: Seq<EffectView>) -> Seq<MeasurementView>
    decreases effects.len(),
{
    if effects.len() == 0 {
        seq![]
    } else {
        match effects.last() {
            EffectView::Measure(measurement) => readings(effects.drop_last()).push(measurement),
            _ => readings(effects.drop_last()),
        }
    }
}

/// The log events among effects, in order.
pub open spec fn events(effects: Seq<EffectView>) -> Seq<LogEventView>
    decreases effects.len(),
{
    if effects.len() == 0 {
        seq![]
    } else {
        match effects.last() {
            EffectView::Log(event) => events(effects.drop_last()).push(event),
            _ => events(effects.drop_last()),
        }
    }
}

/// Effects that do nothing but write fields.
pub open spec fn all_write(effects: Seq<EffectView>) -> bool {
    forall|i: int| 0 <= i < effects.len() ==> (#[trigger] effects[i]) is Record
}

/// Effects that only write have no readings and no log events.
pub proof fn writes_measure_and_log_nothing(effects: Seq<EffectView>)
    requires
        all_write(effects),
    ensures
        readings(effects).len() == 0,
        events(effects).len() == 0,
    decreases effects.len(),
{
    if effects.len() > 0 {
        assert(effects[effects.len() - 1] is Record);
        assert(all_write(effects.drop_last())) by {
            assert forall|i: int| 0 <= i < effects.drop_last().len() implies (
            #[trigger] effects.drop_last()[i]) is Record by {
                assert(effects.drop_last()[i] == effects[i]);
            }
        }
        writes_measure_and_log_nothing(effects.drop_last());
    }
}

/// Writes followed by writes are writes.
pub proof fn writes_in_turn(first: Seq<EffectView>, then: Seq<EffectView>)
    requires
        all_write(first),
        all_write(then),
    ensures
        all_write(first + then),
{
    let effects = first + then;
    assert forall|i: int| 0 <= i < effects.len() implies (#[trigger] effects[i]) is Record by {
        if i < first.len() {
            assert(effects[i] == first[i]);
        } else {
            assert(effects[i] == then[i - first.len()]);
        }
    }
}

/// What one run of effects measures and logs, and then another, both do in turn.
pub proof fn readings_and_events_in_turn(first: Seq<EffectView>, then: Seq<EffectView>)
    ensures
        readings(first + then) == readings(first) + readings(then),
        events(first + then) == events(first) + events(then),
    decreases then.len(),
{
    if then.len() == 0 {
        assert(first + then =~= first);
        assert(readings(first) + readings(then) =~= readings(first));
        assert(events(first) + events(then) =~= events(first));
    } else {
        assert((first + then).drop_last() =~= first + then.drop_last());
        assert((first + then).last() == then.last());
        readings_and_events_in_turn(first, then.drop_last());
        let rest = then.drop_last();
        match then.last() {
            EffectView::Measure(measurement) => {
                assert((readings(first) + readings(rest)).push(measurement) =~= readings(first)
                    + readings(rest).push(measurement));
            },
            EffectView::Log(event) => {
                assert((events(first) + events(rest)).push(event) =~= events(first) + events(
                    rest,
                ).push(event));
            },
            _ => {},
        }
    }
}

/// [`Span::emit`] adds one effect, the one that it is given.
pub proof fn emit_adds_its_effect(span: &mut Span, effect: Effect)
    requires
        call_ensures(Span::emit, (span, effect), ()),
    ensures
        only_adds(old(span)@, final(span)@),
        added(old(span)@, final(span)@) == seq![effect@],
{
    emitting_only_adds(old(span)@, seq![effect@]);
}

/// [`Span::record`] adds one write, of the text that it is given to the field that it is given.
pub proof fn record_adds_its_write(span: &mut Span, key: &'static str, value: &str)
    requires
        call_ensures(Span::record, (span, key, value), ()),
    ensures
        only_adds(old(span)@, final(span)@),
        added(old(span)@, final(span)@) == seq![EffectView::Record(key@, FieldView::Text(value@))],
{
    emitting_only_adds(old(span)@, seq![EffectView::Record(key@, FieldView::Text(value@))]);
}

/// [`Span::record_optional`] adds one write exactly if there is a value, and of that value.
pub proof fn record_optional_writes_what_is_there(
    span: &mut Span,
    key: &'static str,
    value: Option<&str>,
)
    requires
        call_ensures(Span::record_optional, (span, key, value), ()),
    ensures
        only_adds(old(span)@, final(span)@),
        value matches Some(text) ==> added(old(span)@, final(span)@) == seq![
            EffectView::Record(key@, FieldView::Text(text@)),
        ],
        value is None ==> final(span)@ == old(span)@,
{
    emitting_only_adds(old(span)@, optional_record(key@, value.deep_view()));
}

/// [`Span::record_nonempty`] adds one write exactly if there is a value with text in it, and of
/// that value.
pub proof fn record_nonempty_writes_text_only(
    span: &mut Span,
    key: &'static str,
    value: Option<&str>,
)
    requires
        call_ensures(Span::record_nonempty, (span, key, value), ()),
    ensures
        only_adds(old(span)@, final(span)@),
        value is Some && value->0@.len() > 0 ==> added(old(span)@, final(span)@) == seq![
            EffectView::Record(key@, FieldView::Text(value->0@)),
        ],
        value is None || value->0@.len() == 0 ==> final(span)@ == old(span)@,
{
    emitting_only_adds(old(span)@, nonempty_record(key@, value.deep_view()));
}

/// [`record_pair`] writes one value under two names, and nothing else.
pub proof fn pair_is_written_under_both_names(
    span: &mut Span,
    generic_key: &'static str,
    langfuse_key: &'static str,
    value: &str,
)
    requires
        call_ensures(record_pair, (span, generic_key, langfuse_key, value), ()),
    ensures
        only_adds(old(span)@, final(span)@),
        added(old(span)@, final(span)@) == seq![
            EffectView::Record(generic_key@, FieldView::Text(value@)),
            EffectView::Record(langfuse_key@, FieldView::Text(value@)),
        ],
{
    emitting_only_adds(old(span)@, pair_records(generic_key@, langfuse_key@, value@));
}

/// Whoever finds nothing written to a declared name finds the value that the span was made with,
/// the last one if there are more, and nothing if there is none.
pub proof fn get_falls_back_to_the_attributes<'a>(
    span: &'a Span,
    key: &str,
    found: Option<&'a FieldValue>,
)
    requires
        call_ensures(Span::get, (span, key), found),
        exists|d: int| 0 <= d < span.declared@.len() && (#[trigger] span.declared@[d])@ == key@,
        forall|j: int|
            0 <= j < span.effects@.len() ==> !writes_to((#[trigger] span.effects@[j])@, key@),
    ensures
        forall|i: int|
            0 <= i < span.attributes@.len() && (#[trigger] span.attributes@[i]).key@ == key@ && (
            forall|j: int|
                i < j < span.attributes@.len() ==> (#[trigger] span.attributes@[j]).key@ != key@)
                ==> found is Some && found->0@ == span.attributes@[i].value@,
        (forall|j: int|
            0 <= j < span.attributes@.len() ==> (#[trigger] span.attributes@[j]).key@ != key@)
            ==> found is None,
{
    let d = choose|d: int| 0 <= d < span.declared@.len() && (#[trigger] span.declared@[d])@ == key@;
    assert(span@.declared[d] == key@);
    assert forall|j: int| 0 <= j < span@.effects.len() implies !writes_to(
        #[trigger] span@.effects[j],
        key@,
    ) by {
        assert(span@.effects[j] == span.effects@[j]@);
    }
    unwritten_field_shows_its_attribute(span@, key@);
    assert(forall|j: int|
        0 <= j < span.attributes@.len() ==> (#[trigger] span@.attributes[j]) == (
            span.attributes@[j].key@,
            span.attributes@[j].value@,
        ));
    assert forall|i: int|
        0 <= i < span.attributes@.len() && (#[trigger] span.attributes@[i]).key@ == key@ && (forall|
            j: int,
        |
            i < j < span.attributes@.len() ==> (#[trigger] span.attributes@[j]).key@ != key@)
        implies found is Some && found->0@ == span.attributes@[i].value@ by {
        assert(span@.attributes[i].0 == key@);
        assert forall|j: int| i < j < span@.attributes.len() implies (
        #[trigger] span@.attributes[j]).0 != key@ by {
            assert(span.attributes@[j].key@ != key@);
        }
    }
    if forall|j: int|
        0 <= j < span.attributes@.len() ==> (#[trigger] span.attributes@[j]).key@ != key@ {
        assert forall|j: int| 0 <= j < span@.attributes.len() implies (
        #[trigger] span@.attributes[j]).0 != key@ by {
            assert(span.attributes@[j].key@ != key@);
        }
    }
}

/// Whoever asks whether a span declares a name is told so exactly if it is among its names.
pub proof fn declared_names_are_told(span: &Span, key: &str, answer: bool)
    requires
        call_ensures(Span::declares, (span, key), answer),
    ensures
        answer <==> exists|d: int|
            0 <= d < span.declared@.len() && (#[trigger] span.declared@[d])@ == key@,
{
    if answer {
        let d = choose|d: int| 0 <= d < span@.declared.len() && span@.declared[d] == key@;
        assert(span.declared@[d]@ == key@);
    }
    if exists|d: int| 0 <= d < span.declared@.len() && (#[trigger] span.declared@[d])@ == key@ {
        let d = choose|d: int|
            0 <= d < span.declared@.len() && (#[trigger] span.declared@[d])@ == key@;
        assert(span@.declared[d] == key@);
    }
}

/// Fields and attributes hold the name and the text that they are made with, a field in the form
/// that was asked for.
pub proof fn made_values_hold_their_texts(
    key: &'static str,
    value: &str,
    text: Field,
    display: Field,
    made: Attribute,
)
    requires
        call_ensures(text_field, (key, value), text),
        call_ensures(display_field, (key, value), display),
        call_ensures(attribute, (key, value), made),
    ensures
        text.key@ == key@ && text.value is Text && text.value->Text_0@ == value@,
        display.key@ == key@ && display.value is Display && display.value->Display_0@ == value@,
        made.key@ == key@ && made.value@ == value@,
{
}

/// A copy of string pairs has the same pairs in the same places.
pub proof fn copied_pairs_are_the_same(
    entries: &Vec<(String, String)>,
    copy: Vec<(String, String)>,
)
    requires
        call_ensures(copy_entries, (entries,), copy),
    ensures
        copy@.len() == entries@.len(),
        forall|i: int|
            0 <= i < copy@.len() ==> (#[trigger] copy@[i]).0@ == entries@[i].0@ && copy@[i].1@
                == entries@[i].1@,
{
    assert(entries_view(copy@).len() == copy@.len());
    assert(entries_view(entries@).len() == entries@.len());
    assert forall|i: int| 0 <= i < copy@.len() implies (#[trigger] copy@[i]).0@ == entries@[i].0@
        && copy@[i].1@ == entries@[i].1@ by {
        assert(entries_view(copy@)[i] == (copy@[i].0@, copy@[i].1@));
        assert(entries_view(entries@)[i] == (entries@[i].0@, entries@[i].1@));
    }
}

} // verus!
