//! What the process environment decides: which signals are exported, under which service name,
//! and what is logged.

use opentelemetry_sdk::Resource;
use tracing_subscriber::EnvFilter;
use vstd::prelude::*;

use crate::outside::{are_plain, begins_no_directive, filter_text, is_cut, is_parsable};
use crate::outside::{is_plain_directive, is_safe_directive, named_resource, opens_bracket};
use crate::outside::{parse_filter, parsed_filter, resource_texts};
use crate::span::entries_view;
use crate::text::{blank, blank_text_trims_to_nothing, boundary, byte_len, chars_of};
use crate::text::{comma_bounds, comma_separated, equal_ignoring_ascii_case, is_blank};
use crate::text::{is_boundary, is_white_space, join, lemma_byte_len_step, lemma_first_piece};
use crate::text::{lemma_one_piece, lists, lists_item, same_ignoring_case, trim, trim_end};
use crate::text::{trim_start, trimmed_bounds, width};
use crate::text::{case_is_ignored_letter_by_letter, list_names_what_it_lists, names_item};
use crate::text::{same_letter, spells};

verus! {

/// What is logged where the environment does not say.
pub const DEFAULT_LOG_FILTER: &'static str = "info,opentelemetry=warn";

/// The service name where the environment does not give one.
pub const DEFAULT_SERVICE_NAME: &'static str = "switchyard-server";

/// The environment variables of the process that are text, by name. Of two with one name the
/// first counts.
pub struct Environment {
    pub vars: Vec<(String, String)>,
}

/// The value of the first of `vars` named `name`.
pub open spec fn first_value(vars: Seq<(Seq<char>, Seq<char>)>, name: Seq<char>) -> Option<
    Seq<char>,
>
    decreases vars.len(),
{
    if vars.len() == 0 {
        None
    } else if vars.first().0 == name {
        Some(vars.first().1)
    } else {
        first_value(vars.drop_first(), name)
    }
}

impl View for Environment {
    type V = Seq<(Seq<char>, Seq<char>)>;

    open spec fn view(&self) -> Seq<(Seq<char>, Seq<char>)> {
        entries_view(self.vars@)
    }
}

impl Environment {
    /// The value of a variable.
    pub fn var(&self, name: &str) -> (value: Option<&str>)
        ensures
            value.deep_view() == first_value(self@, name@),
    {
        let wanted: String = name.to_owned();
        assert(self@.skip(0) =~= self@);
        for i in 0..self.vars.len()
            invariant
                wanted@ == name@,
                first_value(self@, name@) == first_value(self@.skip(i as int), name@),
        {
            assert(self@.skip(i as int).first() == (self.vars@[i as int].0@, self.vars@[i as int].1@));
            assert(self@.skip(i as int).drop_first() =~= self@.skip(i + 1));
            if self.vars[i].0 == wanted {
                return Some(self.vars[i].1.as_str());
            }
        }
        None
    }
}

/// A value that switches something on.
pub open spec fn is_true(value: Option<Seq<char>>) -> bool {
    match value {
        Some(text) => equal_ignoring_ascii_case(text, "true"@) || equal_ignoring_ascii_case(
            text,
            "1"@,
        ),
        None => false,
    }
}

/// A value that says something.
pub open spec fn is_given(value: Option<Seq<char>>) -> bool {
    match value {
        Some(text) => !is_blank(text),
        None => false,
    }
}

/// The variable that names the exporters of a signal.
pub open spec fn exporter_variable(signal: Seq<char>) -> Seq<char> {
    "OTEL_"@ + signal + "_EXPORTER"@
}

/// The variable that gives the OTLP endpoint of a signal.
pub open spec fn endpoint_variable(signal: Seq<char>) -> Seq<char> {
    "OTEL_EXPORTER_OTLP_"@ + signal + "_ENDPOINT"@
}

/// A signal is exported over OTLP unless the SDK is disabled or the signal's exporters are given
/// and OTLP is not among them, and only to an endpoint that is given for all signals or for this
/// one.
pub open spec fn exports_otlp(vars: Seq<(Seq<char>, Seq<char>)>, signal: Seq<char>) -> bool {
    let exporters = first_value(vars, exporter_variable(signal));
    &&& !is_true(first_value(vars, "OTEL_SDK_DISABLED"@))
    &&& is_given(exporters) ==> lists_item(exporters->0, "otlp"@)
    &&& is_given(first_value(vars, "OTEL_EXPORTER_OTLP_ENDPOINT"@)) || is_given(
        first_value(vars, endpoint_variable(signal)),
    )
}

/// The service name that the environment gives, or the default.
pub open spec fn service_name_text(vars: Seq<(Seq<char>, Seq<char>)>) -> Seq<char> {
    let given = first_value(vars, "OTEL_SERVICE_NAME"@);
    if is_given(given) {
        given->0
    } else {
        DEFAULT_SERVICE_NAME@
    }
}

/// Tells whether a variable is set to `true`, in any case, or to `1`.
pub fn env_var_is_true(env: &Environment, name: &str) -> (answer: bool)
    ensures
        answer == is_true(first_value(env@, name@)),
{
    match env.var(name) {
        Some(value) => same_ignoring_case(value, "true") || same_ignoring_case(value, "1"),
        None => false,
    }
}

fn is_var_given(env: &Environment, name: &str) -> (answer: bool)
    ensures
        answer == is_given(first_value(env@, name@)),
{
    match env.var(name) {
        Some(value) => !blank(value),
        None => false,
    }
}

/// Tells whether a signal, such as `TRACES`, is exported over OTLP.
pub fn otlp_enabled(env: &Environment, signal: &str) -> (enabled: bool)
    ensures
        enabled == exports_otlp(env@, signal@),
{
    if env_var_is_true(env, "OTEL_SDK_DISABLED") {
        return false;
    }
    let exporter = join(join("OTEL_", signal).as_str(), "_EXPORTER");
    if let Some(exporters) = env.var(exporter.as_str()) {
        if !blank(exporters) && !lists(exporters, "otlp") {
            return false;
        }
    }
    let endpoint = join(join("OTEL_EXPORTER_OTLP_", signal).as_str(), "_ENDPOINT");
    is_var_given(env, "OTEL_EXPORTER_OTLP_ENDPOINT") || is_var_given(env, endpoint.as_str())
}

/// The name under which the service reports.
pub fn service_name(env: &Environment) -> (name: String)
    ensures
        name@ == service_name_text(env@),
{
    if let Some(value) = env.var("OTEL_SERVICE_NAME") {
        if !blank(value) {
            return value.to_owned();
        }
    }
    DEFAULT_SERVICE_NAME.to_owned()
}

/// What describes this process to a telemetry backend: a resource that carries the service name.
/// Its other attributes are those that the SDK detects.
pub fn resource(env: &Environment) -> (resource: Resource)
    ensures
        resource_texts(resource).contains_key("service.name"@),
        resource_texts(resource)["service.name"@] == service_name_text(env@),
{
    named_resource(service_name(env))
}

/// The filter that directives parsed to, or the report of why they did not.
pub fn checked_filter(parsed: Result<EnvFilter, String>) -> (filter: Result<EnvFilter, String>)
    ensures
        match parsed {
            Ok(made) => filter == Ok::<EnvFilter, String>(made),
            Err(error) => filter matches Err(text) && text@ == "invalid tracing filter: "@ + error@,
        },
{
    match parsed {
        Ok(made) => Ok(made),
        Err(error) => Err(join("invalid tracing filter: ", error.as_str())),
    }
}

/// What is logged where `RUST_LOG` has the text `rust_log` or, with `None`, no text: its
/// directives where it parses, else the default ones, or the report of why those do not parse.
pub open spec fn logged(rust_log: Option<Seq<char>>) -> Result<Seq<char>, Seq<char>> {
    if rust_log is Some && parsed_filter(rust_log->0) is Ok {
        parsed_filter(rust_log->0)
    } else {
        match parsed_filter(DEFAULT_LOG_FILTER@) {
            Ok(directives) => Ok(directives),
            Err(error) => Err("invalid tracing filter: "@ + error),
        }
    }
}

/// The directives of a filter, or the report of why there is none.
pub open spec fn filter_outcome(filter: Result<EnvFilter, String>) -> Result<
    Seq<char>,
    Seq<char>,
> {
    match filter {
        Ok(made) => Ok(filter_text(made)),
        Err(text) => Err(text@),
    }
}

/// Tells whether no directive begins with a character of ASCII.
fn begins_none(c: char) -> (answer: bool)
    ensures
        answer == begins_no_directive(c),
{
    let letter = ('a' <= c && c <= 'z') || ('A' <= c && c <= 'Z') || ('0' <= c && c <= '9');
    proof {
        let marks = seq!['-', ':', '_', '['];
        assert(marks[0] == '-' && marks[1] == ':' && marks[2] == '_' && marks[3] == '[');
    }
    (c as u32) < 128 && !letter && c != '-' && c != ':' && c != '_' && c != '['
}

/// Tells whether `chars[from..to]` is a directive that the parser of filters takes.
fn directive_safe(chars: &Vec<char>, from: usize, to: usize) -> (answer: bool)
    requires
        from <= to <= chars@.len(),
    ensures
        answer == is_safe_directive(chars@.subrange(from as int, to as int)),
{
    let (start, end) = trimmed_bounds(chars, from, to);
    let ghost directive = chars@.subrange(from as int, to as int);
    let ghost trimmed = trim(directive);
    if start < end && begins_none(chars[start]) {
        assert(trimmed[0] == chars@[start as int]);
        return true;
    }
    assert(start < end ==> trimmed[0] == chars@[start as int]);
    let mut offset: u128 = 0;
    let mut equals = false;
    let mut open = false;
    assert(trimmed.take(0) =~= Seq::<char>::empty());
    for i in start..end
        invariant
            from <= to <= chars@.len(),
            start <= end <= chars@.len(),
            directive == chars@.subrange(from as int, to as int),
            trimmed == chars@.subrange(start as int, end as int),
            trimmed == trim(directive),
            trimmed.len() > 0 ==> !begins_no_directive(trimmed[0]),
            offset == byte_len(trimmed.take(i - start)),
            offset <= 4 * (i - start),
            equals == exists|l: int| 0 <= l < i - start && (#[trigger] trimmed[l]) == '=',
            open == opens_bracket(trimmed, i - start),
            forall|n: int|
                0 <= n < i - start && #[trigger] is_cut(trimmed, n) ==> {
                    &&& is_boundary(directive, byte_len(trimmed.take(n)))
                    &&& trimmed[n] == ']' || trimmed[n] == '}' || is_boundary(
                        directive,
                        byte_len(trimmed.take(n + 1)),
                    )
                },
    {
        let c: char = chars[i];
        let ghost n = i - start;
        let next: u128 = offset + width(c);
        proof {
            assert(trimmed[n] == c);
            lemma_byte_len_step(trimmed, n);
            let marks = seq!['=', '[', ']', '{', '}'];
            assert(marks[0] == '=' && marks[1] == '[' && marks[2] == ']' && marks[3] == '{'
                && marks[4] == '}');
        }
        let first = !equals && !open && (c == '=' || c == '[');
        let inner = open && (c == '=' || c == '[' || c == ']' || c == '{' || c == '}');
        assert((first || inner) == is_cut(trimmed, n)) by {
            if !equals && !open {
                assert forall|m: int| 0 <= m < n implies (#[trigger] trimmed[m]) != '='
                    && trimmed[m] != '[' by {}
            }
        }
        if first || inner {
            if !boundary(chars, from, to, offset) {
                return false;
            }
            if c != ']' && c != '}' && !boundary(chars, from, to, next) {
                return false;
            }
        }
        open = open || (c == '[' && !equals);
        equals = equals || c == '=';
        offset = next;
    }
    true
}

/// Tells whether the parser of filters takes directives without panicking.
pub fn parsable(directives: &str) -> (answer: bool)
    ensures
        answer == is_parsable(directives@),
{
    let chars = chars_of(directives);
    let bounds = comma_bounds(&chars);
    let ghost pieces = comma_separated(directives@);
    for k in 0..bounds.len()
        invariant
            chars@ == directives@,
            pieces == comma_separated(directives@),
            bounds@.len() == pieces.len(),
            forall|j: int|
                0 <= j < bounds@.len() ==> (#[trigger] bounds@[j]).0 <= bounds@[j].1 <= chars@.len()
                    && chars@.subrange(bounds@[j].0 as int, bounds@[j].1 as int)
                    == pieces[bounds@.len() - 1 - j],
            forall|j: int|
                bounds@.len() - k <= j < bounds@.len() ==> is_safe_directive(#[trigger] pieces[j]),
    {
        let (from, to) = bounds[k];
        if !directive_safe(&chars, from, to) {
            assert(!is_safe_directive(pieces[bounds@.len() - 1 - k]));
            return false;
        }
    }
    true
}

/// A directive without whitespace around it is cut at its own characters.
proof fn lemma_trimmed_is_safe(directive: Seq<char>)
    requires
        directive.len() > 0,
        !is_white_space(directive[0]),
        !is_white_space(directive.last()),
    ensures
        is_safe_directive(directive),
{
    assert(trim_start(directive) == directive);
    assert(trim_end(directive) == directive);
}

/// The default directives are plain, and the parser of filters takes them.
proof fn lemma_default_directives()
    ensures
        is_parsable(DEFAULT_LOG_FILTER@),
        are_plain(DEFAULT_LOG_FILTER@),
{
    let level = "info"@;
    let target = "opentelemetry=warn"@;
    reveal_strlit("info,opentelemetry=warn");
    reveal_strlit("info");
    reveal_strlit("opentelemetry=warn");
    reveal_strlit("warn");
    assert(DEFAULT_LOG_FILTER@ =~= level + seq![','] + target);
    lemma_first_piece(level, target);
    lemma_one_piece(target);
    assert(comma_separated(DEFAULT_LOG_FILTER@) =~= seq![level, target]);
    lemma_trimmed_is_safe(level);
    lemma_trimmed_is_safe(target);
    assert(is_plain_directive(level, 0));
    assert(target.skip(14) =~= "warn"@);
    assert(is_plain_directive(target, 13));
}

/// What is logged, given the filter that the environment gives, if it gives one: that filter,
/// else the default.
pub fn log_filter_or_default(from_env: Option<EnvFilter>) -> (filter: Result<EnvFilter, String>)
    ensures
        from_env matches Some(given) ==> filter == Ok::<EnvFilter, String>(given),
        from_env is None ==> filter_outcome(filter) == logged(None),
        filter is Ok,
{
    match from_env {
        Some(given) => Ok(given),
        None => {
            proof {
                lemma_default_directives();
            }
            checked_filter(parse_filter(DEFAULT_LOG_FILTER))
        },
    }
}

/// What is logged: what `RUST_LOG` says, or the default where it is unset or does not parse. The
/// default parses, so there always is a filter.
pub fn log_filter(env: &Environment) -> (filter: Result<EnvFilter, String>)
    requires
        first_value(env@, "RUST_LOG"@) matches Some(text) ==> is_parsable(text),
    ensures
        filter_outcome(filter) == logged(first_value(env@, "RUST_LOG"@)),
        filter is Ok,
{
    match env.var("RUST_LOG") {
        Some(text) => match parse_filter(text) {
            Ok(given) => log_filter_or_default(Some(given)),
            Err(_) => log_filter_or_default(None),
        },
        None => log_filter_or_default(None),
    }
}

/// Where the SDK is disabled nothing is exported.
pub proof fn disabled_sdk_exports_nothing(vars: Seq<(Seq<char>, Seq<char>)>, signal: Seq<char>)
    requires
        is_true(first_value(vars, "OTEL_SDK_DISABLED"@)),
    ensures
        !exports_otlp(vars, signal),
{
}

/// A signal that has no endpoint, neither its own nor the common one, is not exported.
pub proof fn nothing_is_exported_without_endpoint(
    vars: Seq<(Seq<char>, Seq<char>)>,
    signal: Seq<char>,
)
    requires
        !is_given(first_value(vars, "OTEL_EXPORTER_OTLP_ENDPOINT"@)),
        !is_given(first_value(vars, endpoint_variable(signal))),
    ensures
        !exports_otlp(vars, signal),
{
}

/// Where the SDK is not disabled and an endpoint is given, a signal whose exporters are unset or
/// blank is exported, and one whose exporters are given is exported exactly if OTLP is one of
/// them.
pub proof fn exporters_decide(vars: Seq<(Seq<char>, Seq<char>)>, signal: Seq<char>)
    requires
        !is_true(first_value(vars, "OTEL_SDK_DISABLED"@)),
        is_given(first_value(vars, "OTEL_EXPORTER_OTLP_ENDPOINT"@)) || is_given(
            first_value(vars, endpoint_variable(signal)),
        ),
    ensures
        exports_otlp(vars, signal) <==> (match first_value(vars, exporter_variable(signal)) {
            Some(exporters) => trim(exporters).len() == 0 || lists_item(exporters, "otlp"@),
            None => true,
        }),
{
    if let Some(exporters) = first_value(vars, exporter_variable(signal)) {
        blank_text_trims_to_nothing(exporters);
    }
}

/// Whether a signal is exported depends on four variables only.
pub proof fn four_variables_decide(
    vars: Seq<(Seq<char>, Seq<char>)>,
    other: Seq<(Seq<char>, Seq<char>)>,
    signal: Seq<char>,
)
    requires
        first_value(vars, "OTEL_SDK_DISABLED"@) == first_value(other, "OTEL_SDK_DISABLED"@),
        first_value(vars, exporter_variable(signal)) == first_value(
            other,
            exporter_variable(signal),
        ),
        first_value(vars, "OTEL_EXPORTER_OTLP_ENDPOINT"@) == first_value(
            other,
            "OTEL_EXPORTER_OTLP_ENDPOINT"@,
        ),
        first_value(vars, endpoint_variable(signal)) == first_value(
            other,
            endpoint_variable(signal),
        ),
    ensures
        exports_otlp(vars, signal) == exports_otlp(other, signal),
{
}

/// The service always reports under a name that is not blank.
pub proof fn service_name_is_never_blank(vars: Seq<(Seq<char>, Seq<char>)>)
    ensures
        !is_blank(service_name_text(vars)),
{
    reveal_strlit("switchyard-server");
    assert(DEFAULT_SERVICE_NAME@[0] == 's');
}

/// The value of a variable among variables: that of the first of its name, or none.
pub open spec fn is_value(
    vars: Seq<(String, String)>,
    name: Seq<char>,
    value: Option<Seq<char>>,
) -> bool {
    match value {
        Some(text) => exists|i: int|
            0 <= i < vars.len() && (#[trigger] vars[i]).0@ == name && vars[i].1@ == text && forall|
                j: int,
            |
                0 <= j < i ==> (#[trigger] vars[j]).0@ != name,
        None => forall|i: int| 0 <= i < vars.len() ==> (#[trigger] vars[i]).0@ != name,
    }
}

/// The first value of a name among variables is the value of that variable.
pub proof fn first_value_is_the_value(env: Environment, name: Seq<char>, value: Option<Seq<char>>)
    ensures
        is_value(env.vars@, name, value) <==> first_value(env@, name) == value,
{
    lemma_first_value(env.vars@, env@, name);
    let found = first_value(env@, name);
    assert(is_value(env.vars@, name, found));
    if is_value(env.vars@, name, value) {
        match value {
            Some(text) => {
                let i = choose|i: int|
                    0 <= i < env.vars@.len() && (#[trigger] env.vars@[i]).0@ == name
                        && env.vars@[i].1@ == text && forall|j: int|
                        0 <= j < i ==> (#[trigger] env.vars@[j]).0@ != name;
                match found {
                    Some(other) => {
                        let k = choose|k: int|
                            0 <= k < env.vars@.len() && (#[trigger] env.vars@[k]).0@ == name
                                && env.vars@[k].1@ == other && forall|j: int|
                                0 <= j < k ==> (#[trigger] env.vars@[j]).0@ != name;
                        assert(i == k);
                    },
                    None => {
                        assert(env.vars@[i].0@ != name);
                    },
                }
            },
            None => {
                if let Some(other) = found {
                    let k = choose|k: int|
                        0 <= k < env.vars@.len() && (#[trigger] env.vars@[k]).0@ == name
                            && env.vars@[k].1@ == other && forall|j: int|
                            0 <= j < k ==> (#[trigger] env.vars@[j]).0@ != name;
                    assert(env.vars@[k].0@ != name);
                }
            },
        }
    }
}

proof fn lemma_first_value(
    vars: Seq<(String, String)>,
    seen: Seq<(Seq<char>, Seq<char>)>,
    name: Seq<char>,
)
    requires
        seen.len() == vars.len(),
        forall|i: int|
            0 <= i < vars.len() ==> (#[trigger] seen[i]) == (vars[i].0@, vars[i].1@),
    ensures
        is_value(vars, name, first_value(seen, name)),
    decreases vars.len(),
{
    if vars.len() > 0 {
        assert(seen[0] == (vars[0].0@, vars[0].1@));
        if vars[0].0@ == name {
            assert(first_value(seen, name) == Some(vars[0].1@));
        } else {
            let rest = vars.drop_first();
            let seen_rest = seen.drop_first();
            assert forall|i: int| 0 <= i < rest.len() implies (#[trigger] seen_rest[i]) == (
                rest[i].0@,
                rest[i].1@,
            ) by {
                assert(seen_rest[i] == seen[i + 1]);
            }
            lemma_first_value(rest, seen_rest, name);
            assert(first_value(seen, name) == first_value(seen_rest, name));
            match first_value(seen_rest, name) {
                Some(text) => {
                    let i = choose|i: int|
                        0 <= i < rest.len() && (#[trigger] rest[i]).0@ == name && rest[i].1@ == text
                            && forall|j: int| 0 <= j < i ==> (#[trigger] rest[j]).0@ != name;
                    assert(vars[i + 1] == rest[i]);
                    assert forall|j: int| 0 <= j < i + 1 implies (#[trigger] vars[j]).0@
                        != name by {
                        if j > 0 {
                            assert(vars[j] == rest[j - 1]);
                        }
                    }
                },
                None => {
                    assert forall|i: int| 0 <= i < vars.len() implies (#[trigger] vars[i]).0@
                        != name by {
                        if i > 0 {
                            assert(vars[i] == rest[i - 1]);
                        }
                    }
                },
            }
        }
    }
}

/// Whoever asks for a variable has the value of the first of its name, or nothing if there is
/// none of that name.
pub proof fn variable_has_its_first_value<'a>(
    env: &'a Environment,
    name: &str,
    value: Option<&'a str>,
)
    requires
        call_ensures(Environment::var, (env, name), value),
    ensures
        value matches Some(text) ==> is_value(env.vars@, name@, Some(text@)),
        value is None ==> is_value(env.vars@, name@, None),
{
    first_value_is_the_value(*env, name@, value.deep_view());
}

/// A value that is `true`, in letters of either case, or `1`.
pub open spec fn switches_on(value: Option<Seq<char>>) -> bool {
    value matches Some(text) && (spells(text, 0, text.len() as int, "true"@) || text == "1"@)
}

/// A value that has something besides whitespace in it.
pub open spec fn says_something(value: Option<Seq<char>>) -> bool {
    value matches Some(text) && exists|i: int|
        0 <= i < text.len() && !is_white_space(#[trigger] text[i])
}

proof fn lemma_is_true(value: Option<Seq<char>>)
    ensures
        is_true(value) <==> switches_on(value),
{
    if let Some(text) = value {
        case_is_ignored_letter_by_letter(text, "true"@);
        case_is_ignored_letter_by_letter(text, "1"@);
        reveal_strlit("1");
        if spells(text, 0, text.len() as int, "1"@) {
            assert(same_letter(text[0int + 0], "1"@[0]));
            assert(text =~= "1"@);
        }
    }
}

proof fn lemma_is_given(value: Option<Seq<char>>)
    ensures
        is_given(value) <==> says_something(value),
{
}

/// Whoever asks whether a variable is true is told so exactly if its value is `true`, in letters
/// of either case, or `1`.
pub proof fn variable_is_true_by_its_value(
    env: &Environment,
    name: &str,
    answer: bool,
    value: Option<Seq<char>>,
)
    requires
        call_ensures(env_var_is_true, (env, name), answer),
        is_value(env.vars@, name@, value),
    ensures
        answer <==> switches_on(value),
{
    first_value_is_the_value(*env, name@, value);
    lemma_is_true(value);
}

/// Whoever asks whether a signal is exported is told so exactly if the SDK is not disabled, the
/// exporters of this very signal say nothing or name `otlp`, and an endpoint is given for all
/// signals or for this very one. The variables of a signal have its name in theirs.
pub proof fn export_is_decided_by_the_variables_of_the_signal(
    env: &Environment,
    signal: &str,
    enabled: bool,
    disabled: Option<Seq<char>>,
    exporters: Option<Seq<char>>,
    endpoint: Option<Seq<char>>,
    own_endpoint: Option<Seq<char>>,
)
    requires
        call_ensures(otlp_enabled, (env, signal), enabled),
        is_value(env.vars@, "OTEL_SDK_DISABLED"@, disabled),
        is_value(env.vars@, "OTEL_"@ + signal@ + "_EXPORTER"@, exporters),
        is_value(env.vars@, "OTEL_EXPORTER_OTLP_ENDPOINT"@, endpoint),
        is_value(env.vars@, "OTEL_EXPORTER_OTLP_"@ + signal@ + "_ENDPOINT"@, own_endpoint),
    ensures
        enabled <==> {
            &&& !switches_on(disabled)
            &&& says_something(exporters) ==> names_item(exporters->0, "otlp"@)
            &&& says_something(endpoint) || says_something(own_endpoint)
        },
{
    first_value_is_the_value(*env, "OTEL_SDK_DISABLED"@, disabled);
    first_value_is_the_value(*env, "OTEL_"@ + signal@ + "_EXPORTER"@, exporters);
    first_value_is_the_value(*env, "OTEL_EXPORTER_OTLP_ENDPOINT"@, endpoint);
    first_value_is_the_value(
        *env,
        "OTEL_EXPORTER_OTLP_"@ + signal@ + "_ENDPOINT"@,
        own_endpoint,
    );
    lemma_is_true(disabled);
    lemma_is_given(exporters);
    lemma_is_given(endpoint);
    lemma_is_given(own_endpoint);
    if let Some(text) = exporters {
        list_names_what_it_lists(text, "otlp"@);
    }
}

/// Metrics are switched by `OTEL_METRICS_EXPORTER` and sent to what
/// `OTEL_EXPORTER_OTLP_METRICS_ENDPOINT` says.
pub proof fn metrics_have_variables_of_their_own(
    env: &Environment,
    signal: &str,
    enabled: bool,
    disabled: Option<Seq<char>>,
    exporters: Option<Seq<char>>,
    endpoint: Option<Seq<char>>,
    own_endpoint: Option<Seq<char>>,
)
    requires
        call_ensures(otlp_enabled, (env, signal), enabled),
        signal@ == "METRICS"@,
        is_value(env.vars@, "OTEL_SDK_DISABLED"@, disabled),
        is_value(env.vars@, "OTEL_METRICS_EXPORTER"@, exporters),
        is_value(env.vars@, "OTEL_EXPORTER_OTLP_ENDPOINT"@, endpoint),
        is_value(env.vars@, "OTEL_EXPORTER_OTLP_METRICS_ENDPOINT"@, own_endpoint),
    ensures
        enabled <==> {
            &&& !switches_on(disabled)
            &&& says_something(exporters) ==> names_item(exporters->0, "otlp"@)
            &&& says_something(endpoint) || says_something(own_endpoint)
        },
{
    reveal_strlit("OTEL_");
    reveal_strlit("METRICS");
    reveal_strlit("_EXPORTER");
    reveal_strlit("_ENDPOINT");
    reveal_strlit("OTEL_EXPORTER_OTLP_");
    reveal_strlit("OTEL_METRICS_EXPORTER");
    reveal_strlit("OTEL_EXPORTER_OTLP_METRICS_ENDPOINT");
    assert("OTEL_"@ + "METRICS"@ + "_EXPORTER"@ =~= "OTEL_METRICS_EXPORTER"@);
    assert("OTEL_EXPORTER_OTLP_"@ + "METRICS"@ + "_ENDPOINT"@
        =~= "OTEL_EXPORTER_OTLP_METRICS_ENDPOINT"@);
    export_is_decided_by_the_variables_of_the_signal(
        env,
        signal,
        enabled,
        disabled,
        exporters,
        endpoint,
        own_endpoint,
    );
}

/// Traces are switched by `OTEL_TRACES_EXPORTER` and sent to what
/// `OTEL_EXPORTER_OTLP_TRACES_ENDPOINT` says.
pub proof fn traces_have_variables_of_their_own(
    env: &Environment,
    signal: &str,
    enabled: bool,
    disabled: Option<Seq<char>>,
    exporters: Option<Seq<char>>,
    endpoint: Option<Seq<char>>,
    own_endpoint: Option<Seq<char>>,
)
    requires
        call_ensures(otlp_enabled, (env, signal), enabled),
        signal@ == "TRACES"@,
        is_value(env.vars@, "OTEL_SDK_DISABLED"@, disabled),
        is_value(env.vars@, "OTEL_TRACES_EXPORTER"@, exporters),
        is_value(env.vars@, "OTEL_EXPORTER_OTLP_ENDPOINT"@, endpoint),
        is_value(env.vars@, "OTEL_EXPORTER_OTLP_TRACES_ENDPOINT"@, own_endpoint),
    ensures
        enabled <==> {
            &&& !switches_on(disabled)
            &&& says_something(exporters) ==> names_item(exporters->0, "otlp"@)
            &&& says_something(endpoint) || says_something(own_endpoint)
        },
{
    reveal_strlit("OTEL_");
    reveal_strlit("TRACES");
    reveal_strlit("_EXPORTER");
    reveal_strlit("_ENDPOINT");
    reveal_strlit("OTEL_EXPORTER_OTLP_");
    reveal_strlit("OTEL_TRACES_EXPORTER");
    reveal_strlit("OTEL_EXPORTER_OTLP_TRACES_ENDPOINT");
    assert("OTEL_"@ + "TRACES"@ + "_EXPORTER"@ =~= "OTEL_TRACES_EXPORTER"@);
    assert("OTEL_EXPORTER_OTLP_"@ + "TRACES"@ + "_ENDPOINT"@
        =~= "OTEL_EXPORTER_OTLP_TRACES_ENDPOINT"@);
    export_is_decided_by_the_variables_of_the_signal(
        env,
        signal,
        enabled,
        disabled,
        exporters,
        endpoint,
        own_endpoint,
    );
}

/// Two signals share no variable: their exporters and their endpoints have different names, and
/// no exporter variable is an endpoint variable.
pub proof fn signals_share_no_variable(signal: Seq<char>, other: Seq<char>)
    ensures
        signal != other ==> exporter_variable(signal) != exporter_variable(other),
        signal != other ==> endpoint_variable(signal) != endpoint_variable(other),
        exporter_variable(signal) != endpoint_variable(other),
        exporter_variable(signal).len() == signal.len() + 14,
        endpoint_variable(signal).len() == signal.len() + 28,
{
    reveal_strlit("OTEL_");
    reveal_strlit("_EXPORTER");
    reveal_strlit("_ENDPOINT");
    reveal_strlit("OTEL_EXPORTER_OTLP_");
    let exporter = exporter_variable(signal);
    let endpoint = endpoint_variable(signal);
    let other_exporter = exporter_variable(other);
    let other_endpoint = endpoint_variable(other);
    assert(signal =~= exporter.subrange(5, 5 + signal.len() as int));
    assert(other =~= other_exporter.subrange(5, 5 + other.len() as int));
    assert(signal =~= endpoint.subrange(19, 19 + signal.len() as int));
    assert(other =~= other_endpoint.subrange(19, 19 + other.len() as int));
    assert(exporter[exporter.len() - 1] == 'R');
    assert(other_endpoint[other_endpoint.len() - 1] == 'T');
}

/// Whoever asks for the service name has the value of `OTEL_SERVICE_NAME` if that says something,
/// as it is, and else `switchyard-server`.
pub proof fn service_is_named_by_its_variable(
    env: &Environment,
    name: String,
    value: Option<Seq<char>>,
)
    requires
        call_ensures(service_name, (env,), name),
        is_value(env.vars@, "OTEL_SERVICE_NAME"@, value),
    ensures
        says_something(value) ==> name@ == value->0,
        !says_something(value) ==> name@ == "switchyard-server"@,
{
    first_value_is_the_value(*env, "OTEL_SERVICE_NAME"@, value);
    lemma_is_given(value);
}

/// Whoever asks for the resource has one under the service name.
pub proof fn resource_is_named_as_the_service(
    env: &Environment,
    name: String,
    described: Resource,
)
    requires
        call_ensures(service_name, (env,), name),
        call_ensures(resource, (env,), described),
    ensures
        resource_texts(described).contains_key("service.name"@),
        resource_texts(described)["service.name"@] == name@,
{
}

/// Whoever asks for the log filter has one: of the directives in `RUST_LOG` if they parse, and
/// else of `info,opentelemetry=warn`.
pub proof fn log_filter_is_of_its_variable(
    env: &Environment,
    filter: Result<EnvFilter, String>,
    value: Option<Seq<char>>,
)
    requires
        call_ensures(log_filter, (env,), filter),
        is_value(env.vars@, "RUST_LOG"@, value),
    ensures
        filter is Ok,
        value is Some && parsed_filter(value->0) is Ok ==> filter_text(filter->Ok_0)
            == parsed_filter(value->0)->Ok_0,
        value is None || parsed_filter(value->0) is Err ==> parsed_filter(
            "info,opentelemetry=warn"@,
        ) == Ok::<Seq<char>, Seq<char>>(filter_text(filter->Ok_0)),
{
    first_value_is_the_value(*env, "RUST_LOG"@, value);
}

/// A filter that is given is taken as it is, and in place of one that is not given stands that of
/// `info,opentelemetry=warn`.
pub proof fn given_filter_is_taken(
    from_env: Option<EnvFilter>,
    filter: Result<EnvFilter, String>,
)
    requires
        call_ensures(log_filter_or_default, (from_env,), filter),
    ensures
        filter is Ok,
        from_env is Some ==> filter->Ok_0 == from_env->0,
        from_env is None ==> parsed_filter("info,opentelemetry=warn"@) == Ok::<
            Seq<char>,
            Seq<char>,
        >(filter_text(filter->Ok_0)),
{
}

/// A filter that parsed is taken as it is, and the error of one that did not is reported as it is
/// behind `invalid tracing filter: `.
pub proof fn parse_error_is_reported(
    parsed: Result<EnvFilter, String>,
    filter: Result<EnvFilter, String>,
)
    requires
        call_ensures(checked_filter, (parsed,), filter),
    ensures
        parsed is Ok <==> filter is Ok,
        parsed is Ok ==> filter->Ok_0 == parsed->Ok_0,
        parsed is Err ==> filter->Err_0@ == "invalid tracing filter: "@ + parsed->Err_0@,
{
}

} // verus!
