//! What the library takes from outside crates: the types it carries, and the calls it makes.

use axum::http::{HeaderMap, HeaderValue};
use opentelemetry::propagation::TextMapPropagator;
use opentelemetry::trace::TraceContextExt;
use opentelemetry::Context;
use opentelemetry_sdk::propagation::TraceContextPropagator;
use opentelemetry_sdk::Resource;
use serde_json::Value;
use std::collections::HashMap;
use tracing_subscriber::EnvFilter;
use vstd::prelude::*;

use crate::span::{entries_view, TraceParent};
use crate::text::{ascii_lowercase, byte_len, comma_separated, is_ascii, is_boundary, trim};

verus! {

/// A JSON value.
#[verifier::external_type_specification]
#[verifier::external_body]
pub struct ExValue(serde_json::Value);

/// Why a value has no JSON text.
#[verifier::external_type_specification]
#[verifier::external_body]
pub struct ExJsonError(serde_json::Error);

/// The JSON text of an array of values, or nothing where they have none.
pub uninterp spec fn json_array_text(values: Seq<Value>) -> Option<Seq<char>>;

/// Calls `serde_json::to_string` on a list of JSON values. The result is a function of the
/// values alone.
#[verifier::external_body]
pub(crate) fn json_array(values: &Vec<Value>) -> (result: Result<String, serde_json::Error>)
    ensures
        match result {
            Ok(text) => json_array_text(values@) == Some(text@),
            Err(_) => json_array_text(values@) is None,
        },
{
    serde_json::to_string(values)
}

/// A map of HTTP headers.
#[verifier::external_type_specification]
#[verifier::external_body]
#[verifier::reject_recursive_types(T)]
pub struct ExHeaderMap<T>(axum::http::HeaderMap<T>);

/// The value of an HTTP header.
#[verifier::external_type_specification]
#[verifier::external_body]
pub struct ExHeaderValue(axum::http::HeaderValue);

/// The bytes of the first value that a header map holds under a name, for every text under
/// which the map finds one.
pub uninterp spec fn header_lookup(headers: HeaderMap<HeaderValue>) -> Map<Seq<char>, Seq<u8>>;

/// The names of the headers that a header map holds.
pub uninterp spec fn header_keys(headers: HeaderMap<HeaderValue>) -> Set<Seq<char>>;

/// The bytes of a header value.
pub uninterp spec fn header_bytes(value: HeaderValue) -> Seq<u8>;

/// A character that may stand in a header name.
pub open spec fn is_header_name_char(c: char) -> bool {
    ||| 'a' <= c <= 'z'
    ||| 'A' <= c <= 'Z'
    ||| '0' <= c <= '9'
    ||| seq!['!', '#', '$', '%', '&', '\'', '*', '+', '-', '.', '^', '_', '`', '|', '~'].contains(c)
}

/// A text that can be looked up as a header name, in letters of either case.
pub open spec fn is_header_name(name: Seq<char>) -> bool {
    &&& 1 <= name.len() <= 65535
    &&& forall|i: int| 0 <= i < name.len() ==> is_header_name_char(#[trigger] name[i])
}

/// A byte that a header value shows as text: printable ASCII, or a tab.
pub open spec fn is_visible(byte: u8) -> bool {
    32 <= byte < 127 || byte == 9
}

/// Bytes that a header value shows as text.
pub open spec fn all_visible(bytes: Seq<u8>) -> bool {
    forall|i: int| 0 <= i < bytes.len() ==> is_visible(#[trigger] bytes[i])
}

/// The text of ASCII bytes.
pub open spec fn ascii_text(bytes: Seq<u8>) -> Seq<char> {
    bytes.map_values(|byte: u8| byte as char)
}

/// Calls `HeaderMap::get` with a text. It finds the first value under that name; for a header
/// name it is the value under the name in small letters, which is there exactly if the map holds
/// a header of that name. It finds nothing under a text of up to 64 bytes, or of more than 65535,
/// that is no header name: a map can hold a name with a quotation mark in it, and `get` does not
/// find that one. What other texts find is left unsaid.
#[verifier::external_body]
pub(crate) fn header_get<'a>(headers: &'a HeaderMap<HeaderValue>, key: &str) -> (found: Option<
    &'a HeaderValue,
>)
    ensures
        match found {
            Some(value) => header_lookup(*headers).contains_key(key@) && header_bytes(*value)
                == header_lookup(*headers)[key@],
            None => !header_lookup(*headers).contains_key(key@),
        },
        is_header_name(key@) ==> match found {
            Some(value) => header_lookup(*headers).contains_key(ascii_lowercase(key@))
                && header_bytes(*value) == header_lookup(*headers)[ascii_lowercase(key@)],
            None => !header_lookup(*headers).contains_key(ascii_lowercase(key@)),
        },
        is_header_name(key@) ==> (found is Some <==> header_keys(*headers).contains(
            ascii_lowercase(key@),
        )),
        !is_header_name(key@) && (byte_len(key@) <= 64 || byte_len(key@) > 65535) ==> found is None,
{
    headers.get(key)
}

/// Calls `HeaderMap::keys` and gives the names as texts. They are the names of the headers that
/// the map holds, each of them once, in no particular order and without capital letters. A header
/// name without capital letters can be looked up exactly if it is among them.
#[verifier::external_body]
pub(crate) fn header_names<'a>(headers: &'a HeaderMap<HeaderValue>) -> (names: Vec<&'a str>)
    ensures
        forall|i: int, j: int|
            0 <= i < j < names@.len() ==> (#[trigger] names@[i])@ != (#[trigger] names@[j])@,
        forall|name: Seq<char>| #[trigger]
            header_keys(*headers).contains(name) <==> exists|i: int|
                0 <= i < names@.len() && (#[trigger] names@[i])@ == name,
        forall|i: int|
            0 <= i < names@.len() ==> ascii_lowercase((#[trigger] names@[i])@) == names@[i]@,
        forall|name: Seq<char>|
            is_header_name(name) && ascii_lowercase(name) == name ==> ((
            #[trigger] header_lookup(*headers).contains_key(name)) <==> exists|i: int|
                0 <= i < names@.len() && (#[trigger] names@[i])@ == name),
{
    headers.keys().map(|name| name.as_str()).collect()
}

/// Calls `HeaderValue::to_str`. It gives the value as text exactly where all its bytes are
/// visible.
#[verifier::external_body]
pub(crate) fn header_text<'a>(value: &'a HeaderValue) -> (text: Option<&'a str>)
    ensures
        match text {
            Some(text) => all_visible(header_bytes(*value)) && text@ == ascii_text(
                header_bytes(*value),
            ),
            None => !all_visible(header_bytes(*value)),
        },
{
    value.to_str().ok()
}

/// The remote span that a W3C Trace Context carrier names: its trace id, its span id, whether it
/// was sampled, and its trace state.
pub uninterp spec fn w3c_context(carrier: Seq<(Seq<char>, Seq<char>)>) -> Option<
    (u128, u64, bool, Seq<char>),
>;

/// The value of a hexadecimal digit.
pub open spec fn hex_digit(c: char) -> nat {
    if '0' <= c <= '9' {
        (c as nat - '0' as nat) as nat
    } else {
        (c as nat - 'a' as nat + 10) as nat
    }
}

/// A text of small hexadecimal digits.
pub open spec fn is_small_hex(s: Seq<char>) -> bool {
    forall|i: int|
        0 <= i < s.len() ==> '0' <= (#[trigger] s[i]) <= '9' || 'a' <= s[i] <= 'f'
}

/// The number that hexadecimal digits write.
pub open spec fn hex_value(s: Seq<char>) -> nat
    decreases s.len(),
{
    if s.len() == 0 {
        0
    } else {
        hex_value(s.drop_last()) * 16 + hex_digit(s.last())
    }
}

/// The trace id in a well-formed `traceparent`.
pub open spec fn traceparent_trace_id(text: Seq<char>) -> nat {
    hex_value(text.subrange(3, 35))
}

/// The span id in a well-formed `traceparent`.
pub open spec fn traceparent_span_id(text: Seq<char>) -> nat {
    hex_value(text.subrange(36, 52))
}

/// A `traceparent` of the first version: `00`, a trace id of 32 small hexadecimal digits, a span
/// id of 16, neither of them zero, and `00` or `01`, with hyphens in between.
pub open spec fn is_traceparent(text: Seq<char>) -> bool {
    &&& text.len() == 55
    &&& text[0] == '0' && text[1] == '0' && text[2] == '-'
    &&& is_small_hex(text.subrange(3, 35)) && traceparent_trace_id(text) > 0
    &&& text[35] == '-'
    &&& is_small_hex(text.subrange(36, 52)) && traceparent_span_id(text) > 0
    &&& text[52] == '-' && text[53] == '0' && (text[54] == '0' || text[54] == '1')
}

/// A small letter or a digit.
pub open spec fn is_small_or_digit(c: char) -> bool {
    'a' <= c <= 'z' || '0' <= c <= '9'
}

/// A key in a `tracestate`: up to 256 small letters, digits and `_`, `-`, `*`, `/`, of which the
/// first is a letter or a digit. One `@` may stand before the last 13 characters or fewer, of
/// which again the first is a letter or a digit.
pub open spec fn is_tracestate_key(key: Seq<char>) -> bool {
    &&& key.len() <= 256
    &&& key.len() > 0 ==> is_small_or_digit(key[0])
    &&& forall|i: int|
        0 <= i < key.len() ==> {
            ||| is_small_or_digit(#[trigger] key[i])
            ||| seq!['_', '-', '*', '/'].contains(key[i])
            ||| {
                &&& key[i] == '@' && key.len() <= i + 14
                &&& i + 1 < key.len() ==> is_small_or_digit(key[i + 1])
                &&& forall|j: int| 0 <= j < key.len() && j != i ==> (#[trigger] key[j]) != '@'
            }
        }
}

/// A member of a `tracestate`: a key, an equals sign at `split`, and a value of up to 256 bytes
/// without another equals sign.
pub open spec fn is_tracestate_member(member: Seq<char>, split: int) -> bool {
    &&& 0 <= split < member.len() && member[split] == '='
    &&& is_tracestate_key(member.take(split))
    &&& byte_len(member.skip(split + 1)) <= 256
    &&& forall|i: int| split < i < member.len() ==> (#[trigger] member[i]) != '='
}

/// A `tracestate`: members with commas in between.
pub open spec fn is_tracestate(text: Seq<char>) -> bool {
    forall|k: int|
        0 <= k < comma_separated(text).len() ==> exists|split: int| #[trigger]
            is_tracestate_member(#[trigger] comma_separated(text)[k], split)
}

/// Calls `TraceContextPropagator::extract_with_context` on an empty context, with the carrier as
/// a map of texts, and reads off the span context that comes back. That is a function of the
/// carrier alone. There is none where the carrier has no `traceparent`; a well-formed
/// `traceparent` gives its ids and whether it was sampled; without a `tracestate` the trace state
/// is empty, and a well-formed `tracestate` beside a valid `traceparent` is kept as it is. The
/// flag says whether the span context is valid.
#[verifier::external_body]
pub(crate) fn extract_w3c(carrier: Vec<(String, String)>) -> (extracted: (bool, TraceParent))
    ensures
        w3c_context(entries_view(carrier@)) == (if extracted.0 {
            Some(
                (
                    extracted.1.trace_id,
                    extracted.1.span_id,
                    extracted.1.sampled,
                    extracted.1.trace_state@,
                ),
            )
        } else {
            None
        }),
        (forall|i: int| 0 <= i < carrier@.len() ==> (#[trigger] carrier@[i]).0@ != "traceparent"@)
            ==> !extracted.0,
        forall|i: int|
            0 <= i < carrier@.len() && (#[trigger] carrier@[i]).0@ == "traceparent"@
                && is_traceparent(carrier@[i].1@) && (forall|j: int|
                i < j < carrier@.len() ==> (#[trigger] carrier@[j]).0@ != "traceparent"@) ==> {
                &&& extracted.0
                &&& extracted.1.trace_id as nat == traceparent_trace_id(carrier@[i].1@)
                &&& extracted.1.span_id as nat == traceparent_span_id(carrier@[i].1@)
                &&& extracted.1.sampled == (carrier@[i].1@[54] == '1')
            },
        (forall|i: int| 0 <= i < carrier@.len() ==> (#[trigger] carrier@[i]).0@ != "tracestate"@)
            ==> extracted.1.trace_state@.len() == 0,
        forall|i: int|
            extracted.0 && 0 <= i < carrier@.len() && (#[trigger] carrier@[i]).0@ == "tracestate"@
                && is_tracestate(carrier@[i].1@) && (forall|j: int|
                i < j < carrier@.len() ==> (#[trigger] carrier@[j]).0@ != "tracestate"@)
                ==> extracted.1.trace_state@ == carrier@[i].1@,
{
    let carrier: HashMap<String, String> = carrier.into_iter().collect();
    let context = TraceContextPropagator::new().extract_with_context(&Context::new(), &carrier);
    let span_context = context.span().span_context().clone();
    let parent = TraceParent {
        trace_id: u128::from_be_bytes(span_context.trace_id().to_bytes()),
        span_id: u64::from_be_bytes(span_context.span_id().to_bytes()),
        sampled: span_context.is_sampled(),
        trace_state: span_context.trace_state().header(),
    };
    (span_context.is_valid(), parent)
}

/// What describes the process that telemetry comes from.
#[verifier::external_type_specification]
#[verifier::external_body]
pub struct ExResource(opentelemetry_sdk::Resource);

/// The attributes of a resource that have a string value.
pub uninterp spec fn resource_texts(resource: Resource) -> Map<Seq<char>, Seq<char>>;

/// Calls `Resource::builder`, `with_service_name` and `build`. Whatever the detectors of the
/// builder found, the service name that was given is the one that stands; the other attributes
/// depend on the environment and on the SDK.
#[verifier::external_body]
pub(crate) fn named_resource(service_name: String) -> (resource: Resource)
    ensures
        resource_texts(resource).contains_key("service.name"@),
        resource_texts(resource)["service.name"@] == service_name@,
{
    Resource::builder().with_service_name(service_name).build()
}

/// A filter of spans and events.
#[verifier::external_type_specification]
#[verifier::external_body]
pub struct ExEnvFilter(tracing_subscriber::EnvFilter);

/// The directives of a filter, as the filter displays them.
pub uninterp spec fn filter_text(filter: EnvFilter) -> Seq<char>;

/// What a text of directives parses to: the directives of the filter, as it displays them, or
/// the text of the error.
pub uninterp spec fn parsed_filter(directives: Seq<char>) -> Result<Seq<char>, Seq<char>>;

/// An ASCII character with which no directive begins, so that the parser of filters stops there.
pub open spec fn begins_no_directive(c: char) -> bool {
    &&& is_ascii(c)
    &&& !('a' <= c <= 'z' || 'A' <= c <= 'Z' || '0' <= c <= '9')
    &&& !seq!['-', ':', '_', '['].contains(c)
}

/// The characters of a directive before `n` have a bracket, and no equals sign before it.
pub open spec fn opens_bracket(directive: Seq<char>, n: int) -> bool {
    exists|m: int|
        0 <= m < n && (#[trigger] directive[m]) == '[' && forall|l: int|
            0 <= l < m ==> (#[trigger] directive[l]) != '='
}

/// The parser of filters may cut a directive at its character `n`: the first equals sign or
/// bracket, or, once a bracket is open, any equals sign, bracket or brace.
pub open spec fn is_cut(directive: Seq<char>, n: int) -> bool {
    ||| {
        &&& directive[n] == '=' || directive[n] == '['
        &&& forall|m: int|
            0 <= m < n ==> (#[trigger] directive[m]) != '=' && directive[m] != '['
    }
    ||| opens_bracket(directive, n) && seq!['=', '[', ']', '{', '}'].contains(directive[n])
}

/// A directive that the parser of filters takes without panicking. The parser finds its way in
/// the text without the whitespace around it, and cuts the text with it, before a cut character
/// and, unless that closes something, behind it. No cut may fall into the middle of a character
/// of the text with the whitespace, which it can do where whitespace comes first.
pub open spec fn is_safe_directive(directive: Seq<char>) -> bool {
    let trimmed = trim(directive);
    ||| trimmed.len() > 0 && begins_no_directive(trimmed[0])
    ||| forall|n: int|
        0 <= n < trimmed.len() && #[trigger] is_cut(trimmed, n) ==> {
            &&& is_boundary(directive, byte_len(trimmed.take(n)))
            &&& trimmed[n] == ']' || trimmed[n] == '}' || is_boundary(
                directive,
                byte_len(trimmed.take(n + 1)),
            )
        }
}

/// Directives, separated by commas, that the parser of filters takes without panicking.
pub open spec fn is_parsable(directives: Seq<char>) -> bool {
    forall|i: int|
        0 <= i < comma_separated(directives).len() ==> is_safe_directive(
            #[trigger] comma_separated(directives)[i],
        )
}

/// A name of small letters.
pub open spec fn is_plain_name(name: Seq<char>) -> bool {
    name.len() > 0 && forall|i: int| 0 <= i < name.len() ==> 'a' <= (#[trigger] name[i]) <= 'z'
}

/// The name of a level.
pub open spec fn is_level_name(name: Seq<char>) -> bool {
    ||| name == "off"@
    ||| name == "error"@
    ||| name == "warn"@
    ||| name == "info"@
    ||| name == "debug"@
    ||| name == "trace"@
}

/// A directive that is a plain name, or one with a level behind an equals sign at `split`.
pub open spec fn is_plain_directive(directive: Seq<char>, split: int) -> bool {
    ||| is_plain_name(directive)
    ||| {
        &&& 0 < split < directive.len() && directive[split] == '='
        &&& is_plain_name(directive.take(split)) && is_level_name(directive.skip(split + 1))
    }
}

/// Plain directives, separated by commas.
pub open spec fn are_plain(directives: Seq<char>) -> bool {
    forall|k: int|
        0 <= k < comma_separated(directives).len() ==> exists|split: int| #[trigger]
            is_plain_directive(#[trigger] comma_separated(directives)[k], split)
}

/// Calls `EnvFilter::try_new`. Whether the directives parse, which filter they make and what the
/// error says are functions of the directives alone. Plain directives parse.
#[verifier::external_body]
pub(crate) fn parse_filter(directives: &str) -> (parsed: Result<EnvFilter, String>)
    requires
        is_parsable(directives@),
    ensures
        match parsed {
            Ok(filter) => parsed_filter(directives@) == Ok::<Seq<char>, Seq<char>>(
                filter_text(filter),
            ),
            Err(error) => parsed_filter(directives@) == Err::<Seq<char>, Seq<char>>(error@),
        },
        are_plain(directives@) ==> parsed is Ok,
{
    EnvFilter::try_new(directives).map_err(|error| error.to_string())
}

} // verus!
