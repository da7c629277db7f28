//! The W3C Trace Context of an incoming request.

use axum::http::{HeaderMap, HeaderValue};
use vstd::prelude::*;

use crate::outside::{all_visible, ascii_text, extract_w3c, header_get, header_keys};
use crate::outside::{header_lookup, header_names, header_text, is_header_name};
use crate::outside::{is_header_name_char, is_tracestate};
use crate::outside::{is_traceparent, traceparent_span_id, traceparent_trace_id, w3c_context};
use crate::span::{entries_view, TraceParent, TraceParentView};
use crate::text::{ascii_lowercase, byte_len, case_is_ignored_letter_by_letter};
use crate::text::{same_letter, spells};

verus! {

/// The text of the first header under a name, where there is one and it is visible text.
pub open spec fn visible_header(headers: HeaderMap<HeaderValue>, key: Seq<char>) -> Option<
    Seq<char>,
> {
    if header_lookup(headers).contains_key(key) && all_visible(header_lookup(headers)[key]) {
        Some(ascii_text(header_lookup(headers)[key]))
    } else {
        None
    }
}

/// A carrier's entry for a header, where it has text.
pub open spec fn carrier_entry(headers: HeaderMap<HeaderValue>, key: Seq<char>) -> Seq<
    (Seq<char>, Seq<char>),
> {
    match visible_header(headers, key) {
        Some(text) => seq![(key, text)],
        None => seq![],
    }
}

/// The two headers of the W3C Trace Context, as far as they have text.
pub open spec fn carrier_view(headers: HeaderMap<HeaderValue>) -> Seq<(Seq<char>, Seq<char>)> {
    carrier_entry(headers, "traceparent"@) + carrier_entry(headers, "tracestate"@)
}

/// The remote span that the headers of a request name.
pub open spec fn remote_parent(headers: HeaderMap<HeaderValue>) -> Option<TraceParentView> {
    match w3c_context(carrier_view(headers)) {
        Some((trace_id, span_id, sampled, trace_state)) => Some(
            TraceParentView { trace_id, span_id, sampled, trace_state },
        ),
        None => None,
    }
}

/// The parent that a request has to have: none without a `traceparent` header that is visible
/// text, and the span that it names where that text is well formed, with a well-formed
/// `tracestate` kept as it is.
pub open spec fn continues_trace(
    headers: HeaderMap<HeaderValue>,
    parent: Option<TraceParentView>,
) -> bool {
    match visible_header(headers, "traceparent"@) {
        None => parent is None,
        Some(text) => is_traceparent(text) ==> {
            &&& parent is Some
            &&& parent->0.trace_id as nat == traceparent_trace_id(text)
            &&& parent->0.span_id as nat == traceparent_span_id(text)
            &&& parent->0.sampled == (text[54] == '1')
            &&& match visible_header(headers, "tracestate"@) {
                None => parent->0.trace_state.len() == 0,
                Some(state) => is_tracestate(state) ==> parent->0.trace_state == state,
            }
        },
    }
}

/// The names in a list.
pub open spec fn listed(names: Seq<&str>) -> Set<Seq<char>> {
    names.map_values(|name: &str| name@).to_set()
}

/// Reads headers as a text map.
pub struct HeaderExtractor<'a> {
    pub headers: &'a HeaderMap<HeaderValue>,
}

impl<'a> HeaderExtractor<'a> {
    /// The text of the first header under a name, where there is one and it is visible text. The
    /// case of a header name does not matter.
    pub fn get(&self, key: &str) -> (text: Option<&'a str>)
        ensures
            text.deep_view() == visible_header(*self.headers, key@),
            header_lookup(*self.headers).contains_key(key@) && all_visible(
                header_lookup(*self.headers)[key@],
            ) ==> text is Some && text->0@ == ascii_text(header_lookup(*self.headers)[key@]),
            is_header_name(key@) ==> text.deep_view() == visible_header(
                *self.headers,
                ascii_lowercase(key@),
            ),
            is_header_name(key@) ==> (header_keys(*self.headers).contains(ascii_lowercase(key@))
                <==> header_lookup(*self.headers).contains_key(ascii_lowercase(key@))),
            !is_header_name(key@) && (byte_len(key@) <= 64 || byte_len(key@) > 65535)
                ==> text is None,
    {
        match header_get(self.headers, key) {
            Some(value) => header_text(value),
            None => None,
        }
    }

    /// The names of the headers, each once and without capital letters.
    pub fn keys(&self) -> (names: Vec<&'a str>)
        ensures
            header_keys(*self.headers) == listed(names@),
            forall|i: int, j: int|
                0 <= i < j < names@.len() ==> (#[trigger] names@[i])@ != (#[trigger] names@[j])@,
            forall|name: Seq<char>| #[trigger]
                header_keys(*self.headers).contains(name) <==> exists|i: int|
                    0 <= i < names@.len() && (#[trigger] names@[i])@ == name,
            forall|i: int|
                0 <= i < names@.len() ==> ascii_lowercase((#[trigger] names@[i])@) == names@[i]@,
            forall|i: int|
                0 <= i < names@.len() && is_header_name((#[trigger] names@[i])@) ==> header_lookup(
                    *self.headers,
                ).contains_key(names@[i]@),
            forall|name: Seq<char>|
                is_header_name(name) && ascii_lowercase(name) == name ==> ((
                #[trigger] header_lookup(*self.headers).contains_key(name)) <==> exists|i: int|
                    0 <= i < names@.len() && (#[trigger] names@[i])@ == name),
    {
        let names = header_names(self.headers);
        proof {
            let held = header_keys(*self.headers);
            let texts = names@.map_values(|name: &str| name@);
            assert forall|name: Seq<char>| #[trigger] held.contains(name) <==> listed(
                names@,
            ).contains(name) by {
                if held.contains(name) {
                    let i = choose|i: int| 0 <= i < names@.len() && (#[trigger] names@[i])@ == name;
                    assert(texts[i] == name);
                }
                if listed(names@).contains(name) {
                    let i = choose|i: int| 0 <= i < texts.len() && texts[i] == name;
                    assert(names@[i]@ == name);
                }
            }
            assert(held =~= listed(names@));
        }
        names
    }

    /// The two headers of the W3C Trace Context, as far as they have text.
    pub fn carrier(&self) -> (carrier: Vec<(String, String)>)
        ensures
            entries_view(carrier@) == carrier_view(*self.headers),
    {
        let mut carrier: Vec<(String, String)> = Vec::new();
        if let Some(text) = self.get("traceparent") {
            carrier.push(("traceparent".to_owned(), text.to_owned()));
        }
        assert(entries_view(carrier@) =~= carrier_entry(*self.headers, "traceparent"@));
        let ghost first = carrier@;
        if let Some(text) = self.get("tracestate") {
            carrier.push(("tracestate".to_owned(), text.to_owned()));
            assert(entries_view(carrier@) =~= entries_view(first).push(("tracestate"@, text@)));
        }
        assert(entries_view(carrier@) =~= carrier_view(*self.headers));
        carrier
    }
}

/// The remote span of what was extracted, where it is valid.
pub fn valid_parent(extracted: (bool, TraceParent)) -> (parent: Option<TraceParent>)
    ensures
        parent == (if extracted.0 {
            Some(extracted.1)
        } else {
            None
        }),
{
    if extracted.0 {
        Some(extracted.1)
    } else {
        None
    }
}

/// The remote span that the headers of a request name.
pub fn incoming_parent(headers: &HeaderMap<HeaderValue>) -> (parent: Option<TraceParent>)
    ensures
        match parent {
            Some(parent) => remote_parent(*headers) == Some(parent@),
            None => remote_parent(*headers) is None,
        },
        continues_trace(*headers, remote_parent(*headers)),
{
    let extractor = HeaderExtractor { headers };
    let carrier = extractor.carrier();
    proof {
        reveal_strlit("traceparent");
        reveal_strlit("tracestate");
        assert("tracestate"@.len() != "traceparent"@.len());
        let entries = carrier_view(*headers);
        assert(entries_view(carrier@).len() == carrier@.len());
        assert forall|i: int| 0 <= i < carrier@.len() implies (#[trigger] carrier@[i]).0@
            == entries[i].0 && carrier@[i].1@ == entries[i].1 by {
            assert(entries_view(carrier@)[i] == (carrier@[i].0@, carrier@[i].1@));
        }
        if visible_header(*headers, "traceparent"@) is Some {
            assert(carrier@[0].0@ == "traceparent"@);
        }
        if visible_header(*headers, "tracestate"@) is Some {
            assert(carrier@[carrier@.len() - 1].0@ == "tracestate"@);
        }
    }
    valid_parent(extract_w3c(carrier))
}

/// Whoever looks a name up has text exactly if the map finds a value under it whose bytes are all
/// visible, and then the text of those bytes.
pub proof fn visible_value_is_found_as_it_is<'a>(
    extractor: &HeaderExtractor<'a>,
    key: &str,
    text: Option<&'a str>,
)
    requires
        call_ensures(HeaderExtractor::<'a>::get, (extractor, key), text),
    ensures
        ({
            let found = header_lookup(*extractor.headers);
            &&& text is Some <==> found.contains_key(key@) && all_visible(found[key@])
            &&& text is Some ==> text->0@ == ascii_text(found[key@])
        }),
{
}

/// Whoever looks up two header names that differ in case alone has the same under both.
pub proof fn case_of_a_header_name_does_not_matter<'a>(
    extractor: &HeaderExtractor<'a>,
    key: &str,
    other: &str,
    text: Option<&'a str>,
    other_text: Option<&'a str>,
)
    requires
        is_header_name(key@),
        spells(key@, 0, key@.len() as int, other@),
        call_ensures(HeaderExtractor::<'a>::get, (extractor, key), text),
        call_ensures(HeaderExtractor::<'a>::get, (extractor, other), other_text),
    ensures
        text is Some <==> other_text is Some,
        text is Some ==> text->0@ == other_text->0@,
{
    case_is_ignored_letter_by_letter(key@, other@);
    assert(is_header_name(other@)) by {
        assert forall|i: int| 0 <= i < other@.len() implies is_header_name_char(
            #[trigger] other@[i],
        ) by {
            assert(same_letter(key@[0 + i], other@[i]));
            assert(is_header_name_char(key@[i]));
        }
    }
}

/// Whoever lists the names has each name of the map once, and can look up each that is a header
/// name.
pub proof fn names_are_those_of_the_map<'a>(
    extractor: &HeaderExtractor<'a>,
    names: Vec<&'a str>,
    name: Seq<char>,
)
    requires
        call_ensures(HeaderExtractor::<'a>::keys, (extractor,), names),
    ensures
        header_keys(*extractor.headers).contains(name) <==> exists|i: int|
            0 <= i < names@.len() && (#[trigger] names@[i])@ == name,
        forall|i: int, j: int|
            0 <= i < j < names@.len() ==> (#[trigger] names@[i])@ != (#[trigger] names@[j])@,
        forall|i: int|
            0 <= i < names@.len() && is_header_name((#[trigger] names@[i])@) ==> header_lookup(
                *extractor.headers,
            ).contains_key(names@[i]@),
{
    let held = header_keys(*extractor.headers);
    let texts = names@.map_values(|name: &str| name@);
    assert(held == texts.to_set());
    if held.contains(name) {
        let i = choose|i: int| 0 <= i < texts.len() && texts[i] == name;
        assert(names@[i]@ == name);
    }
    if exists|i: int| 0 <= i < names@.len() && (#[trigger] names@[i])@ == name {
        let i = choose|i: int| 0 <= i < names@.len() && (#[trigger] names@[i])@ == name;
        assert(texts[i] == name);
    }
}

/// Whoever takes the carrier has the text of the `traceparent` header under that name, and of the
/// `tracestate` header under its own, each exactly if it has text, and nothing else.
pub proof fn carrier_has_the_two_headers<'a>(
    extractor: &HeaderExtractor<'a>,
    carrier: Vec<(String, String)>,
)
    requires
        call_ensures(HeaderExtractor::<'a>::carrier, (extractor,), carrier),
    ensures
        ({
            let found = header_lookup(*extractor.headers);
            let given = found.contains_key("traceparent"@) && all_visible(found["traceparent"@]);
            let stated = found.contains_key("tracestate"@) && all_visible(found["tracestate"@]);
            let n = carrier@.len();
            &&& n == (if given {
                1int
            } else {
                0
            }) + (if stated {
                1int
            } else {
                0
            })
            &&& given ==> carrier@[0].0@ == "traceparent"@ && carrier@[0].1@ == ascii_text(
                found["traceparent"@],
            )
            &&& stated ==> carrier@[n - 1].0@ == "tracestate"@ && carrier@[n - 1].1@ == ascii_text(
                found["tracestate"@],
            )
        }),
{
    let seen = entries_view(carrier@);
    assert(seen.len() == carrier@.len());
    assert(forall|i: int|
        0 <= i < seen.len() ==> (#[trigger] seen[i]) == (carrier@[i].0@, carrier@[i].1@));
    assert(seen == carrier_view(*extractor.headers));
    if seen.len() > 0 {
        assert(seen[0] == (carrier@[0].0@, carrier@[0].1@));
        let last = seen.len() - 1;
        assert(seen[last] == (carrier@[last].0@, carrier@[last].1@));
    }
}

/// Whoever asks for the remote span of a request has it exactly as a well-formed `traceparent`
/// header names it, with a well-formed `tracestate` header as it is, and has none where there is
/// no `traceparent` header that is text.
pub proof fn remote_span_is_the_one_named(
    headers: &HeaderMap<HeaderValue>,
    parent: Option<TraceParent>,
)
    requires
        call_ensures(incoming_parent, (headers,), parent),
    ensures
        ({
            let found = header_lookup(*headers);
            let text = ascii_text(found["traceparent"@]);
            let state = ascii_text(found["tracestate"@]);
            let given = found.contains_key("traceparent"@) && all_visible(found["traceparent"@]);
            let stated = found.contains_key("tracestate"@) && all_visible(found["tracestate"@]);
            &&& !given ==> parent is None
            &&& given && is_traceparent(text) ==> {
                &&& parent is Some
                &&& parent->0.trace_id as nat == traceparent_trace_id(text)
                &&& parent->0.span_id as nat == traceparent_span_id(text)
                &&& parent->0.sampled <==> text[54] == '1'
                &&& !stated ==> parent->0.trace_state@.len() == 0
                &&& stated && is_tracestate(state) ==> parent->0.trace_state@ == state
            }
        }),
{
}

/// Whoever sorts out what was extracted keeps it exactly if it is valid, and as it is.
pub proof fn valid_parent_is_kept(extracted: (bool, TraceParent), parent: Option<TraceParent>)
    requires
        call_ensures(valid_parent, (extracted,), parent),
    ensures
        parent is Some <==> extracted.0,
        parent is Some ==> parent->0 == extracted.1,
{
}

/// The headers of the W3C Trace Context as they are handed on: each that has text, under its name.
pub open spec fn handed_on(headers: HeaderMap<HeaderValue>) -> Seq<(Seq<char>, Seq<char>)> {
    let found = header_lookup(headers);
    let given = found.contains_key("traceparent"@) && all_visible(found["traceparent"@]);
    let stated = found.contains_key("tracestate"@) && all_visible(found["tracestate"@]);
    (if given {
        seq![("traceparent"@, ascii_text(found["traceparent"@]))]
    } else {
        seq![]
    }) + (if stated {
        seq![("tracestate"@, ascii_text(found["tracestate"@]))]
    } else {
        seq![]
    })
}

/// Whoever asks for the remote span of a request, whatever its headers say, has exactly what the
/// propagator makes of the two headers: nothing is added to it, and nothing is held back.
pub proof fn remote_span_is_what_was_extracted(
    headers: &HeaderMap<HeaderValue>,
    parent: Option<TraceParent>,
)
    requires
        call_ensures(incoming_parent, (headers,), parent),
    ensures
        w3c_context(handed_on(*headers)) == (match parent {
            Some(remote) => Some(
                (remote.trace_id, remote.span_id, remote.sampled, remote.trace_state@),
            ),
            None => None,
        }),
{
    assert(carrier_view(*headers) =~= handed_on(*headers));
}

} // verus!
