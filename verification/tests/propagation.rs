use axum::http::{HeaderMap, HeaderName, HeaderValue};
use switchyard_observability::propagation::{incoming_parent, valid_parent, HeaderExtractor};
use switchyard_observability::root::request_span;
use switchyard_observability::span::TraceParent;

const TRACEPARENT: &str = "00-4bf92f3577b34da6a3ce929d0e0e4736-00f067aa0ba902b7-01";

#[test]
fn request_span_continues_incoming_w3c_trace_context() {
    let mut headers = HeaderMap::new();
    headers.insert(
        "traceparent",
        HeaderValue::from_static("00-4bf92f3577b34da6a3ce929d0e0e4736-00f067aa0ba902b7-01"),
    );
    headers.insert(
        "tracestate",
        HeaderValue::from_static("vendor=opaque-value"),
    );

    let span = request_span(&headers);
    let parent = span.parent.expect("no parent");
    assert_eq!(
        format!("{:032x}", parent.trace_id),
        "4bf92f3577b34da6a3ce929d0e0e4736"
    );
    assert_eq!(parent.trace_state, "vendor=opaque-value");
    assert_eq!(format!("{:016x}", parent.span_id), "00f067aa0ba902b7");
    assert!(parent.sampled);
}

#[test]
fn no_traceparent_means_no_parent() {
    let mut headers = HeaderMap::new();
    headers.insert("tracestate", HeaderValue::from_static("a=b"));
    assert_eq!(incoming_parent(&headers), None);
    assert_eq!(incoming_parent(&HeaderMap::new()), None);
}

#[test]
fn malformed_traceparent_means_no_parent() {
    for value in [
        "garbage",
        "00-4bf92f3577b34da6a3ce929d0e0e4736-00f067aa0ba902b7",
        "00-4BF92F3577B34DA6A3CE929D0E0E4736-00f067aa0ba902b7-01",
        "00-00000000000000000000000000000000-00f067aa0ba902b7-01",
        "00-4bf92f3577b34da6a3ce929d0e0e4736-0000000000000000-01",
    ] {
        let mut headers = HeaderMap::new();
        headers.insert("traceparent", HeaderValue::from_static(value));
        assert_eq!(incoming_parent(&headers), None, "{value}");
    }
}

#[test]
fn unsampled_parent_without_state() {
    let mut headers = HeaderMap::new();
    headers.insert(
        "traceparent",
        HeaderValue::from_static("00-4bf92f3577b34da6a3ce929d0e0e4736-00f067aa0ba902b7-00"),
    );
    let parent = incoming_parent(&headers).expect("no parent");
    assert_eq!(parent.trace_id, 0x4bf92f3577b34da6a3ce929d0e0e4736);
    assert_eq!(parent.span_id, 0x00f067aa0ba902b7);
    assert!(!parent.sampled);
    assert_eq!(parent.trace_state, "");
}

#[test]
fn well_formed_state_is_kept() {
    let longest = format!("{}={}", "k".repeat(256), "v".repeat(256));
    for state in [
        "a=b",
        "0=",
        "=b",
        "vendor= ~!",
        "a=b,c=d",
        "a=b,a=c",
        "t_e-n*a/nt@0123456789abc=1",
        "tenant@=1,b=2",
        longest.as_str(),
    ] {
        let mut headers = HeaderMap::new();
        headers.insert("traceparent", HeaderValue::from_static(TRACEPARENT));
        headers.insert("tracestate", HeaderValue::from_str(state).expect("no header"));
        let parent = incoming_parent(&headers).expect("no parent");
        assert_eq!(parent.trace_state, state);
    }
}

#[test]
fn malformed_state_leaves_the_parent_without_state() {
    for state in [
        "no-separator",
        "Vendor=b",
        "a=b,c",
        "a=b=c",
        "@a=b",
        "a@b@c=d",
        "a@0123456789abcd=1",
        "a@_b=1",
    ] {
        let mut headers = HeaderMap::new();
        headers.insert("traceparent", HeaderValue::from_static(TRACEPARENT));
        headers.insert("tracestate", HeaderValue::from_static(state));
        let parent = incoming_parent(&headers).expect("no parent");
        assert_eq!(parent.trace_state, "");
    }
}

#[test]
fn header_that_is_no_visible_text_is_not_there() {
    let mut headers = HeaderMap::new();
    headers.insert(
        "traceparent",
        HeaderValue::from_bytes(b"\xff").expect("opaque value"),
    );
    headers.insert("tab", HeaderValue::from_static("a\tb"));
    let extractor = HeaderExtractor { headers: &headers };
    assert_eq!(extractor.get("traceparent"), None);
    assert_eq!(extractor.get("tab"), Some("a\tb"));
    assert_eq!(incoming_parent(&headers), None);
}

#[test]
fn header_names_are_found_in_any_case_and_first_value_counts() {
    let mut headers = HeaderMap::new();
    headers.append("x-first", HeaderValue::from_static("one"));
    headers.append("x-first", HeaderValue::from_static("two"));
    let extractor = HeaderExtractor { headers: &headers };
    assert_eq!(extractor.get("x-first"), Some("one"));
    assert_eq!(extractor.get("X-First"), Some("one"));
    assert_eq!(extractor.get("x-second"), None);
    assert_eq!(extractor.get("not a name"), None);
}

#[test]
fn header_names_come_once_each() {
    let mut headers = HeaderMap::new();
    headers.append("X-First", HeaderValue::from_static("one"));
    headers.append("x-first", HeaderValue::from_static("two"));
    headers.append("host", HeaderValue::from_static("here"));
    let extractor = HeaderExtractor { headers: &headers };
    let mut names = extractor.keys();
    names.sort();
    assert_eq!(names, vec!["host", "x-first"]);
}

#[test]
fn carrier_holds_the_two_headers() {
    let mut headers = HeaderMap::new();
    headers.insert("host", HeaderValue::from_static("here"));
    headers.insert("traceparent", HeaderValue::from_static(TRACEPARENT));
    headers.insert("tracestate", HeaderValue::from_static("a=b"));
    let extractor = HeaderExtractor { headers: &headers };
    assert_eq!(
        extractor.carrier(),
        vec![
            ("traceparent".to_string(), TRACEPARENT.to_string()),
            ("tracestate".to_string(), "a=b".to_string()),
        ]
    );
}

#[test]
fn invalid_span_context_is_no_parent() {
    let extracted = || TraceParent {
        trace_id: 1,
        span_id: 2,
        sampled: false,
        trace_state: String::new(),
    };
    assert_eq!(valid_parent((false, extracted())), None);
    assert_eq!(valid_parent((true, extracted())), Some(extracted()));
}

#[test]
fn long_names_are_listed_and_found_in_any_case() {
    for length in [64, 65, 65535] {
        let mut headers = HeaderMap::new();
        let name = HeaderName::from_bytes("X".repeat(length).as_bytes()).expect("no name");
        headers.insert(name, HeaderValue::from_static("here"));
        let extractor = HeaderExtractor { headers: &headers };
        assert_eq!(extractor.keys(), vec!["x".repeat(length).as_str()]);
        assert_eq!(extractor.get(&"x".repeat(length)), Some("here"));
        assert_eq!(extractor.get(&"X".repeat(length)), Some("here"));
        assert_eq!(extractor.get(&"x".repeat(length + 1)), None);
    }
}

#[test]
fn empty_map_has_no_names() {
    let headers = HeaderMap::new();
    let extractor = HeaderExtractor { headers: &headers };
    assert!(extractor.keys().is_empty());
    assert_eq!(extractor.get("host"), None);
}

#[test]
fn name_with_a_quotation_mark_is_listed_and_not_found() {
    let mut headers = HeaderMap::new();
    headers.insert(
        HeaderName::from_static("a\"b"),
        HeaderValue::from_static("here"),
    );
    let extractor = HeaderExtractor { headers: &headers };
    assert_eq!(extractor.keys(), vec!["a\"b"]);
    assert_eq!(extractor.get("a\"b"), None);
}

#[test]
fn text_that_is_no_header_name_finds_nothing() {
    let mut headers = HeaderMap::new();
    headers.insert("host", HeaderValue::from_static("here"));
    let extractor = HeaderExtractor { headers: &headers };
    for key in ["", "ho st", "host\u{e9}", "host:", "host\0"] {
        assert_eq!(extractor.get(key), None, "{key:?}");
    }
    assert_eq!(extractor.get(&"h".repeat(65536)), None);
}
