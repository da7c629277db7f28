use switchyard_observability::text::{blank, chars_of, join, lists, same_ignoring_case, same_text};

#[test]
fn blank_text() {
    assert!(blank(""));
    assert!(blank(" \t\r\n\u{b}\u{c}\u{85}\u{a0}\u{1680}\u{2003}\u{2028}\u{2029}\u{202f}"));
    assert!(blank("\u{205f}\u{3000}"));
    assert!(!blank("\u{200b}"));
    assert!(!blank("\u{180e}"));
    assert!(!blank(" x "));
}

#[test]
fn whitespace_is_the_unicode_property() {
    for code in 0..=0x10ffffu32 {
        if let Some(c) = char::from_u32(code) {
            let spaced = (9..=13).contains(&code)
                || [0x20, 0x85, 0xa0, 0x1680, 0x2028, 0x2029, 0x202f, 0x205f, 0x3000]
                    .contains(&code)
                || (0x2000..=0x200a).contains(&code);
            assert_eq!(c.is_whitespace(), spaced, "{code:x}");
        }
    }
}

#[test]
fn lists_items_between_commas() {
    assert!(lists("otlp", "otlp"));
    assert!(lists("a,\u{3000}OtLp\u{a0},b", "otlp"));
    assert!(lists("", ""));
    assert!(lists("a,", ""));
    assert!(!lists("a", ""));
    assert!(!lists("otlp;x", "otlp"));
    assert!(!lists("o,tlp", "otlp"));
}

#[test]
fn case_is_ignored_in_ascii_only() {
    assert!(same_ignoring_case("TrUe", "tRuE"));
    assert!(!same_ignoring_case("É", "é"));
    assert!(!same_ignoring_case("a", "ab"));
    assert!(same_ignoring_case("@[`{", "@[`{"));
    assert!(!same_ignoring_case("@", "`"));
}

#[test]
fn texts_are_compared_and_joined() {
    assert!(same_text("é", "é"));
    assert!(!same_text("a", "A"));
    assert_eq!(join("OTEL_", "TRACES"), "OTEL_TRACES");
    assert_eq!(chars_of("aé"), vec!['a', 'é']);
}
