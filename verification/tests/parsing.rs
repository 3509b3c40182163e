use howto::confidence::parse_confidence;
use howto::decode::{decode_option_array, extract_chat_reply, extract_generate_reply,
    parse_options};
use howto::text::{chars_of, extract_array, normalize_chars, string_of};

fn normalized(s: &str) -> String {
    string_of(&normalize_chars(&chars_of(s)))
}

#[test]
fn confidence_two_fraction_digits() {
    assert_eq!(parse_confidence("0.95"), Some(95));
    assert_eq!(parse_confidence("0.8"), Some(80));
    assert_eq!(parse_confidence("0.5"), Some(50));
    assert_eq!(parse_confidence("0.0"), Some(0));
}

#[test]
fn confidence_integers() {
    assert_eq!(parse_confidence("1"), Some(100));
    assert_eq!(parse_confidence("0"), Some(0));
    assert_eq!(parse_confidence("1.0"), Some(100));
}

#[test]
fn confidence_truncates_extra_digits() {
    assert_eq!(parse_confidence("0.799"), Some(79));
    assert_eq!(parse_confidence("0.999"), Some(99));
    assert_eq!(parse_confidence("0.123456"), Some(12));
}

#[test]
fn confidence_clamps() {
    assert_eq!(parse_confidence("2.5"), Some(250));
    assert_eq!(parse_confidence("100"), Some(1000));
    assert_eq!(parse_confidence("99999999999999999999"), Some(1000));
}

#[test]
fn confidence_negative_is_zero() {
    assert_eq!(parse_confidence("-0.5"), Some(0));
    assert_eq!(parse_confidence("-1"), Some(0));
}

#[test]
fn confidence_rejects_non_decimals() {
    assert_eq!(parse_confidence(""), None);
    assert_eq!(parse_confidence("abc"), None);
    assert_eq!(parse_confidence(".5"), None);
    assert_eq!(parse_confidence("1."), None);
    assert_eq!(parse_confidence("1e-5"), None);
    assert_eq!(parse_confidence("1.2.3"), None);
    assert_eq!(parse_confidence("\"0.9\""), None);
}

#[test]
fn normalize_trims_and_unescapes() {
    assert_eq!(normalized("  hello  "), "hello");
    assert_eq!(normalized("a\\'b"), "a'b");
    assert_eq!(normalized("a\\\"b"), "a\"b");
    assert_eq!(normalized("a\\\\b"), "a\\b");
    assert_eq!(normalized("a\nb\rc"), "abc");
}

#[test]
fn normalize_applies_passes_in_order() {
    // Trim first, then un-escape quote pairs, then drop line breaks.
    assert_eq!(normalized(" \\\"x\\\" \n"), "\"x\"");
}

#[test]
fn bracket_extraction_finds_span() {
    let v = chars_of("Sure! [1, 2] ok.");
    let w = extract_array(&v).expect("span expected");
    assert_eq!(string_of(&w), "[1, 2]");
}

#[test]
fn bracket_extraction_outermost() {
    let v = chars_of("a [x] b [y] c");
    let w = extract_array(&v).expect("span expected");
    assert_eq!(string_of(&w), "[x] b [y]");
}

#[test]
fn bracket_extraction_needs_ordered_pair() {
    assert!(extract_array(&chars_of("no brackets")).is_none());
    assert!(extract_array(&chars_of("] before [")).is_none());
    assert!(extract_array(&chars_of("only ] close")).is_none());
}

#[test]
fn envelope_generate_reply() {
    assert_eq!(
        extract_generate_reply("{\"response\":\"hello\",\"done\":true}"),
        Some("hello".to_string())
    );
    assert_eq!(extract_generate_reply("{\"done\":true}"), None);
    assert_eq!(extract_generate_reply("not json"), None);
    assert_eq!(extract_generate_reply("{\"response\":5}"), None);
}

#[test]
fn envelope_chat_reply() {
    let body = "{\"choices\":[{\"message\":{\"role\":\"assistant\",\"content\":\"hi\"}}]}";
    assert_eq!(extract_chat_reply(body), Some("hi".to_string()));
    assert_eq!(extract_chat_reply("{\"choices\":[]}"), None);
    assert_eq!(extract_chat_reply("{}"), None);
}

#[test]
fn decode_array_hands_out_fields() {
    let s = "[{\"command\":\"ls\",\"explanation\":\"list\",\"confidence\":0.9}]";
    let v = decode_option_array(s).expect("array expected");
    assert_eq!(v.len(), 1);
    assert_eq!(v[0].0, "ls");
    assert_eq!(v[0].1, "list");
    assert_eq!(v[0].2, "0.9");
}

#[test]
fn decode_array_rejects_bad_shapes() {
    assert!(decode_option_array("{}").is_none());
    assert!(decode_option_array("[{\"command\":\"ls\"}]").is_none());
    assert!(
        decode_option_array("[{\"command\":\"ls\",\"explanation\":\"l\",\"confidence\":\"0.9\"}]")
            .is_none()
    );
}

#[test]
fn parse_options_direct() {
    let s = "[{\"command\":\"ls\",\"explanation\":\"list\",\"confidence\":0.9}]";
    let v = parse_options(s).expect("options expected");
    assert_eq!(v.len(), 1);
    assert_eq!(v[0].command, "ls");
    assert_eq!(v[0].explanation, "list");
    assert_eq!(v[0].confidence, 90);
}

#[test]
fn parse_options_bracket_fallback() {
    let s = "Sure! [{\"command\":\"ls\",\"explanation\":\"list\",\"confidence\":0.9}] Hope that helps.";
    let v = parse_options(s).expect("fallback expected to recover the array");
    assert_eq!(v.len(), 1);
    assert_eq!(v[0].command, "ls");
    assert_eq!(v[0].confidence, 90);
}

#[test]
fn parse_options_overescaped_reply() {
    let s = "[{\\\"command\\\": \\\"ls\\\", \\\"explanation\\\": \\\"list\\\", \\\"confidence\\\": 0.9}]";
    let v = parse_options(s).expect("normalization expected to repair escaping");
    assert_eq!(v.len(), 1);
    assert_eq!(v[0].command, "ls");
}

#[test]
fn parse_options_rejects_empty_and_garbage() {
    assert!(parse_options("[]").is_none());
    assert!(parse_options("no json at all").is_none());
    assert!(parse_options("{\"command\":\"ls\"}").is_none());
}
