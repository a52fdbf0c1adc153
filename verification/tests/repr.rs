use reqwest_trace::{
    headers_repr, strip_utf8_bom, take_only_n_bytes, text_preview, text_repr, truncate_chars,
    Header,
};

#[test]
fn bom_is_stripped_only_when_leading() {
    assert_eq!(strip_utf8_bom(&[0xEF, 0xBB, 0xBF, b'a', b'b']), b"ab");
    assert_eq!(strip_utf8_bom(&[0xEF, 0xBB, 0xBF]), b"");
    assert_eq!(strip_utf8_bom(b"ab"), b"ab");
    assert_eq!(strip_utf8_bom(&[b'a', 0xEF, 0xBB, 0xBF]), &[b'a', 0xEF, 0xBB, 0xBF]);
    assert_eq!(strip_utf8_bom(&[0xEF, 0xBB]), &[0xEF, 0xBB]);
    assert_eq!(strip_utf8_bom(b""), b"");
}

#[test]
fn take_only_n_bytes_truncates_longer_inputs() {
    assert_eq!(take_only_n_bytes(b"hello", 3), b"hel");
    assert_eq!(take_only_n_bytes(b"hello", 5), b"hello");
    assert_eq!(take_only_n_bytes(b"hello", 10), b"hello");
    assert_eq!(take_only_n_bytes(b"hello", 0), b"");
}

#[test]
fn text_repr_strips_bom_and_truncates_to_thirty_kib() {
    // A 40 KiB UTF-8 body with a leading byte-order mark.
    let mut bytes = vec![0xEF, 0xBB, 0xBF];
    bytes.extend(std::iter::repeat(b'a').take(40 * 1024));
    let text = text_repr(&bytes);
    assert_eq!(text.len(), 30 * 1024);
    assert!(!text.starts_with('\u{FEFF}'));
    assert!(text.chars().all(|c| c == 'a'));
}

#[test]
fn text_repr_replaces_invalid_sequences_without_failing() {
    let text = text_repr(&[0xFF, 0xFE, b'o', b'k']);
    assert_eq!(text, "\u{FFFD}\u{FFFD}ok");
}

#[test]
fn text_repr_decodes_plain_utf8_unchanged() {
    let text = text_repr("héllo".as_bytes());
    assert_eq!(text, "héllo");
    assert_eq!(text_repr(b""), "");
}

fn header(name: &str, value: &str, sensitive: bool) -> Header {
    Header {
        name: name.to_string(),
        value: Some(value.to_string()),
        sensitive,
    }
}

#[test]
fn headers_render_one_per_line_in_order() {
    let hs = vec![
        header("content-type", "text/plain", false),
        header("x-request-id", "42", false),
        header("accept", "*/*", false),
    ];
    assert_eq!(
        headers_repr(&hs),
        "content-type: text/plain\nx-request-id: 42\naccept: */*"
    );
}

#[test]
fn sensitive_header_is_redacted_whatever_its_value() {
    let hs = vec![
        header("authorization", "Bearer abc123", true),
        header("cookie", "", true),
        header("accept", "*/*", false),
    ];
    assert_eq!(
        headers_repr(&hs),
        "authorization: <sensitive>\ncookie: <sensitive>\naccept: */*"
    );
}

#[test]
fn unprintable_header_value_gets_a_placeholder() {
    let hs = vec![Header {
        name: "x-bin".to_string(),
        value: None,
        sensitive: false,
    }];
    assert_eq!(headers_repr(&hs), "x-bin: <n/a>");
}

#[test]
fn no_headers_render_empty() {
    assert_eq!(headers_repr(&Vec::new()), "");
}

#[test]
fn truncate_chars_counts_characters_not_bytes() {
    assert_eq!(truncate_chars("hello", 3), "hel");
    assert_eq!(truncate_chars("hello", 5), "hello");
    assert_eq!(truncate_chars("hello", 9), "hello");
    assert_eq!(truncate_chars("héllo", 2), "hé");
    assert_eq!(truncate_chars("", 4), "");
}

#[test]
fn text_preview_keeps_at_most_256_characters() {
    let long = "x".repeat(1000);
    assert_eq!(text_preview(&long).len(), 256);
    assert_eq!(text_preview("short"), "short");
}
