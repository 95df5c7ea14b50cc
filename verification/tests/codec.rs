use webrcon::codec::{
    Decoded, decode_frame, encode_envelope, escape_quotes, unescape_newlines,
};

#[test]
fn escaping_prefixes_every_quote_with_a_backslash() {
    assert_eq!(escape_quotes("say \"hi\""), "say \\\"hi\\\"");
    assert_eq!(escape_quotes("\"\""), "\\\"\\\"");
    assert_eq!(escape_quotes("no quotes"), "no quotes");
    assert_eq!(escape_quotes(""), "");
}

#[test]
fn envelope_has_fixed_identifier_payload_and_sender() {
    assert_eq!(
        encode_envelope("status"),
        "{\"Identifier\": 1, \"Message\": \"status\", \"Name\": \"WebRcon\" }"
    );
}

#[test]
fn envelope_escapes_quotes_in_the_payload() {
    assert_eq!(
        encode_envelope("say \"hi\""),
        "{\"Identifier\": 1, \"Message\": \"say \\\"hi\\\"\", \"Name\": \"WebRcon\" }"
    );
}

#[test]
fn decoding_an_encoded_envelope_recovers_the_text() {
    let text = "say \"hello\" twice";
    let envelope = encode_envelope(text);
    match decode_frame(&envelope) {
        Decoded::DisplayText(t) => assert_eq!(t, text),
        _ => panic!("expected display text"),
    }
}

#[test]
fn unescaping_substitutes_real_line_breaks_and_nothing_else() {
    assert_eq!(unescape_newlines("line1\\nline2"), "line1\nline2");
    assert_eq!(unescape_newlines("a\\nb\\nc"), "a\nb\nc");
    assert_eq!(unescape_newlines("\\n"), "\n");
    assert_eq!(unescape_newlines("no escapes"), "no escapes");
    assert_eq!(unescape_newlines("\\\\n"), "\\\n");
    assert_eq!(unescape_newlines("trailing\\"), "trailing\\");
    assert_eq!(unescape_newlines(""), "");
}

#[test]
fn decoding_unescapes_the_payload_newlines() {
    let frame = "{\"Identifier\": 1, \"Message\": \"line1\\\\nline2\", \"Name\": \"x\"}";
    match decode_frame(frame) {
        Decoded::DisplayText(t) => assert_eq!(t, "line1\nline2"),
        _ => panic!("expected display text"),
    }
}

#[test]
fn object_without_string_payload_is_reported_distinctly() {
    assert!(matches!(
        decode_frame("{\"Other\": 1}"),
        Decoded::MissingPayload
    ));
    assert!(matches!(
        decode_frame("{\"Message\": 42}"),
        Decoded::MissingPayload
    ));
}

#[test]
fn malformed_frame_yields_a_diagnostic_and_later_frames_still_decode() {
    match decode_frame("this is not json") {
        Decoded::Malformed(diag) => assert!(!diag.is_empty()),
        _ => panic!("expected a decode diagnostic"),
    }
    match decode_frame("{\"Message\": \"still fine\"}") {
        Decoded::DisplayText(t) => assert_eq!(t, "still fine"),
        _ => panic!("expected display text"),
    }
}

#[test]
fn bare_values_are_an_unhandled_shape() {
    assert!(matches!(decode_frame("42"), Decoded::UnhandledShape(_)));
    assert!(matches!(decode_frame("\"42\""), Decoded::UnhandledShape(_)));
    assert!(matches!(decode_frame("[1, 2]"), Decoded::UnhandledShape(_)));
}
