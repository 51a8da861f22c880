use a11y_bot::CursorError;
use a11y_bot::Score;
use a11y_bot::decode_cursor;
use a11y_bot::default_cursor;
use a11y_bot::encode_cursor;

#[test]
fn default_cursor_starts_from_the_beginning() {
    assert_eq!(default_cursor(), "1");
}

#[test]
fn encode_matches_the_reference_json_encoder() {
    let samples = [
        "",
        "1",
        "109461646197861450",
        "with \"quotes\" and \\slashes\\",
        "control\u{1}\u{8}\t\n\u{c}\r\u{1f}chars",
        "unicode \u{e9}\u{4e16}\u{1f600}",
    ];
    for s in samples {
        let encoded = encode_cursor(s);
        let reference = serde_json::to_string(s).unwrap();
        assert_eq!(encoded, reference);
    }
}

#[test]
fn decode_matches_the_reference_json_parser_on_encoded_tokens() {
    let samples = ["", "42", "a \"b\" \\c\\", "\u{7}\u{b}\u{1f}", "caf\u{e9} \u{4e16}"];
    for s in samples {
        let file = serde_json::to_string(s).unwrap();
        let decoded = decode_cursor(&file).expect("well-formed cursor file decodes");
        assert_eq!(decoded, s);
        let reference: String = serde_json::from_str(&file).unwrap();
        assert_eq!(decoded, reference);
    }
}

#[test]
fn round_trip_returns_the_token() {
    let tokens = ["1", "58", "a\"b\\c\nd", ""];
    for t in tokens {
        assert_eq!(decode_cursor(&encode_cursor(t)), Ok(t.to_owned()));
    }
}

#[test]
fn malformed_cursor_files_are_errors() {
    let bad = [
        "",
        "42",
        "\"",
        "\"unterminated",
        "unopened\"",
        "\"bad \\x escape\"",
        "\"trailing backslash\\\"",
        "\"raw \u{1} control\"",
        "\"inner \" quote\"",
        "\"\\u00\"",
        "\"\\u00zz\"",
        "\"\\u0041\"",
    ];
    for b in bad {
        assert_eq!(decode_cursor(b), Err(CursorError::Malformed));
    }
}

#[test]
fn decode_accepts_short_escapes_the_encoder_never_writes() {
    assert_eq!(decode_cursor("\"a\\/b\""), Ok("a/b".to_owned()));
    assert_eq!(decode_cursor("\"\\u000b\""), Ok("\u{b}".to_owned()));
}

#[test]
fn score_render_names_the_score_exactly() {
    let cases = [
        (100000, "1"),
        (0, "0"),
        (80000, "0.8"),
        (79999, "0.79999"),
        (55000, "0.55"),
        (90500, "0.905"),
        (10, "0.0001"),
        (1, "0.00001"),
    ];
    for (units, text) in cases {
        assert_eq!(Score::from_units(units).render(), text);
    }
}

#[test]
fn score_threshold_is_inclusive_skip() {
    assert!(Score::from_units(80000).is_acceptable());
    assert!(Score::from_units(100000).is_acceptable());
    assert!(!Score::from_units(79999).is_acceptable());
    assert!(!Score::from_units(0).is_acceptable());
}
