use raptor::text::{append_json_escaped, append_str_debug, i64_to_decimal, parse_i64, trim_quotes_str};

#[test]
fn parse_integers_like_std() {
    for s in ["0", "-0", "+12", "-9223372036854775808", "9223372036854775807", "007"] {
        assert_eq!(parse_i64(s), s.parse::<i64>().ok());
    }
    for s in ["", "-", "+", "1a", " 1", "9223372036854775808", "-9223372036854775809", "1.0", "--1", "99999999999999999999999"] {
        assert_eq!(parse_i64(s), None);
        assert!(s.parse::<i64>().is_err());
    }
}

#[test]
fn decimal_round_trip() {
    for n in [0i64, 7, -7, 10, 1_000_000, i64::MAX, i64::MIN] {
        let t = i64_to_decimal(n);
        assert_eq!(t, n.to_string());
        assert_eq!(parse_i64(&t), Some(n));
    }
}

#[test]
fn trim_quotes_like_std() {
    for s in ["\"a\"", "\"\"\"", "a", "\"a\"b\"", "", "\"é\""] {
        assert_eq!(trim_quotes_str(s), s.trim_matches('"'));
    }
}

#[test]
fn str_debug_matches_debug_formatting() {
    for text in ["", "plain", "q\"uote", "back\\slash", "\0\t\r\n", "\u{1}\u{1f}\u{7f}", "it's", "héllo", "e\u{301}", "\u{200b}\u{feff}", "✓ 🎬"] {
        let mut out = String::from(">");
        append_str_debug(&mut out, text);
        assert_eq!(out, format!(">{:?}", text));
    }
}

#[test]
fn json_escaping_of_each_kind() {
    let mut out = String::new();
    append_json_escaped(&mut out, "a\"b\\c/\u{8}\u{c}\n\r\t\u{0}\u{1f}\u{7f}é");
    assert_eq!(out, "a\\\"b\\\\c/\\b\\f\\n\\r\\t\\u0000\\u001f\u{7f}é");
}
