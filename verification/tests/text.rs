use coolprop_server::text::{
    buffer_to_string, chars_of, decimal_string, join, parse_i64, split_comma_list,
    starts_with, str_eq, strip_nul, trim, trim_after_prefixes, usize_decimal_string,
};

#[test]
fn decimal_rendering_matches_display() {
    for i in [0i64, 7, 10, 1234, -1, -905, i64::MAX, i64::MIN] {
        assert_eq!(decimal_string(i), i.to_string());
    }
    assert_eq!(usize_decimal_string(0), "0");
    assert_eq!(usize_decimal_string(1000000), "1000000");
}

#[test]
fn parse_accepts_signed_decimal_integers() {
    assert_eq!(parse_i64("42"), Some(42));
    assert_eq!(parse_i64("-7"), Some(-7));
    assert_eq!(parse_i64("+5"), Some(5));
    assert_eq!(parse_i64("007"), Some(7));
    assert_eq!(parse_i64("9223372036854775807"), Some(i64::MAX));
    assert_eq!(parse_i64("-9223372036854775808"), Some(i64::MIN));
}

#[test]
fn parse_rejects_what_str_parse_rejects() {
    for s in ["", "-", "+", "1x", " 1", "1 ", "T", "Dmolar", "9223372036854775808",
              "-9223372036854775809", "99999999999999999999999", "--1", "1.0"] {
        assert_eq!(parse_i64(s), None, "{s:?}");
        assert!(s.parse::<i64>().is_err());
    }
}

#[test]
fn parse_of_decimal_rendering_round_trips() {
    for i in [0i64, 1, -1, 36, -36, i64::MAX, i64::MIN] {
        assert_eq!(parse_i64(&decimal_string(i)), Some(i));
    }
}

#[test]
fn trim_removes_unicode_white_space_at_both_ends() {
    assert_eq!(trim("  \t a b \n"), "a b");
    assert_eq!(trim("\u{3000}x\u{a0}"), "x");
    assert_eq!(trim("   "), "");
    assert_eq!(trim(""), "");
    for s in ["  Propane ", "\u{2003}Water\u{2029}", "x"] {
        assert_eq!(trim(s), s.trim());
    }
}

#[test]
fn prefix_repetitions_are_stripped_then_trimmed() {
    assert_eq!(trim_after_prefixes("unknown: bad input ", "unknown:"), "bad input");
    assert_eq!(trim_after_prefixes("unknown:unknown: x", "unknown:"), "x");
    assert_eq!(trim_after_prefixes("liquid", "unknown:"), "liquid");
    assert!(starts_with("unknown: x", "unknown:"));
    assert!(!starts_with("unknown", "unknown:"));
}

#[test]
fn nul_characters_are_stripped() {
    assert_eq!(strip_nul("a\0b\0"), "ab");
    assert_eq!(strip_nul("Water"), "Water");
}

#[test]
fn comma_lists_are_split_trimmed_and_filtered() {
    assert_eq!(split_comma_list(" Propane , Ethane,,"), vec!["Propane", "Ethane"]);
    assert_eq!(split_comma_list(""), Vec::<String>::new());
    assert_eq!(split_comma_list("Water"), vec!["Water"]);
    assert_eq!(split_comma_list(", ,"), Vec::<String>::new());
}

#[test]
fn joining_puts_the_separator_between_parts() {
    let parts = vec!["Propane".to_string(), "Ethane".to_string()];
    assert_eq!(join(&parts, "&"), "Propane&Ethane");
    assert_eq!(join(&vec!["Water".to_string()], ","), "Water");
    assert_eq!(join(&Vec::new(), ","), "");
}

#[test]
fn c_buffers_are_read_up_to_the_first_nul() {
    assert_eq!(buffer_to_string(b"Water\0garbage"), "Water");
    assert_eq!(buffer_to_string(b"no terminator"), "no terminator");
    assert_eq!(buffer_to_string(b"\0"), "");
    assert_eq!(buffer_to_string(&[0xff, b'a', 0]), "\u{fffd}a");
}

#[test]
fn string_helpers() {
    assert!(str_eq("abc", "abc"));
    assert!(!str_eq("abc", "abd"));
    assert!(!str_eq("abc", "ab"));
    assert_eq!(chars_of("aé"), vec!['a', 'é']);
}

#[test]
fn buffer_text_never_holds_a_nul_even_for_invalid_utf8() {
    let s = buffer_to_string(b"a\xffb\0c");
    assert_eq!(s, "a\u{fffd}b");
    assert!(!s.contains('\0'));
}
