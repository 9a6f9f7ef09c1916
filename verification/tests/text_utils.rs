use utmd::text::{
    IntErrorKind, concat_strs, is_blank, lines_exec, parse_i64_exec, path_join_exec,
    replace_exec, starts_with_exec, str_eq, to_ascii_lowercase, trim_str, u64_to_string,
};

#[test]
fn trims_unicode_whitespace() {
    assert_eq!(trim_str("\u{a0} a b \t\n"), "a b");
    assert_eq!(trim_str("   "), "");
    assert!(is_blank(" \u{3000}\n"));
    assert!(!is_blank(" x "));
}

#[test]
fn lines_like_std() {
    assert_eq!(lines_exec("a\nb\r\n\nc"), vec!["a", "b", "", "c"]);
    assert_eq!(lines_exec("a\n"), vec!["a"]);
    assert!(lines_exec("").is_empty());
    assert_eq!(lines_exec("x\r"), vec!["x\r"]);
    for s in ["a\nb", "\n\n", "a\r\nb\r", "one"] {
        let ours = lines_exec(s);
        let std_lines: Vec<String> = s.lines().map(|l| l.to_string()).collect();
        assert_eq!(ours, std_lines);
    }
}

#[test]
fn replace_like_std() {
    assert_eq!(replace_exec("{a}{a}x", "{a}", "1"), "11x");
    assert_eq!(replace_exec("aaa", "aa", "b"), "ba");
    for (s, p, r) in [("{prefix}{os}-{rand}", "{os}", "linux"), ("abcabc", "bc", ""), ("", "x", "y")] {
        assert_eq!(replace_exec(s, p, r), s.replace(p, r));
    }
}

#[test]
fn search_and_compare() {
    assert!(starts_with_exec("utmd-linux", "utmd-"));
    assert!(!starts_with_exec("ut", "utmd-"));
    assert!(str_eq("x", "x"));
    assert!(!str_eq("x", "y"));
    assert_eq!(concat_strs("ab", "cd"), "abcd");
    assert_eq!(to_ascii_lowercase("AbC-É"), "abc-É");
}

#[test]
fn decimal_rendering() {
    assert_eq!(u64_to_string(0), "0");
    assert_eq!(u64_to_string(120), "120");
    assert_eq!(u64_to_string(u64::MAX), u64::MAX.to_string());
}

#[test]
fn integer_parsing_like_std() {
    assert_eq!(parse_i64_exec("24"), Ok(24));
    assert_eq!(parse_i64_exec("-7"), Ok(-7));
    assert_eq!(parse_i64_exec("+7"), Ok(7));
    assert_eq!(parse_i64_exec(""), Err(IntErrorKind::Empty));
    assert_eq!(parse_i64_exec("-"), Err(IntErrorKind::InvalidDigit));
    assert_eq!(parse_i64_exec("1a"), Err(IntErrorKind::InvalidDigit));
    assert_eq!(parse_i64_exec("9223372036854775808"), Err(IntErrorKind::PosOverflow));
    assert_eq!(parse_i64_exec("-9223372036854775809"), Err(IntErrorKind::NegOverflow));
    assert_eq!(parse_i64_exec("-9223372036854775808"), Ok(i64::MIN));
    assert_eq!(IntErrorKind::InvalidDigit.message(), "abc".parse::<i64>().unwrap_err().to_string());
    assert_eq!(IntErrorKind::PosOverflow.message(), "99999999999999999999".parse::<i64>().unwrap_err().to_string());
}

#[test]
fn path_joining() {
    assert_eq!(path_join_exec("/home/u", "x"), "/home/u/x");
    assert_eq!(path_join_exec("/home/u/", "x"), "/home/u/x");
    assert_eq!(path_join_exec("", "x"), "x");
}

#[test]
fn character_classes_match_std() {
    for code in 0u32..=0x10FFFF {
        if let Some(c) = char::from_u32(code) {
            assert_eq!(utmd::text::is_ws_exec(c), c.is_whitespace(), "{:?}", c);
            assert_eq!(utmd::text::ascii_lower_char_exec(c), c.to_ascii_lowercase(), "{:?}", c);
            assert_eq!(utmd::text::is_ascii_ws_exec(c), c.is_ascii_whitespace(), "{:?}", c);
        }
    }
}
