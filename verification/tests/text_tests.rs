use sharers::text::{contains_dotdot, join_path, parse_i64, remove_parent_refs, to_hex_lower, trim};

#[test]
fn dotdot_is_found_anywhere() {
    assert!(contains_dotdot("a..b"));
    assert!(contains_dotdot(".."));
    assert!(contains_dotdot("x/../y"));
    assert!(!contains_dotdot("a.b.c"));
    assert!(!contains_dotdot("."));
    assert!(!contains_dotdot(""));
}

#[test]
fn trim_removes_unicode_white_space_at_both_ends() {
    assert_eq!(trim("  https://example.com \t"), "https://example.com");
    assert_eq!(trim("\u{3000}a b\u{2028}"), "a b");
    assert_eq!(trim("   "), "");
    assert_eq!(trim(""), "");
    assert_eq!(trim("x"), "x");
    for s in ["  a ", "\t\n b\r", "c", " ", "\u{a0}d\u{85}"] {
        assert_eq!(trim(s), s.trim());
    }
}

#[test]
fn parse_i64_accepts_what_std_accepts() {
    assert_eq!(parse_i64("42"), Some(42));
    assert_eq!(parse_i64("+7"), Some(7));
    assert_eq!(parse_i64("-15"), Some(-15));
    assert_eq!(parse_i64("0"), Some(0));
    assert_eq!(parse_i64("9223372036854775807"), Some(i64::MAX));
    assert_eq!(parse_i64("-9223372036854775808"), Some(i64::MIN));
    assert_eq!(parse_i64("9223372036854775808"), None);
    assert_eq!(parse_i64("-9223372036854775809"), None);
    assert_eq!(parse_i64("99999999999999999999999"), None);
    assert_eq!(parse_i64(""), None);
    assert_eq!(parse_i64("-"), None);
    assert_eq!(parse_i64("+"), None);
    assert_eq!(parse_i64(" 5"), None);
    assert_eq!(parse_i64("5x"), None);
    for s in ["12", "-0", "+0", "007", "1e3", "--1", "+-1", "18446744073709551616", "abc"] {
        assert_eq!(parse_i64(s), s.parse::<i64>().ok());
    }
}

#[test]
fn hex_is_lower_case_two_digits_per_byte() {
    assert_eq!(to_hex_lower(&[0x0a, 0x14, 0x1e]), "0a141e");
    assert_eq!(to_hex_lower(&[0x00, 0xff, 0xab]), "00ffab");
    assert_eq!(to_hex_lower(&[]), "");
}

#[test]
fn parent_references_are_removed_left_to_right() {
    assert_eq!(remove_parent_refs("../../etc/passwd"), "etc/passwd");
    assert_eq!(remove_parent_refs("a/../b"), "a/b");
    assert_eq!(remove_parent_refs("plain-key"), "plain-key");
    // Removal does not rescan what it leaves behind, as str::replace does not.
    assert_eq!(remove_parent_refs("..././"), "../");
    for s in ["..././", "....//", "a../b", "../", ".."] {
        assert_eq!(remove_parent_refs(s), s.replace("../", ""));
    }
}

#[test]
fn join_follows_path_join() {
    assert_eq!(join_path("/data", "key"), "/data/key");
    assert_eq!(join_path("/data/", "key"), "/data/key");
    assert_eq!(join_path("", "key"), "key");
    assert_eq!(join_path("/data", "/etc/passwd"), "/etc/passwd");
    for (b, r) in [("a", "b"), ("a/", "b"), ("", "b"), ("a", "/b"), ("a", "")] {
        let expected = std::path::Path::new(b).join(r);
        assert_eq!(join_path(b, r), expected.to_str().unwrap());
    }
}
