use mysql_user_crud::text::{
    chars_of, contains_text, i64_to_text, parse_u64, str_eq, strip_prefix, u64_to_text,
};

#[test]
fn str_eq_compares_characters() {
    assert!(str_eq("", ""));
    assert!(str_eq("abc", "abc"));
    assert!(str_eq("令牌", "令牌"));
    assert!(!str_eq("abc", "abd"));
    assert!(!str_eq("abc", "ab"));
    assert!(!str_eq("", "a"));
    assert!(!str_eq("é", "e\u{301}"));
}

#[test]
fn strip_prefix_agrees_with_std() {
    let cases = [
        ("Bearer x", "Bearer "),
        ("Bearer ", "Bearer "),
        ("Bearer", "Bearer "),
        ("", ""),
        ("abc", ""),
        ("令牌未找到", "令牌"),
        ("令牌未找到", "牌"),
        ("ab", "abc"),
    ];
    for (text, prefix) in cases {
        assert_eq!(
            strip_prefix(text, prefix),
            text.strip_prefix(prefix).map(|r| r.to_string()),
            "{:?} {:?}",
            text,
            prefix
        );
    }
}

#[test]
fn parse_u64_agrees_with_std() {
    let cases = [
        "0",
        "1",
        "42",
        "+42",
        "0042",
        "+0",
        "18446744073709551615",
        "18446744073709551616",
        "99999999999999999999",
        "184467440737095516150",
        "",
        "+",
        "-",
        "-1",
        "-0",
        "++1",
        "1+",
        " 1",
        "1 ",
        "1_000",
        "0x10",
        "1.0",
        "1e3",
        "１２",
        "12a",
        "a12",
        "٣",
    ];
    for text in cases {
        assert_eq!(parse_u64(text), text.parse::<u64>().ok(), "{:?}", text);
    }
}

#[test]
fn parse_u64_exact_values() {
    assert_eq!(parse_u64("65535"), Some(65535));
    assert_eq!(parse_u64("+7"), Some(7));
    assert_eq!(parse_u64("18446744073709551615"), Some(u64::MAX));
    assert_eq!(parse_u64("18446744073709551616"), None);
}

#[test]
fn chars_and_infix() {
    assert_eq!(chars_of("a令b"), vec!['a', '令', 'b']);
    assert_eq!(chars_of(""), Vec::<char>::new());
    let cases = [
        ("", ""),
        ("abc", ""),
        ("", "a"),
        ("abc", "abc"),
        ("abc", "bc"),
        ("abc", "ac"),
        ("aab", "ab"),
        ("expected `,` found `}`", "found"),
        ("请求体不完整", "不完"),
        ("请求体不完整", "完不"),
        ("ab", "abc"),
    ];
    for (text, needle) in cases {
        assert_eq!(contains_text(text, needle), text.contains(needle), "{:?} {:?}", text, needle);
    }
}

#[test]
fn numbers_are_written_as_std_writes_them() {
    for n in [0u64, 1, 9, 10, 11, 99, 100, 65535, 1_000_000, u64::MAX - 1, u64::MAX] {
        assert_eq!(u64_to_text(n), n.to_string());
        assert_eq!(parse_u64(&u64_to_text(n)), Some(n));
    }
    for n in [0i64, 1, -1, 9, -9, 10, -10, 12345, -12345, i64::MAX, i64::MIN, i64::MIN + 1] {
        assert_eq!(i64_to_text(n), n.to_string());
    }
}
