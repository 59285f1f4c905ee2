use moddedboost::text::{
    append_chars, copy_range, from_chars, has_pattern, is_whitespace, replace_all, split_on,
    starts_at, to_chars, trimmed,
};

fn chars(s: &str) -> Vec<char> {
    s.chars().collect()
}

fn text(v: &[char]) -> String {
    v.iter().collect()
}

fn split_text(s: &str, sep: &str) -> Vec<String> {
    split_on(&chars(s), &chars(sep)).iter().map(|p| text(p)).collect()
}

#[test]
fn whitespace_agrees_with_the_unicode_property() {
    let mut code: u32 = 0;
    while code <= 0x10FFFF {
        if let Some(c) = char::from_u32(code) {
            assert_eq!(is_whitespace(c), c.is_whitespace(), "U+{:04X}", code);
        }
        code += 1;
    }
}

#[test]
fn chars_round_trip() {
    for s in ["", "a", "héllo wörld", "日本語 \u{1F600}"] {
        assert_eq!(to_chars(s), chars(s));
        assert_eq!(from_chars(&chars(s)), s);
    }
    assert_eq!(text(&copy_range(&chars("abcdef"), 2, 4)), "cd");
    assert_eq!(text(&copy_range(&chars("abcdef"), 3, 3)), "");
    let mut out = chars("ab");
    append_chars(&mut out, &chars("cd"));
    assert_eq!(text(&out), "abcd");
}

#[test]
fn trimming_agrees_with_std() {
    for s in [
        "",
        " ",
        "  a  ",
        "\t\n a b \r\n",
        "a",
        "\u{3000}wide\u{a0}",
        " \u{200b} ",
        "no-space",
        "   ",
    ] {
        assert_eq!(text(&trimmed(&chars(s))), s.trim(), "{:?}", s);
    }
}

#[test]
fn searching_agrees_with_std() {
    let cases = [
        ("", ""),
        ("abc", ""),
        ("", "a"),
        ("abc", "abc"),
        ("abc", "abcd"),
        ("aaab", "aab"),
        ("Errors: 3", "errors:"),
        ("errors: 3", "errors:"),
        ("xx errors:", "errors:"),
        ("error s:", "errors:"),
    ];
    for (hay, needle) in cases {
        assert_eq!(has_pattern(&chars(hay), &chars(needle)), hay.contains(needle), "{:?}", (hay, needle));
    }
    assert!(starts_at(&chars("abcabc"), &chars("bc"), 1));
    assert!(starts_at(&chars("abcabc"), &chars("bc"), 4));
    assert!(!starts_at(&chars("abcabc"), &chars("bc"), 5));
    assert!(!starts_at(&chars("abcabc"), &chars("bc"), 0));
    assert!(starts_at(&chars("abc"), &chars(""), 3));
    assert!(!starts_at(&chars("abc"), &chars(""), 4));
}

#[test]
fn splitting_agrees_with_std() {
    let cases = [
        ("", "--"),
        ("a", "--"),
        ("a--b", "--"),
        ("--a", "--"),
        ("a--", "--"),
        ("a---b", "--"),
        ("----", "--"),
        ("-----", "--"),
        ("--transfers 4 --checkers 8", "--"),
        ("a b", " "),
        ("a  b", " "),
        (" a ", " "),
        ("aXXbXXXc", "XX"),
        ("abab", "ab"),
    ];
    for (s, sep) in cases {
        let expected: Vec<String> = s.split(sep).map(|p| p.to_string()).collect();
        assert_eq!(split_text(s, sep), expected, "{:?}", (s, sep));
    }
}

#[test]
fn an_empty_separator_parts_nothing() {
    assert_eq!(split_text("abc", ""), vec!["abc".to_string()]);
    assert_eq!(split_text("", ""), vec!["".to_string()]);
    assert_eq!(text(&replace_all(&chars("abc"), &chars(""), &chars("x"))), "abc");
    assert_eq!(text(&replace_all(&chars(""), &chars(""), &chars("x"))), "");
}

#[test]
fn replacing_agrees_with_std() {
    let cases = [
        ("", "ab", "x"),
        ("ab", "ab", "x"),
        ("abab", "ab", ""),
        ("aaa", "aa", "b"),
        ("xabyabz", "ab", "12345"),
        ("https://host/ds/dav/11f2/", "/ds/dav/", "/v2/api/share/public/"),
        ("/ds/dav/ds/dav/", "/ds/dav/", "/v2/api/share/public/"),
        ("nothing here", "/ds/dav/", "/v2/api/share/public/"),
        ("short", "longer than the text", "x"),
    ];
    for (s, from, to) in cases {
        assert_eq!(
            text(&replace_all(&chars(s), &chars(from), &chars(to))),
            s.replace(from, to),
            "{:?}",
            (s, from, to)
        );
    }
}
