use oxibridge::text::{
    chars_of, decimal_string, encode_utf16, parse_u64, replace_all, same_text, starts_with, trim,
};

#[test]
fn utf16_encoding_agrees_with_std() {
    for s in ["", "abc", "\u{e9}", "\u{2022} x", "\u{1F600}", "a\u{10FFFF}b\u{FFFF}c\u{10000}"] {
        let expected: Vec<u16> = s.encode_utf16().collect();
        assert_eq!(encode_utf16(s), expected);
    }
    assert_eq!(encode_utf16("\u{1F600}"), vec![0xD83D, 0xDE00]);
}

#[test]
fn decimal_numerals_are_written_without_leading_zeros() {
    assert_eq!(decimal_string(0), "0");
    assert_eq!(decimal_string(7), "7");
    assert_eq!(decimal_string(10), "10");
    assert_eq!(decimal_string(4294967296), "4294967296");
    assert_eq!(decimal_string(u128::MAX), u128::MAX.to_string());
}

#[test]
fn numerals_are_read_as_std_reads_them() {
    for s in [
        "0",
        "42",
        "+42",
        "007",
        "18446744073709551615",
        "18446744073709551616",
        "99999999999999999999999",
        "",
        "+",
        "-1",
        "4 2",
        "12a",
        "++1",
        "\u{661}",
    ] {
        assert_eq!(parse_u64(s), s.parse::<u64>().ok(), "for {s:?}");
    }
    assert_eq!(parse_u64("42"), Some(42));
    assert_eq!(parse_u64("18446744073709551616"), None);
}

#[test]
fn trim_agrees_with_std() {
    for s in ["", " ", "a", "  a b \n", "\n\ta", "a\u{a0}", "\u{2003}x\u{2003}", "\n", "x\n\ny"] {
        assert_eq!(trim(s), s.trim(), "for {s:?}");
    }
    assert_eq!(trim("  a b \n"), "a b");
}

#[test]
fn prefixes_and_equality() {
    assert!(starts_with("SPOILER_a.png", "SPOILER_"));
    assert!(!starts_with("SPOILER", "SPOILER_"));
    assert!(!starts_with("xSPOILER_", "SPOILER_"));
    assert!(starts_with("abc", ""));
    assert!(starts_with("\u{e9}a", "\u{e9}"));
    assert!(same_text("a", "a"));
    assert!(!same_text("a", "b"));
    assert!(!same_text("a", "ab"));
    assert_eq!(chars_of("a\u{1F600}"), vec!['a', '\u{1F600}']);
}

#[test]
fn replacement_agrees_with_std() {
    let texts = ["", "a", "aaa", "aaaa", "abab", "xaby", "a.b.c", "\u{e9}a\u{e9}", "<@1> <@12>"];
    let patterns = ["", "a", "aa", "ab", "b", ".", "\u{e9}", "<@1>", "abcdef"];
    let replacements = ["", "b", "aa", "@dc/x"];
    for text in texts {
        for from in patterns {
            for to in replacements {
                assert_eq!(
                    replace_all(text, from, to),
                    text.replace(from, to),
                    "for {text:?}, {from:?}, {to:?}"
                );
            }
        }
    }
    assert_eq!(replace_all("aaa", "aa", "b"), "ba");
    assert_eq!(replace_all("ab", "", "-"), "-a-b-");
}
