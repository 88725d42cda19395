use whispertray::text::{
    decimal, decimal_padded, from_chars, is_whitespace, replace, str_eq, to_ascii_lower, to_chars,
    trim,
};

#[test]
fn white_space_is_what_the_standard_library_says() {
    let mut code: u32 = 0;
    while code <= 0x10FFFF {
        if let Some(c) = char::from_u32(code) {
            assert_eq!(is_whitespace(c), c.is_whitespace(), "U+{:04X}", code);
        }
        code += 1;
    }
}

#[test]
fn trim_removes_both_ends() {
    for text in ["", " ", "a", " a", "a ", "  a b  ", "\t\n x \r\n", "\u{a0}x\u{2009}", " \u{3000} "] {
        assert_eq!(trim(text), text.trim(), "{:?}", text);
    }
    assert_eq!(trim("  keep  inner  "), "keep  inner");
}

#[test]
fn replace_takes_occurrences_from_the_left() {
    let cases = [
        ("", "a", "b"),
        ("aaa", "aa", "b"),
        ("abcabc", "bc", ""),
        ("abcabc", "abc", "abcabc"),
        ("{{x}} and {{x}}", "{{x}}", "y"),
        ("no match", "zz", "y"),
        ("ababab", "aba", "-"),
        ("héllo wörld", "ö", "oe"),
    ];
    for (text, pat, to) in cases {
        assert_eq!(replace(text, pat, to), text.replace(pat, to), "{:?} {:?} {:?}", text, pat, to);
    }
    assert_eq!(replace("aaa", "aa", "b"), "ba");
    assert_eq!(replace("abc", "", "x"), "abc");
}

#[test]
fn characters_round_trip() {
    let chars = to_chars("añ𝄞");
    assert_eq!(chars, vec!['a', 'ñ', '𝄞']);
    assert_eq!(from_chars(&chars, 0, 3), "añ𝄞");
    assert_eq!(from_chars(&chars, 1, 2), "ñ");
    assert_eq!(from_chars(&chars, 2, 2), "");
    assert!(str_eq("abc", "abc"));
    assert!(!str_eq("abc", "abd"));
    assert!(!str_eq("abc", "ab"));
}

#[test]
fn ascii_letters_are_folded() {
    assert_eq!(to_ascii_lower('A'), 'a');
    assert_eq!(to_ascii_lower('Z'), 'z');
    assert_eq!(to_ascii_lower('m'), 'm');
    assert_eq!(to_ascii_lower('['), '[');
    assert_eq!(to_ascii_lower('@'), '@');
    assert_eq!(to_ascii_lower('É'), 'É');
    for code in 0u8..128 {
        let c = code as char;
        assert_eq!(to_ascii_lower(c), c.to_ascii_lowercase());
    }
}

#[test]
fn numbers_are_written_in_decimal() {
    for n in [0u64, 7, 10, 42, 999, 1000, 1_234_567, u64::MAX] {
        assert_eq!(decimal(n), n.to_string());
        assert_eq!(decimal_padded(n, 2), format!("{:02}", n));
        assert_eq!(decimal_padded(n, 3), format!("{:03}", n));
        assert_eq!(decimal_padded(n, 0), n.to_string());
    }
    assert_eq!(decimal_padded(5, 3), "005");
}
