use val::text::{
    any_control_char, any_white_space, contains_char, number, only_hex_digits, parse_u32,
    replace_all, replace_char, signed_number, split_lines, starts_with, strip_prefix, trim,
    trim_line_end, NumeralFault,
};

const SAMPLES: [&str; 9] = [
    "",
    " ",
    "a",
    "\u{3000}a b\u{85}",
    "line\r\nline\n\nrest\r",
    "\n",
    "tab\t\u{200b}",
    "ABC0123def",
    "é\u{1f600}\u{9f}",
];

#[test]
fn trimming_agrees_with_std() {
    for sample in SAMPLES {
        assert_eq!(trim(sample), sample.trim(), "{sample:?}");
        assert_eq!(trim_line_end(sample), sample.trim_end_matches(['\r', '\n']), "{sample:?}");
        let lines: Vec<&str> = sample.lines().collect();
        assert_eq!(split_lines(sample), lines, "{sample:?}");
    }
}

#[test]
fn character_classes_agree_with_std() {
    for code in 0..0x3100_u32 {
        let Some(c) = char::from_u32(code) else { continue };
        let text = c.to_string();
        assert_eq!(any_white_space(&text), c.is_whitespace(), "{code:x}");
        assert_eq!(any_control_char(&text), c.is_control(), "{code:x}");
        assert_eq!(only_hex_digits(&text), c.is_ascii_hexdigit(), "{code:x}");
    }
    assert!(only_hex_digits(""));
}

#[test]
fn substitution_agrees_with_std() {
    for (text, pattern, substitute) in [
        ("/{user}/{user}", "{user}", "u"),
        ("aaaa", "aa", "a"),
        ("abc", "x", "y"),
        ("", "x", "y"),
        ("{{user}}", "{user}", "{user}"),
    ] {
        assert_eq!(
            replace_all(text, pattern, substitute),
            text.replace(pattern, substitute)
        );
    }
    assert_eq!(replace_char("a_b__c", '_', ' '), "a b  c");
}

#[test]
fn prefixes_agree_with_std() {
    for (text, prefix) in [("refs/x", "refs/"), ("ref", "refs/"), ("", ""), ("é", "é")] {
        assert_eq!(starts_with(text, prefix), text.starts_with(prefix));
        assert_eq!(strip_prefix(text, prefix).as_deref(), text.strip_prefix(prefix));
    }
    assert!(contains_char("a:b", ':'));
    assert!(!contains_char("ab", ':'));
}

#[test]
fn numerals_agree_with_std() {
    for n in [0, 9, 10, 208, u64::MAX] {
        assert_eq!(number(n), n.to_string());
    }
    for n in [0, -1, 255, i32::MIN, i32::MAX] {
        assert_eq!(signed_number(n), n.to_string());
    }
    for text in ["", "+", "-", "-1", "+7", "0", "00042", "4294967295", "4294967296", "1a", " 1"] {
        let parsed = parse_u32(text);
        let expected = text.parse::<u32>();
        match (parsed, expected) {
            (Ok(left), Ok(right)) => assert_eq!(left, right),
            (Err(fault), Err(error)) => assert_eq!(fault.describe(), error.to_string()),
            (left, right) => panic!("{text:?}: {left:?} and {right:?}"),
        }
    }
    assert_eq!(NumeralFault::Empty.describe(), "cannot parse integer from empty string");
}
