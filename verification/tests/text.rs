use napali::text::{
    chars_of, count_of, decimal_of, find, find_from, matches_at, parse_number, position, replace,
    same, slice, space, split, string_of, strip_leading, strip_trailing, to_ascii_lowercase,
    to_lower, to_upper, trim, NumberError,
};

fn chars(s: &str) -> Vec<char> {
    s.chars().collect()
}

#[test]
fn strings_and_characters_convert_both_ways() {
    assert_eq!(chars_of("héllo"), vec!['h', 'é', 'l', 'l', 'o']);
    assert_eq!(string_of(&chars("héllo")), "héllo");
    assert_eq!(string_of(&Vec::new()), "");
    assert_eq!(slice(&chars("abcdef"), 2, 4), chars("cd"));
    assert!(same(&chars("abc"), &chars("abc")));
    assert!(!same(&chars("abc"), &chars("abd")));
    assert!(!same(&chars("abc"), &chars("ab")));
}

#[test]
fn occurrences_are_found_from_the_left() {
    assert!(matches_at(&chars("hello"), &chars("ll"), 2));
    assert!(!matches_at(&chars("hello"), &chars("ll"), 3));
    assert!(!matches_at(&chars("hello"), &chars("lo"), 4));
    assert!(matches_at(&chars("hello"), &chars(""), 5));
    assert_eq!(find(&chars("banana"), &chars("an")), Some(1));
    assert_eq!(find_from(&chars("banana"), &chars("an"), 2), Some(3));
    assert_eq!(find(&chars("banana"), &chars("x")), None);
    assert_eq!(find(&chars("ab"), &chars("abc")), None);
    assert_eq!(position(&chars("banana"), &chars("na")), 2);
    assert_eq!(position(&chars("banana"), &chars("x")), 6);
}

#[test]
fn replacing_goes_left_to_right_without_overlap() {
    assert_eq!(replace(&chars("aaa"), &chars("aa"), &chars("b")), chars("ba"));
    assert_eq!(replace(&chars("grey grey"), &chars("grey"), &chars("gray")), chars("gray gray"));
    assert_eq!(replace(&chars("abc"), &chars(""), &chars("x")), chars("abc"));
    assert_eq!(replace(&chars("abc"), &chars("b"), &chars("")), chars("ac"));
}

#[test]
fn stripping_takes_every_copy() {
    assert_eq!(strip_leading(&chars("ababc"), "ab"), chars("c"));
    assert_eq!(strip_leading(&chars("abc"), "x"), chars("abc"));
    assert_eq!(strip_leading(&chars("abc"), ""), chars("abc"));
    assert_eq!(strip_trailing(&chars("a))"), ')'), chars("a"));
    assert_eq!(strip_trailing(&chars(")))"), ')'), chars(""));
}

#[test]
fn trimming_knows_unicode_space() {
    assert_eq!(trim(&chars(" \t\u{a0}a b\u{3000}\n")), chars("a b"));
    assert_eq!(trim(&chars("   ")), chars(""));
    for c in ['\t', '\n', '\u{b}', '\u{c}', '\r', ' ', '\u{85}', '\u{a0}', '\u{1680}', '\u{2000}',
        '\u{200a}', '\u{2028}', '\u{2029}', '\u{202f}', '\u{205f}', '\u{3000}']
    {
        assert!(space(c));
        assert!(c.is_whitespace());
    }
    for c in ['a', '\u{200b}', '\u{feff}', '\u{8}', '\u{e}'] {
        assert!(!space(c));
        assert!(!c.is_whitespace());
    }
}

#[test]
fn case_changes_are_ascii_only() {
    assert_eq!(to_lower('A'), 'a');
    assert_eq!(to_lower('Z'), 'z');
    assert_eq!(to_lower('É'), 'É');
    assert_eq!(to_upper('a'), 'A');
    assert_eq!(to_upper('z'), 'Z');
    assert_eq!(to_upper('1'), '1');
    assert_eq!(to_ascii_lowercase(&chars("CtRl-É")), chars("ctrl-É"));
}

#[test]
fn counting_and_splitting() {
    assert_eq!(count_of(&chars("<a><b>"), '<'), 2);
    assert_eq!(count_of(&chars(""), '<'), 0);
    assert_eq!(split(&chars("a><b><c"), &chars("><")), vec![chars("a"), chars("b"), chars("c")]);
    assert_eq!(split(&chars("abc"), &chars("><")), vec![chars("abc")]);
    assert_eq!(split(&chars("><"), &chars("><")), vec![chars(""), chars("")]);
    assert_eq!(split(&chars(""), &chars(",")), vec![chars("")]);
    assert_eq!(split(&chars("a,,b"), &chars(",")), vec![chars("a"), chars(""), chars("b")]);
    assert_eq!(split(&chars("abc"), &chars("")), vec![chars("abc")]);
}

#[test]
fn numbers_are_read_like_the_standard_library() {
    for text in ["0", "7", "+7", "007", "255", "256", "", "+", "-", "-1", "1a", "a1", "999x",
        "9x99", "++1", " 1", "65535", "65536"]
    {
        let mine = parse_number(&chars(text), 255);
        let std = text.parse::<u8>();
        match (mine, std) {
            (Ok(a), Ok(b)) => assert_eq!(a, b as u32, "{}", text),
            (Err(NumberError::Empty), Err(e)) => {
                assert_eq!(*e.kind(), std::num::IntErrorKind::Empty, "{}", text)
            }
            (Err(NumberError::InvalidDigit), Err(e)) => {
                assert_eq!(*e.kind(), std::num::IntErrorKind::InvalidDigit, "{}", text)
            }
            (Err(NumberError::Overflow), Err(e)) => {
                assert_eq!(*e.kind(), std::num::IntErrorKind::PosOverflow, "{}", text)
            }
            (a, b) => panic!("{}: {:?} against {:?}", text, a, b),
        }
        let mine = parse_number(&chars(text), 65535);
        let std = text.parse::<u16>();
        assert_eq!(mine.is_ok(), std.is_ok(), "{}", text);
    }
}

#[test]
fn decimal_digits() {
    assert_eq!(decimal_of(0), chars("0"));
    assert_eq!(decimal_of(9), chars("9"));
    assert_eq!(decimal_of(10), chars("10"));
    assert_eq!(decimal_of(65535), chars("65535"));
    assert_eq!(decimal_of(u32::MAX), chars("4294967295"));
}
