use tg_adapter::decimal::{i64_text, parse_i32, parse_i64, u64_text};
use tg_adapter::text::{
    chars_of, contains_before, find_char, is_whitespace, trim_from, trim_start,
};

#[test]
fn whitespace_is_that_of_unicode() {
    for v in 0..=0x10ffffu32 {
        if let Some(c) = char::from_u32(v) {
            assert_eq!(is_whitespace(c), c.is_whitespace(), "{v:#x}");
        }
    }
}

#[test]
fn characters_are_taken_in_order() {
    assert_eq!(chars_of("a\u{e9}\u{1f600}"), vec!['a', '\u{e9}', '\u{1f600}']);
    assert_eq!(chars_of(""), Vec::<char>::new());
}

#[test]
fn first_character_is_found() {
    let chars = chars_of("a,b,c");
    assert_eq!(find_char(&chars, 0, ','), 1);
    assert_eq!(find_char(&chars, 2, ','), 3);
    assert_eq!(find_char(&chars, 4, ','), 5);
    assert_eq!(find_char(&chars, 5, ','), 5);
}

#[test]
fn needle_is_looked_for_before_the_end() {
    let chars = chars_of("data:image/png;base64,base64");
    let needle = chars_of("base64");
    assert!(contains_before(&chars, 21, &needle));
    assert!(!contains_before(&chars, 20, &needle));
    assert!(contains_before(&chars, 28, &needle));
    assert!(contains_before(&chars_of("bbase64"), 7, &needle));
    assert!(!contains_before(&chars_of("base6"), 5, &needle));
    assert!(contains_before(&chars_of(""), 0, &Vec::new()));
}

#[test]
fn trimming_agrees_with_std() {
    for s in ["", " ", "a", "  a b  ", "\u{3000}\u{a0}x\u{2028}", "\n\t", "\u{200b}a\u{200b}", "\u{1f600} "] {
        assert_eq!(trim_start(s), s.trim_start());
        assert_eq!(trim_from(s, &chars_of(s), 0), s.trim());
    }
    assert_eq!(trim_from("ab cd ", &chars_of("ab cd "), 2), "cd");
    assert_eq!(trim_from("ab", &chars_of("ab"), 2), "");
}

#[test]
fn parsing_agrees_with_std() {
    let texts = [
        "", "+", "-", "0", "-0", "+0", "7", "007", "-007", "+42", "--1", "+-1", "1+", " 1", "1 ",
        "12a", "a12", "1_000", "0x10", "\u{664}", "2147483647", "2147483648", "-2147483648",
        "-2147483649", "9223372036854775807", "9223372036854775808", "-9223372036854775808",
        "-9223372036854775809", "99999999999999999999999", "-1001234567890",
        "0000000000000000000000000000001",
    ];
    for s in texts {
        assert_eq!(parse_i64(s), s.parse::<i64>().ok(), "{s}");
        assert_eq!(parse_i32(s), s.parse::<i32>().ok(), "{s}");
    }
}

#[test]
fn numbers_are_written_as_by_std() {
    for n in [0u64, 1, 9, 10, 99, 100, 1234567890, u64::MAX] {
        assert_eq!(u64_text(n), n.to_string());
    }
    for n in [0i64, -1, -9, -10, 5, 1001234567890, -1001234567890, i64::MAX, i64::MIN] {
        assert_eq!(i64_text(n), n.to_string());
    }
}

#[test]
fn written_number_reads_back() {
    for n in [0i64, -1, 10, -1001234567890, i64::MAX, i64::MIN] {
        assert_eq!(parse_i64(&i64_text(n)), Some(n));
    }
}
