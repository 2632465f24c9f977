use std::time::Duration;

use sonoryn::clock::micros_of;
use sonoryn::number::{format_clock, parse_u64, NumberFault};
use sonoryn::text::{
    char_is_space, char_lower, contains_text, split_char, split_lines, starts_with, trim, trim_tail,
};

#[test]
fn white_space_is_the_unicode_property() {
    for code in 0..=0x10_ffff {
        if let Some(c) = char::from_u32(code) {
            assert_eq!(char_is_space(c), c.is_whitespace(), "{code:x}");
            assert_eq!(char_lower(c), c.to_ascii_lowercase(), "{code:x}");
        }
    }
}

#[test]
fn trimming_and_splitting_agree_with_the_standard_library() {
    for value in [
        "",
        " ",
        "a",
        " \u{3000}a b\u{85}\t",
        "one\ntwo\r\nthree",
        "\n\n",
        "x\r",
        "x\r\n",
        "a\r\r\nb",
        "a:b::c:",
        ":",
    ] {
        assert_eq!(trim(value), value.trim());
        assert_eq!(trim_tail(value), value.trim_end());
        assert_eq!(split_lines(value), value.lines().collect::<Vec<_>>());
        assert_eq!(split_char(value, ':'), value.split(':').collect::<Vec<_>>());
    }
}

#[test]
fn searching_agrees_with_the_standard_library() {
    assert!(contains_text("abcabd", "abd"));
    assert!(!contains_text("abcabc", "abd"));
    assert!(contains_text("", ""));
    assert!(starts_with("https://x", "https://"));
    assert!(!starts_with("http", "https://"));
}

#[test]
fn numbers_read_as_the_standard_library_reads_them() {
    for value in [
        "", "+", "-", "0", "+7", "-7", "007", "18446744073709551615", "18446744073709551616",
        "99999999999999999999x", "1844674407370955161x", "12 ", "٣",
    ] {
        let ours = parse_u64(value);
        let theirs = value.parse::<u64>();
        match (&ours, &theirs) {
            (Ok(ours), Ok(theirs)) => assert_eq!(ours, theirs),
            (Err(ours), Err(theirs)) => assert_eq!(ours.text(), theirs.to_string(), "{value}"),
            _ => panic!("{value}: {ours:?} {theirs:?}"),
        }
    }
    assert_eq!(parse_u64(""), Err(NumberFault::Empty));
    assert_eq!(parse_u64("x"), Err(NumberFault::InvalidDigit));
    assert_eq!(parse_u64("18446744073709551616"), Err(NumberFault::TooLarge));
}

#[test]
fn clocks_show_hours_only_where_there_are_any() {
    assert_eq!(format_clock(0), "0:00");
    assert_eq!(format_clock(59), "0:59");
    assert_eq!(format_clock(3_599), "59:59");
    assert_eq!(format_clock(3_600), "1:00:00");
    assert_eq!(format_clock(360_001), "100:00:01");
}

#[test]
fn spans_are_measured_in_whole_micros() {
    assert_eq!(micros_of(Duration::from_nanos(1_999)), 1);
    assert_eq!(micros_of(Duration::MAX), u64::MAX);
}
