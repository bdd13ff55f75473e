use bex_auth::text::{
    chars_of, format_decimal, is_white_space, join, parse_u64, same_text, second_segment,
    split_words, starts_with, trim_end,
};

fn strings(list: &[&str]) -> Vec<String> {
    list.iter().map(|s| s.to_string()).collect()
}

#[test]
fn white_space_is_that_of_unicode() {
    for c in '\0'..=char::MAX {
        assert_eq!(is_white_space(c), c.is_whitespace(), "{:?}", c);
    }
}

#[test]
fn words_are_split_at_white_space() {
    for sample in ["", " ", "a", " a", "a ", "a b", "\ta\u{2003}b\r\n c\u{3000}", "\u{e9} x"] {
        let expected: Vec<String> = sample.split_whitespace().map(str::to_string).collect();
        assert_eq!(split_words(sample), expected, "{sample:?}");
    }
}

#[test]
fn joined_words_split_into_the_same_words() {
    let list = strings(&["openid", "offline_access", "bex.read"]);
    assert_eq!(join(&list, " "), "openid offline_access bex.read");
    assert_eq!(split_words(&join(&list, " ")), list);
    assert_eq!(join(&strings(&[]), " "), "");
    assert_eq!(join(&strings(&["a"]), ", "), "a");
    assert_eq!(join(&strings(&["a", "", "b"]), ", "), "a, , b");
}

#[test]
fn second_segment_is_what_stands_between_the_first_two_marks() {
    for sample in ["", "a", ".", "a.", ".b", "a.b", "a.b.c", "a..c", "\u{e9}.\u{e9}\u{e9}.x"] {
        let expected = sample.split('.').nth(1).map(str::to_string);
        assert_eq!(second_segment(sample, '.'), expected, "{sample:?}");
    }
}

#[test]
fn marks_are_trimmed_from_the_end() {
    for sample in ["", "/", "//", "a", "a/", "a//", "/a/b//", "\u{e9}/"] {
        assert_eq!(trim_end(sample, '/'), sample.trim_end_matches('/'), "{sample:?}");
    }
}

#[test]
fn numerals_read_as_std_reads_them() {
    for sample in [
        "", "+", "-", "0", "+0", "-0", "007", "42", "+42", "-42", "4 2", " 42", "42 ", "4x", "++1",
        "18446744073709551615", "18446744073709551616", "99999999999999999999999", "\u{664}",
        "00000000000000000000000000000000001",
    ] {
        assert_eq!(parse_u64(sample), sample.parse::<u64>().ok(), "{sample:?}");
    }
}

#[test]
fn decimal_reads_back() {
    for n in [0, 1, 9, 10, 11, 99, 100, 418, 65535, u64::MAX - 1, u64::MAX] {
        assert_eq!(format_decimal(n), n.to_string());
        assert_eq!(parse_u64(&format_decimal(n)), Some(n));
    }
}

#[test]
fn texts_are_compared_by_their_characters() {
    assert!(same_text("", ""));
    assert!(same_text("slow_down", "slow_down"));
    assert!(!same_text("slow_down", "slow_dow"));
    assert!(!same_text("slow_down", "Slow_down"));
    assert!(starts_with("oauth.bex.co", "oauth."));
    assert!(starts_with("a", ""));
    assert!(!starts_with("oauth", "oauth."));
    assert_eq!(chars_of("a\u{e9}\u{1f600}"), ['a', '\u{e9}', '\u{1f600}']);
}
