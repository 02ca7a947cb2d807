use sazgar::text::{
    chars_of, contains, decimal_text, join_from, lines, parse_u32, split_chars, starts_with,
    text_of_all, trim_matches, trim_suffixes, words,
};

fn strings(pieces: &[Vec<char>]) -> Vec<String> {
    pieces.iter().map(|p| p.iter().collect()).collect()
}

#[test]
fn trim_matches_strips_both_ends() {
    assert_eq!(trim_matches("\"\"abc\"", '"'), "abc");
    assert_eq!(trim_matches("a\"b", '"'), "a\"b");
    assert_eq!(trim_matches("\"\"\"", '"'), "");
    assert_eq!(trim_matches("", '"'), "");
}

#[test]
fn parse_u32_reads_decimal() {
    assert_eq!(parse_u32("0"), Some(0));
    assert_eq!(parse_u32("000123"), Some(123));
    assert_eq!(parse_u32("+"), None);
    assert_eq!(parse_u32(" 1"), None);
    assert_eq!(parse_u32("99999999999999999999"), None);
}

#[test]
fn lines_follow_line_feeds() {
    assert!(lines(&chars_of("")).is_empty());
    assert_eq!(strings(&lines(&chars_of("a\r\nb\n"))), vec!["a", "b"]);
    assert_eq!(strings(&lines(&chars_of("a\n\nb"))), vec!["a", "", "b"]);
    assert_eq!(strings(&lines(&chars_of("a\r"))), vec!["a\r"]);
    assert_eq!(strings(&split_chars(&chars_of("x||y"), '|')), vec!["x", "", "y"]);
}

#[test]
fn words_skip_white_space() {
    assert_eq!(strings(&words(&chars_of("  one\ttwo\u{3000}three  "))), vec!["one", "two", "three"]);
    assert!(words(&chars_of(" \n ")).is_empty());
    let w = words(&chars_of("a b c d"));
    assert_eq!(join_from(&w, 1), "b c d");
    assert_eq!(join_from(&w, 4), "");
}

#[test]
fn prefixes_infixes_and_suffixes() {
    assert!(starts_with(&chars_of("/proc/1"), &chars_of("/proc")));
    assert!(!starts_with(&chars_of("/pr"), &chars_of("/proc")));
    assert!(contains(&chars_of("fuse.overlayfs"), &chars_of("overlay")));
    assert!(contains(&chars_of("x"), &chars_of("")));
    assert!(!contains(&chars_of("ext4"), &chars_of("tmpfs")));
    assert_eq!(trim_suffixes(&chars_of("a.service.service"), &chars_of(".service")), "a");
    assert_eq!(trim_suffixes(&chars_of("a.serv"), &chars_of(".service")), "a.serv");
    assert_eq!(text_of_all(&chars_of("héllo")), "héllo");
}

#[test]
fn decimal_text_has_no_leading_zeros() {
    assert_eq!(decimal_text(0), "0");
    assert_eq!(decimal_text(10), "10");
    assert_eq!(decimal_text(u64::MAX), u64::MAX.to_string());
}
