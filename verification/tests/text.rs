use github_update::text::{chars_of, read_u64, same_bytes, same_text};

#[test]
fn same_text_is_exact() {
    assert!(same_text("v1.0", "v1.0"));
    assert!(same_text("", ""));
    assert!(!same_text("v1.0", "V1.0"));
    assert!(!same_text("v1.0", "v1.0 "));
    assert!(!same_text("v1.0", "v1"));
    assert!(!same_text("", "a"));
    assert!(same_text("h\u{e9}llo", "h\u{e9}llo"));
    assert!(!same_text("h\u{e9}llo", "he\u{301}llo"));
}

#[test]
fn same_bytes_compares_every_byte() {
    assert!(same_bytes(b"abc", b"abc"));
    assert!(!same_bytes(b"abc", b"abd"));
    assert!(!same_bytes(b"abc", b"ab"));
    assert!(same_bytes(b"", b""));
}

#[test]
fn chars_of_lists_the_characters() {
    assert_eq!(chars_of("a/\u{e9}~"), vec!['a', '/', '\u{e9}', '~']);
    assert!(chars_of("").is_empty());
}

#[test]
fn read_u64_reads_decimal_numbers() {
    assert_eq!(read_u64(b"0"), Some(0));
    assert_eq!(read_u64(b"1000"), Some(1000));
    assert_eq!(read_u64(b"+1000"), Some(1000));
    assert_eq!(read_u64(b"0001000"), Some(1000));
    assert_eq!(read_u64(b"18446744073709551615"), Some(u64::MAX));
    assert_eq!(read_u64(b"000000000000000000000000000000000000007"), Some(7));
}

#[test]
fn read_u64_rejects_everything_else() {
    assert_eq!(read_u64(b""), None);
    assert_eq!(read_u64(b"+"), None);
    assert_eq!(read_u64(b"-1"), None);
    assert_eq!(read_u64(b"++1"), None);
    assert_eq!(read_u64(b"1+"), None);
    assert_eq!(read_u64(b" 1"), None);
    assert_eq!(read_u64(b"1 "), None);
    assert_eq!(read_u64(b"1_000"), None);
    assert_eq!(read_u64(b"1.0"), None);
    assert_eq!(read_u64(b"0x10"), None);
    assert_eq!(read_u64(b"12a"), None);
    assert_eq!(read_u64(b"18446744073709551616"), None);
    assert_eq!(read_u64(b"18446744073709551620"), None);
    assert_eq!(read_u64(b"99999999999999999999"), None);
    assert_eq!(read_u64(b"184467440737095516150"), None);
    assert_eq!(read_u64(&[0x31, 0xff]), None);
}

#[test]
fn read_u64_agrees_with_the_standard_parser() {
    let samples = [
        "", "+", "-", "0", "+0", "-0", "7", "+7", "42", "042", "4 2", "18446744073709551615",
        "18446744073709551616", "+18446744073709551615", "28446744073709551615", "1844674407370955161",
        "18446744073709551609", "a", "1a", "\u{663}",
    ];
    for s in samples {
        assert_eq!(read_u64(s.as_bytes()), s.parse::<u64>().ok(), "for {:?}", s);
    }
}
