use video_pipeline::text::{
    byte_len, chars_of, contains, decimal, ends_with_char, starts_with, starts_with_char,
};

#[test]
fn numbers_in_base_ten() {
    assert_eq!(decimal(0), "0");
    assert_eq!(decimal(7), "7");
    assert_eq!(decimal(10), "10");
    assert_eq!(decimal(96), "96");
    assert_eq!(decimal(1024), "1024");
    assert_eq!(decimal(1_000_000_007), "1000000007");
    assert_eq!(decimal(u64::MAX), "18446744073709551615");
    for number in [1u64, 9, 11, 99, 100, 101, 65535, 4294967295, 12345678901234567] {
        assert_eq!(decimal(number), number.to_string());
    }
}

#[test]
fn prefixes() {
    assert!(starts_with("rtsp://x", "rtsp://"));
    assert!(starts_with("rtsp://", "rtsp://"));
    assert!(starts_with("abc", ""));
    assert!(starts_with("", ""));
    assert!(!starts_with("", "a"));
    assert!(!starts_with("rtsp:/", "rtsp://"));
    assert!(!starts_with("xrtsp://", "rtsp://"));
    assert!(starts_with("héllo", "hé"));
    assert!(!starts_with("héllo", "he"));
    assert!(starts_with_char("/cam", '/'));
    assert!(!starts_with_char("cam/", '/'));
    assert!(!starts_with_char("", '/'));
}

#[test]
fn endings_and_occurrences() {
    assert!(ends_with_char("/cam/", '/'));
    assert!(ends_with_char("/", '/'));
    assert!(!ends_with_char("/cam", '/'));
    assert!(!ends_with_char("", '/'));
    assert!(contains("/a//b", "//"));
    assert!(contains("//", "//"));
    assert!(contains("/a/b//", "//"));
    assert!(!contains("/a/b/", "//"));
    assert!(!contains("/", "//"));
    assert!(!contains("", "//"));
    assert!(contains("", ""));
    assert!(contains("abc", ""));
    assert!(contains("abcabd", "abd"));
    assert!(!contains("ababab", "abc"));
}

#[test]
fn characters_and_bytes() {
    assert_eq!(chars_of("a/é"), vec!['a', '/', 'é']);
    assert!(chars_of("").is_empty());
    assert_eq!(byte_len("a/é"), 4);
    assert_eq!(byte_len(""), 0);
}
