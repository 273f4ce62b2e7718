use social_media_app::utils::text::{contains_text, push_decimal, push_signed_decimal, text_byte_len};

#[test]
fn decimal_notation() {
    let mut s = String::from("n=");
    push_decimal(&mut s, 0);
    assert_eq!(s, "n=0");
    let mut s = String::new();
    push_decimal(&mut s, u64::MAX);
    assert_eq!(s, "18446744073709551615");
    let mut s = String::new();
    push_signed_decimal(&mut s, -45);
    assert_eq!(s, "-45");
    let mut s = String::new();
    push_signed_decimal(&mut s, i64::MIN);
    assert_eq!(s, "-9223372036854775808");
}

#[test]
fn byte_length_counts_utf8_bytes() {
    assert_eq!(text_byte_len("abcd"), 4);
    assert_eq!(text_byte_len("žabe"), 5);
    assert_eq!(text_byte_len(""), 0);
}

#[test]
fn substring_search() {
    assert!(contains_text("duplicate key value violates unique constraint", "unique"));
    assert!(contains_text("abc", ""));
    assert!(!contains_text("connection refused", "duplicate"));
    assert!(!contains_text("ab", "abc"));
    assert!(contains_text("xxunique", "unique"));
}
