use sidecar_supervisor::scan::{concat_bytes, contains_bytes, find_seq};

#[test]
fn finds_first_occurrence() {
    assert_eq!(find_seq(b"abcabc", b"bc"), Some(1));
    assert_eq!(find_seq(b"abcabc", b"abc"), Some(0));
    assert_eq!(find_seq(b"abcabc", b"ca"), Some(2));
}

#[test]
fn reports_absence() {
    assert_eq!(find_seq(b"abcabc", b"cb"), None);
    assert!(!contains_bytes(b"short", b"much longer needle"));
}

#[test]
fn empty_needle_occurs_everywhere() {
    assert_eq!(find_seq(b"abc", b""), Some(0));
    assert!(contains_bytes(b"", b""));
}

#[test]
fn concatenates_byte_strings() {
    assert_eq!(concat_bytes(b"/home", b"/user"), b"/home/user".to_vec());
    assert_eq!(concat_bytes(b"", b"x"), b"x".to_vec());
    assert_eq!(concat_bytes(b"x", b""), b"x".to_vec());
}
