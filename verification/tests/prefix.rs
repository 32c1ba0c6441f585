use db_wrap::prefix::is_prefix;

#[test]
fn prefix_of_a_longer_key() {
    assert!(is_prefix(b"a/", b"a/1"));
    assert!(is_prefix(b"a/", b"a/"));
    assert!(is_prefix(b"a", b"a/1"));
}

#[test]
fn empty_prefix_matches_every_key() {
    assert!(is_prefix(b"", b"a/1"));
    assert!(is_prefix(b"", b""));
}

#[test]
fn key_shorter_than_prefix_does_not_match() {
    assert!(!is_prefix(b"a/1", b"a/"));
    assert!(!is_prefix(b"a", b""));
}

#[test]
fn differing_byte_does_not_match() {
    assert!(!is_prefix(b"a/", b"b/1"));
    assert!(!is_prefix(b"a/", b"a.1"));
    assert!(!is_prefix(b"ab", b"aa"));
    assert!(!is_prefix(&[0, 255], &[0, 254, 255]));
}
