use db_wrap::digest::{bytes_to_hide_hex, debug_hash_data, sha2_hash256};

#[test]
fn digest_of_abc() {
    let d = sha2_hash256(b"abc");
    assert_eq!(d.len(), 32);
    assert_eq!(
        d,
        vec![
            0xba, 0x78, 0x16, 0xbf, 0x8f, 0x01, 0xcf, 0xea, 0x41, 0x41, 0x40, 0xde, 0x5d, 0xae,
            0x22, 0x23, 0xb0, 0x03, 0x61, 0xa3, 0x96, 0x17, 0x7a, 0x9c, 0xb4, 0x10, 0xff, 0x61,
            0xf2, 0x00, 0x15, 0xad,
        ]
    );
}

#[test]
fn digest_of_nothing() {
    let d = sha2_hash256(b"");
    assert_eq!(d[0], 0xe3);
    assert_eq!(d[31], 0x55);
    assert_eq!(d.len(), 32);
}

#[test]
fn hidden_middle_shows_default_padding() {
    let bytes = [0x00u8, 0x01, 0x0a, 0xab, 0xff, 0x10];
    assert_eq!(bytes_to_hide_hex(&bytes, 2, 1, None), "0x0001...10");
    assert_eq!(bytes_to_hide_hex(&bytes, 1, 2, None), "0x00...ff10");
    assert_eq!(bytes_to_hide_hex(&bytes, 0, 0, None), "0x...");
    assert_eq!(bytes_to_hide_hex(&bytes, 0, 5, None), "0x...010aabff10");
}

#[test]
fn hidden_middle_shows_given_padding() {
    let bytes = [0xdeu8, 0xad, 0xbe, 0xef];
    assert_eq!(bytes_to_hide_hex(&bytes, 1, 1, Some("~")), "0xde~ef");
    assert_eq!(bytes_to_hide_hex(&bytes, 1, 1, Some("")), "0xdeef");
}

#[test]
fn nothing_hidden_shows_no_padding() {
    let bytes = [0xdeu8, 0xad, 0xbe, 0xef];
    assert_eq!(bytes_to_hide_hex(&bytes, 2, 2, None), "0xdeadbeef");
    assert_eq!(bytes_to_hide_hex(&bytes, 4, 0, Some("~")), "0xdeadbeef");
    assert_eq!(bytes_to_hide_hex(&bytes, 3, 3, None), "0xdeadbeef");
    assert_eq!(bytes_to_hide_hex(&bytes, 9, 0, None), "0xdeadbeef");
    assert_eq!(bytes_to_hide_hex(&bytes, 0, 9, Some("~")), "0xdeadbeef");
    assert_eq!(bytes_to_hide_hex(&bytes, usize::MAX, usize::MAX, None), "0xdeadbeef");
    assert_eq!(bytes_to_hide_hex(&[], 0, 0, None), "0x");
}

#[test]
fn abridged_digest_of_abc() {
    let s = debug_hash_data(b"abc");
    assert_eq!(s, "0xba7816bf8f01...ff61f20015ad");
    assert_eq!(s.len(), 29);
}
