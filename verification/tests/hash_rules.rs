use launcher_core::hash::{digest_to_hex, md5_bytes, Md5Hasher};

#[test]
fn md5_known_empty() {
    assert_eq!(Md5Hasher::new().finish(), "d41d8cd98f00b204e9800998ecf8427e");
    assert_eq!(md5_bytes(b""), "d41d8cd98f00b204e9800998ecf8427e");
}

#[test]
fn md5_known_hello() {
    let mut h = Md5Hasher::new();
    h.update(b"hello");
    assert_eq!(h.finish(), "5d41402abc4b2a76b9719d911017c592");
    assert_eq!(md5_bytes(b"hello"), "5d41402abc4b2a76b9719d911017c592");
}

#[test]
fn hex_is_lower_case_high_half_first() {
    assert_eq!(digest_to_hex(&[0x00, 0x0f, 0xa0, 0xff]), "000fa0ff");
}

#[test]
fn chunked_digest_matches_one_piece() {
    let mut h = Md5Hasher::new();
    h.update(b"hel");
    h.update(b"");
    h.update(b"lo");
    assert_eq!(h.finish(), "5d41402abc4b2a76b9719d911017c592");
    assert_eq!(Md5Hasher::new().finish(), md5_bytes(b""));
    let data: Vec<u8> = (0..200_000u32).map(|i| (i % 251) as u8).collect();
    let mut h = Md5Hasher::new();
    for chunk in data.chunks(65_536) {
        h.update(chunk);
    }
    assert_eq!(h.finish(), md5_bytes(&data));
}
