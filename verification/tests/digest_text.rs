use dee::digest::{digest_sha384, hex_encode};
use sha2::{Digest, Sha384};

#[test]
fn hex_of_nothing_is_empty() {
    assert_eq!(hex_encode(&[]), "");
}

#[test]
fn hex_is_lowercase_high_half_first() {
    assert_eq!(hex_encode(&[0x00, 0x0f, 0xa5, 0xff, 0x10, 0x9a]), "000fa5ff109a");
}

#[test]
fn hex_of_every_byte_value() {
    let all: Vec<u8> = (0..=255u8).collect();
    let text = hex_encode(&all);
    assert_eq!(text.len(), 512);
    for (i, byte) in all.iter().enumerate() {
        assert_eq!(&text[2 * i..2 * i + 2], format!("{:02x}", byte));
    }
}

#[test]
fn digest_of_abc_is_the_published_value() {
    assert_eq!(
        digest_sha384(b"abc"),
        "cb00753f45a35e8bb5a03d699ac65007272c32ab0eded1631a8b605a43ff5bed\
         8086072ba1e7cc2358baeca134c825a7"
    );
}

#[test]
fn digest_of_nothing_is_the_published_value() {
    assert_eq!(
        digest_sha384(b""),
        "38b060a751ac96384cd9327eb1b1e36a21fdb71114be07434c0cc7bf63f6e1da\
         274edebfe76f65fbd51ad2f14898b95b"
    );
}

#[test]
fn digest_is_96_lowercase_hex_digits() {
    let digest = digest_sha384(b"{\"a\":1}");
    assert_eq!(digest.len(), 96);
    assert!(digest.chars().all(|c| matches!(c, '0'..='9' | 'a'..='f')));
}

#[test]
fn digest_agrees_with_the_hasher() {
    let data = b"{\"a\":1}";
    let mut hasher = Sha384::new();
    hasher.update(data);
    assert_eq!(digest_sha384(data), format!("{:x}", hasher.finalize()));
}

#[test]
fn flipping_one_byte_changes_the_digest() {
    let data = b"{\"a\":1}".to_vec();
    let digest = digest_sha384(&data);
    for i in 0..data.len() {
        let mut flipped = data.clone();
        flipped[i] ^= 0x01;
        assert_ne!(digest_sha384(&flipped), digest);
    }
}

#[test]
fn digest_tells_encodings_of_one_value_apart() {
    assert_ne!(digest_sha384(b"{\"a\":1}"), digest_sha384(b"{ \"a\": 1 }"));
}
