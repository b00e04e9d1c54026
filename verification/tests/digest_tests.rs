use modrinth_apitool::digest::{hex_sha512, verify_integrity};

const ABC_SHA512: &str = "ddaf35a193617abacc417349ae20413112e6fa4e89a97ea20a9eeee64b55d39a\
2192992a274fc1a836ba3c23a3feebbd454d4423643ce80e2a9ac94fa54ca49f";

const EMPTY_SHA512: &str = "cf83e1357eefb8bdf1542850d66d8007d620e4050b5715dc83f4a921d36ce9ce\
47d0d13c5d85f2b0ff8318d2877eec2f63b931bd47417a81a538327af927da3e";

#[test]
fn hex_digest_of_known_input() {
    assert_eq!(hex_sha512(b"abc"), ABC_SHA512);
}

#[test]
fn hex_digest_of_empty_input() {
    assert_eq!(hex_sha512(b""), EMPTY_SHA512);
}

#[test]
fn integrity_accepts_matching_digest() {
    assert!(verify_integrity(b"abc", ABC_SHA512));
}

#[test]
fn integrity_rejects_wrong_digest() {
    assert!(!verify_integrity(b"abc", EMPTY_SHA512));
    assert!(!verify_integrity(b"abcd", ABC_SHA512));
    assert!(!verify_integrity(b"abc", "ddaf35a1"));
}
