//! Download integrity: the SHA-512 digest of the downloaded bytes,
//! rendered as lower-case hex, must equal the digest the registry
//! declared for the file.  The downloader performs the transfer; this
//! module decides whether the bytes may be kept.

use vstd::prelude::*;

use sha2::Digest;

use crate::text::str_eq;

verus! {

/// The SHA-512 digest of a byte sequence.  The digest is a function of
/// the bytes alone; nothing else is assumed of its value.
pub uninterp spec fn sha512_of(bytes: Seq<u8>) -> Seq<u8>;

/// The lower-case hex digit for a value below 16.
pub open spec fn hex_digit(d: int) -> char {
    if d < 10 {
        (d + 48) as char
    } else {
        (d + 87) as char
    }
}

/// The lower-case hex rendering of a byte sequence, high nibble first.
pub open spec fn hex_of(bytes: Seq<u8>) -> Seq<char> {
    Seq::new(
        bytes.len() * 2,
        |i: int|
            if i % 2 == 0 {
                hex_digit(bytes[i / 2] as int / 16)
            } else {
                hex_digit(bytes[i / 2] as int % 16)
            },
    )
}

/// Relies on sha2's `Sha512::digest`: the digest depends on the input
/// bytes alone and is 64 bytes long.
#[verifier::external_body]
fn sha512_digest(bytes: &[u8]) -> (out: Vec<u8>)
    ensures
        out@ == sha512_of(bytes@),
        out@.len() == 64,
{
    sha2::Sha512::digest(bytes).to_vec()
}

/// Relies on base16ct's `lower::encode_string`: each byte becomes two
/// lower-case hex digits, high nibble first.  The function panics when
/// the encoded length overflows, so the input is kept short enough.
#[verifier::external_body]
fn hex_encode_lower(bytes: &[u8]) -> (out: String)
    requires
        bytes@.len() <= usize::MAX / 2,
    ensures
        out@ == hex_of(bytes@),
{
    base16ct::lower::encode_string(bytes)
}

/// The lower-case hex SHA-512 digest of the bytes.
pub fn hex_sha512(bytes: &[u8]) -> (out: String)
    ensures
        out@ == hex_of(sha512_of(bytes@)),
{
    let digest = sha512_digest(bytes);
    hex_encode_lower(digest.as_slice())
}

/// Decides whether downloaded bytes match the expected digest: their
/// SHA-512 digest, hex-encoded in lower case, must equal `expected`.
/// Only on `true` may the bytes be written to disk.
pub fn verify_integrity(body: &[u8], expected: &str) -> (r: bool)
    ensures
        r == (hex_of(sha512_of(body@)) == expected@),
{
    let hex = hex_sha512(body);
    str_eq(hex.as_str(), expected)
}

} // verus!
