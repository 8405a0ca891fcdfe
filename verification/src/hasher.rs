//! One-way digests of tokens. Only these digests are ever persisted; the raw
//! token stays with its holder.
use vstd::prelude::*;

verus! {

/// The SHA-256 digest of a byte string.
pub uninterp spec fn sha256_digest(input: Seq<u8>) -> Seq<u8>;

/// The SHA-512 digest of a byte string.
pub uninterp spec fn sha512_digest(input: Seq<u8>) -> Seq<u8>;

/// The lowercase hexadecimal digit for a value below 16.
pub open spec fn hex_digit(n: int) -> char {
    if n < 10 {
        (48 + n) as u8 as char
    } else {
        (87 + n) as u8 as char
    }
}

/// Two lowercase hexadecimal digits per byte, high half first.
pub open spec fn hex_text(bytes: Seq<u8>) -> Seq<char> {
    Seq::new(
        2 * bytes.len(),
        |i: int|
            if i % 2 == 0 {
                hex_digit(bytes[i / 2] as int / 16)
            } else {
                hex_digit(bytes[i / 2] as int % 16)
            },
    )
}

/// What is stored in place of a token: the hex text of its SHA-256 digest.
pub open spec fn sha256_hex(input: Seq<char>) -> Seq<char> {
    hex_text(sha256_digest(vstd::utf8::encode_utf8(input)))
}

/// The hex text of the SHA-512 digest of a string.
pub open spec fn sha512_hex(input: Seq<char>) -> Seq<char> {
    hex_text(sha512_digest(vstd::utf8::encode_utf8(input)))
}

/// Calls `sha2::Sha256::digest` (the `Digest` trait's one-shot function) and
/// copies the output array into a vector. Trusted: the result is the named
/// digest of the input, and SHA-256 output is 32 bytes long.
#[verifier::external_body]
pub(crate) fn sha256(input: &[u8]) -> (r: Vec<u8>)
    ensures
        r@ == sha256_digest(input@),
        r@.len() == 32,
{
    <sha2::Sha256 as sha2::Digest>::digest(input).to_vec()
}

/// Calls `sha2::Sha512::digest` and copies the output array into a vector.
/// Trusted: the result is the named digest of the input, 64 bytes long.
#[verifier::external_body]
pub(crate) fn sha512(input: &[u8]) -> (r: Vec<u8>)
    ensures
        r@ == sha512_digest(input@),
        r@.len() == 64,
{
    <sha2::Sha512 as sha2::Digest>::digest(input).to_vec()
}

/// Calls `hex::encode`. Trusted: every byte becomes two lowercase hex digits,
/// in order.
#[verifier::external_body]
pub(crate) fn hex_encode(bytes: &Vec<u8>) -> (r: String)
    ensures
        r@ == hex_text(bytes@),
{
    hex::encode(bytes)
}

/// SHA-512 of the UTF-8 bytes of `input`, as lowercase hex.
pub fn hash_sha512(input: &str) -> (r: String)
    ensures
        r@ == sha512_hex(input@),
        r@.len() == 128,
{
    let digest = sha512(input.as_bytes());
    hex_encode(&digest)
}

/// SHA-256 of the UTF-8 bytes of `input`, as lowercase hex.
pub fn hash_sha256(input: &str) -> (r: String)
    ensures
        r@ == sha256_hex(input@),
        r@.len() == 64,
{
    let digest = sha256(input.as_bytes());
    hex_encode(&digest)
}

} // verus!
