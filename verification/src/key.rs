//! Keys: the lower-case hexadecimal SHA-256 digest of a text's UTF-8 bytes.

use sha2::Digest;
use vstd::prelude::*;
use vstd::utf8::encode_utf8;

verus! {

/// The SHA-256 digest of a message, as `sha2` computes it.
pub uninterp spec fn sha256(message: Seq<u8>) -> Seq<u8>;

/// Calls `sha2::Sha256::digest`. The contract names the digest and adds its
/// length, which the hasher's output type fixes at 32 bytes; nothing else is
/// claimed of it.
#[verifier::external_body]
fn sha256_digest(message: &[u8]) -> (digest: Vec<u8>)
    ensures
        digest@ == sha256(message@),
        digest@.len() == 32,
{
    sha2::Sha256::digest(message).to_vec()
}

/// The sixteen lower-case hexadecimal digits, in order of value.
pub open spec fn hex_digits() -> Seq<char> {
    seq!['0', '1', '2', '3', '4', '5', '6', '7', '8', '9', 'a', 'b', 'c', 'd', 'e', 'f']
}

/// Two digits for each byte, the high half first.
pub open spec fn hex_lower(bytes: Seq<u8>) -> Seq<char> {
    Seq::new(
        2 * bytes.len(),
        |i: int|
            if i % 2 == 0 {
                hex_digits()[bytes[i / 2] as int / 16]
            } else {
                hex_digits()[bytes[i / 2] as int % 16]
            },
    )
}

/// Calls `hex::encode`, which writes each byte as two lower-case digits, the
/// high four bits first.
#[verifier::external_body]
fn hex_encode(bytes: &Vec<u8>) -> (text: String)
    ensures
        text@ == hex_lower(bytes@),
{
    hex::encode(bytes)
}

/// The key under which a text's vector is stored.
pub open spec fn key_of(text: Seq<char>) -> Seq<char> {
    hex_lower(sha256(encode_utf8(text)))
}

/// Derives the key of `text`. The same text always gives the same key, in
/// every process, and every key has 64 characters.
pub fn text_key(text: &str) -> (key: String)
    ensures
        key@ == key_of(text@),
        key@.len() == 64,
{
    let digest = sha256_digest(text.as_bytes());
    hex_encode(&digest)
}

} // verus!
