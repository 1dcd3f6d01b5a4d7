//! SHA-256 digests and their lowercase hexadecimal text.

use vstd::prelude::*;
use sha2::{Digest, Sha256};

verus! {

/// The SHA-256 digest of a byte sequence.
pub uninterp spec fn sha256_of(data: Seq<u8>) -> Seq<u8>;

/// The lowercase hexadecimal character of a value below 16.
pub open spec fn hex_char(nibble: u8) -> char {
    if nibble < 10 {
        (nibble + 48) as char
    } else {
        (nibble + 87) as char
    }
}

/// Lowercase hexadecimal text of a byte sequence: two characters per byte,
/// high nibble first.
pub open spec fn hex_lower(bytes: Seq<u8>) -> Seq<char>
    decreases bytes.len(),
{
    if bytes.len() == 0 {
        seq![]
    } else {
        let last = bytes.last();
        hex_lower(bytes.drop_last()) + seq![hex_char(last / 16), hex_char(last % 16)]
    }
}

/// Hexadecimal text has two characters per byte.
pub proof fn lemma_hex_lower_len(bytes: Seq<u8>)
    ensures
        hex_lower(bytes).len() == 2 * bytes.len(),
    decreases bytes.len(),
{
    if bytes.len() > 0 {
        lemma_hex_lower_len(bytes.drop_last());
    }
}

/// Computes the SHA-256 digest of `data` with `sha2::Sha256::digest`.
///
/// Trusted: the result is the digest of exactly these bytes, named
/// `sha256_of`, and it is 32 bytes long (SHA-256's output size, `U32` in the
/// crate).
#[verifier::external_body]
pub(crate) fn sha256(data: &[u8]) -> (res: Vec<u8>)
    ensures
        res@ == sha256_of(data@),
        res@.len() == 32,
{
    Sha256::digest(data).to_vec()
}

/// Encodes bytes as lowercase hexadecimal text with `hex::encode`.
///
/// Trusted: the crate's encoder walks the bytes in order and writes for each
/// the table entry of its high nibble, then that of its low nibble, from the
/// table `0123456789abcdef`; that is `hex_lower`.
#[verifier::external_body]
pub(crate) fn hex_encode(bytes: &[u8]) -> (res: String)
    ensures
        res@ == hex_lower(bytes@),
{
    hex::encode(bytes)
}

} // verus!
