//! Content fingerprints and blob sizes.

use vstd::prelude::*;

verus! {

/// The lowercase hexadecimal BLAKE3 digest of a byte sequence.
pub uninterp spec fn blake3_hex(data: Seq<u8>) -> Seq<char>;

/// A lowercase hexadecimal digit.
pub open spec fn is_hex_digit(c: char) -> bool {
    ('0' <= c && c <= '9') || ('a' <= c && c <= 'f')
}

/// Relies on `blake3::hash` and `Hash::to_hex`: the digest of the bytes,
/// written as 64 lowercase hexadecimal digits.
#[verifier::external_body]
pub(crate) fn fingerprint(data: &[u8]) -> (r: String)
    ensures
        r@ == blake3_hex(data@),
        r@.len() == 64,
        forall|i: int| 0 <= i < r@.len() ==> is_hex_digit(#[trigger] r@[i]),
{
    blake3::hash(data).to_hex().to_string()
}

/// The largest blob the store keeps: its size must fit a signed 32-bit column.
pub const MAX_BLOB_SIZE: usize = 2147483647;

/// The size column of a blob of `len` bytes, or `None` when it is too large.
pub fn blob_size(len: usize) -> (r: Option<i32>)
    ensures
        len <= MAX_BLOB_SIZE <==> r is Some,
        r is Some ==> r->Some_0 as int == len as int,
{
    if len <= MAX_BLOB_SIZE {
        Some(len as i32)
    } else {
        None
    }
}

} // verus!
