//! Lowercase hexadecimal text of a byte sequence.

use vstd::prelude::*;

verus! {

/// The sixteen lowercase hexadecimal digits, each at the index of its value.
pub open spec fn hex_digits() -> Seq<char> {
    seq!['0', '1', '2', '3', '4', '5', '6', '7', '8', '9', 'a', 'b', 'c', 'd', 'e', 'f']
}

/// The lowercase hexadecimal text of `bytes`: two digits for each byte, in order, the digit of
/// the high four bits before that of the low four bits.
pub open spec fn hex_lower(bytes: Seq<u8>) -> Seq<char> {
    Seq::new(
        2 * bytes.len(),
        |i: int|
            if i % 2 == 0 {
                hex_digits()[bytes[i / 2] as int / 16]
            } else {
                hex_digits()[bytes[i / 2] as int % 16]
            },
    )
}

/// Encodes `bytes` with `hex::encode`.
///
/// Trusted: the text that `hex::encode` returns holds two characters for each byte, in the order
/// of the bytes; the first is the entry of `0123456789abcdef` at the byte's high four bits, the
/// second the entry at its low four bits.
#[verifier::external_body]
pub(crate) fn hex_encode(bytes: &[u8]) -> (text: String)
    ensures
        text@ == hex_lower(bytes@),
{
    hex::encode(bytes)
}

/// Two digits of different values are different characters.
proof fn lemma_hex_digits_distinct(i: int, j: int)
    requires
        0 <= i < 16,
        0 <= j < 16,
        hex_digits()[i] == hex_digits()[j],
    ensures
        i == j,
{
}

/// The byte at index `k` stands in the text at `2 * k` and `2 * k + 1`, high four bits first.
pub proof fn lemma_hex_lower_at(bytes: Seq<u8>, k: int)
    requires
        0 <= k < bytes.len(),
    ensures
        hex_lower(bytes)[2 * k] == hex_digits()[bytes[k] as int / 16],
        hex_lower(bytes)[2 * k + 1] == hex_digits()[bytes[k] as int % 16],
{
    assert((2 * k) % 2 == 0 && (2 * k) / 2 == k);
    assert((2 * k + 1) % 2 == 1 && (2 * k + 1) / 2 == k);
}

/// Byte sequences with the same hexadecimal text are the same sequence: the text loses nothing.
pub proof fn lemma_hex_lower_injective(a: Seq<u8>, b: Seq<u8>)
    requires
        hex_lower(a) == hex_lower(b),
    ensures
        a == b,
{
    assert(2 * a.len() == hex_lower(a).len() == 2 * b.len());
    assert forall|k: int| 0 <= k < a.len() implies a[k] == b[k] by {
        lemma_hex_lower_at(a, k);
        lemma_hex_lower_at(b, k);
        lemma_hex_digits_distinct(a[k] as int / 16, b[k] as int / 16);
        lemma_hex_digits_distinct(a[k] as int % 16, b[k] as int % 16);
    }
    assert(a =~= b);
}

} // verus!
