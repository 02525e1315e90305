//! Hashing and hexadecimal text, as the device identifier needs them.

use sha2::Digest;
use vstd::prelude::*;

verus! {

/// The SHA-256 digest of a byte string.
pub uninterp spec fn sha256_digest(data: Seq<u8>) -> Seq<u8>;

/// SHA-256 of `data`, computed by `sha2::Sha256::digest`. Trusted: the result
/// is the digest of exactly these bytes and is 32 bytes long.
#[verifier::external_body]
pub(crate) fn sha256(data: &[u8]) -> (digest: Vec<u8>)
    ensures
        digest@ == sha256_digest(data@),
        digest@.len() == 32,
{
    sha2::Sha256::digest(data).to_vec()
}

/// The lower-case hexadecimal digit for a value below sixteen.
pub open spec fn hex_digit(nibble: int) -> char {
    seq!['0', '1', '2', '3', '4', '5', '6', '7', '8', '9', 'a', 'b', 'c', 'd', 'e', 'f'][nibble]
}

/// Lower-case hexadecimal text of a byte string: two digits per byte, the
/// high half first.
pub open spec fn hex_lower(data: Seq<u8>) -> Seq<char> {
    Seq::new(
        2 * data.len(),
        |i: int|
            if i % 2 == 0 {
                hex_digit(data[i / 2] as int / 16)
            } else {
                hex_digit(data[i / 2] as int % 16)
            },
    )
}

/// Hexadecimal text of `data`, written by `hex::encode`. Trusted: the crate
/// emits, for each byte in order, the lower-case digit of its high half and
/// then that of its low half.
#[verifier::external_body]
pub(crate) fn hex_encode(data: &[u8]) -> (text: String)
    ensures
        text@ == hex_lower(data@),
{
    hex::encode(data)
}

/// The value for which a hexadecimal digit stands.
pub open spec fn hex_value(digit: char) -> int {
    if digit == '0' {
        0
    } else if digit == '1' {
        1
    } else if digit == '2' {
        2
    } else if digit == '3' {
        3
    } else if digit == '4' {
        4
    } else if digit == '5' {
        5
    } else if digit == '6' {
        6
    } else if digit == '7' {
        7
    } else if digit == '8' {
        8
    } else if digit == '9' {
        9
    } else if digit == 'a' {
        10
    } else if digit == 'b' {
        11
    } else if digit == 'c' {
        12
    } else if digit == 'd' {
        13
    } else if digit == 'e' {
        14
    } else {
        15
    }
}

/// Every value below sixteen is read back from its digit, so no two of them
/// share a digit.
pub proof fn lemma_hex_digit_read_back(nibble: int)
    requires
        0 <= nibble < 16,
    ensures
        hex_value(hex_digit(nibble)) == nibble,
{
}

/// Hexadecimal text tells byte strings apart: two byte strings with the same
/// text are the same.
pub proof fn lemma_hex_lower_injective(a: Seq<u8>, b: Seq<u8>)
    requires
        hex_lower(a) == hex_lower(b),
    ensures
        a == b,
{
    assert(hex_lower(a).len() == 2 * a.len());
    assert(hex_lower(b).len() == 2 * b.len());
    assert forall|i: int| 0 <= i < a.len() implies a[i] == b[i] by {
        let high_a = a[i] as int / 16;
        let high_b = b[i] as int / 16;
        let low_a = a[i] as int % 16;
        let low_b = b[i] as int % 16;
        assert((2 * i) % 2 == 0 && (2 * i) / 2 == i);
        assert((2 * i + 1) % 2 == 1 && (2 * i + 1) / 2 == i);
        assert(hex_lower(a)[2 * i] == hex_digit(high_a));
        assert(hex_lower(b)[2 * i] == hex_digit(high_b));
        assert(hex_lower(a)[2 * i + 1] == hex_digit(low_a));
        assert(hex_lower(b)[2 * i + 1] == hex_digit(low_b));
        lemma_hex_digit_read_back(high_a);
        lemma_hex_digit_read_back(high_b);
        lemma_hex_digit_read_back(low_a);
        lemma_hex_digit_read_back(low_b);
    }
    assert(a =~= b);
}

} // verus!
