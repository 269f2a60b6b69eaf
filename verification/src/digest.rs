//! Message digests, and their lowercase hexadecimal text.
use sha2::Digest;
use vstd::prelude::*;

verus! {

/// `Sha256::digest`: the SHA-256 digest of a byte string.
pub uninterp spec fn sha256_digest(bytes: Seq<u8>) -> Seq<u8>;

/// `Sha1::digest`: the SHA-1 digest of a byte string.
pub uninterp spec fn sha1_digest(bytes: Seq<u8>) -> Seq<u8>;

/// The SHA-256 digest of `bytes` (32 bytes).
#[verifier::external_body]
pub fn sha256(bytes: &[u8]) -> (r: Vec<u8>)
    ensures
        r@ == sha256_digest(bytes@),
        r@.len() == 32,
{
    sha2::Sha256::digest(bytes).to_vec()
}

/// The SHA-1 digest of `bytes` (20 bytes).
#[verifier::external_body]
pub fn sha1(bytes: &[u8]) -> (r: Vec<u8>)
    ensures
        r@ == sha1_digest(bytes@),
        r@.len() == 20,
{
    sha1::Sha1::digest(bytes).to_vec()
}

/// The lowercase hexadecimal digit of `n` (below 16).
pub open spec fn hex_digit(n: u8) -> char {
    seq!['0', '1', '2', '3', '4', '5', '6', '7', '8', '9', 'a', 'b', 'c', 'd', 'e', 'f'][n as int]
}

/// Each byte as two lowercase hexadecimal digits, high nibble first (`{:x}` of a digest).
pub open spec fn lower_hex(bytes: Seq<u8>) -> Seq<char>
    decreases bytes.len(),
{
    if bytes.len() == 0 {
        Seq::empty()
    } else {
        let b = bytes.last();
        lower_hex(bytes.drop_last()).push(hex_digit(b / 16)).push(hex_digit(b % 16))
    }
}

fn hex_digit_char(n: u8) -> (c: char)
    requires
        n < 16,
    ensures
        c == hex_digit(n),
{
    match n {
        0 => '0',
        1 => '1',
        2 => '2',
        3 => '3',
        4 => '4',
        5 => '5',
        6 => '6',
        7 => '7',
        8 => '8',
        9 => '9',
        10 => 'a',
        11 => 'b',
        12 => 'c',
        13 => 'd',
        14 => 'e',
        _ => 'f',
    }
}

/// A lowercase hexadecimal digit: `0` to `9` or `a` to `f`.
pub open spec fn is_lower_hex_digit(c: char) -> bool {
    ('0' <= c && c <= '9') || ('a' <= c && c <= 'f')
}

/// The lowercase hexadecimal text of `bytes`.
pub fn to_lower_hex(bytes: &[u8]) -> (r: String)
    ensures
        r@ == lower_hex(bytes@),
        r@.len() == 2 * bytes@.len(),
        forall|i: int| 0 <= i < r@.len() ==> is_lower_hex_digit(#[trigger] r@[i]),
{
    let mut out = String::new();
    let mut i: usize = 0;
    while i < bytes.len()
        invariant
            i <= bytes@.len(),
            out@ == lower_hex(bytes@.subrange(0, i as int)),
            out@.len() == 2 * i,
            forall|k: int| 0 <= k < out@.len() ==> is_lower_hex_digit(#[trigger] out@[k]),
        decreases bytes.len() - i,
    {
        let b = bytes[i];
        proof {
            let next = bytes@.subrange(0, i + 1);
            assert(next.drop_last() == bytes@.subrange(0, i as int));
            assert(next.last() == b);
        }
        crate::text::push_char(&mut out, hex_digit_char(b / 16));
        crate::text::push_char(&mut out, hex_digit_char(b % 16));
        i += 1;
    }
    proof {
        assert(bytes@.subrange(0, bytes@.len() as int) == bytes@);
    }
    out
}

} // verus!
