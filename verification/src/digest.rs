//! SHA-256 digests and their lower-case hexadecimal rendering.
use vstd::prelude::*;

use crate::text::push_char;
use sha2::Digest;

verus! {

/// The SHA-256 digest of `data`, as computed by the `sha2` crate.
pub uninterp spec fn sha256_digest(data: Seq<u8>) -> Seq<u8>;

/// `sha2::Sha256::digest`: the 32-byte SHA-256 digest of `data`.
#[verifier::external_body]
pub(crate) fn sha256(data: &[u8]) -> (out: [u8; 32])
    ensures
        out@ == sha256_digest(data@),
{
    sha2::Sha256::digest(data).into()
}

/// Lower-case hexadecimal digit for a value below 16.
pub open spec fn spec_hex_digit(v: u8) -> char {
    if v < 10 {
        ((v + 48) as u8) as char
    } else {
        ((v + 87) as u8) as char
    }
}

/// `format!("{:x}", bytes)`: two lower-case digits per byte, high nibble first.
pub open spec fn spec_hex(bytes: Seq<u8>) -> Seq<char>
    decreases bytes.len(),
{
    if bytes.len() == 0 {
        Seq::empty()
    } else {
        spec_hex(bytes.drop_last()).push(spec_hex_digit(bytes.last() / 16)).push(
            spec_hex_digit(bytes.last() % 16),
        )
    }
}

/// Digits `2k` and `2k + 1` of the hex text of `bytes` are the high and low
/// nibble of byte `k`.
pub proof fn lemma_hex_digits(bytes: Seq<u8>)
    ensures
        spec_hex(bytes).len() == 2 * bytes.len(),
        forall|k: int|
            0 <= k < bytes.len() ==> spec_hex(bytes)[2 * k] == spec_hex_digit(#[trigger] bytes[k] / 16)
                && spec_hex(bytes)[2 * k + 1] == spec_hex_digit(bytes[k] % 16),
    decreases bytes.len(),
{
    if bytes.len() > 0 {
        let d = bytes.drop_last();
        lemma_hex_digits(d);
        assert forall|k: int| 0 <= k < bytes.len() implies spec_hex(bytes)[2 * k] == spec_hex_digit(
            #[trigger] bytes[k] / 16,
        ) && spec_hex(bytes)[2 * k + 1] == spec_hex_digit(bytes[k] % 16) by {
            if k < bytes.len() - 1 {
                assert(d[k] == bytes[k]);
            }
        }
    }
}

/// Hex digits are ASCII: `0`–`9` then `a`–`f`.
pub proof fn lemma_hex_digit_ascii(v: u8)
    requires
        v < 16,
    ensures
        spec_hex_digit(v) as u32 == (if v < 10 { v + 48 } else { v + 87 }),
        (spec_hex_digit(v) as u32) < 128,
{
}

fn hex_digit(v: u8) -> (c: char)
    requires
        v < 16,
    ensures
        c == spec_hex_digit(v),
{
    if v < 10 {
        (v + 48) as char
    } else {
        (v + 87) as char
    }
}

/// Renders bytes as lower-case hexadecimal.
pub fn hex_lower(bytes: &[u8]) -> (s: String)
    ensures
        s@ == spec_hex(bytes@),
        s@.len() == 2 * bytes@.len(),
{
    let mut s = String::new();
    let mut i: usize = 0;
    while i < bytes.len()
        invariant
            i <= bytes@.len(),
            s@ == spec_hex(bytes@.take(i as int)),
            s@.len() == 2 * i,
        decreases bytes.len() - i,
    {
        let b = bytes[i];
        push_char(&mut s, hex_digit(b / 16));
        push_char(&mut s, hex_digit(b % 16));
        assert(bytes@.take(i + 1).drop_last() == bytes@.take(i as int));
        i += 1;
    }
    assert(bytes@.take(bytes@.len() as int) == bytes@);
    s
}

/// Lower-case hexadecimal SHA-256 of a string's UTF-8 bytes.
pub fn sha256_hex(text: &str) -> (s: String)
    ensures
        s@ == spec_hex(sha256_digest(vstd::utf8::encode_utf8(text@))),
        s@.len() == 64,
{
    let digest = sha256(text.as_bytes());
    hex_lower(&digest)
}

} // verus!
