//! Text of 128-bit identifiers in the hyphenated UUID form.
use vstd::prelude::*;

use crate::digest::spec_hex;

verus! {

/// The 16 bytes of `id`, most significant first.
pub open spec fn spec_be_bytes(id: u128) -> Seq<u8> {
    Seq::new(16, |i: int| ((id as nat / vstd::arithmetic::power::pow(256, (15 - i) as nat) as nat) % 256) as u8)
}

/// `8-4-4-4-12` groups of lower-case hex digits of the big-endian bytes.
pub open spec fn spec_uuid_text(id: u128) -> Seq<char> {
    let h = spec_hex(spec_be_bytes(id));
    h.subrange(0, 8) + "-"@ + h.subrange(8, 12) + "-"@ + h.subrange(12, 16) + "-"@ + h.subrange(16, 20) + "-"@
        + h.subrange(20, 32)
}

/// `uuid::Uuid::from_u128(id).to_string()`: the hyphenated lower-case form
/// of the UUID whose big-endian value is `id`.
#[verifier::external_body]
pub(crate) fn uuid_text(id: u128) -> (r: String)
    ensures
        r@ == spec_uuid_text(id),
{
    uuid::Uuid::from_u128(id).to_string()
}

} // verus!
