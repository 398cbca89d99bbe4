//! The two base64 conversions of the wire format, behind trusted wrappers.
//!
//! What base64 produces is named, not written out: [`b64_of`] and
//! [`b64_decode_of`] stand for the outside crate's encoding and decoding,
//! and every contract that mentions base64 speaks through these names.

use vstd::prelude::*;

verus! {

/// The base64 form (standard alphabet, padded) of a byte string.
pub uninterp spec fn b64_of(bytes: Seq<u8>) -> Seq<char>;

/// The bytes a base64 decoder yields for a character sequence, `None` when
/// the sequence is not valid base64 (standard alphabet, padding optional).
pub uninterp spec fn b64_decode_of(s: Seq<char>) -> Option<Seq<u8>>;

/// Relies on `base64::encode`: the standard-alphabet, padded base64 form of
/// the input, a function of the input bytes alone; its characters are ASCII,
/// and decoding it gives the input back.
#[verifier::external_body]
pub(crate) fn b64_encode(bytes: &Vec<u8>) -> (r: String)
    ensures
        r@ == b64_of(bytes@),
        forall|i: int| 0 <= i < r@.len() ==> (#[trigger] r@[i] as u32) < 128,
        b64_decode_of(r@) == Some(bytes@),
{
    base64::encode(bytes)
}

/// Relies on `base64::decode`: decodes the standard alphabet, tolerating
/// absent padding; `Some` exactly on valid input, a function of the input
/// characters alone.
#[verifier::external_body]
pub(crate) fn b64_decode(s: &str) -> (r: Option<Vec<u8>>)
    ensures
        r matches Some(b) ==> b64_decode_of(s@) == Some(b@),
        r is Some <==> b64_decode_of(s@) is Some,
{
    base64::decode(s).ok()
}

} // verus!
