//! The text encoding of failure reports: a reversible binary-to-text
//! alphabet, supplied by the `base64` crate.

use vstd::prelude::*;

verus! {

/// The base64 text (standard alphabet, padded) of a byte sequence.
pub uninterp spec fn b64_of(bytes: Seq<u8>) -> Seq<char>;

/// Relies on base64::encode: the standard-alphabet, padded encoding, a
/// function of the input bytes alone; it encodes an empty input to an empty
/// string and a non-empty input to a non-empty one.
#[verifier::external_body]
pub(crate) fn b64_encode(bytes: &Vec<u8>) -> (r: String)
    ensures
        r@ == b64_of(bytes@),
        bytes@.len() == 0 <==> r@.len() == 0,
{
    base64::encode(bytes.as_slice())
}

/// Relies on base64::decode: it inverts base64::encode, so on the encoding
/// of any byte sequence it returns exactly that sequence; a string that is
/// rejected is the encoding of no byte sequence.
#[verifier::external_body]
pub(crate) fn b64_decode(text: &str) -> (r: Option<Vec<u8>>)
    ensures
        r is None ==> forall|b: Seq<u8>| text@ != b64_of(b),
        r matches Some(v) ==> forall|b: Seq<u8>| text@ == b64_of(b) ==> v@ == b,
{
    match base64::decode(text) {
        Ok(v) => Some(v),
        Err(_) => None,
    }
}

} // verus!
