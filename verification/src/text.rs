//! Byte-to-text decoding shared by the output buffer and the relay.

use vstd::prelude::*;

verus! {

/// The sequence of characters that lossy UTF-8 decoding yields for `bytes`.
/// The result depends on the bytes alone; on well-formed UTF-8 it agrees with
/// `vstd::utf8::decode_utf8`, and on ill-formed input each invalid sequence
/// stands as a replacement character.
pub uninterp spec fn lossy_decode(bytes: Seq<u8>) -> Seq<char>;

/// Relies on `String::from_utf8_lossy`: the decoding is a function of the
/// bytes alone, and on valid UTF-8 it is exactly the UTF-8 decoding.
#[verifier::external_body]
pub(crate) fn decode_lossy(bytes: &[u8]) -> (r: String)
    ensures
        r@ == lossy_decode(bytes@),
        vstd::utf8::valid_utf8(bytes@) ==> r@ == vstd::utf8::decode_utf8(bytes@),
{
    String::from_utf8_lossy(bytes).into_owned()
}

} // verus!
