//! Trusted boundary to the two decoders that credential checking needs:
//! base64 and UTF-8.
use vstd::prelude::*;

verus! {

use vstd::utf8::decode_utf8;
use vstd::utf8::valid_utf8;

/// The outcome of decoding standard-alphabet base64: `None` where the input
/// is not valid base64, otherwise the decoded bytes. The outcome depends on
/// the input bytes alone.
pub uninterp spec fn base64_decoding(code: Seq<u8>) -> Option<Seq<u8>>;

/// Relies on base64's `Engine::decode` with the `STANDARD` engine: decoding
/// either fails or returns bytes, and its outcome is a function of the input
/// bytes alone.
#[verifier::external_body]
pub(crate) fn base64_decode(code: &[u8]) -> (r: Option<Vec<u8>>)
    ensures
        r is Some <==> base64_decoding(code@) is Some,
        r matches Some(decoded) ==> base64_decoding(code@) == Some(decoded@),
{
    base64::Engine::decode(&base64::engine::general_purpose::STANDARD, code).ok()
}

/// Relies on `String::from_utf8`: it succeeds exactly on valid UTF-8 input
/// and then returns the characters that the bytes encode.
#[verifier::external_body]
pub(crate) fn utf8_decode(bytes: Vec<u8>) -> (r: Option<String>)
    ensures
        r is Some <==> valid_utf8(bytes@),
        r matches Some(text) ==> text@ == decode_utf8(bytes@),
{
    String::from_utf8(bytes).ok()
}

} // verus!
