//! Base64 text, as the `base64` crate reads and writes it.

use vstd::prelude::*;

verus! {

/// What `base64::decode` makes of `text`: the octets, or the message of the
/// error with which it refuses the text.
pub uninterp spec fn base64_decoding(text: Seq<char>) -> Result<Seq<u8>, Seq<char>>;

/// The text that `base64::encode` writes for `bytes`.
pub uninterp spec fn base64_encoding(bytes: Seq<u8>) -> Seq<char>;

/// The decoding of a text as plain sequences.
pub open spec fn decoding_view(r: Result<Vec<u8>, String>) -> Result<Seq<u8>, Seq<char>> {
    match r {
        Ok(bytes) => Ok(bytes@),
        Err(message) => Err(message@),
    }
}

/// Calls `base64::decode` (standard alphabet, padded) and turns its error into
/// the error's own message. The contract claims only that the outcome is a
/// function of the text, named [`base64_decoding`]. The call panics where the
/// length of the text plus three overflows `usize`, which no string reaches.
#[verifier::external_body]
pub(crate) fn decode_base64(text: &str) -> (r: Result<Vec<u8>, String>)
    ensures
        decoding_view(r) == base64_decoding(text@),
{
    base64::decode(text).map_err(|e| e.to_string())
}

/// Calls `base64::encode` (standard alphabet, padded). The contract claims
/// only that the text is a function of the octets, named
/// [`base64_encoding`]. The call panics where four thirds of the length
/// overflow `usize`, which no slice reaches.
#[verifier::external_body]
pub(crate) fn encode_base64(bytes: &[u8]) -> (r: String)
    ensures
        r@ == base64_encoding(bytes@),
{
    base64::encode(bytes)
}

} // verus!
