//! Base64 text for byte strings, used to write recorded traffic down compactly.
use vstd::prelude::*;
use base64::Engine;

verus! {

/// The base64 text of `bytes` in the standard alphabet without padding.
pub uninterp spec fn base64_no_pad_encoding(bytes: Seq<u8>) -> Seq<char>;

/// The bytes that a base64 text in the standard alphabet without padding
/// stands for, or nothing when the text is not such base64.
pub uninterp spec fn base64_no_pad_decoding(text: Seq<char>) -> Option<Seq<u8>>;

/// `base64::engine::general_purpose::STANDARD_NO_PAD.encode`, named by `base64_no_pad_encoding`.
#[verifier::external_body]
fn base64_encode(bytes: &[u8]) -> (r: String)
    ensures
        r@ == base64_no_pad_encoding(bytes@),
{
    base64::engine::general_purpose::STANDARD_NO_PAD.encode(bytes)
}

/// `base64::engine::general_purpose::STANDARD_NO_PAD.decode`, named by
/// `base64_no_pad_decoding`: nothing when the engine refuses the text.
#[verifier::external_body]
fn base64_decode(text: &str) -> (r: Option<Vec<u8>>)
    ensures
        base64_no_pad_decoding(text@) == match r {
            Some(v) => Some(v@),
            None => None,
        },
{
    match base64::engine::general_purpose::STANDARD_NO_PAD.decode(text) {
        Ok(v) => Some(v),
        Err(_) => None,
    }
}

/// The base64 text of `bytes` (standard alphabet, no padding).
pub fn encode_bytes(bytes: &[u8]) -> (r: String)
    ensures
        r@ == base64_no_pad_encoding(bytes@),
{
    base64_encode(bytes)
}

/// The bytes of a base64 text (standard alphabet, no padding); the text must be such base64.
pub fn decode_bytes(text: &str) -> (r: Vec<u8>)
    requires
        base64_no_pad_decoding(text@) is Some,
    ensures
        base64_no_pad_decoding(text@) == Some(r@),
{
    match base64_decode(text) {
        Some(v) => v,
        None => Vec::new(),
    }
}

/// The bytes of a base64 text (standard alphabet, no padding), or nothing when
/// the text is not such base64.
pub fn try_decode_bytes(text: &str) -> (r: Option<Vec<u8>>)
    ensures
        base64_no_pad_decoding(text@) == match r {
            Some(v) => Some(v@),
            None => None,
        },
{
    match base64_decode(text) {
        Some(_) => Some(decode_bytes(text)),
        None => None,
    }
}

} // verus!
