//! Base64 texts, produced by the `base64` crate.

use vstd::prelude::*;

verus! {

/// The standard base64 text of a sequence of bytes, with padding.
pub uninterp spec fn base64_text(bytes: Seq<u8>) -> Seq<char>;

/// The encoder can hold the text of so many bytes: four characters for every
/// three bytes, rounded up, fit in a `usize`.
pub open spec fn encodable(len: nat) -> bool {
    len / 3 * 4 + 4 <= usize::MAX
}

/// Tells whether the encoder can hold the text of so many bytes.
pub fn can_encode(len: usize) -> (fits: bool)
    ensures
        fits == encodable(len as nat),
{
    len / 3 <= (usize::MAX - 4) / 4
}

/// `Engine::encode` of `base64::engine::general_purpose::STANDARD`. Trusted:
/// the result is the standard base64 text of the bytes. The encoder panics
/// where the length of the text does not fit in a `usize`.
#[verifier::external_body]
pub(crate) fn base64_standard(bytes: &Vec<u8>) -> (text: String)
    requires
        encodable(bytes@.len()),
    ensures
        text@ == base64_text(bytes@),
{
    base64::Engine::encode(&base64::engine::general_purpose::STANDARD, bytes)
}

/// The URL-safe base64 text of a sequence of bytes, without padding.
pub uninterp spec fn base64_url_text(bytes: Seq<u8>) -> Seq<char>;

/// `Engine::encode` of `base64::engine::general_purpose::URL_SAFE_NO_PAD`.
/// Trusted: the result is the URL-safe base64 text of the bytes, without
/// padding. The encoder panics where the length of the text does not fit in a
/// `usize`.
#[verifier::external_body]
pub(crate) fn base64_url(bytes: &[u8]) -> (text: String)
    requires
        encodable(bytes@.len()),
    ensures
        text@ == base64_url_text(bytes@),
{
    base64::Engine::encode(&base64::engine::general_purpose::URL_SAFE_NO_PAD, bytes)
}

} // verus!
