//! Byte-to-text encodings that the wire protocol relies on: base64 and UTF-8.

use vstd::prelude::*;
use vstd::utf8::*;

verus! {

/// `base64::DecodeError`, the error of a failed decoding; nothing of it is
/// looked into.
#[verifier::external_type_specification]
#[verifier::external_body]
pub struct ExDecodeError(base64::DecodeError);

/// The padded base64 text, in the standard alphabet, of a byte string.
pub uninterp spec fn base64_text(bytes: Seq<u8>) -> Seq<char>;

/// The bytes that a padded base64 text in the standard alphabet stands for,
/// or `None` where the text is no such encoding.
pub uninterp spec fn base64_bytes(text: Seq<char>) -> Option<Seq<u8>>;

/// What `String::from_utf8_lossy` makes of a byte string.
pub uninterp spec fn utf8_lossy_text(bytes: Seq<u8>) -> Seq<char>;

/// The length of the base64 text of `len` bytes fits in a `usize`.
pub open spec fn base64_fits(len: nat) -> bool {
    len / 3 * 4 + 4 <= usize::MAX
}

/// Says whether the base64 text of `len` bytes fits in a `usize`.
pub fn fits_base64(len: usize) -> (r: bool)
    ensures
        r == base64_fits(len as nat),
{
    len / 3 <= (usize::MAX - 4) / 4
}

/// Calls `base64::Engine::encode` on the `STANDARD` engine.
///
/// Trusted: the result is the base64 text of `data`, and decoding that text
/// with the same engine gives `data` back. The call panics when the encoded
/// length overflows `usize`, which the precondition excludes.
#[verifier::external_body]
pub(crate) fn base64_encode(data: &[u8]) -> (text: String)
    requires
        base64_fits(data@.len()),
    ensures
        text@ == base64_text(data@),
        base64_bytes(text@) == Some(data@),
{
    base64::Engine::encode(&base64::engine::general_purpose::STANDARD, data)
}

/// Calls `base64::Engine::decode` on the `STANDARD` engine.
///
/// Trusted: the call succeeds exactly on the texts that `base64_bytes`
/// accepts, and then returns those bytes.
#[verifier::external_body]
pub(crate) fn base64_decode(text: &str) -> (r: Result<Vec<u8>, base64::DecodeError>)
    ensures
        r is Ok <==> base64_bytes(text@) is Some,
        r matches Ok(bytes) ==> base64_bytes(text@) == Some(bytes@),
{
    base64::Engine::decode(&base64::engine::general_purpose::STANDARD, text)
}

/// Writes a `base64::DecodeError` out with its `Display` impl.
///
/// Trusted: nothing is claimed of the text.
#[verifier::external_body]
pub(crate) fn decode_error_text(error: &base64::DecodeError) -> String {
    error.to_string()
}

/// Calls `String::from_utf8`.
///
/// Trusted: the conversion succeeds exactly on well-formed UTF-8, and the
/// string then holds the characters that the bytes encode.
#[verifier::external_body]
pub(crate) fn string_from_utf8(bytes: Vec<u8>) -> (r: Option<String>)
    ensures
        r is Some <==> valid_utf8(bytes@),
        r matches Some(s) ==> s@ == decode_utf8(bytes@),
{
    String::from_utf8(bytes).ok()
}

/// Calls `String::from_utf8_lossy`.
///
/// Trusted: the result depends on the bytes alone, and well-formed UTF-8 is
/// decoded as it stands.
#[verifier::external_body]
pub(crate) fn string_from_utf8_lossy(bytes: &[u8]) -> (s: String)
    ensures
        s@ == utf8_lossy_text(bytes@),
        valid_utf8(bytes@) ==> s@ == decode_utf8(bytes@),
{
    String::from_utf8_lossy(bytes).into_owned()
}

/// Decodes a padded base64 text; `None` where the text is malformed.
pub fn decode_base64(text: &str) -> (r: Option<Vec<u8>>)
    ensures
        r.deep_view() == base64_bytes(text@),
{
    match base64_decode(text) {
        Ok(bytes) => {
            assert(bytes.deep_view() =~= bytes@);
            Some(bytes)
        },
        Err(_) => None,
    }
}

} // verus!
