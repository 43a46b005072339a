//! Decoding of an intercepted API response body into JSON text.
//!
//! The interception itself is an external collaborator; this module only
//! turns the captured body — possibly base64-encoded — into plain text.

use vstd::prelude::*;
use base64::Engine;

verus! {

/// The bytes that standard-alphabet, padded base64 decoding of `text`
/// yields, or `None` where the text is not well-formed base64.  Decoding is
/// a function of the text alone.
pub uninterp spec fn base64_standard_decoded(text: Seq<char>) -> Option<Seq<u8>>;

/// The text that lossy UTF-8 reading of `bytes` yields: a function of the
/// bytes alone, with invalid sequences replaced by the replacement
/// character.
pub uninterp spec fn lossy_utf8_text(bytes: Seq<u8>) -> Seq<char>;

/// Relies on base64's `GeneralPurpose` engine with the standard alphabet and
/// mandatory padding: decoding depends on the input alone and succeeds
/// exactly on well-formed input.  On failure the error's display text is
/// handed back.
#[verifier::external_body]
fn base64_decode_standard(text: &str) -> (r: Result<Vec<u8>, String>)
    ensures
        match r {
            Ok(bytes) => base64_standard_decoded(text@) == Some(bytes@),
            Err(_) => base64_standard_decoded(text@) is None,
        },
{
    base64::engine::GeneralPurpose::new(
        &base64::alphabet::STANDARD,
        base64::engine::general_purpose::PAD,
    ).decode(text).map_err(|e| format!("{}", e))
}

/// Relies on `String::from_utf8_lossy`: the result is a function of the
/// bytes alone.
#[verifier::external_body]
fn utf8_lossy(bytes: &Vec<u8>) -> (r: String)
    ensures
        r@ == lossy_utf8_text(bytes@),
{
    String::from_utf8_lossy(bytes).into_owned()
}

/// The captured response body as JSON text: the body itself where it was
/// not base64-encoded, otherwise its decoded bytes read as UTF-8 text.  The
/// error carries the decoder's message.
pub fn decode_response_body(body: String, base64_encoded: bool) -> (r: Result<String, String>)
    ensures
        !base64_encoded ==> (r matches Ok(t) && t == body),
        base64_encoded ==> match base64_standard_decoded(body@) {
            Option::Some(bytes) => r matches Ok(t) && t@ == lossy_utf8_text(bytes),
            Option::None => r is Err,
        },
{
    if base64_encoded {
        match base64_decode_standard(body.as_str()) {
            Ok(bytes) => Ok(utf8_lossy(&bytes)),
            Err(m) => Err(m),
        }
    } else {
        Ok(body)
    }
}

} // verus!
