//! What an engine's HTTP answer means.

use vstd::prelude::*;

use crate::error::TtsError;

verus! {

/// Name for what `String::from_utf8_lossy` gives for `bytes`: the text they
/// encode in UTF-8, with U+FFFD for each invalid sequence.
pub uninterp spec fn utf8_lossy(bytes: Seq<u8>) -> Seq<char>;

/// Calls `String::from_utf8_lossy`. Claimed: the result is the text named
/// `utf8_lossy` of the bytes; the decoding itself is not stated.
#[verifier::external_body]
fn decode_lossy(bytes: &[u8]) -> (r: String)
    ensures
        r@ == utf8_lossy(bytes@),
{
    String::from_utf8_lossy(bytes).into_owned()
}

/// A success status: 200–299, as `StatusCode::is_success` decides.
pub open spec fn is_success(status: u16) -> bool {
    200 <= status <= 299
}

/// The body of an answer with status `status`: the body for a success,
/// otherwise `BadResponse` with the status and the body as text.
pub fn bytes_or_error(status: u16, body: Vec<u8>) -> (r: Result<Vec<u8>, TtsError>)
    ensures
        is_success(status) ==> (r matches Ok(b) && b@ == body@),
        !is_success(status) ==> (r matches Err(TtsError::BadResponse { status: s, body: text })
            && s == status && text@ == utf8_lossy(body@)),
{
    if 200 <= status && status <= 299 {
        Ok(body)
    } else {
        Err(TtsError::BadResponse { status, body: decode_lossy(body.as_slice()) })
    }
}

/// Whether the answer with status `status` succeeded (its body is dropped).
pub fn ensure_success(status: u16, body: Vec<u8>) -> (r: Result<(), TtsError>)
    ensures
        is_success(status) ==> r is Ok,
        !is_success(status) ==> (r matches Err(TtsError::BadResponse { status: s, body: text })
            && s == status && text@ == utf8_lossy(body@)),
{
    match bytes_or_error(status, body) {
        Ok(_) => Ok(()),
        Err(e) => Err(e),
    }
}

} // verus!
