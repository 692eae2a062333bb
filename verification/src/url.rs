//! The address of the current page.

use crate::error::Error;
use vstd::prelude::*;

verus! {

/// The error that `std::str::from_utf8` gives for bytes that are not UTF-8: it tells where they stop
/// being UTF-8.
pub uninterp spec fn utf8_error(bytes: Seq<u8>) -> std::str::Utf8Error;

/// Calls `std::str::from_utf8`. Claims that it succeeds just when the bytes are UTF-8, that the text
/// then is the one that they encode, and that the error otherwise is the one that [`utf8_error`]
/// names.
#[verifier::external_body]
fn from_utf8(bytes: &[u8]) -> (r: Result<&str, std::str::Utf8Error>)
    ensures
        r is Ok <==> vstd::utf8::valid_utf8(bytes@),
        r matches Ok(text) ==> text@ == vstd::utf8::decode_utf8(bytes@),
        r matches Err(error) ==> error == utf8_error(bytes@),
{
    std::str::from_utf8(bytes)
}

/// The address of the current page, out of the bytes that the platform holds it in.
pub fn url_from_webview(absolute_url: &[u8]) -> (r: Result<String, Error>)
    ensures
        vstd::utf8::valid_utf8(absolute_url@) ==> (r matches Ok(url) && url@
            == vstd::utf8::decode_utf8(absolute_url@)),
        !vstd::utf8::valid_utf8(absolute_url@) ==> r == Err::<String, Error>(
            Error::Utf8Error(utf8_error(absolute_url@)),
        ),
{
    match from_utf8(absolute_url) {
        Ok(url) => Ok(url.to_owned()),
        Err(error) => Err(Error::Utf8Error(error)),
    }
}

/// An address that was written as UTF-8 is read back as it was.
pub proof fn lemma_url_survives(url: Seq<char>)
    ensures
        vstd::utf8::valid_utf8(vstd::utf8::encode_utf8(url)),
        vstd::utf8::decode_utf8(vstd::utf8::encode_utf8(url)) == url,
{
    vstd::utf8::encode_utf8_valid_utf8(url);
    vstd::utf8::encode_utf8_decode_utf8(url);
}

} // verus!
