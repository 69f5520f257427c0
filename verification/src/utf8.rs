//! Decoding of byte strings that should hold UTF-8 text.
use core::str::Utf8Error;
use vstd::prelude::*;
use vstd::string::StringSliceAdditionalSpecFns;
use vstd::utf8::{decode_utf8, valid_utf8};

verus! {

/// The error `core::str::from_utf8` reports for bytes that are not UTF-8.
#[verifier::external_type_specification]
#[verifier::external_body]
pub struct ExUtf8Error(Utf8Error);

/// The text that `String::from_utf8_lossy` makes of `bytes`: every maximal invalid sequence
/// replaced by U+FFFD.
pub uninterp spec fn lossy_text(bytes: Seq<u8>) -> Seq<char>;

/// Calls `core::str::from_utf8`, whose documentation says it succeeds exactly when the bytes
/// are valid UTF-8 and then returns a string slice over those same bytes.
#[verifier::external_body]
pub fn str_from_utf8(bytes: &[u8]) -> (r: Result<&str, Utf8Error>)
    ensures
        r is Ok <==> valid_utf8(bytes@),
        r matches Ok(s) ==> s.spec_bytes() == bytes@,
{
    core::str::from_utf8(bytes)
}

/// Calls `String::from_utf8_lossy` and takes ownership of the text. The result is named by
/// `lossy_text`. Its documentation gives two facts, stated here: valid UTF-8 comes back
/// unchanged, and invalid sequences are replaced by U+FFFD, so text from bytes that are not
/// valid UTF-8 holds that character. Which bytes one replacement covers is left unstated.
#[verifier::external_body]
pub fn string_from_utf8_lossy(bytes: &[u8]) -> (s: String)
    ensures
        s@ == lossy_text(bytes@),
        valid_utf8(bytes@) ==> s@ == decode_utf8(bytes@),
        !valid_utf8(bytes@) ==> s@.contains('\u{FFFD}'),
{
    String::from_utf8_lossy(bytes).into_owned()
}

} // verus!
