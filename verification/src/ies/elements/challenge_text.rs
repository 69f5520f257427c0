//! The Challenge Text element.
use core::str::Utf8Error;
use vstd::prelude::*;
use vstd::string::StringSliceAdditionalSpecFns;
use vstd::utf8::{decode_utf8, valid_utf8};

use crate::ies::field::{bytes_field, bytes_field_is, Field};
use crate::utf8::{lossy_text, str_from_utf8, string_from_utf8_lossy};

verus! {

/// A Challenge Text element: raw bytes that are usually, but not necessarily, UTF-8 text.
#[derive(Debug, Clone, PartialEq, Eq, Hash)]
pub struct ChallengeText {
    challenge_text: Vec<u8>,
}

impl ChallengeText {
    pub const NAME: &'static str = "Challenge Text";
    pub const ID: u8 = 16;
    pub const ID_EXT: Option<u8> = None;

    /// The element's bytes.
    pub closed spec fn raw(&self) -> Seq<u8> {
        self.challenge_text@
    }

    /// Takes the whole element body.
    pub fn from_bytes(bytes: &[u8]) -> (r: ChallengeText)
        ensures
            r.raw() == bytes@,
    {
        ChallengeText { challenge_text: vstd::slice::slice_to_vec(bytes) }
    }

    /// The element's bytes.
    pub fn as_bytes(&self) -> (b: &[u8])
        ensures
            b@ == self.raw(),
    {
        self.challenge_text.as_slice()
    }

    /// The text, if the bytes are valid UTF-8.
    pub fn as_str(&self) -> (r: Result<&str, Utf8Error>)
        ensures
            r is Ok <==> valid_utf8(self.raw()),
            r matches Ok(s) ==> s.spec_bytes() == self.raw(),
    {
        str_from_utf8(self.challenge_text.as_slice())
    }

    /// The text, with each invalid UTF-8 sequence replaced by U+FFFD.
    pub fn to_string_lossy(&self) -> (s: String)
        ensures
            s@ == lossy_text(self.raw()),
            valid_utf8(self.raw()) ==> s@ == decode_utf8(self.raw()),
            !valid_utf8(self.raw()) ==> s@.contains('\u{FFFD}'),
    {
        string_from_utf8_lossy(self.challenge_text.as_slice())
    }

    /// The one-line summary: the text, decoded leniently.
    pub fn summary(&self) -> (s: String)
        ensures
            s@ == lossy_text(self.raw()),
            valid_utf8(self.raw()) ==> s@ == decode_utf8(self.raw()),
            !valid_utf8(self.raw()) ==> s@.contains('\u{FFFD}'),
    {
        self.to_string_lossy()
    }

    /// The element's single field: the decoded text with the raw bytes.
    pub fn fields(&self) -> (v: Vec<Field>)
        ensures
            v@.len() == 1,
            bytes_field_is(v@[0], "Challenge Text"@, lossy_text(self.raw()), None, self.raw()),
    {
        let mut v: Vec<Field> = Vec::new();
        v.push(bytes_field("Challenge Text", self.to_string_lossy(), self.challenge_text.clone()));
        v
    }
}

} // verus!
