//! The SSID element: the network name.
use core::str::Utf8Error;
use vstd::prelude::*;
use vstd::string::StringSliceAdditionalSpecFns;
use vstd::utf8::{decode_utf8, valid_utf8};

use crate::ies::field::{bytes_field, bytes_field_is, Field};
use crate::utf8::{lossy_text, str_from_utf8, string_from_utf8_lossy};

verus! {

/// An SSID element: the network name, as raw bytes that are usually, but not necessarily,
/// UTF-8 text. An empty SSID, or one of NUL bytes only, marks a hidden network.
#[derive(Debug, Clone, PartialEq, Eq, Hash)]
pub struct Ssid {
    ssid: Vec<u8>,
}

impl Ssid {
    pub const NAME: &'static str = "SSID";
    pub const ID: u8 = 0;
    pub const ID_EXT: Option<u8> = None;

    /// The element's bytes.
    pub closed spec fn raw(&self) -> Seq<u8> {
        self.ssid@
    }

    /// Takes the whole element body.
    pub fn from_bytes(bytes: &[u8]) -> (r: Ssid)
        ensures
            r.raw() == bytes@,
    {
        Ssid { ssid: vstd::slice::slice_to_vec(bytes) }
    }

    /// Whether the SSID is empty, as hidden networks announce it.
    pub fn is_empty(&self) -> (b: bool)
        ensures
            b == (self.raw().len() == 0),
    {
        self.ssid.len() == 0
    }

    /// Whether the SSID hides the network's name: empty, or NUL bytes only.
    pub open spec fn spec_is_hidden(&self) -> bool {
        forall|i: int| 0 <= i < self.raw().len() ==> #[trigger] self.raw()[i] == 0
    }

    /// Whether the SSID hides the network's name: empty, or NUL bytes only.
    pub fn is_hidden(&self) -> (b: bool)
        ensures
            b == self.spec_is_hidden(),
    {
        let mut i: usize = 0;
        while i < self.ssid.len()
            invariant
                i <= self.raw().len(),
                self.raw() == self.ssid@,
                forall|j: int| 0 <= j < i ==> #[trigger] self.raw()[j] == 0,
            decreases self.ssid@.len() - i,
        {
            if self.ssid[i] != 0 {
                return false;
            }
            i = i + 1;
        }
        true
    }

    /// The element's bytes.
    pub fn as_bytes(&self) -> (b: &[u8])
        ensures
            b@ == self.raw(),
    {
        self.ssid.as_slice()
    }

    /// The text, if the bytes are valid UTF-8.
    pub fn as_str(&self) -> (r: Result<&str, Utf8Error>)
        ensures
            r is Ok <==> valid_utf8(self.raw()),
            r matches Ok(s) ==> s.spec_bytes() == self.raw(),
    {
        str_from_utf8(self.ssid.as_slice())
    }

    /// The text, with each invalid UTF-8 sequence replaced by U+FFFD.
    pub fn to_string_lossy(&self) -> (s: String)
        ensures
            s@ == lossy_text(self.raw()),
            valid_utf8(self.raw()) ==> s@ == decode_utf8(self.raw()),
            !valid_utf8(self.raw()) ==> s@.contains('\u{FFFD}'),
    {
        string_from_utf8_lossy(self.ssid.as_slice())
    }

    /// The one-line summary: the text, decoded leniently.
    pub fn summary(&self) -> (s: String)
        ensures
            s@ == lossy_text(self.raw()),
            valid_utf8(self.raw()) ==> s@ == decode_utf8(self.raw()),
            !valid_utf8(self.raw()) ==> s@.contains('\u{FFFD}'),
    {
        self.to_string_lossy()
    }

    /// The element's single field: the decoded text with the raw bytes.
    pub fn fields(&self) -> (v: Vec<Field>)
        ensures
            v@.len() == 1,
            bytes_field_is(v@[0], "SSID"@, lossy_text(self.raw()), None, self.raw()),
    {
        let mut v: Vec<Field> = Vec::new();
        v.push(bytes_field("SSID", self.to_string_lossy(), self.ssid.clone()));
        v
    }
}

} // verus!
