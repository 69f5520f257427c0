//! The Mesh ID element.
use core::str::Utf8Error;
use vstd::prelude::*;
use vstd::string::StringSliceAdditionalSpecFns;
use vstd::utf8::{decode_utf8, valid_utf8};

use crate::ies::field::{bytes_field, bytes_field_is, Field};
use crate::utf8::{lossy_text, str_from_utf8, string_from_utf8_lossy};

verus! {

/// A Mesh ID element: raw bytes that are usually, but not necessarily, UTF-8 text.
#[derive(Debug, Clone, PartialEq, Eq, Hash)]
pub struct MeshId {
    mesh_id: Vec<u8>,
}

impl MeshId {
    pub const NAME: &'static str = "Mesh ID";
    pub const ID: u8 = 114;
    pub const ID_EXT: Option<u8> = None;

    /// The element's bytes.
    pub closed spec fn raw(&self) -> Seq<u8> {
        self.mesh_id@
    }

    /// Takes the whole element body.
    pub fn from_bytes(bytes: &[u8]) -> (r: MeshId)
        ensures
            r.raw() == bytes@,
    {
        MeshId { mesh_id: vstd::slice::slice_to_vec(bytes) }
    }

    /// The element's bytes.
    pub fn as_bytes(&self) -> (b: &[u8])
        ensures
            b@ == self.raw(),
    {
        self.mesh_id.as_slice()
    }

    /// The text, if the bytes are valid UTF-8.
    pub fn as_str(&self) -> (r: Result<&str, Utf8Error>)
        ensures
            r is Ok <==> valid_utf8(self.raw()),
            r matches Ok(s) ==> s.spec_bytes() == self.raw(),
    {
        str_from_utf8(self.mesh_id.as_slice())
    }

    /// The text, with each invalid UTF-8 sequence replaced by U+FFFD.
    pub fn to_string_lossy(&self) -> (s: String)
        ensures
            s@ == lossy_text(self.raw()),
            valid_utf8(self.raw()) ==> s@ == decode_utf8(self.raw()),
            !valid_utf8(self.raw()) ==> s@.contains('\u{FFFD}'),
    {
        string_from_utf8_lossy(self.mesh_id.as_slice())
    }

    /// The one-line summary: the text, decoded leniently.
    pub fn summary(&self) -> (s: String)
        ensures
            s@ == lossy_text(self.raw()),
            valid_utf8(self.raw()) ==> s@ == decode_utf8(self.raw()),
            !valid_utf8(self.raw()) ==> s@.contains('\u{FFFD}'),
    {
        self.to_string_lossy()
    }

    /// The element's single field: the decoded text with the raw bytes.
    pub fn fields(&self) -> (v: Vec<Field>)
        ensures
            v@.len() == 1,
            bytes_field_is(v@[0], "Mesh ID"@, lossy_text(self.raw()), None, self.raw()),
    {
        let mut v: Vec<Field> = Vec::new();
        v.push(bytes_field("Mesh ID", self.to_string_lossy(), self.mesh_id.clone()));
        v
    }
}

} // verus!
