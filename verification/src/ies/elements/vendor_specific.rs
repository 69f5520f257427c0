//! The Vendor Specific element: data defined by the organization its OUI names.
use vstd::prelude::*;

use crate::ies::field::{bytes_field, bytes_field_is, Field};
use crate::text::{hex_joined, hex_joined_string};

verus! {

/// A Vendor Specific element: an organization identifier (OUI) and data it defines.
#[derive(Debug, Clone, PartialEq, Eq, Hash)]
pub struct VendorSpecific {
    data: Vec<u8>,
}

impl VendorSpecific {
    pub const NAME: &'static str = "Vendor Specific";
    pub const ID: u8 = 221;
    pub const ID_EXT: Option<u8> = None;

    /// The element body.
    pub closed spec fn raw(&self) -> Seq<u8> {
        self.data@
    }

    /// Takes the whole element body.
    pub fn from_bytes(bytes: &[u8]) -> (r: VendorSpecific)
        ensures
            r.raw() == bytes@,
    {
        VendorSpecific { data: vstd::slice::slice_to_vec(bytes) }
    }

    /// The element body.
    pub fn as_bytes(&self) -> (b: &[u8])
        ensures
            b@ == self.raw(),
    {
        self.data.as_slice()
    }

    /// Whether the element announces WPA: Microsoft's OUI 00:50:F2 followed by type 1.
    pub open spec fn spec_is_wpa(&self) -> bool {
        &&& self.raw().len() >= 4
        &&& self.raw()[0] == 0x00
        &&& self.raw()[1] == 0x50
        &&& self.raw()[2] == 0xF2
        &&& self.raw()[3] == 0x01
    }

    /// Whether the element announces WPA: Microsoft's OUI 00:50:F2 followed by type 1.
    pub fn is_wpa(&self) -> (b: bool)
        ensures
            b == self.spec_is_wpa(),
    {
        self.data.len() >= 4 && self.data[0] == 0x00 && self.data[1] == 0x50 && self.data[2] == 0xF2
            && self.data[3] == 0x01
    }

    /// The organization identifier: the first three bytes, when the element holds them.
    pub fn oui(&self) -> (r: Option<[u8; 3]>)
        ensures
            r is Some <==> self.raw().len() >= 3,
            r matches Some(o) ==> o@ == self.raw().subrange(0, 3),
    {
        if self.data.len() < 3 {
            None
        } else {
            let o = [self.data[0], self.data[1], self.data[2]];
            proof {
                assert(o@ =~= self.raw().subrange(0, 3));
            }
            Some(o)
        }
    }

    /// The one-line summary: `OUI: ` and the OUI, or nothing without one.
    pub open spec fn spec_summary(&self) -> Seq<char> {
        if self.raw().len() >= 3 {
            "OUI: "@ + hex_joined(self.raw().subrange(0, 3), ":"@)
        } else {
            ""@
        }
    }

    /// The one-line summary, for example `OUI: 00:50:F2`.
    pub fn summary(&self) -> (s: String)
        ensures
            s@ == self.spec_summary(),
    {
        match self.oui() {
            Some(o) => {
                let mut s = String::from_str("OUI: ");
                let t = hex_joined_string(o.as_slice(), ":");
                s.append(t.as_str());
                s
            },
            None => String::from_str(""),
        }
    }

    /// The element's fields: the OUI and the data after it, each with its bytes; none when the
    /// element is shorter than an OUI.
    pub open spec fn spec_fields_shown(&self, fs: Seq<Field>) -> bool {
        if self.raw().len() >= 3 {
            &&& fs.len() == 2
            &&& bytes_field_is(fs[0], "OUI"@, hex_joined(self.raw().subrange(0, 3), ":"@), None, self.raw().subrange(0, 3))
            &&& bytes_field_is(fs[1], "Data"@, "---"@, None, self.raw().subrange(3, self.raw().len() as int))
        } else {
            fs.len() == 0
        }
    }

    /// The element's fields: the OUI and the data after it.
    pub fn fields(&self) -> (fs: Vec<Field>)
        ensures
            self.spec_fields_shown(fs@),
    {
        let mut fs: Vec<Field> = Vec::new();
        if let Some(o) = self.oui() {
            let t = hex_joined_string(o.as_slice(), ":");
            fs.push(bytes_field("OUI", t, vstd::slice::slice_to_vec(o.as_slice())));
            let data = vstd::slice::slice_subrange(self.data.as_slice(), 3, self.data.len());
            fs.push(bytes_field("Data", String::from_str("---"), vstd::slice::slice_to_vec(data)));
        }
        fs
    }
}

} // verus!
