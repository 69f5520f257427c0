//! The IBSS Parameter Set element.
use vstd::prelude::*;

use crate::bits::{le_u16, read_le_u16};
use crate::ies::field::{text_field_with_units, text_field_is, Field};
use crate::text::{decimal, u64_text};

verus! {

/// An IBSS Parameter Set element: the ATIM window of an ad hoc network.
#[derive(Debug, Clone, PartialEq, Eq, Structural, Hash)]
pub struct IbssParameterSet {
    pub atim_window_tu: u16,
}

impl IbssParameterSet {
    pub const NAME: &'static str = "IBSS Parameter Set";
    pub const ID: u8 = 6;
    pub const ID_EXT: Option<u8> = None;
    pub const LENGTH: usize = 2;

    /// Parses the element body, a little-endian 16-bit value. `None` when it is shorter.
    pub fn from_bytes(bytes: &[u8]) -> (r: Option<IbssParameterSet>)
        ensures
            r is Some <==> bytes@.len() >= 2,
            r matches Some(v) ==> v.atim_window_tu == le_u16(bytes@, 0),
    {
        if bytes.len() < 2 {
            return None;
        }
        Some(IbssParameterSet { atim_window_tu: read_le_u16(bytes, 0) })
    }

    /// The one-line summary.
    pub open spec fn spec_summary(&self) -> Seq<char> {
        "ATIM Window: "@ + decimal(self.atim_window_tu as nat) + " TU"@
    }

    /// A one-line summary, for example `ATIM Window: 10 TU`.
    pub fn summary(&self) -> (s: String)
        ensures
            s@ == self.spec_summary(),
    {
        let mut s = String::from_str("ATIM Window: ");
        s.append(u64_text(self.atim_window_tu as u64).as_str());
        s.append(" TU");
        s
    }

    /// The element's single field.
    pub fn fields(&self) -> (v: Vec<Field>)
        ensures
            v@.len() == 1,
            text_field_is(v@[0], "ATIM Window"@, decimal(self.atim_window_tu as nat), Some("TU"@)),
    {
        let mut v: Vec<Field> = Vec::new();
        v.push(text_field_with_units("ATIM Window", u64_text(self.atim_window_tu as u64), "TU"));
        v
    }
}

} // verus!
