//! The DS Parameter Set element: the channel a 2.4 GHz access point operates on.
use vstd::prelude::*;

use crate::ies::field::{byte_field, byte_field_is, Field};
use crate::text::{decimal, u64_text};

verus! {

/// A DS Parameter Set element.
#[derive(Debug, Clone, PartialEq, Eq, Structural, Hash)]
pub struct DsParameterSet {
    pub current_channel: u8,
}

impl DsParameterSet {
    pub const NAME: &'static str = "DS Parameter Set";
    pub const ID: u8 = 3;
    pub const ID_EXT: Option<u8> = None;
    pub const LENGTH: usize = 1;

    /// Parses the one-byte element body. `None` when it is empty.
    pub fn from_bytes(bytes: &[u8]) -> (r: Option<DsParameterSet>)
        ensures
            r is Some <==> bytes@.len() >= 1,
            r matches Some(v) ==> v.current_channel == bytes@[0],
    {
        if bytes.len() < 1 {
            return None;
        }
        Some(DsParameterSet { current_channel: bytes[0] })
    }

    /// The one-line summary.
    pub open spec fn spec_summary(&self) -> Seq<char> {
        "Current Channel: "@ + decimal(self.current_channel as nat)
    }

    /// A one-line summary, for example `Current Channel: 6`.
    pub fn summary(&self) -> (s: String)
        ensures
            s@ == self.spec_summary(),
    {
        let mut s = String::from_str("Current Channel: ");
        s.append(u64_text(self.current_channel as u64).as_str());
        s
    }

    /// The element's single field.
    pub fn fields(&self) -> (v: Vec<Field>)
        ensures
            v@.len() == 1,
            byte_field_is(v@[0], "Current Channel"@, decimal(self.current_channel as nat), None, self.current_channel),
    {
        let mut v: Vec<Field> = Vec::new();
        v.push(byte_field("Current Channel", u64_text(self.current_channel as u64), self.current_channel));
        v
    }
}

} // verus!
