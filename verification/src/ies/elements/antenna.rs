//! The Antenna element.
use vstd::prelude::*;

use crate::ies::field::{byte_field, byte_field_is, Field};
use crate::text::{decimal, u64_text};

verus! {

/// An Antenna element: the identifier of the antenna a frame was sent with.
#[derive(Debug, Clone, Copy, PartialEq, Eq, Structural, Hash)]
pub struct Antenna {
    pub antenna_id: u8,
}

impl Antenna {
    pub const NAME: &'static str = "Antenna";
    pub const ID: u8 = 64;
    pub const ID_EXT: Option<u8> = None;
    pub const LENGTH: usize = 1;

    /// Parses the one-byte element body; `None` when it is empty.
    pub fn from_bytes(bytes: &[u8]) -> (r: Option<Antenna>)
        ensures
            r is Some <==> bytes@.len() >= 1,
            r matches Some(a) ==> a.antenna_id == bytes@[0],
    {
        if bytes.len() < 1 {
            None
        } else {
            Some(Antenna { antenna_id: bytes[0] })
        }
    }

    /// The one-line summary, for example `ID: 3`.
    pub fn summary(&self) -> (s: String)
        ensures
            s@ == "ID: "@ + decimal(self.antenna_id as nat),
    {
        let mut s = String::from_str("ID: ");
        s.append(u64_text(self.antenna_id as u64).as_str());
        s
    }

    /// The element's single field: the antenna ID with its byte.
    pub fn fields(&self) -> (fs: Vec<Field>)
        ensures
            fs@.len() == 1,
            byte_field_is(fs@[0], "Antenna ID"@, decimal(self.antenna_id as nat), None, self.antenna_id),
    {
        let mut fs: Vec<Field> = Vec::new();
        fs.push(byte_field("Antenna ID", u64_text(self.antenna_id as u64), self.antenna_id));
        fs
    }
}

} // verus!
