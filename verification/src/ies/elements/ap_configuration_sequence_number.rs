//! The AP Configuration Sequence Number element.
use vstd::prelude::*;

use crate::ies::field::{byte_field, byte_field_is, Field};
use crate::text::{decimal, u64_text};

verus! {

/// An AP Configuration Sequence Number element: a counter the access point increments when its
/// configuration changes.
#[derive(Debug, Clone, Copy, PartialEq, Eq, Structural, Hash)]
pub struct ApConfigurationSequenceNumber {
    pub ap_csn: u8,
}

impl ApConfigurationSequenceNumber {
    pub const ID: u8 = 239;
    pub const ID_EXT: Option<u8> = None;
    pub const NAME: &'static str = "AP Configuration Sequence Number";

    /// Parses the one-byte element body; `None` when it is empty.
    pub fn from_bytes(bytes: &[u8]) -> (r: Option<ApConfigurationSequenceNumber>)
        ensures
            r is Some <==> bytes@.len() >= 1,
            r matches Some(a) ==> a.ap_csn == bytes@[0],
    {
        if bytes.len() < 1 {
            None
        } else {
            Some(ApConfigurationSequenceNumber { ap_csn: bytes[0] })
        }
    }

    /// The one-line summary: the sequence number.
    pub fn summary(&self) -> (s: String)
        ensures
            s@ == decimal(self.ap_csn as nat),
    {
        u64_text(self.ap_csn as u64)
    }

    /// The element's single field: the sequence number with its byte.
    pub fn fields(&self) -> (fs: Vec<Field>)
        ensures
            fs@.len() == 1,
            byte_field_is(fs@[0], "AP-CSN"@, decimal(self.ap_csn as nat), None, self.ap_csn),
    {
        let mut fs: Vec<Field> = Vec::new();
        fs.push(byte_field("AP-CSN", u64_text(self.ap_csn as u64), self.ap_csn));
        fs
    }
}

} // verus!
