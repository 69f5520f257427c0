//! The TPC Report element: transmit power and link margin.
use vstd::prelude::*;

use crate::ies::field::{byte_field_with_units, byte_field_is, Field};
use crate::text::{i64_text, signed_decimal};

verus! {

/// A TPC Report element.
#[derive(Debug, Clone, Copy, PartialEq, Eq, Structural, Hash)]
pub struct TpcReport {
    pub transmit_power_dbm: i8,
    pub link_margin_db: i8,
}

impl TpcReport {
    pub const NAME: &'static str = "TPC Report";
    pub const ID: u8 = 35;
    pub const ID_EXT: Option<u8> = None;

    /// Parses the two-byte element body; each byte is a signed value. `None` when it is
    /// shorter.
    pub fn from_bytes(bytes: &[u8]) -> (r: Option<TpcReport>)
        ensures
            r is Some <==> bytes@.len() >= 2,
            r matches Some(v) ==> v.transmit_power_dbm as u8 == bytes@[0] && v.link_margin_db as u8
                == bytes@[1],
    {
        if bytes.len() < 2 {
            return None;
        }
        let a = bytes[0];
        let b = bytes[1];
        proof {
            assert((a as i8) as u8 == a) by (bit_vector);
            assert((b as i8) as u8 == b) by (bit_vector);
        }
        Some(TpcReport { transmit_power_dbm: a as i8, link_margin_db: b as i8 })
    }

    /// The one-line summary.
    pub open spec fn spec_summary(&self) -> Seq<char> {
        "Transmit Power: "@ + signed_decimal(self.transmit_power_dbm as int) + " dBm"@
    }

    /// A one-line summary, for example `Transmit Power: 17 dBm`.
    pub fn summary(&self) -> (s: String)
        ensures
            s@ == self.spec_summary(),
    {
        let mut s = String::from_str("Transmit Power: ");
        s.append(i64_text(self.transmit_power_dbm as i64).as_str());
        s.append(" dBm");
        s
    }

    /// The element's fields, each shown with its raw byte.
    pub fn fields(&self) -> (v: Vec<Field>)
        ensures
            v@.len() == 2,
            byte_field_is(v@[0], "Transmit Power"@, signed_decimal(self.transmit_power_dbm as int), Some("dBm"@), self.transmit_power_dbm as u8),
            byte_field_is(v@[1], "Link Margin"@, signed_decimal(self.link_margin_db as int), Some("dB"@), self.link_margin_db as u8),
    {
        let mut v: Vec<Field> = Vec::new();
        v.push(byte_field_with_units("Transmit Power", i64_text(self.transmit_power_dbm as i64), "dBm", self.transmit_power_dbm as u8));
        v.push(byte_field_with_units("Link Margin", i64_text(self.link_margin_db as i64), "dB", self.link_margin_db as u8));
        v
    }
}

} // verus!
