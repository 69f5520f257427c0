//! The BSS Load element: how busy the access point is.
use vstd::prelude::*;

use crate::bits::{be_bytes_u16, le_u16, read_le_u16, u16_be_bytes};
use crate::ies::field::{byte_field, bytes_field, byte_field_is, bytes_field_is, Field};
use crate::text::{decimal, u64_text};

verus! {

/// A BSS Load element: station count, channel utilization and admission capacity.
#[derive(Debug, Clone, PartialEq, Eq, Structural, Hash)]
pub struct BssLoad {
    pub station_count: u16,
    pub channel_utilization: u8,
    pub available_admission_capacity: u16,
}

impl BssLoad {
    pub const NAME: &'static str = "BSS Load";
    pub const ID: u8 = 11;
    pub const ID_EXT: Option<u8> = None;
    pub const LENGTH: usize = 5;

    /// Parses the element body: three little-endian fields in five bytes. `None` when the body
    /// is shorter.
    pub fn from_bytes(bytes: &[u8]) -> (r: Option<BssLoad>)
        ensures
            r is Some <==> bytes@.len() >= 5,
            r matches Some(v) ==> v.station_count == le_u16(bytes@, 0) && v.channel_utilization
                == bytes@[2] && v.available_admission_capacity == le_u16(bytes@, 3),
    {
        if bytes.len() < 5 {
            return None;
        }
        Some(
            BssLoad {
                station_count: read_le_u16(bytes, 0),
                channel_utilization: bytes[2],
                available_admission_capacity: read_le_u16(bytes, 3),
            },
        )
    }

    /// The channel utilization as a percentage: the byte counts 255 as 100%, and the
    /// percentage is rounded to the nearest whole number (halves cannot occur).
    pub open spec fn spec_utilization_percent(&self) -> nat {
        ((self.channel_utilization * 100 + 127) / 255) as nat
    }

    /// The channel utilization as a percentage from 0 to 100; see `spec_utilization_percent`.
    pub fn utilization_percent(&self) -> (p: u8)
        ensures
            p == self.spec_utilization_percent(),
            p <= 100,
    {
        let cu = self.channel_utilization as u32;
        ((cu * 100 + 127) / 255) as u8
    }

    /// The one-line summary.
    pub open spec fn spec_summary(&self) -> Seq<char> {
        "Station Count: "@ + decimal(self.station_count as nat) + ", Channel Utilization: "@
            + decimal(self.spec_utilization_percent()) + "%"@
    }

    /// A one-line summary, for example `Station Count: 3, Channel Utilization: 20%`.
    pub fn summary(&self) -> (s: String)
        ensures
            s@ == self.spec_summary(),
    {
        let mut s = String::from_str("Station Count: ");
        s.append(u64_text(self.station_count as u64).as_str());
        s.append(", Channel Utilization: ");
        s.append(u64_text(self.utilization_percent() as u64).as_str());
        s.append("%");
        s
    }

    /// The element's fields. The two 16-bit values are shown with their bytes most significant
    /// first; the channel utilization is shown as a percentage, with its raw byte.
    pub fn fields(&self) -> (v: Vec<Field>)
        ensures
            v@.len() == 3,
            bytes_field_is(v@[0], "Station Count"@, decimal(self.station_count as nat), None, be_bytes_u16(self.station_count)),
            byte_field_is(v@[1], "Channel Utilization"@, decimal(self.spec_utilization_percent()) + "%"@, None, self.channel_utilization),
            bytes_field_is(v@[2], "Available Admission Capacity"@, decimal(self.available_admission_capacity as nat), None, be_bytes_u16(self.available_admission_capacity)),
    {
        let mut v: Vec<Field> = Vec::new();
        v.push(bytes_field("Station Count", u64_text(self.station_count as u64), u16_be_bytes(self.station_count)));
        let mut cu = u64_text(self.utilization_percent() as u64);
        cu.append("%");
        v.push(byte_field("Channel Utilization", cu, self.channel_utilization));
        v.push(bytes_field("Available Admission Capacity", u64_text(self.available_admission_capacity as u64), u16_be_bytes(self.available_admission_capacity)));
        v
    }
}

} // verus!
