//! The Overlapping BSS Scan Parameters element.
use vstd::prelude::*;

use crate::bits::{le_bytes_u16, le_u16, read_le_u16, u16_le_bytes};
use crate::ies::field::{bytes_field, bytes_field_is, bytes_field_with_units, Field};
use crate::text::{decimal, digit_char, digit_str, paren_decimal, paren_text, u64_text};

verus! {

/// An Overlapping BSS Scan Parameters element: how 20/40 MHz stations scan for overlapping
/// networks.
#[derive(Debug, Clone, PartialEq, Eq, Structural, Hash)]
pub struct OverlappingBssScanParams {
    pub obss_scan_passive_dwell_tu: u16,
    pub obss_scan_active_dwell_tu: u16,
    pub bss_channel_width_trigger_scan_interval_secs: u16,
    pub obss_scan_passive_total_per_channel_tu: u16,
    pub obss_scan_active_total_per_channel_tu: u16,
    pub bss_width_channel_transition_delay_factor: u16,
    pub obss_scan_activity_threshold: u16,
}

/// A value in hundredths as a percentage with two decimals, for example 2550 as `25.50%`.
pub open spec fn hundredths_percent(v: u16) -> Seq<char> {
    decimal((v / 100) as nat) + seq!['.', digit_char(((v % 100) / 10) as nat), digit_char((v % 10) as nat), '%']
}

/// A value in hundredths as a percentage with two decimals, for example 2550 as `25.50%`.
pub fn hundredths_percent_string(v: u16) -> (s: String)
    ensures
        s@ == hundredths_percent(v),
{
    let mut s = u64_text((v / 100) as u64);
    s.append(".");
    s.append(digit_str(((v % 100) / 10) as u8));
    s.append(digit_str((v % 10) as u8));
    s.append("%");
    proof {
        reveal_strlit(".");
        reveal_strlit("%");
        assert(s@ =~= hundredths_percent(v));
    }
    s
}

impl OverlappingBssScanParams {
    pub const NAME: &'static str = "Overlapping BSS Scan Parameters";
    pub const ID: u8 = 74;
    pub const ID_EXT: Option<u8> = None;
    pub const LENGTH: usize = 14;
    /// Whether the element is the one read from body `b`: its seven little-endian 16-bit
    /// fields, in order.
    pub open spec fn spec_parsed_from(&self, b: Seq<u8>) -> bool {
        &&& b.len() >= 14
        &&& self.obss_scan_passive_dwell_tu == le_u16(b, 0)
        &&& self.obss_scan_active_dwell_tu == le_u16(b, 2)
        &&& self.bss_channel_width_trigger_scan_interval_secs == le_u16(b, 4)
        &&& self.obss_scan_passive_total_per_channel_tu == le_u16(b, 6)
        &&& self.obss_scan_active_total_per_channel_tu == le_u16(b, 8)
        &&& self.bss_width_channel_transition_delay_factor == le_u16(b, 10)
        &&& self.obss_scan_activity_threshold == le_u16(b, 12)
    }

    /// Parses the element body: seven little-endian 16-bit values. `None` when it is shorter
    /// than 14 bytes.
    pub fn from_bytes(bytes: &[u8]) -> (r: Option<OverlappingBssScanParams>)
        ensures
            r is Some <==> bytes@.len() >= 14,
            r matches Some(p) ==> p.spec_parsed_from(bytes@),
    {
        if bytes.len() < 14 {
            return None;
        }
        Some(
            OverlappingBssScanParams {
                obss_scan_passive_dwell_tu: read_le_u16(bytes, 0),
                obss_scan_active_dwell_tu: read_le_u16(bytes, 2),
                bss_channel_width_trigger_scan_interval_secs: read_le_u16(bytes, 4),
                obss_scan_passive_total_per_channel_tu: read_le_u16(bytes, 6),
                obss_scan_active_total_per_channel_tu: read_le_u16(bytes, 8),
                bss_width_channel_transition_delay_factor: read_le_u16(bytes, 10),
                obss_scan_activity_threshold: read_le_u16(bytes, 12),
            },
        )
    }

    /// The one-line summary, which is empty.
    pub fn summary(&self) -> (s: String)
        ensures
            s@ == Seq::<char>::empty(),
    {
        proof {
            reveal_strlit("");
        }
        String::from_str("")
    }

    /// The element's fields, each with its little-endian bytes. The activity threshold, in
    /// hundredths of a percent, is shown as a percentage with its raw value as units.
    pub fn fields(&self) -> (v: Vec<Field>)
        ensures
            v@.len() == 7,
            bytes_field_is(v@[0], "OBSS Scan Passive Dwell"@, decimal(self.obss_scan_passive_dwell_tu as nat), Some("TU"@), le_bytes_u16(self.obss_scan_passive_dwell_tu)),
            bytes_field_is(v@[1], "OBSS Scan Active Dwell"@, decimal(self.obss_scan_active_dwell_tu as nat), Some("TU"@), le_bytes_u16(self.obss_scan_active_dwell_tu)),
            bytes_field_is(v@[2], "BSS Channel Width Trigger Scan Interval"@, decimal(self.bss_channel_width_trigger_scan_interval_secs as nat), Some("seconds"@), le_bytes_u16(self.bss_channel_width_trigger_scan_interval_secs)),
            bytes_field_is(v@[3], "OBSS Scan Passive Total Per Channel"@, decimal(self.obss_scan_passive_total_per_channel_tu as nat), Some("TU"@), le_bytes_u16(self.obss_scan_passive_total_per_channel_tu)),
            bytes_field_is(v@[4], "OBSS Scan Active Total Per Channel"@, decimal(self.obss_scan_active_total_per_channel_tu as nat), Some("TU"@), le_bytes_u16(self.obss_scan_active_total_per_channel_tu)),
            bytes_field_is(v@[5], "BSS Width Channel Transition Delay Factor"@, decimal(self.bss_width_channel_transition_delay_factor as nat), None, le_bytes_u16(self.bss_width_channel_transition_delay_factor)),
            bytes_field_is(v@[6], "OBSS Scan Activity Threshold"@, hundredths_percent(self.obss_scan_activity_threshold), Some(paren_decimal(self.obss_scan_activity_threshold as nat)), le_bytes_u16(self.obss_scan_activity_threshold)),
    {
        let mut v: Vec<Field> = Vec::new();
        v.push(bytes_field_with_units("OBSS Scan Passive Dwell", u64_text(self.obss_scan_passive_dwell_tu as u64), "TU", u16_le_bytes(self.obss_scan_passive_dwell_tu)));
        v.push(bytes_field_with_units("OBSS Scan Active Dwell", u64_text(self.obss_scan_active_dwell_tu as u64), "TU", u16_le_bytes(self.obss_scan_active_dwell_tu)));
        v.push(bytes_field_with_units("BSS Channel Width Trigger Scan Interval", u64_text(self.bss_channel_width_trigger_scan_interval_secs as u64), "seconds", u16_le_bytes(self.bss_channel_width_trigger_scan_interval_secs)));
        v.push(bytes_field_with_units("OBSS Scan Passive Total Per Channel", u64_text(self.obss_scan_passive_total_per_channel_tu as u64), "TU", u16_le_bytes(self.obss_scan_passive_total_per_channel_tu)));
        v.push(bytes_field_with_units("OBSS Scan Active Total Per Channel", u64_text(self.obss_scan_active_total_per_channel_tu as u64), "TU", u16_le_bytes(self.obss_scan_active_total_per_channel_tu)));
        v.push(bytes_field("BSS Width Channel Transition Delay Factor", u64_text(self.bss_width_channel_transition_delay_factor as u64), u16_le_bytes(self.bss_width_channel_transition_delay_factor)));
        let t = self.obss_scan_activity_threshold;
        v.push(Field::text("OBSS Scan Activity Threshold", hundredths_percent_string(t)).with_units_string(paren_text(t as u64)).with_bytes(u16_le_bytes(t)));
        v
    }
}

} // verus!
