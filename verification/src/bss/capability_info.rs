//! The capability information flags of a beacon or probe response frame.
use vstd::prelude::*;

use crate::bits::{bit_set, read_bit};
use crate::ies::field::{text_field_is, Field};
use crate::text::{bool_string, bool_text, join_strings, joined};

verus! {

/// The capability information flags of a beacon or probe response frame.
#[derive(Debug, Clone, Copy, PartialEq, Eq, Structural, Hash)]
pub struct CapabilityInfo {
    /// Set by an AP (1) or cleared by an IBSS or mesh STA (0).
    pub ess: bool,
    /// Set by an IBSS STA (1) or cleared by an AP or mesh STA (0).
    pub ibss: bool,
    /// Reserved.
    pub reserved_1: bool,
    /// Reserved.
    pub reserved_2: bool,
    /// Data confidentiality is required for all Data frames exchanged within the BSS.
    pub privacy: bool,
    /// Use of the short preamble is allowed within the BSS.
    pub short_preamble: bool,
    /// Set by an AP affiliated with an AP MLD to signal that a critical update is pending.
    pub critical_update_flag: bool,
    /// Set by a transmitted-BSSID AP when a nontransmitted BSS of its multiple BSSID set has a critical update pending.
    pub nontransmitted_bssids_critical_update_flag: bool,
    /// The STA implements spectrum management.
    pub spectrum_management: bool,
    /// The STA implements QoS.
    pub qos: bool,
    /// The BSS is currently using the short slot time.
    pub short_slot_time: bool,
    /// Set by an AP that supports Automatic Power Save Delivery.
    pub apsd: bool,
    /// The STA supports radio measurement.
    pub radio_measurement: bool,
    /// The STA implements EPD.
    pub epd: bool,
    /// Reserved.
    pub reserved_3: bool,
    /// Reserved.
    pub reserved_4: bool,
}

/// `names` with `name` appended when `set` holds.
pub open spec fn with_name(names: Seq<Seq<char>>, set: bool, name: Seq<char>) -> Seq<Seq<char>> {
    if set {
        names.push(name)
    } else {
        names
    }
}

/// Appends `name` to `names` when `set` holds.
fn push_name(names: &mut Vec<String>, set: bool, name: &str)
    ensures
        final(names)@.map_values(|p: String| p@) == with_name(old(names)@.map_values(|p: String| p@), set, name@),
{
    if set {
        names.push(String::from_str(name));
        proof {
            assert(names@.map_values(|p: String| p@) =~= old(names)@.map_values(|p: String| p@).push(name@));
        }
    }
}

impl CapabilityInfo {
    /// The human-readable field name.
    pub const NAME: &'static str = "Capability Information";
    /// The encoded length, in bytes.
    pub const LENGTH: usize = 2;

    /// Whether the flags are those encoded in the first two bytes of `b`, bit 0 being the least
    /// significant bit of the first byte.
    pub open spec fn spec_parsed_from(&self, b: Seq<u8>) -> bool {
        &&& self.ess == bit_set(b, 0)
        &&& self.ibss == bit_set(b, 1)
        &&& self.reserved_1 == bit_set(b, 2)
        &&& self.reserved_2 == bit_set(b, 3)
        &&& self.privacy == bit_set(b, 4)
        &&& self.short_preamble == bit_set(b, 5)
        &&& self.critical_update_flag == bit_set(b, 6)
        &&& self.nontransmitted_bssids_critical_update_flag == bit_set(b, 7)
        &&& self.spectrum_management == bit_set(b, 8)
        &&& self.qos == bit_set(b, 9)
        &&& self.short_slot_time == bit_set(b, 10)
        &&& self.apsd == bit_set(b, 11)
        &&& self.radio_measurement == bit_set(b, 12)
        &&& self.epd == bit_set(b, 13)
        &&& self.reserved_3 == bit_set(b, 14)
        &&& self.reserved_4 == bit_set(b, 15)
    }

    /// Decodes the flags from the first two bytes of `bytes`; `None` when there are fewer.
    pub fn from_bytes(bytes: &[u8]) -> (r: Option<CapabilityInfo>)
        ensures
            r is Some <==> bytes@.len() >= 2,
            r matches Some(c) ==> c.spec_parsed_from(bytes@),
    {
        if bytes.len() < 2 {
            return None;
        }
        Some(CapabilityInfo {
            ess: read_bit(bytes, 0),
            ibss: read_bit(bytes, 1),
            reserved_1: read_bit(bytes, 2),
            reserved_2: read_bit(bytes, 3),
            privacy: read_bit(bytes, 4),
            short_preamble: read_bit(bytes, 5),
            critical_update_flag: read_bit(bytes, 6),
            nontransmitted_bssids_critical_update_flag: read_bit(bytes, 7),
            spectrum_management: read_bit(bytes, 8),
            qos: read_bit(bytes, 9),
            short_slot_time: read_bit(bytes, 10),
            apsd: read_bit(bytes, 11),
            radio_measurement: read_bit(bytes, 12),
            epd: read_bit(bytes, 13),
            reserved_3: read_bit(bytes, 14),
            reserved_4: read_bit(bytes, 15),
        })
    }

    /// The displayable fields: one per defined flag, titled by the flag and showing its value.
    pub open spec fn spec_fields_shown(&self, fs: Seq<Field>) -> bool {
        &&& fs.len() == 12
        &&& text_field_is(fs[0], "ESS"@, bool_text(self.ess), None)
        &&& text_field_is(fs[1], "IBSS"@, bool_text(self.ibss), None)
        &&& text_field_is(fs[2], "Privacy"@, bool_text(self.privacy), None)
        &&& text_field_is(fs[3], "Short Preamble"@, bool_text(self.short_preamble), None)
        &&& text_field_is(fs[4], "Critical Update Flag"@, bool_text(self.critical_update_flag), None)
        &&& text_field_is(fs[5], "Nontransmitted BSSIDs Critical Update Flag"@, bool_text(self.nontransmitted_bssids_critical_update_flag), None)
        &&& text_field_is(fs[6], "Spectrum Management"@, bool_text(self.spectrum_management), None)
        &&& text_field_is(fs[7], "QoS"@, bool_text(self.qos), None)
        &&& text_field_is(fs[8], "Short Slot Time"@, bool_text(self.short_slot_time), None)
        &&& text_field_is(fs[9], "APSD"@, bool_text(self.apsd), None)
        &&& text_field_is(fs[10], "Radio Measurement"@, bool_text(self.radio_measurement), None)
        &&& text_field_is(fs[11], "EPD"@, bool_text(self.epd), None)
    }

    /// The capability flags as displayable fields.
    pub fn fields(&self) -> (fs: Vec<Field>)
        ensures
            self.spec_fields_shown(fs@),
    {
        let mut fs: Vec<Field> = Vec::new();
        fs.push(Field::text("ESS", bool_string(self.ess)));
        fs.push(Field::text("IBSS", bool_string(self.ibss)));
        fs.push(Field::text("Privacy", bool_string(self.privacy)));
        fs.push(Field::text("Short Preamble", bool_string(self.short_preamble)));
        fs.push(Field::text("Critical Update Flag", bool_string(self.critical_update_flag)));
        fs.push(Field::text("Nontransmitted BSSIDs Critical Update Flag", bool_string(self.nontransmitted_bssids_critical_update_flag)));
        fs.push(Field::text("Spectrum Management", bool_string(self.spectrum_management)));
        fs.push(Field::text("QoS", bool_string(self.qos)));
        fs.push(Field::text("Short Slot Time", bool_string(self.short_slot_time)));
        fs.push(Field::text("APSD", bool_string(self.apsd)));
        fs.push(Field::text("Radio Measurement", bool_string(self.radio_measurement)));
        fs.push(Field::text("EPD", bool_string(self.epd)));
        fs
    }

    /// The names of the flags that are set, in bit order.
    pub open spec fn spec_names(&self) -> Seq<Seq<char>> {
        let s: Seq<Seq<char>> = Seq::empty();
        let s = with_name(s, self.ess, "ESS"@);
        let s = with_name(s, self.ibss, "IBSS"@);
        let s = with_name(s, self.privacy, "Privacy"@);
        let s = with_name(s, self.short_preamble, "Short Preamble"@);
        let s = with_name(s, self.critical_update_flag, "Critical Update Flag"@);
        let s = with_name(s, self.nontransmitted_bssids_critical_update_flag, "Nontransmitted BSSIDs Critical Update Flag"@);
        let s = with_name(s, self.spectrum_management, "Spectrum Management"@);
        let s = with_name(s, self.qos, "QoS"@);
        let s = with_name(s, self.short_slot_time, "Short Slot Time"@);
        let s = with_name(s, self.apsd, "APSD"@);
        let s = with_name(s, self.radio_measurement, "Radio Measurement"@);
        let s = with_name(s, self.epd, "EPD"@);
        s
    }

    /// The text form: `Capability Info:`, then the names of the flags that are set, each on
    /// its own tab-indented line.
    pub open spec fn spec_text(&self) -> Seq<char> {
        "Capability Info:\n\t"@ + joined(self.spec_names(), "\r\n\t"@)
    }

    /// The text form, for example `Capability Info:\n\tESS\r\n\tPrivacy`.
    pub fn to_string(&self) -> (s: String)
        ensures
            s@ == self.spec_text(),
    {
        let mut names: Vec<String> = Vec::new();
        proof {
            assert(names@.map_values(|p: String| p@) =~= Seq::<Seq<char>>::empty());
        }
        push_name(&mut names, self.ess, "ESS");
        push_name(&mut names, self.ibss, "IBSS");
        push_name(&mut names, self.privacy, "Privacy");
        push_name(&mut names, self.short_preamble, "Short Preamble");
        push_name(&mut names, self.critical_update_flag, "Critical Update Flag");
        push_name(&mut names, self.nontransmitted_bssids_critical_update_flag, "Nontransmitted BSSIDs Critical Update Flag");
        push_name(&mut names, self.spectrum_management, "Spectrum Management");
        push_name(&mut names, self.qos, "QoS");
        push_name(&mut names, self.short_slot_time, "Short Slot Time");
        push_name(&mut names, self.apsd, "APSD");
        push_name(&mut names, self.radio_measurement, "Radio Measurement");
        push_name(&mut names, self.epd, "EPD");
        let mut s = String::from_str("Capability Info:\n\t");
        let list = join_strings(&names, "\r\n\t");
        s.append(list.as_str());
        s
    }
}

} // verus!
