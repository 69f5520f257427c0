//! The HE 6 GHz Band Capabilities element.
use vstd::prelude::*;

use crate::bits::{
    bit_set, bits_value, lemma_bits_value_bound, lemma_two_pow_64, lemma_two_pow_monotone, read_bit,
    read_bits, read_u16_bits, read_u8_bits,
};
use crate::ies::field::{
    bit_field, bit_field_is, bit_field_with_units, reserved_bits, reserved_field_is, BitRange,
    Field,
};
use crate::ies::ht_capabilities::SmPowerSave;
use crate::text::{bool_string, bool_text, decimal, owned, paren_decimal, paren_text, u64_text};

verus! {

/// The Capabilities Information field of an HE 6 GHz Band Capabilities element.
#[derive(Debug, Clone, Copy, PartialEq, Eq, Hash)]
pub struct CapabilitiesInformation {
    bytes: [u8; 2],
}

impl CapabilitiesInformation {
    /// The encoded length in bytes.
    pub const LENGTH: usize = 2;

    /// Whether `bytes` (exactly 2 of them) encode a valid value.
    pub open spec fn spec_valid(bytes: Seq<u8>) -> bool {
        &&& bytes.len() == 2
        &&& SmPowerSave::spec_from_u8(bits_value(bytes, 9, 2) as u8) is Some
    }

    /// The encoded bytes.
    pub closed spec fn raw(&self) -> Seq<u8> {
        self.bytes@
    }

    /// Every value is encoded in exactly 2 bytes.
    pub proof fn lemma_raw_len(&self)
        ensures
            self.raw().len() == 2,
    {
    }

    /// Decodes the value from the first 2 bytes of `bytes`. `None` when there are fewer
    /// bytes or they do not encode a valid value.
    pub fn from_bytes(bytes: &[u8]) -> (r: Option<CapabilitiesInformation>)
        ensures
            r is Some <==> bytes@.len() >= 2 && Self::spec_valid(bytes@.subrange(0, 2)),
            r matches Some(v) ==> v.raw() == bytes@.subrange(0, 2),
    {
        if bytes.len() < 2 {
            return None;
        }
        let a: [u8; 2] = [bytes[0], bytes[1]];
        proof {
            assert(a@ =~= bytes@.subrange(0, 2));
        }
        if SmPowerSave::from_u8(read_u8_bits(a.as_slice(), 9, 2)).is_none() {
            return None;
        }
        Some(CapabilitiesInformation { bytes: a })
    }

    /// The encoded bytes.
    pub fn to_bytes(&self) -> (v: Vec<u8>)
        ensures
            v@ == self.raw(),
    {
        vstd::slice::slice_to_vec(self.bytes.as_slice())
    }

    /// The "Minimum MPDU Start Spacing" subfield (bits 0-2).
    pub open spec fn spec_minimum_mpdu_start_spacing(&self) -> u8 {
        bits_value(self.raw(), 0, 3) as u8
    }

    /// The "Minimum MPDU Start Spacing" subfield (bits 0-2).
    pub fn minimum_mpdu_start_spacing(&self) -> (v: u8)
        ensures
            v == self.spec_minimum_mpdu_start_spacing(),
            v == bits_value(self.raw(), 0, 3),
    {
        read_u8_bits(self.bytes.as_slice(), 0, 3)
    }

    /// The "Maximum AMPDU Length Exponent" subfield (bits 3-5).
    pub open spec fn spec_maximum_ampdu_length_exponent(&self) -> u8 {
        bits_value(self.raw(), 3, 3) as u8
    }

    /// The "Maximum AMPDU Length Exponent" subfield (bits 3-5).
    pub fn maximum_ampdu_length_exponent(&self) -> (v: u8)
        ensures
            v == self.spec_maximum_ampdu_length_exponent(),
            v == bits_value(self.raw(), 3, 3),
    {
        read_u8_bits(self.bytes.as_slice(), 3, 3)
    }

    /// The "Maximum MPDU Length" subfield (bits 6-7).
    pub open spec fn spec_maximum_mpdu_length(&self) -> u8 {
        bits_value(self.raw(), 6, 2) as u8
    }

    /// The "Maximum MPDU Length" subfield (bits 6-7).
    pub fn maximum_mpdu_length(&self) -> (v: u8)
        ensures
            v == self.spec_maximum_mpdu_length(),
            v == bits_value(self.raw(), 6, 2),
    {
        read_u8_bits(self.bytes.as_slice(), 6, 2)
    }

    /// The "SM Power Save" subfield (bits 9-10).
    pub open spec fn spec_sm_power_save(&self) -> SmPowerSave {
        match SmPowerSave::spec_from_u8(bits_value(self.raw(), 9, 2) as u8) {
            Some(v) => v,
            None => SmPowerSave::Static,
        }
    }

    /// The "SM Power Save" subfield (bits 9-10).
    pub fn sm_power_save(&self) -> (v: SmPowerSave)
        ensures
            v == self.spec_sm_power_save(),
    {
        match SmPowerSave::from_u8(read_u8_bits(self.bytes.as_slice(), 9, 2)) {
            Some(v) => v,
            None => SmPowerSave::Static,
        }
    }

    /// The "RD Responder" subfield (bit 11).
    pub open spec fn spec_rd_responder(&self) -> bool {
        bit_set(self.raw(), 11)
    }

    /// The "RD Responder" subfield (bit 11).
    pub fn rd_responder(&self) -> (b: bool)
        ensures
            b == self.spec_rd_responder(),
    {
        read_bit(self.bytes.as_slice(), 11)
    }

    /// The "Rx Antenna Pattern Consistency" subfield (bit 12).
    pub open spec fn spec_rx_antenna_pattern_consistency(&self) -> bool {
        bit_set(self.raw(), 12)
    }

    /// The "Rx Antenna Pattern Consistency" subfield (bit 12).
    pub fn rx_antenna_pattern_consistency(&self) -> (b: bool)
        ensures
            b == self.spec_rx_antenna_pattern_consistency(),
    {
        read_bit(self.bytes.as_slice(), 12)
    }

    /// The "Tx Antenna Pattern Consistency" subfield (bit 13).
    pub open spec fn spec_tx_antenna_pattern_consistency(&self) -> bool {
        bit_set(self.raw(), 13)
    }

    /// The "Tx Antenna Pattern Consistency" subfield (bit 13).
    pub fn tx_antenna_pattern_consistency(&self) -> (b: bool)
        ensures
            b == self.spec_tx_antenna_pattern_consistency(),
    {
        read_bit(self.bytes.as_slice(), 13)
    }

    /// Whether `f` is the displayable field of this value: one subfield per bit field.
    pub open spec fn field_shows(&self, f: Field) -> bool {
        &&& f.title@ == "Capabilities Information"@
        &&& f.value@ == ""@
        &&& f.bytes matches Some(b) && b@ == self.raw()
        &&& f.byte is None
        &&& f.bits is None
        &&& f.units is None
        &&& f.subfields@.len() == 9
        &&& bit_field_is(f.subfields@[0], "Minimum MPDU Start Spacing"@, decimal(self.spec_minimum_mpdu_start_spacing() as nat), None, self.raw(), 0, 3)
        &&& bit_field_is(f.subfields@[1], "Maximum AMPDU Length Exponent"@, decimal(self.spec_maximum_ampdu_length_exponent() as nat), None, self.raw(), 3, 3)
        &&& bit_field_is(f.subfields@[2], "Maximum MPDU Length"@, decimal(self.spec_maximum_mpdu_length() as nat), None, self.raw(), 6, 2)
        &&& reserved_field_is(f.subfields@[3], self.raw(), 8, 1)
        &&& bit_field_is(f.subfields@[4], "SM Power Save"@, self.spec_sm_power_save().spec_text(), None, self.raw(), 9, 2)
        &&& bit_field_is(f.subfields@[5], "RD Responder"@, bool_text(self.spec_rd_responder()), None, self.raw(), 11, 1)
        &&& bit_field_is(f.subfields@[6], "Rx Antenna Pattern Consistency"@, bool_text(self.spec_rx_antenna_pattern_consistency()), None, self.raw(), 12, 1)
        &&& bit_field_is(f.subfields@[7], "Tx Antenna Pattern Consistency"@, bool_text(self.spec_tx_antenna_pattern_consistency()), None, self.raw(), 13, 1)
        &&& reserved_field_is(f.subfields@[8], self.raw(), 14, 2)
    }

    /// The value as a displayable field with one subfield per bit field.
    pub fn to_field(&self) -> (f: Field)
        ensures
            self.field_shows(f),
    {
        let bytes = self.bytes.as_slice();
        let mut subfields: Vec<Field> = Vec::new();
        subfields.push(bit_field("Minimum MPDU Start Spacing", u64_text(self.minimum_mpdu_start_spacing() as u64), bytes, 0, 3));
        subfields.push(bit_field("Maximum AMPDU Length Exponent", u64_text(self.maximum_ampdu_length_exponent() as u64), bytes, 3, 3));
        subfields.push(bit_field("Maximum MPDU Length", u64_text(self.maximum_mpdu_length() as u64), bytes, 6, 2));
        subfields.push(reserved_bits(bytes, 8, 1));
        subfields.push(bit_field("SM Power Save", self.sm_power_save().to_string(), bytes, 9, 2));
        subfields.push(bit_field("RD Responder", bool_string(self.rd_responder()), bytes, 11, 1));
        subfields.push(bit_field("Rx Antenna Pattern Consistency", bool_string(self.rx_antenna_pattern_consistency()), bytes, 12, 1));
        subfields.push(bit_field("Tx Antenna Pattern Consistency", bool_string(self.tx_antenna_pattern_consistency()), bytes, 13, 1));
        subfields.push(reserved_bits(bytes, 14, 2));
        Field::new("Capabilities Information", "").with_bytes(self.to_bytes()).with_subfields(subfields)
    }

}

/// An HE 6 GHz Band Capabilities element.
#[derive(Debug, Clone, PartialEq, Eq, Hash)]
pub struct HeSixGhzBandCapabilities {
    pub capabilities_information: CapabilitiesInformation,
}

impl HeSixGhzBandCapabilities {
    pub const LENGTH: usize = 2;
    pub const NAME: &'static str = "HE 6 GHz Band Capabilities";
    pub const ID: u8 = 255;

    /// The element ID extension.
    pub fn id_ext() -> (r: Option<u8>)
        ensures
            r == Some(59u8),
    {
        Some(59)
    }

    /// Parses the two-byte element body. `None` when it is shorter or the SM power save code is
    /// undefined.
    pub fn from_bytes(bytes: &[u8]) -> (r: Option<HeSixGhzBandCapabilities>)
        ensures
            r is Some <==> bytes@.len() >= 2 && CapabilitiesInformation::spec_valid(bytes@.subrange(0, 2)),
            r matches Some(c) ==> c.capabilities_information.raw() == bytes@.subrange(0, 2),
    {
        match CapabilitiesInformation::from_bytes(bytes) {
            Some(c) => Some(HeSixGhzBandCapabilities { capabilities_information: c }),
            None => None,
        }
    }

    /// The one-line summary, which is empty.
    pub fn summary(&self) -> (s: String)
        ensures
            s@ == Seq::<char>::empty(),
    {
        proof {
            reveal_strlit("");
        }
        String::from_str("")
    }

    /// The element's single field.
    pub fn fields(&self) -> (v: Vec<Field>)
        ensures
            v@.len() == 1,
            self.capabilities_information.field_shows(v@[0]),
    {
        let mut v: Vec<Field> = Vec::new();
        v.push(self.capabilities_information.to_field());
        v
    }
}

} // verus!
