//! The VHT Capabilities element (802.11ac).
use vstd::prelude::*;

use crate::bits::{
    bit_set, bits_value, lemma_bits_value_bound, lemma_two_pow_64, lemma_two_pow_monotone, read_bit,
    read_bits, read_u16_bits, read_u8_bits,
};
use crate::ies::field::{
    bit_field, bit_field_is, bit_field_with_units, reserved_bits, reserved_field_is, BitRange,
    Field,
};
use crate::channel_width::ChannelWidth;
use crate::ies::ht_capabilities::{spatial_streams_string, spatial_streams_text};
use crate::text::{bool_string, bool_text, decimal, owned, paren_decimal, paren_text, u64_text};

verus! {

/// The VHT-MCS indices supported on a spatial stream.
#[derive(Debug, Clone, Copy, PartialEq, Eq, Structural, Hash)]
pub enum Support {
    VhtMcsZeroThroughSeven,
    VhtMcsZeroThroughEight,
    VhtMcsZeroThroughNine,
    NotSupported,
}

impl Support {
    /// The value encoded by a raw code, if the code is defined.
    pub open spec fn spec_from_u8(v: u8) -> Option<Support> {
        if v == 0 {
            Some(Support::VhtMcsZeroThroughSeven)
        } else if v == 1 {
            Some(Support::VhtMcsZeroThroughEight)
        } else if v == 2 {
            Some(Support::VhtMcsZeroThroughNine)
        } else if v == 3 {
            Some(Support::NotSupported)
        } else {
            None
        }
    }

    /// The raw code of the value.
    pub open spec fn spec_to_u8(self) -> u8 {
        match self {
            Support::VhtMcsZeroThroughSeven => 0,
            Support::VhtMcsZeroThroughEight => 1,
            Support::VhtMcsZeroThroughNine => 2,
            Support::NotSupported => 3,
        }
    }

    /// The human-readable text of the value.
    pub open spec fn spec_text(self) -> Seq<char> {
        match self {
            Support::VhtMcsZeroThroughSeven => "VHT-MCS 0-7"@,
            Support::VhtMcsZeroThroughEight => "VHT-MCS 0-8"@,
            Support::VhtMcsZeroThroughNine => "VHT-MCS 0-9"@,
            Support::NotSupported => "Not Supported"@,
        }
    }

    /// Decodes a raw code; `None` for an undefined code.
    pub fn from_u8(v: u8) -> (r: Option<Support>)
        ensures
            r == Self::spec_from_u8(v),
    {
        match v {
            0 => Some(Support::VhtMcsZeroThroughSeven),
            1 => Some(Support::VhtMcsZeroThroughEight),
            2 => Some(Support::VhtMcsZeroThroughNine),
            3 => Some(Support::NotSupported),
            _ => None,
        }
    }

    /// The raw code of the value.
    pub fn to_u8(&self) -> (v: u8)
        ensures
            v == self.spec_to_u8(),
            Self::spec_from_u8(v) == Some(*self),
    {
        match self {
            Support::VhtMcsZeroThroughSeven => 0,
            Support::VhtMcsZeroThroughEight => 1,
            Support::VhtMcsZeroThroughNine => 2,
            Support::NotSupported => 3,
        }
    }

    /// The human-readable text of the value.
    pub fn to_string(&self) -> (s: String)
        ensures
            s@ == self.spec_text(),
    {
        match self {
            Support::VhtMcsZeroThroughSeven => String::from_str("VHT-MCS 0-7"),
            Support::VhtMcsZeroThroughEight => String::from_str("VHT-MCS 0-8"),
            Support::VhtMcsZeroThroughNine => String::from_str("VHT-MCS 0-9"),
            Support::NotSupported => String::from_str("Not Supported"),
        }
    }
}

/// Decoding a value's own code gives the value back.
pub proof fn lemma_support_code_roundtrip(v: Support)
    ensures
        Support::spec_from_u8(v.spec_to_u8()) == Some(v),
{
}

/// The VHT Capabilities Info field of a VHT Capabilities element.
#[derive(Debug, Clone, Copy, PartialEq, Eq, Hash)]
pub struct VhtCapabilitiesInfo {
    bytes: [u8; 4],
}

impl VhtCapabilitiesInfo {
    /// The encoded length in bytes.
    pub const LENGTH: usize = 4;

    /// Whether `bytes` (exactly 4 of them) encode a valid value.
    pub open spec fn spec_valid(bytes: Seq<u8>) -> bool {
        &&& bytes.len() == 4
        &&& bits_value(bytes, 0, 2) != 3
    }

    /// The encoded bytes.
    pub closed spec fn raw(&self) -> Seq<u8> {
        self.bytes@
    }

    /// Every value is encoded in exactly 4 bytes.
    pub proof fn lemma_raw_len(&self)
        ensures
            self.raw().len() == 4,
    {
    }

    /// Decodes the value from the first 4 bytes of `bytes`. `None` when there are fewer
    /// bytes or they do not encode a valid value.
    pub fn from_bytes(bytes: &[u8]) -> (r: Option<VhtCapabilitiesInfo>)
        ensures
            r is Some <==> bytes@.len() >= 4 && Self::spec_valid(bytes@.subrange(0, 4)),
            r matches Some(v) ==> v.raw() == bytes@.subrange(0, 4),
    {
        if bytes.len() < 4 {
            return None;
        }
        let a: [u8; 4] = [bytes[0], bytes[1], bytes[2], bytes[3]];
        proof {
            assert(a@ =~= bytes@.subrange(0, 4));
        }
        if !(read_u8_bits(a.as_slice(), 0, 2) != 3) {
            return None;
        }
        Some(VhtCapabilitiesInfo { bytes: a })
    }

    /// The encoded bytes.
    pub fn to_bytes(&self) -> (v: Vec<u8>)
        ensures
            v@ == self.raw(),
    {
        vstd::slice::slice_to_vec(self.bytes.as_slice())
    }

    /// The "Maximum MPDU Length" subfield (bits 0-1).
    pub open spec fn spec_maximum_mpdu_length(&self) -> u16 {
        if bits_value(self.raw(), 0, 2) == 0 { 3895u16 } else if bits_value(self.raw(), 0, 2) == 1 { 7991u16 } else { 11454u16 }
    }

    /// The "Maximum MPDU Length" subfield (bits 0-1).
    pub fn maximum_mpdu_length(&self) -> (v: u16)
        ensures
            v == self.spec_maximum_mpdu_length(),
    {
        match read_u8_bits(self.bytes.as_slice(), 0, 2) { 0 => 3895, 1 => 7991, _ => 11454 }
    }

    /// The "Supported Channel Width Set" subfield (bits 2-3).
    pub open spec fn spec_supported_channel_width_set(&self) -> u8 {
        bits_value(self.raw(), 2, 2) as u8
    }

    /// The "Supported Channel Width Set" subfield (bits 2-3).
    pub fn supported_channel_width_set(&self) -> (v: u8)
        ensures
            v == self.spec_supported_channel_width_set(),
            v == bits_value(self.raw(), 2, 2),
    {
        read_u8_bits(self.bytes.as_slice(), 2, 2)
    }

    /// The "Rx LDPC" subfield (bit 4).
    pub open spec fn spec_rx_ldpc(&self) -> bool {
        bit_set(self.raw(), 4)
    }

    /// The "Rx LDPC" subfield (bit 4).
    pub fn rx_ldpc(&self) -> (b: bool)
        ensures
            b == self.spec_rx_ldpc(),
    {
        read_bit(self.bytes.as_slice(), 4)
    }

    /// The "Short GI for 80 MHz" subfield (bit 5).
    pub open spec fn spec_short_gi_for_eighty_mhz(&self) -> bool {
        bit_set(self.raw(), 5)
    }

    /// The "Short GI for 80 MHz" subfield (bit 5).
    pub fn short_gi_for_eighty_mhz(&self) -> (b: bool)
        ensures
            b == self.spec_short_gi_for_eighty_mhz(),
    {
        read_bit(self.bytes.as_slice(), 5)
    }

    /// The "Short GI for 160 MHz and 80+80 MHz" subfield (bit 6).
    pub open spec fn spec_short_gi_for_one_hundred_sixty_and_eighty_plus_eighty_mhz(&self) -> bool {
        bit_set(self.raw(), 6)
    }

    /// The "Short GI for 160 MHz and 80+80 MHz" subfield (bit 6).
    pub fn short_gi_for_one_hundred_sixty_and_eighty_plus_eighty_mhz(&self) -> (b: bool)
        ensures
            b == self.spec_short_gi_for_one_hundred_sixty_and_eighty_plus_eighty_mhz(),
    {
        read_bit(self.bytes.as_slice(), 6)
    }

    /// The "Tx STBC" subfield (bit 7).
    pub open spec fn spec_tx_stbc(&self) -> bool {
        bit_set(self.raw(), 7)
    }

    /// The "Tx STBC" subfield (bit 7).
    pub fn tx_stbc(&self) -> (b: bool)
        ensures
            b == self.spec_tx_stbc(),
    {
        read_bit(self.bytes.as_slice(), 7)
    }

    /// The "Rx STBC" subfield (bits 8-10).
    pub open spec fn spec_rx_stbc(&self) -> u8 {
        bits_value(self.raw(), 8, 3) as u8
    }

    /// The "Rx STBC" subfield (bits 8-10).
    pub fn rx_stbc(&self) -> (v: u8)
        ensures
            v == self.spec_rx_stbc(),
            v == bits_value(self.raw(), 8, 3),
    {
        read_u8_bits(self.bytes.as_slice(), 8, 3)
    }

    /// The "SU Beamformer Capable" subfield (bit 11).
    pub open spec fn spec_su_beamformer_capable(&self) -> bool {
        bit_set(self.raw(), 11)
    }

    /// The "SU Beamformer Capable" subfield (bit 11).
    pub fn su_beamformer_capable(&self) -> (b: bool)
        ensures
            b == self.spec_su_beamformer_capable(),
    {
        read_bit(self.bytes.as_slice(), 11)
    }

    /// The "SU Beamformee Capable" subfield (bit 12).
    pub open spec fn spec_su_beamformee_capable(&self) -> bool {
        bit_set(self.raw(), 12)
    }

    /// The "SU Beamformee Capable" subfield (bit 12).
    pub fn su_beamformee_capable(&self) -> (b: bool)
        ensures
            b == self.spec_su_beamformee_capable(),
    {
        read_bit(self.bytes.as_slice(), 12)
    }

    /// The "Beamformee STS Capability" subfield (bits 13-15).
    pub open spec fn spec_beamformee_sts_capability(&self) -> u8 {
        bits_value(self.raw(), 13, 3) as u8
    }

    /// The "Beamformee STS Capability" subfield (bits 13-15).
    pub fn beamformee_sts_capability(&self) -> (v: u8)
        ensures
            v == self.spec_beamformee_sts_capability(),
            v == bits_value(self.raw(), 13, 3),
    {
        read_u8_bits(self.bytes.as_slice(), 13, 3)
    }

    /// The "Number of Sounding Dimensions" subfield (bits 16-18).
    pub open spec fn spec_number_of_sounding_dimensions(&self) -> u8 {
        bits_value(self.raw(), 16, 3) as u8
    }

    /// The "Number of Sounding Dimensions" subfield (bits 16-18).
    pub fn number_of_sounding_dimensions(&self) -> (v: u8)
        ensures
            v == self.spec_number_of_sounding_dimensions(),
            v == bits_value(self.raw(), 16, 3),
    {
        read_u8_bits(self.bytes.as_slice(), 16, 3)
    }

    /// The "MU Beamformer Capable" subfield (bit 19).
    pub open spec fn spec_mu_beamformer_capable(&self) -> bool {
        bit_set(self.raw(), 19)
    }

    /// The "MU Beamformer Capable" subfield (bit 19).
    pub fn mu_beamformer_capable(&self) -> (b: bool)
        ensures
            b == self.spec_mu_beamformer_capable(),
    {
        read_bit(self.bytes.as_slice(), 19)
    }

    /// The "MU Beamformee Capable" subfield (bit 20).
    pub open spec fn spec_mu_beamformee_capable(&self) -> bool {
        bit_set(self.raw(), 20)
    }

    /// The "MU Beamformee Capable" subfield (bit 20).
    pub fn mu_beamformee_capable(&self) -> (b: bool)
        ensures
            b == self.spec_mu_beamformee_capable(),
    {
        read_bit(self.bytes.as_slice(), 20)
    }

    /// The "TXOP PS" subfield (bit 21).
    pub open spec fn spec_txop_ps(&self) -> bool {
        bit_set(self.raw(), 21)
    }

    /// The "TXOP PS" subfield (bit 21).
    pub fn txop_ps(&self) -> (b: bool)
        ensures
            b == self.spec_txop_ps(),
    {
        read_bit(self.bytes.as_slice(), 21)
    }

    /// The "+HTC-VHT Capable" subfield (bit 22).
    pub open spec fn spec_htc_vht_capable(&self) -> bool {
        bit_set(self.raw(), 22)
    }

    /// The "+HTC-VHT Capable" subfield (bit 22).
    pub fn htc_vht_capable(&self) -> (b: bool)
        ensures
            b == self.spec_htc_vht_capable(),
    {
        read_bit(self.bytes.as_slice(), 22)
    }

    /// The "Maximum A-MPDU Length Exponent" subfield (bits 23-25).
    pub open spec fn spec_maximum_ampdu_length_exponent(&self) -> u8 {
        bits_value(self.raw(), 23, 3) as u8
    }

    /// The "Maximum A-MPDU Length Exponent" subfield (bits 23-25).
    pub fn maximum_ampdu_length_exponent(&self) -> (v: u8)
        ensures
            v == self.spec_maximum_ampdu_length_exponent(),
            v == bits_value(self.raw(), 23, 3),
    {
        read_u8_bits(self.bytes.as_slice(), 23, 3)
    }

    /// The "VHT Link Adaptation Capable" subfield (bits 26-27).
    pub open spec fn spec_vht_link_adaptation_capable(&self) -> u8 {
        bits_value(self.raw(), 26, 2) as u8
    }

    /// The "VHT Link Adaptation Capable" subfield (bits 26-27).
    pub fn vht_link_adaptation_capable(&self) -> (v: u8)
        ensures
            v == self.spec_vht_link_adaptation_capable(),
            v == bits_value(self.raw(), 26, 2),
    {
        read_u8_bits(self.bytes.as_slice(), 26, 2)
    }

    /// The "Rx Antenna Pattern Consistency" subfield (bit 28).
    pub open spec fn spec_rx_antenna_pattern_consistency(&self) -> bool {
        bit_set(self.raw(), 28)
    }

    /// The "Rx Antenna Pattern Consistency" subfield (bit 28).
    pub fn rx_antenna_pattern_consistency(&self) -> (b: bool)
        ensures
            b == self.spec_rx_antenna_pattern_consistency(),
    {
        read_bit(self.bytes.as_slice(), 28)
    }

    /// The "Tx Antenna Pattern Consistency" subfield (bit 29).
    pub open spec fn spec_tx_antenna_pattern_consistency(&self) -> bool {
        bit_set(self.raw(), 29)
    }

    /// The "Tx Antenna Pattern Consistency" subfield (bit 29).
    pub fn tx_antenna_pattern_consistency(&self) -> (b: bool)
        ensures
            b == self.spec_tx_antenna_pattern_consistency(),
    {
        read_bit(self.bytes.as_slice(), 29)
    }

    /// The "Extended NSS BW Support" subfield (bits 30-31).
    pub open spec fn spec_extended_nss_bw_support(&self) -> u8 {
        bits_value(self.raw(), 30, 2) as u8
    }

    /// The "Extended NSS BW Support" subfield (bits 30-31).
    pub fn extended_nss_bw_support(&self) -> (v: u8)
        ensures
            v == self.spec_extended_nss_bw_support(),
            v == bits_value(self.raw(), 30, 2),
    {
        read_u8_bits(self.bytes.as_slice(), 30, 2)
    }

    /// Whether `f` is the displayable field of this value: one subfield per bit field.
    pub open spec fn field_shows(&self, f: Field) -> bool {
        &&& f.title@ == "VHT Capabilities Info"@
        &&& f.value@ == ""@
        &&& f.bytes matches Some(b) && b@ == self.raw()
        &&& f.byte is None
        &&& f.bits is None
        &&& f.units is None
        &&& f.subfields@.len() == 20
        &&& bit_field_is(f.subfields@[0], "Maximum MPDU Length"@, decimal(self.spec_maximum_mpdu_length() as nat), Some("bytes"@), self.raw(), 0, 2)
        &&& bit_field_is(f.subfields@[1], "Supported Channel Width Set"@, decimal(self.spec_supported_channel_width_set() as nat), None, self.raw(), 2, 2)
        &&& bit_field_is(f.subfields@[2], "Rx LDPC"@, bool_text(self.spec_rx_ldpc()), None, self.raw(), 4, 1)
        &&& bit_field_is(f.subfields@[3], "Short GI for 80 MHz"@, bool_text(self.spec_short_gi_for_eighty_mhz()), None, self.raw(), 5, 1)
        &&& bit_field_is(f.subfields@[4], "Short GI for 160 MHz and 80+80 MHz"@, bool_text(self.spec_short_gi_for_one_hundred_sixty_and_eighty_plus_eighty_mhz()), None, self.raw(), 6, 1)
        &&& bit_field_is(f.subfields@[5], "Tx STBC"@, bool_text(self.spec_tx_stbc()), None, self.raw(), 7, 1)
        &&& bit_field_is(f.subfields@[6], "Rx STBC"@, decimal(self.spec_rx_stbc() as nat), None, self.raw(), 8, 3)
        &&& bit_field_is(f.subfields@[7], "SU Beamformer Capable"@, bool_text(self.spec_su_beamformer_capable()), None, self.raw(), 11, 1)
        &&& bit_field_is(f.subfields@[8], "SU Beamformee Capable"@, bool_text(self.spec_su_beamformee_capable()), None, self.raw(), 12, 1)
        &&& bit_field_is(f.subfields@[9], "Beamformee STS Capability"@, decimal((self.spec_beamformee_sts_capability() + 1) as nat), None, self.raw(), 13, 3)
        &&& bit_field_is(f.subfields@[10], "Number of Sounding Dimensions"@, decimal((self.spec_number_of_sounding_dimensions() + 1) as nat), None, self.raw(), 16, 3)
        &&& bit_field_is(f.subfields@[11], "MU Beamformer Capable"@, bool_text(self.spec_mu_beamformer_capable()), None, self.raw(), 19, 1)
        &&& bit_field_is(f.subfields@[12], "MU Beamformee Capable"@, bool_text(self.spec_mu_beamformee_capable()), None, self.raw(), 20, 1)
        &&& bit_field_is(f.subfields@[13], "TXOP PS"@, bool_text(self.spec_txop_ps()), None, self.raw(), 21, 1)
        &&& bit_field_is(f.subfields@[14], "+HTC-VHT Capable"@, bool_text(self.spec_htc_vht_capable()), None, self.raw(), 22, 1)
        &&& bit_field_is(f.subfields@[15], "Maximum A-MPDU Length Exponent"@, decimal(self.spec_maximum_ampdu_length_exponent() as nat), None, self.raw(), 23, 3)
        &&& bit_field_is(f.subfields@[16], "VHT Link Adaptation Capable"@, decimal(self.spec_vht_link_adaptation_capable() as nat), None, self.raw(), 26, 2)
        &&& bit_field_is(f.subfields@[17], "Rx Antenna Pattern Consistency"@, bool_text(self.spec_rx_antenna_pattern_consistency()), None, self.raw(), 28, 1)
        &&& bit_field_is(f.subfields@[18], "Tx Antenna Pattern Consistency"@, bool_text(self.spec_tx_antenna_pattern_consistency()), None, self.raw(), 29, 1)
        &&& bit_field_is(f.subfields@[19], "Extended NSS BW Support"@, decimal(self.spec_extended_nss_bw_support() as nat), None, self.raw(), 30, 2)
    }

    /// The value as a displayable field with one subfield per bit field.
    pub fn to_field(&self) -> (f: Field)
        ensures
            self.field_shows(f),
    {
        let bytes = self.bytes.as_slice();
        let mut subfields: Vec<Field> = Vec::new();
        subfields.push(bit_field_with_units("Maximum MPDU Length", u64_text(self.maximum_mpdu_length() as u64), owned("bytes"), bytes, 0, 2));
        subfields.push(bit_field("Supported Channel Width Set", u64_text(self.supported_channel_width_set() as u64), bytes, 2, 2));
        subfields.push(bit_field("Rx LDPC", bool_string(self.rx_ldpc()), bytes, 4, 1));
        subfields.push(bit_field("Short GI for 80 MHz", bool_string(self.short_gi_for_eighty_mhz()), bytes, 5, 1));
        subfields.push(bit_field("Short GI for 160 MHz and 80+80 MHz", bool_string(self.short_gi_for_one_hundred_sixty_and_eighty_plus_eighty_mhz()), bytes, 6, 1));
        subfields.push(bit_field("Tx STBC", bool_string(self.tx_stbc()), bytes, 7, 1));
        subfields.push(bit_field("Rx STBC", u64_text(self.rx_stbc() as u64), bytes, 8, 3));
        subfields.push(bit_field("SU Beamformer Capable", bool_string(self.su_beamformer_capable()), bytes, 11, 1));
        subfields.push(bit_field("SU Beamformee Capable", bool_string(self.su_beamformee_capable()), bytes, 12, 1));
        subfields.push(bit_field("Beamformee STS Capability", u64_text(self.beamformee_sts_capability() as u64 + 1), bytes, 13, 3));
        subfields.push(bit_field("Number of Sounding Dimensions", u64_text(self.number_of_sounding_dimensions() as u64 + 1), bytes, 16, 3));
        subfields.push(bit_field("MU Beamformer Capable", bool_string(self.mu_beamformer_capable()), bytes, 19, 1));
        subfields.push(bit_field("MU Beamformee Capable", bool_string(self.mu_beamformee_capable()), bytes, 20, 1));
        subfields.push(bit_field("TXOP PS", bool_string(self.txop_ps()), bytes, 21, 1));
        subfields.push(bit_field("+HTC-VHT Capable", bool_string(self.htc_vht_capable()), bytes, 22, 1));
        subfields.push(bit_field("Maximum A-MPDU Length Exponent", u64_text(self.maximum_ampdu_length_exponent() as u64), bytes, 23, 3));
        subfields.push(bit_field("VHT Link Adaptation Capable", u64_text(self.vht_link_adaptation_capable() as u64), bytes, 26, 2));
        subfields.push(bit_field("Rx Antenna Pattern Consistency", bool_string(self.rx_antenna_pattern_consistency()), bytes, 28, 1));
        subfields.push(bit_field("Tx Antenna Pattern Consistency", bool_string(self.tx_antenna_pattern_consistency()), bytes, 29, 1));
        subfields.push(bit_field("Extended NSS BW Support", u64_text(self.extended_nss_bw_support() as u64), bytes, 30, 2));
        Field::new("VHT Capabilities Info", "").with_bytes(self.to_bytes()).with_subfields(subfields)
    }

}

/// A VHT-MCS map: the highest VHT-MCS supported on each of eight spatial streams.
#[derive(Debug, Clone, Copy, PartialEq, Eq, Hash)]
pub struct VhtMcsMap {
    bytes: [u8; 2],
}

impl VhtMcsMap {
    /// The encoded length in bytes.
    pub const LENGTH: usize = 2;

    /// Whether `bytes` (exactly 2 of them) encode a valid value.
    pub open spec fn spec_valid(bytes: Seq<u8>) -> bool {
        &&& bytes.len() == 2
        &&& Support::spec_from_u8(bits_value(bytes, 0, 2) as u8) is Some
        &&& Support::spec_from_u8(bits_value(bytes, 2, 2) as u8) is Some
        &&& Support::spec_from_u8(bits_value(bytes, 4, 2) as u8) is Some
        &&& Support::spec_from_u8(bits_value(bytes, 6, 2) as u8) is Some
        &&& Support::spec_from_u8(bits_value(bytes, 8, 2) as u8) is Some
        &&& Support::spec_from_u8(bits_value(bytes, 10, 2) as u8) is Some
        &&& Support::spec_from_u8(bits_value(bytes, 12, 2) as u8) is Some
        &&& Support::spec_from_u8(bits_value(bytes, 14, 2) as u8) is Some
    }

    /// The encoded bytes.
    pub closed spec fn raw(&self) -> Seq<u8> {
        self.bytes@
    }

    /// Every value is encoded in exactly 2 bytes.
    pub proof fn lemma_raw_len(&self)
        ensures
            self.raw().len() == 2,
    {
    }

    /// Decodes the value from the first 2 bytes of `bytes`. `None` when there are fewer
    /// bytes or they do not encode a valid value.
    pub fn from_bytes(bytes: &[u8]) -> (r: Option<VhtMcsMap>)
        ensures
            r is Some <==> bytes@.len() >= 2 && Self::spec_valid(bytes@.subrange(0, 2)),
            r matches Some(v) ==> v.raw() == bytes@.subrange(0, 2),
    {
        if bytes.len() < 2 {
            return None;
        }
        let a: [u8; 2] = [bytes[0], bytes[1]];
        proof {
            assert(a@ =~= bytes@.subrange(0, 2));
        }
        if Support::from_u8(read_u8_bits(a.as_slice(), 0, 2)).is_none() {
            return None;
        }
        if Support::from_u8(read_u8_bits(a.as_slice(), 2, 2)).is_none() {
            return None;
        }
        if Support::from_u8(read_u8_bits(a.as_slice(), 4, 2)).is_none() {
            return None;
        }
        if Support::from_u8(read_u8_bits(a.as_slice(), 6, 2)).is_none() {
            return None;
        }
        if Support::from_u8(read_u8_bits(a.as_slice(), 8, 2)).is_none() {
            return None;
        }
        if Support::from_u8(read_u8_bits(a.as_slice(), 10, 2)).is_none() {
            return None;
        }
        if Support::from_u8(read_u8_bits(a.as_slice(), 12, 2)).is_none() {
            return None;
        }
        if Support::from_u8(read_u8_bits(a.as_slice(), 14, 2)).is_none() {
            return None;
        }
        Some(VhtMcsMap { bytes: a })
    }

    /// The encoded bytes.
    pub fn to_bytes(&self) -> (v: Vec<u8>)
        ensures
            v@ == self.raw(),
    {
        vstd::slice::slice_to_vec(self.bytes.as_slice())
    }

    /// The "Max VHT-MCS for 1 SS" subfield (bits 0-1).
    pub open spec fn spec_max_vht_mcs_for_one_ss(&self) -> Support {
        match Support::spec_from_u8(bits_value(self.raw(), 0, 2) as u8) {
            Some(v) => v,
            None => Support::VhtMcsZeroThroughSeven,
        }
    }

    /// The "Max VHT-MCS for 1 SS" subfield (bits 0-1).
    pub fn max_vht_mcs_for_one_ss(&self) -> (v: Support)
        ensures
            v == self.spec_max_vht_mcs_for_one_ss(),
    {
        match Support::from_u8(read_u8_bits(self.bytes.as_slice(), 0, 2)) {
            Some(v) => v,
            None => Support::VhtMcsZeroThroughSeven,
        }
    }

    /// The "Max VHT-MCS for 2 SS" subfield (bits 2-3).
    pub open spec fn spec_max_vht_mcs_for_two_ss(&self) -> Support {
        match Support::spec_from_u8(bits_value(self.raw(), 2, 2) as u8) {
            Some(v) => v,
            None => Support::VhtMcsZeroThroughSeven,
        }
    }

    /// The "Max VHT-MCS for 2 SS" subfield (bits 2-3).
    pub fn max_vht_mcs_for_two_ss(&self) -> (v: Support)
        ensures
            v == self.spec_max_vht_mcs_for_two_ss(),
    {
        match Support::from_u8(read_u8_bits(self.bytes.as_slice(), 2, 2)) {
            Some(v) => v,
            None => Support::VhtMcsZeroThroughSeven,
        }
    }

    /// The "Max VHT-MCS for 3 SS" subfield (bits 4-5).
    pub open spec fn spec_max_vht_mcs_for_three_ss(&self) -> Support {
        match Support::spec_from_u8(bits_value(self.raw(), 4, 2) as u8) {
            Some(v) => v,
            None => Support::VhtMcsZeroThroughSeven,
        }
    }

    /// The "Max VHT-MCS for 3 SS" subfield (bits 4-5).
    pub fn max_vht_mcs_for_three_ss(&self) -> (v: Support)
        ensures
            v == self.spec_max_vht_mcs_for_three_ss(),
    {
        match Support::from_u8(read_u8_bits(self.bytes.as_slice(), 4, 2)) {
            Some(v) => v,
            None => Support::VhtMcsZeroThroughSeven,
        }
    }

    /// The "Max VHT-MCS for 4 SS" subfield (bits 6-7).
    pub open spec fn spec_max_vht_mcs_for_four_ss(&self) -> Support {
        match Support::spec_from_u8(bits_value(self.raw(), 6, 2) as u8) {
            Some(v) => v,
            None => Support::VhtMcsZeroThroughSeven,
        }
    }

    /// The "Max VHT-MCS for 4 SS" subfield (bits 6-7).
    pub fn max_vht_mcs_for_four_ss(&self) -> (v: Support)
        ensures
            v == self.spec_max_vht_mcs_for_four_ss(),
    {
        match Support::from_u8(read_u8_bits(self.bytes.as_slice(), 6, 2)) {
            Some(v) => v,
            None => Support::VhtMcsZeroThroughSeven,
        }
    }

    /// The "Max VHT-MCS for 5 SS" subfield (bits 8-9).
    pub open spec fn spec_max_vht_mcs_for_five_ss(&self) -> Support {
        match Support::spec_from_u8(bits_value(self.raw(), 8, 2) as u8) {
            Some(v) => v,
            None => Support::VhtMcsZeroThroughSeven,
        }
    }

    /// The "Max VHT-MCS for 5 SS" subfield (bits 8-9).
    pub fn max_vht_mcs_for_five_ss(&self) -> (v: Support)
        ensures
            v == self.spec_max_vht_mcs_for_five_ss(),
    {
        match Support::from_u8(read_u8_bits(self.bytes.as_slice(), 8, 2)) {
            Some(v) => v,
            None => Support::VhtMcsZeroThroughSeven,
        }
    }

    /// The "Max VHT-MCS for 6 SS" subfield (bits 10-11).
    pub open spec fn spec_max_vht_mcs_for_six_ss(&self) -> Support {
        match Support::spec_from_u8(bits_value(self.raw(), 10, 2) as u8) {
            Some(v) => v,
            None => Support::VhtMcsZeroThroughSeven,
        }
    }

    /// The "Max VHT-MCS for 6 SS" subfield (bits 10-11).
    pub fn max_vht_mcs_for_six_ss(&self) -> (v: Support)
        ensures
            v == self.spec_max_vht_mcs_for_six_ss(),
    {
        match Support::from_u8(read_u8_bits(self.bytes.as_slice(), 10, 2)) {
            Some(v) => v,
            None => Support::VhtMcsZeroThroughSeven,
        }
    }

    /// The "Max VHT-MCS for 7 SS" subfield (bits 12-13).
    pub open spec fn spec_max_vht_mcs_for_seven_ss(&self) -> Support {
        match Support::spec_from_u8(bits_value(self.raw(), 12, 2) as u8) {
            Some(v) => v,
            None => Support::VhtMcsZeroThroughSeven,
        }
    }

    /// The "Max VHT-MCS for 7 SS" subfield (bits 12-13).
    pub fn max_vht_mcs_for_seven_ss(&self) -> (v: Support)
        ensures
            v == self.spec_max_vht_mcs_for_seven_ss(),
    {
        match Support::from_u8(read_u8_bits(self.bytes.as_slice(), 12, 2)) {
            Some(v) => v,
            None => Support::VhtMcsZeroThroughSeven,
        }
    }

    /// The "Max VHT-MCS for 8 SS" subfield (bits 14-15).
    pub open spec fn spec_max_vht_mcs_for_eight_ss(&self) -> Support {
        match Support::spec_from_u8(bits_value(self.raw(), 14, 2) as u8) {
            Some(v) => v,
            None => Support::VhtMcsZeroThroughSeven,
        }
    }

    /// The "Max VHT-MCS for 8 SS" subfield (bits 14-15).
    pub fn max_vht_mcs_for_eight_ss(&self) -> (v: Support)
        ensures
            v == self.spec_max_vht_mcs_for_eight_ss(),
    {
        match Support::from_u8(read_u8_bits(self.bytes.as_slice(), 14, 2)) {
            Some(v) => v,
            None => Support::VhtMcsZeroThroughSeven,
        }
    }

    /// Whether `f` is the displayable field of this value under `title`: one subfield per bit field.
    pub open spec fn field_shows(&self, f: Field, title: Seq<char>) -> bool {
        &&& f.title@ == title
        &&& f.value@ == ""@
        &&& f.bytes matches Some(b) && b@ == self.raw()
        &&& f.byte is None
        &&& f.bits is None
        &&& f.units is None
        &&& f.subfields@.len() == 8
        &&& bit_field_is(f.subfields@[0], "Max VHT-MCS for 1 SS"@, self.spec_max_vht_mcs_for_one_ss().spec_text(), Some(paren_decimal(self.spec_max_vht_mcs_for_one_ss().spec_to_u8() as nat)), self.raw(), 0, 2)
        &&& bit_field_is(f.subfields@[1], "Max VHT-MCS for 2 SS"@, self.spec_max_vht_mcs_for_two_ss().spec_text(), Some(paren_decimal(self.spec_max_vht_mcs_for_two_ss().spec_to_u8() as nat)), self.raw(), 2, 2)
        &&& bit_field_is(f.subfields@[2], "Max VHT-MCS for 3 SS"@, self.spec_max_vht_mcs_for_three_ss().spec_text(), Some(paren_decimal(self.spec_max_vht_mcs_for_three_ss().spec_to_u8() as nat)), self.raw(), 4, 2)
        &&& bit_field_is(f.subfields@[3], "Max VHT-MCS for 4 SS"@, self.spec_max_vht_mcs_for_four_ss().spec_text(), Some(paren_decimal(self.spec_max_vht_mcs_for_four_ss().spec_to_u8() as nat)), self.raw(), 6, 2)
        &&& bit_field_is(f.subfields@[4], "Max VHT-MCS for 5 SS"@, self.spec_max_vht_mcs_for_five_ss().spec_text(), Some(paren_decimal(self.spec_max_vht_mcs_for_five_ss().spec_to_u8() as nat)), self.raw(), 8, 2)
        &&& bit_field_is(f.subfields@[5], "Max VHT-MCS for 6 SS"@, self.spec_max_vht_mcs_for_six_ss().spec_text(), Some(paren_decimal(self.spec_max_vht_mcs_for_six_ss().spec_to_u8() as nat)), self.raw(), 10, 2)
        &&& bit_field_is(f.subfields@[6], "Max VHT-MCS for 7 SS"@, self.spec_max_vht_mcs_for_seven_ss().spec_text(), Some(paren_decimal(self.spec_max_vht_mcs_for_seven_ss().spec_to_u8() as nat)), self.raw(), 12, 2)
        &&& bit_field_is(f.subfields@[7], "Max VHT-MCS for 8 SS"@, self.spec_max_vht_mcs_for_eight_ss().spec_text(), Some(paren_decimal(self.spec_max_vht_mcs_for_eight_ss().spec_to_u8() as nat)), self.raw(), 14, 2)
    }

    /// The value as a displayable field with one subfield per bit field.
    pub fn to_field(&self, title: &str) -> (f: Field)
        ensures
            self.field_shows(f, title@),
    {
        let bytes = self.bytes.as_slice();
        let mut subfields: Vec<Field> = Vec::new();
        subfields.push(bit_field_with_units("Max VHT-MCS for 1 SS", self.max_vht_mcs_for_one_ss().to_string(), paren_text(self.max_vht_mcs_for_one_ss().to_u8() as u64), bytes, 0, 2));
        subfields.push(bit_field_with_units("Max VHT-MCS for 2 SS", self.max_vht_mcs_for_two_ss().to_string(), paren_text(self.max_vht_mcs_for_two_ss().to_u8() as u64), bytes, 2, 2));
        subfields.push(bit_field_with_units("Max VHT-MCS for 3 SS", self.max_vht_mcs_for_three_ss().to_string(), paren_text(self.max_vht_mcs_for_three_ss().to_u8() as u64), bytes, 4, 2));
        subfields.push(bit_field_with_units("Max VHT-MCS for 4 SS", self.max_vht_mcs_for_four_ss().to_string(), paren_text(self.max_vht_mcs_for_four_ss().to_u8() as u64), bytes, 6, 2));
        subfields.push(bit_field_with_units("Max VHT-MCS for 5 SS", self.max_vht_mcs_for_five_ss().to_string(), paren_text(self.max_vht_mcs_for_five_ss().to_u8() as u64), bytes, 8, 2));
        subfields.push(bit_field_with_units("Max VHT-MCS for 6 SS", self.max_vht_mcs_for_six_ss().to_string(), paren_text(self.max_vht_mcs_for_six_ss().to_u8() as u64), bytes, 10, 2));
        subfields.push(bit_field_with_units("Max VHT-MCS for 7 SS", self.max_vht_mcs_for_seven_ss().to_string(), paren_text(self.max_vht_mcs_for_seven_ss().to_u8() as u64), bytes, 12, 2));
        subfields.push(bit_field_with_units("Max VHT-MCS for 8 SS", self.max_vht_mcs_for_eight_ss().to_string(), paren_text(self.max_vht_mcs_for_eight_ss().to_u8() as u64), bytes, 14, 2));
        Field::new(title, "").with_bytes(self.to_bytes()).with_subfields(subfields)
    }

    /// The support announced for spatial stream `stream` (1 to 8); other streams are not
    /// supported.
    pub open spec fn spec_stream_support(&self, stream: u8) -> Support {
        if stream == 1 {
            self.spec_max_vht_mcs_for_one_ss()
        } else if stream == 2 {
            self.spec_max_vht_mcs_for_two_ss()
        } else if stream == 3 {
            self.spec_max_vht_mcs_for_three_ss()
        } else if stream == 4 {
            self.spec_max_vht_mcs_for_four_ss()
        } else if stream == 5 {
            self.spec_max_vht_mcs_for_five_ss()
        } else if stream == 6 {
            self.spec_max_vht_mcs_for_six_ss()
        } else if stream == 7 {
            self.spec_max_vht_mcs_for_seven_ss()
        } else if stream == 8 {
            self.spec_max_vht_mcs_for_eight_ss()
        } else {
            Support::NotSupported
        }
    }

    /// The highest stream whose support is announced, or 1 when none is.
    pub open spec fn spec_max_spatial_streams(&self) -> u8 {
        if self.spec_stream_support(8) != Support::NotSupported {
            8
        } else if self.spec_stream_support(7) != Support::NotSupported {
            7
        } else if self.spec_stream_support(6) != Support::NotSupported {
            6
        } else if self.spec_stream_support(5) != Support::NotSupported {
            5
        } else if self.spec_stream_support(4) != Support::NotSupported {
            4
        } else if self.spec_stream_support(3) != Support::NotSupported {
            3
        } else if self.spec_stream_support(2) != Support::NotSupported {
            2
        } else if self.spec_stream_support(1) != Support::NotSupported {
            1
        } else {
            1
        }
    }

    /// The maximum number of spatial streams supported: the highest stream whose support is
    /// announced, and at least 1.
    pub fn max_spatial_streams(&self) -> (n: u8)
        ensures
            n == self.spec_max_spatial_streams(),
    {
        if self.max_vht_mcs_for_eight_ss() != Support::NotSupported {
            return 8;
        }
        if self.max_vht_mcs_for_seven_ss() != Support::NotSupported {
            return 7;
        }
        if self.max_vht_mcs_for_six_ss() != Support::NotSupported {
            return 6;
        }
        if self.max_vht_mcs_for_five_ss() != Support::NotSupported {
            return 5;
        }
        if self.max_vht_mcs_for_four_ss() != Support::NotSupported {
            return 4;
        }
        if self.max_vht_mcs_for_three_ss() != Support::NotSupported {
            return 3;
        }
        if self.max_vht_mcs_for_two_ss() != Support::NotSupported {
            return 2;
        }
        if self.max_vht_mcs_for_one_ss() != Support::NotSupported {
            return 1;
        }
        1
    }

    /// The highest MCS index a support value allows, `None` when not supported.
    pub open spec fn spec_support_max_mcs(support: Support) -> Option<u8> {
        match support {
            Support::VhtMcsZeroThroughSeven => Some(7u8),
            Support::VhtMcsZeroThroughEight => Some(8u8),
            Support::VhtMcsZeroThroughNine => Some(9u8),
            Support::NotSupported => None,
        }
    }

    /// The highest MCS index supported on a spatial stream.
    pub open spec fn spec_max_mcs_for_stream(&self, stream: u8) -> Option<u8> {
        Self::spec_support_max_mcs(self.spec_stream_support(stream))
    }

    /// The highest MCS index supported on spatial stream `stream` (1 to 8); `None` when the
    /// stream is not supported or out of range.
    pub fn max_mcs_for_stream(&self, stream: u8) -> (m: Option<u8>)
        ensures
            m == self.spec_max_mcs_for_stream(stream),
    {
        let support = match stream {
            1 => self.max_vht_mcs_for_one_ss(),
            2 => self.max_vht_mcs_for_two_ss(),
            3 => self.max_vht_mcs_for_three_ss(),
            4 => self.max_vht_mcs_for_four_ss(),
            5 => self.max_vht_mcs_for_five_ss(),
            6 => self.max_vht_mcs_for_six_ss(),
            7 => self.max_vht_mcs_for_seven_ss(),
            8 => self.max_vht_mcs_for_eight_ss(),
            _ => Support::NotSupported,
        };
        match support {
            Support::VhtMcsZeroThroughSeven => Some(7),
            Support::VhtMcsZeroThroughEight => Some(8),
            Support::VhtMcsZeroThroughNine => Some(9),
            Support::NotSupported => None,
        }
    }

    /// The highest MCS of spatial stream `s` (1 to 8) follows from its two-bit support code
    /// (bits 2s-2 and 2s-1 of the map): a code `c` below 3 allows VHT-MCS 0 to 7 + `c`, and
    /// code 3 means the stream is not supported. Streams outside 1 to 8 are not supported.
    pub proof fn lemma_max_mcs_from_support_code(&self, s: u8)
        ensures
            1 <= s <= 8 ==> {
                let c = bits_value(self.raw(), 2 * (s - 1), 2);
                &&& c < 3 ==> self.spec_max_mcs_for_stream(s) == Some((7 + c) as u8)
                &&& c == 3 ==> self.spec_max_mcs_for_stream(s) is None
            },
            !(1 <= s <= 8) ==> self.spec_max_mcs_for_stream(s) is None,
    {
        if 1 <= s <= 8 {
            lemma_bits_value_bound(self.raw(), 2 * (s - 1), 2);
            assert(crate::bits::two_pow(2) == 4) by {
                reveal_with_fuel(crate::bits::two_pow, 3);
            }
        }
    }

    /// The stream count is the highest announced stream: no stream above it is supported,
    /// and it has an MCS unless no stream at all is announced.
    pub proof fn lemma_max_spatial_streams(&self)
        ensures
            1 <= self.spec_max_spatial_streams() <= 8,
            forall|s: u8|
                self.spec_max_spatial_streams() < s <= 8 ==> #[trigger] self.spec_max_mcs_for_stream(s)
                    is None,
            self.spec_max_spatial_streams() > 1 ==> self.spec_max_mcs_for_stream(
                self.spec_max_spatial_streams(),
            ) is Some,
    {
    }
}

/// The receive rate and stream limits of a Supported VHT-MCS and NSS Set.
#[derive(Debug, Clone, Copy, PartialEq, Eq, Hash)]
pub struct RxMcsNssInfo {
    bytes: [u8; 2],
}

impl RxMcsNssInfo {
    /// The encoded length in bytes.
    pub const LENGTH: usize = 2;

    /// Whether `bytes` (exactly 2 of them) encode a valid value.
    pub open spec fn spec_valid(bytes: Seq<u8>) -> bool {
        bytes.len() == 2
    }

    /// The encoded bytes.
    pub closed spec fn raw(&self) -> Seq<u8> {
        self.bytes@
    }

    /// Every value is encoded in exactly 2 bytes.
    pub proof fn lemma_raw_len(&self)
        ensures
            self.raw().len() == 2,
    {
    }

    /// Decodes the value from the first 2 bytes of `bytes`. `None` when there are fewer
    /// bytes or they do not encode a valid value.
    pub fn from_bytes(bytes: &[u8]) -> (r: Option<RxMcsNssInfo>)
        ensures
            r is Some <==> bytes@.len() >= 2 && Self::spec_valid(bytes@.subrange(0, 2)),
            r matches Some(v) ==> v.raw() == bytes@.subrange(0, 2),
    {
        if bytes.len() < 2 {
            return None;
        }
        let a: [u8; 2] = [bytes[0], bytes[1]];
        proof {
            assert(a@ =~= bytes@.subrange(0, 2));
        }
        Some(RxMcsNssInfo { bytes: a })
    }

    /// The encoded bytes.
    pub fn to_bytes(&self) -> (v: Vec<u8>)
        ensures
            v@ == self.raw(),
    {
        vstd::slice::slice_to_vec(self.bytes.as_slice())
    }

    /// The rx highest supported long gi data rate subfield (bits 0-12).
    pub open spec fn spec_rx_highest_supported_long_gi_data_rate(&self) -> u16 {
        bits_value(self.raw(), 0, 13) as u16
    }

    /// The rx highest supported long gi data rate subfield (bits 0-12).
    pub fn rx_highest_supported_long_gi_data_rate(&self) -> (v: u16)
        ensures
            v == self.spec_rx_highest_supported_long_gi_data_rate(),
            v == bits_value(self.raw(), 0, 13),
    {
        read_u16_bits(self.bytes.as_slice(), 0, 13)
    }

    /// The maximum nsts total subfield (bits 13-15).
    pub open spec fn spec_maximum_nsts_total(&self) -> u8 {
        bits_value(self.raw(), 13, 3) as u8
    }

    /// The maximum nsts total subfield (bits 13-15).
    pub fn maximum_nsts_total(&self) -> (v: u8)
        ensures
            v == self.spec_maximum_nsts_total(),
            v == bits_value(self.raw(), 13, 3),
    {
        read_u8_bits(self.bytes.as_slice(), 13, 3)
    }

}

/// The transmit rate limit and extended NSS capability of a Supported VHT-MCS and NSS Set.
#[derive(Debug, Clone, Copy, PartialEq, Eq, Hash)]
pub struct TxMcsNssInfo {
    bytes: [u8; 2],
}

impl TxMcsNssInfo {
    /// The encoded length in bytes.
    pub const LENGTH: usize = 2;

    /// Whether `bytes` (exactly 2 of them) encode a valid value.
    pub open spec fn spec_valid(bytes: Seq<u8>) -> bool {
        bytes.len() == 2
    }

    /// The encoded bytes.
    pub closed spec fn raw(&self) -> Seq<u8> {
        self.bytes@
    }

    /// Every value is encoded in exactly 2 bytes.
    pub proof fn lemma_raw_len(&self)
        ensures
            self.raw().len() == 2,
    {
    }

    /// Decodes the value from the first 2 bytes of `bytes`. `None` when there are fewer
    /// bytes or they do not encode a valid value.
    pub fn from_bytes(bytes: &[u8]) -> (r: Option<TxMcsNssInfo>)
        ensures
            r is Some <==> bytes@.len() >= 2 && Self::spec_valid(bytes@.subrange(0, 2)),
            r matches Some(v) ==> v.raw() == bytes@.subrange(0, 2),
    {
        if bytes.len() < 2 {
            return None;
        }
        let a: [u8; 2] = [bytes[0], bytes[1]];
        proof {
            assert(a@ =~= bytes@.subrange(0, 2));
        }
        Some(TxMcsNssInfo { bytes: a })
    }

    /// The encoded bytes.
    pub fn to_bytes(&self) -> (v: Vec<u8>)
        ensures
            v@ == self.raw(),
    {
        vstd::slice::slice_to_vec(self.bytes.as_slice())
    }

    /// The tx highest supported long gi data rate subfield (bits 0-12).
    pub open spec fn spec_tx_highest_supported_long_gi_data_rate(&self) -> u16 {
        bits_value(self.raw(), 0, 13) as u16
    }

    /// The tx highest supported long gi data rate subfield (bits 0-12).
    pub fn tx_highest_supported_long_gi_data_rate(&self) -> (v: u16)
        ensures
            v == self.spec_tx_highest_supported_long_gi_data_rate(),
            v == bits_value(self.raw(), 0, 13),
    {
        read_u16_bits(self.bytes.as_slice(), 0, 13)
    }

    /// The vht extended nss bw capable subfield (bit 13).
    pub open spec fn spec_vht_extended_nss_bw_capable(&self) -> bool {
        bit_set(self.raw(), 13)
    }

    /// The vht extended nss bw capable subfield (bit 13).
    pub fn vht_extended_nss_bw_capable(&self) -> (b: bool)
        ensures
            b == self.spec_vht_extended_nss_bw_capable(),
    {
        read_bit(self.bytes.as_slice(), 13)
    }

    /// The reserved subfield (bits 14-15).
    pub open spec fn spec_reserved(&self) -> u8 {
        bits_value(self.raw(), 14, 2) as u8
    }

    /// The reserved subfield (bits 14-15).
    pub fn reserved(&self) -> (v: u8)
        ensures
            v == self.spec_reserved(),
            v == bits_value(self.raw(), 14, 2),
    {
        read_u8_bits(self.bytes.as_slice(), 14, 2)
    }

}

/// The Supported VHT-MCS and NSS Set field of a VHT Capabilities element.
#[derive(Debug, Clone, Copy, PartialEq, Eq, Hash)]
pub struct SupportedVhtMcsAndNssSet {
    pub rx_vht_mcs_map: VhtMcsMap,
    pub rx_mcs_nss_info: RxMcsNssInfo,
    pub tx_vht_mcs_map: VhtMcsMap,
    pub tx_mcs_nss_info: TxMcsNssInfo,
}

impl SupportedVhtMcsAndNssSet {
    /// The encoded length in bytes.
    pub const LENGTH: usize = 8;

    /// Whether `bytes` (exactly 8 of them) encode a valid value.
    pub open spec fn spec_valid(bytes: Seq<u8>) -> bool {
        &&& bytes.len() == 8
        &&& VhtMcsMap::spec_valid(bytes.subrange(0, 2))
        &&& RxMcsNssInfo::spec_valid(bytes.subrange(2, 4))
        &&& VhtMcsMap::spec_valid(bytes.subrange(4, 6))
        &&& TxMcsNssInfo::spec_valid(bytes.subrange(6, 8))
    }

    /// The encoded bytes: the parts in order.
    pub open spec fn raw(&self) -> Seq<u8> {
        self.rx_vht_mcs_map.raw() + self.rx_mcs_nss_info.raw() + self.tx_vht_mcs_map.raw() + self.tx_mcs_nss_info.raw()
    }

    /// Decodes the value from the first 8 bytes of `bytes`. `None` when there are fewer
    /// bytes or they do not encode a valid value.
    pub fn from_bytes(bytes: &[u8]) -> (r: Option<SupportedVhtMcsAndNssSet>)
        ensures
            r is Some <==> bytes@.len() >= 8 && Self::spec_valid(bytes@.subrange(0, 8)),
            r matches Some(v) ==> v.raw() == bytes@.subrange(0, 8),
    {
        if bytes.len() < 8 {
            return None;
        }
        let b = vstd::slice::slice_subrange(bytes, 0, 8);
        let rx_vht_mcs_map = match VhtMcsMap::from_bytes(vstd::slice::slice_subrange(b, 0, 2)) {
            Some(v) => v,
            None => {
                proof {
                    assert(b@.subrange(0, 2).subrange(0, 2) =~= b@.subrange(0, 2));
                }
                return None;
            },
        };
        let rx_mcs_nss_info = match RxMcsNssInfo::from_bytes(vstd::slice::slice_subrange(b, 2, 4)) {
            Some(v) => v,
            None => {
                proof {
                    assert(b@.subrange(2, 4).subrange(0, 2) =~= b@.subrange(2, 4));
                }
                return None;
            },
        };
        let tx_vht_mcs_map = match VhtMcsMap::from_bytes(vstd::slice::slice_subrange(b, 4, 6)) {
            Some(v) => v,
            None => {
                proof {
                    assert(b@.subrange(4, 6).subrange(0, 2) =~= b@.subrange(4, 6));
                }
                return None;
            },
        };
        let tx_mcs_nss_info = match TxMcsNssInfo::from_bytes(vstd::slice::slice_subrange(b, 6, 8)) {
            Some(v) => v,
            None => {
                proof {
                    assert(b@.subrange(6, 8).subrange(0, 2) =~= b@.subrange(6, 8));
                }
                return None;
            },
        };
        let v = SupportedVhtMcsAndNssSet { rx_vht_mcs_map, rx_mcs_nss_info, tx_vht_mcs_map, tx_mcs_nss_info };
        proof {
            assert(b@.subrange(0, 2).subrange(0, 2) =~= b@.subrange(0, 2));
            rx_vht_mcs_map.lemma_raw_len();
            assert(b@.subrange(2, 4).subrange(0, 2) =~= b@.subrange(2, 4));
            rx_mcs_nss_info.lemma_raw_len();
            assert(b@.subrange(4, 6).subrange(0, 2) =~= b@.subrange(4, 6));
            tx_vht_mcs_map.lemma_raw_len();
            assert(b@.subrange(6, 8).subrange(0, 2) =~= b@.subrange(6, 8));
            tx_mcs_nss_info.lemma_raw_len();
            assert(v.raw() =~= b@);
        }
        Some(v)
    }

    /// Every value is encoded in exactly 8 bytes.
    pub proof fn lemma_raw_len(&self)
        ensures
            self.raw().len() == 8,
    {
        self.rx_vht_mcs_map.lemma_raw_len();
        self.rx_mcs_nss_info.lemma_raw_len();
        self.tx_vht_mcs_map.lemma_raw_len();
        self.tx_mcs_nss_info.lemma_raw_len();
    }

    /// The encoded bytes.
    pub fn to_bytes(&self) -> (v: Vec<u8>)
        ensures
            v@ == self.raw(),
    {
        let mut v: Vec<u8> = Vec::new();
        let mut p = self.rx_vht_mcs_map.to_bytes();
        v.append(&mut p);
        let mut p = self.rx_mcs_nss_info.to_bytes();
        v.append(&mut p);
        let mut p = self.tx_vht_mcs_map.to_bytes();
        v.append(&mut p);
        let mut p = self.tx_mcs_nss_info.to_bytes();
        v.append(&mut p);
        proof {
            assert(v@ =~= self.raw());
        }
        v
    }
    /// Whether `f` is the displayable field of this set: both MCS maps and the rate and stream
    /// limits, over the set's eight bytes.
    pub open spec fn field_shows(&self, f: Field) -> bool {
        let b = self.raw();
        &&& f.title@ == "Supported VHT-MCS and NSS Set"@
        &&& f.value@ == ""@
        &&& f.bytes matches Some(x) && x@ == b
        &&& f.byte is None
        &&& f.bits is None
        &&& f.units is None
        &&& f.subfields@.len() == 7
        &&& self.rx_vht_mcs_map.field_shows(f.subfields@[0], "Rx VHT-MCS Map"@)
        &&& bit_field_is(f.subfields@[1], "Rx Highest Supported Long GI Data Rate"@, decimal(self.rx_mcs_nss_info.spec_rx_highest_supported_long_gi_data_rate() as nat), Some("Mb/s"@), b.subrange(2, 4), 0, 13)
        &&& bit_field_is(f.subfields@[2], "Maximum NSTS,total"@, decimal(self.rx_mcs_nss_info.spec_maximum_nsts_total() as nat), None, b.subrange(2, 4), 13, 3)
        &&& self.tx_vht_mcs_map.field_shows(f.subfields@[3], "Tx VHT-MCS Map"@)
        &&& bit_field_is(f.subfields@[4], "Tx Highest Supported Long GI Data Rate"@, decimal(self.tx_mcs_nss_info.spec_tx_highest_supported_long_gi_data_rate() as nat), Some("Mb/s"@), b.subrange(6, 8), 0, 13)
        &&& bit_field_is(f.subfields@[5], "VHT Extended NSS BW Capable"@, bool_text(self.tx_mcs_nss_info.spec_vht_extended_nss_bw_capable()), None, b.subrange(6, 8), 13, 1)
        &&& reserved_field_is(f.subfields@[6], b.subrange(6, 8), 14, 2)
    }

    /// The set as a displayable field.
    pub fn to_fields(&self) -> (f: Field)
        ensures
            self.field_shows(f),
    {
        let bytes = self.to_bytes();
        proof {
            self.lemma_raw_len();
            self.rx_mcs_nss_info.lemma_raw_len();
            self.tx_mcs_nss_info.lemma_raw_len();
            self.rx_vht_mcs_map.lemma_raw_len();
            assert(bytes@.subrange(2, 4) =~= self.rx_mcs_nss_info.raw());
            assert(bytes@.subrange(6, 8) =~= self.tx_mcs_nss_info.raw());
        }
        let rx = vstd::slice::slice_subrange(bytes.as_slice(), 2, 4);
        let tx = vstd::slice::slice_subrange(bytes.as_slice(), 6, 8);
        let mut sub: Vec<Field> = Vec::new();
        sub.push(self.rx_vht_mcs_map.to_field("Rx VHT-MCS Map"));
        sub.push(bit_field_with_units("Rx Highest Supported Long GI Data Rate", u64_text(self.rx_mcs_nss_info.rx_highest_supported_long_gi_data_rate() as u64), owned("Mb/s"), rx, 0, 13));
        sub.push(bit_field("Maximum NSTS,total", u64_text(self.rx_mcs_nss_info.maximum_nsts_total() as u64), rx, 13, 3));
        sub.push(self.tx_vht_mcs_map.to_field("Tx VHT-MCS Map"));
        sub.push(bit_field_with_units("Tx Highest Supported Long GI Data Rate", u64_text(self.tx_mcs_nss_info.tx_highest_supported_long_gi_data_rate() as u64), owned("Mb/s"), tx, 0, 13));
        sub.push(bit_field("VHT Extended NSS BW Capable", bool_string(self.tx_mcs_nss_info.vht_extended_nss_bw_capable()), tx, 13, 1));
        sub.push(reserved_bits(tx, 14, 2));
        Field::new("Supported VHT-MCS and NSS Set", "").with_subfields(sub).with_bytes(bytes)
    }
}

/// A VHT Capabilities element (802.11ac).
#[derive(Debug, Clone, Copy, PartialEq, Eq, Hash)]
pub struct VhtCapabilities {
    pub vht_capabilities_info: VhtCapabilitiesInfo,
    pub supported_vht_mcs_and_nss_set: SupportedVhtMcsAndNssSet,
}

/// The layout of a VhtCapabilities body: the parts in order, 12 bytes in all.
pub open spec fn spec_vht_capabilities_valid(b: Seq<u8>) -> bool {
    &&& b.len() >= 12
    &&& VhtCapabilitiesInfo::spec_valid(b.subrange(0, 4))
    &&& SupportedVhtMcsAndNssSet::spec_valid(b.subrange(4, 12))
}

impl VhtCapabilities {
    pub const NAME: &'static str = "VHT Capabilities";
    pub const ID: u8 = 191;
    pub const ID_EXT: Option<u8> = None;
    pub const LENGTH: usize = 12;

    /// The parts are exactly the consecutive slices of `b`.
    pub open spec fn spec_parsed_from(&self, b: Seq<u8>) -> bool {
        &&& self.vht_capabilities_info.raw() == b.subrange(0, 4)
        &&& self.supported_vht_mcs_and_nss_set.raw() == b.subrange(4, 12)
    }

    /// Parses the element body. `None` when it is shorter than 12 bytes or a part holds an
    /// undefined code.
    pub fn from_bytes(bytes: &[u8]) -> (r: Option<VhtCapabilities>)
        ensures
            r is Some <==> spec_vht_capabilities_valid(bytes@),
            r matches Some(c) ==> c.spec_parsed_from(bytes@),
    {
        if bytes.len() < 12 {
            return None;
        }
        let vht_capabilities_info = match VhtCapabilitiesInfo::from_bytes(vstd::slice::slice_subrange(bytes, 0, 4)) {
            Some(v) => v,
            None => {
                proof {
                    assert(bytes@.subrange(0, 4).subrange(0, 4) =~= bytes@.subrange(0, 4));
                }
                return None;
            },
        };
        let supported_vht_mcs_and_nss_set = match SupportedVhtMcsAndNssSet::from_bytes(vstd::slice::slice_subrange(bytes, 4, 12)) {
            Some(v) => v,
            None => {
                proof {
                    assert(bytes@.subrange(4, 12).subrange(0, 8) =~= bytes@.subrange(4, 12));
                }
                return None;
            },
        };
        proof {
            assert(bytes@.subrange(0, 4).subrange(0, 4) =~= bytes@.subrange(0, 4));
            assert(bytes@.subrange(4, 12).subrange(0, 8) =~= bytes@.subrange(4, 12));
        }
        Some(VhtCapabilities { vht_capabilities_info, supported_vht_mcs_and_nss_set })
    }
    /// Whether the short guard interval is supported at a channel width (80 MHz and wider;
    /// narrower widths use the HT capability).
    pub open spec fn spec_supports_short_gi_for_width(&self, width: ChannelWidth) -> bool {
        match width {
            ChannelWidth::EightyMhz => self.vht_capabilities_info.spec_short_gi_for_eighty_mhz(),
            ChannelWidth::EightyPlusEightyMhz | ChannelWidth::OneSixtyMhz => self.vht_capabilities_info.spec_short_gi_for_one_hundred_sixty_and_eighty_plus_eighty_mhz(),
            _ => false,
        }
    }

    /// Whether the short guard interval is supported at a channel width (80 MHz and wider;
    /// narrower widths use the HT capability).
    pub fn supports_short_gi_for_width(&self, width: ChannelWidth) -> (b: bool)
        ensures
            b == self.spec_supports_short_gi_for_width(width),
    {
        match width {
            ChannelWidth::EightyMhz => self.vht_capabilities_info.short_gi_for_eighty_mhz(),
            ChannelWidth::EightyPlusEightyMhz | ChannelWidth::OneSixtyMhz => self.vht_capabilities_info.short_gi_for_one_hundred_sixty_and_eighty_plus_eighty_mhz(),
            _ => false,
        }
    }

    /// The highest receive MCS of the highest supported spatial stream, 0 when none is set.
    pub open spec fn spec_max_mcs(&self) -> u8 {
        let map = self.supported_vht_mcs_and_nss_set.rx_vht_mcs_map;
        match map.spec_max_mcs_for_stream(map.spec_max_spatial_streams()) {
            Some(m) => m,
            None => 0,
        }
    }

    /// The highest receive MCS of the highest supported spatial stream, 0 when none is set.
    pub fn max_mcs(&self) -> (m: u8)
        ensures
            m == self.spec_max_mcs(),
    {
        let map = self.supported_vht_mcs_and_nss_set.rx_vht_mcs_map;
        match map.max_mcs_for_stream(map.max_spatial_streams()) {
            Some(m) => m,
            None => 0,
        }
    }

    /// The one-line summary: streams, then the short guard interval capabilities.
    pub open spec fn spec_summary(&self) -> Seq<char> {
        let info = self.vht_capabilities_info;
        spatial_streams_text(self.supported_vht_mcs_and_nss_set.rx_vht_mcs_map.spec_max_spatial_streams())
            + (if info.spec_short_gi_for_eighty_mhz() { ", Short GI for 80 MHz"@ } else { ""@ })
            + (if info.spec_short_gi_for_one_hundred_sixty_and_eighty_plus_eighty_mhz() {
                ", Short GI for 160 MHz"@
            } else {
                ""@
            })
    }

    /// A one-line summary, for example `2 Spatial Streams, Short GI for 80 MHz`.
    pub fn summary(&self) -> (s: String)
        ensures
            s@ == self.spec_summary(),
    {
        let mut s = spatial_streams_string(self.supported_vht_mcs_and_nss_set.rx_vht_mcs_map.max_spatial_streams());
        let ghost s0 = s@;
        proof {
            reveal_strlit("");
        }
        let a = self.vht_capabilities_info.short_gi_for_eighty_mhz();
        if a {
            s.append(", Short GI for 80 MHz");
        }
        let ghost s1 = s@;
        assert(s1 =~= s0 + (if a { ", Short GI for 80 MHz"@ } else { ""@ }));
        let b = self.vht_capabilities_info.short_gi_for_one_hundred_sixty_and_eighty_plus_eighty_mhz();
        if b {
            s.append(", Short GI for 160 MHz");
        }
        assert(s@ =~= s1 + (if b { ", Short GI for 160 MHz"@ } else { ""@ }));
        s
    }

    /// The element's fields: the capability bits and the supported MCS set.
    pub fn fields(&self) -> (v: Vec<Field>)
        ensures
            v@.len() == 2,
            self.vht_capabilities_info.field_shows(v@[0]),
            self.supported_vht_mcs_and_nss_set.field_shows(v@[1]),
    {
        let mut v: Vec<Field> = Vec::new();
        v.push(self.vht_capabilities_info.to_field());
        v.push(self.supported_vht_mcs_and_nss_set.to_fields());
        v
    }
}

} // verus!
