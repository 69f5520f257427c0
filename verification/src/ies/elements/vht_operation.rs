//! The VHT Operation element (802.11ac).
use vstd::prelude::*;

use crate::channel_width::ChannelWidth;
use crate::ies::elements::vht_capabilities::VhtMcsMap;
use crate::ies::field::{byte_field, byte_field_is, byte_field_with_units, Field};
use crate::text::{decimal, u64_text};

verus! {

/// The channel width code of a VHT Operation element.
#[derive(Debug, Clone, Copy, PartialEq, Eq, Structural, Hash)]
pub enum VhtChannelWidth {
    TwentyOrFortyMhz,
    EightyOrOneHundredSixtyOrEightyPlusEightyMhz,
    OneHundredSixtyMhz,
    EightyPlusEightyMhz,
}

impl VhtChannelWidth {
    /// The value encoded by a raw code, if the code is defined.
    pub open spec fn spec_from_u8(v: u8) -> Option<VhtChannelWidth> {
        if v == 0 {
            Some(VhtChannelWidth::TwentyOrFortyMhz)
        } else if v == 1 {
            Some(VhtChannelWidth::EightyOrOneHundredSixtyOrEightyPlusEightyMhz)
        } else if v == 2 {
            Some(VhtChannelWidth::OneHundredSixtyMhz)
        } else if v == 3 {
            Some(VhtChannelWidth::EightyPlusEightyMhz)
        } else {
            None
        }
    }

    /// The raw code of the value.
    pub open spec fn spec_to_u8(self) -> u8 {
        match self {
            VhtChannelWidth::TwentyOrFortyMhz => 0,
            VhtChannelWidth::EightyOrOneHundredSixtyOrEightyPlusEightyMhz => 1,
            VhtChannelWidth::OneHundredSixtyMhz => 2,
            VhtChannelWidth::EightyPlusEightyMhz => 3,
        }
    }

    /// The human-readable text of the value.
    pub open spec fn spec_text(self) -> Seq<char> {
        match self {
            VhtChannelWidth::TwentyOrFortyMhz => "20/40"@,
            VhtChannelWidth::EightyOrOneHundredSixtyOrEightyPlusEightyMhz => "80/160/80+80"@,
            VhtChannelWidth::OneHundredSixtyMhz => "160"@,
            VhtChannelWidth::EightyPlusEightyMhz => "80+80"@,
        }
    }

    /// Decodes a raw code; `None` for an undefined code.
    pub fn from_u8(v: u8) -> (r: Option<VhtChannelWidth>)
        ensures
            r == Self::spec_from_u8(v),
    {
        match v {
            0 => Some(VhtChannelWidth::TwentyOrFortyMhz),
            1 => Some(VhtChannelWidth::EightyOrOneHundredSixtyOrEightyPlusEightyMhz),
            2 => Some(VhtChannelWidth::OneHundredSixtyMhz),
            3 => Some(VhtChannelWidth::EightyPlusEightyMhz),
            _ => None,
        }
    }

    /// The raw code of the value.
    pub fn to_u8(&self) -> (v: u8)
        ensures
            v == self.spec_to_u8(),
            Self::spec_from_u8(v) == Some(*self),
    {
        match self {
            VhtChannelWidth::TwentyOrFortyMhz => 0,
            VhtChannelWidth::EightyOrOneHundredSixtyOrEightyPlusEightyMhz => 1,
            VhtChannelWidth::OneHundredSixtyMhz => 2,
            VhtChannelWidth::EightyPlusEightyMhz => 3,
        }
    }

    /// The human-readable text of the value.
    pub fn to_string(&self) -> (s: String)
        ensures
            s@ == self.spec_text(),
    {
        match self {
            VhtChannelWidth::TwentyOrFortyMhz => String::from_str("20/40"),
            VhtChannelWidth::EightyOrOneHundredSixtyOrEightyPlusEightyMhz => String::from_str("80/160/80+80"),
            VhtChannelWidth::OneHundredSixtyMhz => String::from_str("160"),
            VhtChannelWidth::EightyPlusEightyMhz => String::from_str("80+80"),
        }
    }
}

/// Decoding a value's own code gives the value back.
pub proof fn lemma_vht_channel_width_code_roundtrip(v: VhtChannelWidth)
    ensures
        VhtChannelWidth::spec_from_u8(v.spec_to_u8()) == Some(v),
{
}

/// The VHT Operation Information field: the channel width code and the two channel center
/// frequency segments.
#[derive(Debug, Clone, Copy, PartialEq, Eq, Structural, Hash)]
pub struct VhtOperationInformation {
    pub channel_width: VhtChannelWidth,
    pub channel_center_frequency_segment_0: u8,
    pub channel_center_frequency_segment_1: u8,
}

/// The channel width a VHT Operation Information field describes. The combined 80/160/80+80
/// code means 80 MHz when segment 1 is zero, 160 MHz when the two segments are 8 channels
/// apart, and 80+80 MHz otherwise; 20/40 MHz is left to the HT Operation element.
pub open spec fn spec_vht_channel_width(width: VhtChannelWidth, seg0: u8, seg1: u8) -> Option<ChannelWidth> {
    match width {
        VhtChannelWidth::TwentyOrFortyMhz => None,
        VhtChannelWidth::EightyOrOneHundredSixtyOrEightyPlusEightyMhz => if seg1 == 0 {
            Some(ChannelWidth::EightyMhz)
        } else if seg1 - seg0 == 8 || seg0 - seg1 == 8 {
            Some(ChannelWidth::OneSixtyMhz)
        } else {
            Some(ChannelWidth::EightyPlusEightyMhz)
        },
        VhtChannelWidth::OneHundredSixtyMhz => Some(ChannelWidth::OneSixtyMhz),
        VhtChannelWidth::EightyPlusEightyMhz => Some(ChannelWidth::EightyPlusEightyMhz),
    }
}

/// What a VHT Operation Information field says of the channel width: nothing for the 20/40 MHz
/// code (the HT Operation element describes those widths); the width the code names for the
/// 160 and 80+80 MHz codes; and for the combined 80/160/80+80 MHz code, 80 MHz when segment 1
/// is unset, 160 MHz when segment 1 is set 8 channels (40 MHz) from segment 0, which makes it
/// the center of one contiguous 160 MHz channel, and 80+80 MHz when it is set elsewhere.
pub proof fn lemma_vht_channel_width_meaning(width: VhtChannelWidth, s0: u8, s1: u8)
    ensures
        spec_vht_channel_width(width, s0, s1) is None <==> width == VhtChannelWidth::TwentyOrFortyMhz,
        (width == VhtChannelWidth::OneHundredSixtyMhz || width == VhtChannelWidth::EightyPlusEightyMhz) ==>
            spec_vht_channel_width(width, s0, s1)->0.spec_text() == width.spec_text() + " MHz"@,
        width == VhtChannelWidth::EightyOrOneHundredSixtyOrEightyPlusEightyMhz ==> {
            let w = spec_vht_channel_width(width, s0, s1);
            let apart8 = s1 - s0 == 8 || s0 - s1 == 8;
            &&& (w == Some(ChannelWidth::EightyMhz) <==> s1 == 0)
            &&& (w == Some(ChannelWidth::OneSixtyMhz) <==> (s1 != 0 && apart8))
            &&& (w == Some(ChannelWidth::EightyPlusEightyMhz) <==> (s1 != 0 && !apart8))
        },
{
    reveal_strlit("160");
    reveal_strlit("80+80");
    reveal_strlit(" MHz");
    reveal_strlit("160 MHz");
    reveal_strlit("80+80 MHz");
    if width == VhtChannelWidth::OneHundredSixtyMhz {
        assert(width.spec_text() + " MHz"@ =~= "160 MHz"@);
    }
    if width == VhtChannelWidth::EightyPlusEightyMhz {
        assert(width.spec_text() + " MHz"@ =~= "80+80 MHz"@);
    }
}

impl VhtOperationInformation {
    /// The encoded length in bytes.
    pub const LENGTH: usize = 3;

    /// Whether `bytes` (exactly 3 of them) encode a valid value: the width code is defined.
    pub open spec fn spec_valid(bytes: Seq<u8>) -> bool {
        &&& bytes.len() == 3
        &&& VhtChannelWidth::spec_from_u8(bytes[0]) is Some
    }

    /// The encoded bytes.
    pub open spec fn raw(&self) -> Seq<u8> {
        seq![
            self.channel_width.spec_to_u8(),
            self.channel_center_frequency_segment_0,
            self.channel_center_frequency_segment_1,
        ]
    }

    /// Every value is encoded in exactly 3 bytes.
    pub proof fn lemma_raw_len(&self)
        ensures
            self.raw().len() == 3,
    {
    }

    /// Decodes the value from the first 3 bytes of `bytes`. `None` when there are fewer bytes
    /// or the width code is undefined.
    pub fn from_bytes(bytes: &[u8]) -> (r: Option<VhtOperationInformation>)
        ensures
            r is Some <==> bytes@.len() >= 3 && Self::spec_valid(bytes@.subrange(0, 3)),
            r matches Some(v) ==> v.raw() == bytes@.subrange(0, 3),
    {
        if bytes.len() < 3 {
            return None;
        }
        match VhtChannelWidth::from_u8(bytes[0]) {
            Some(w) => {
                let v = VhtOperationInformation {
                    channel_width: w,
                    channel_center_frequency_segment_0: bytes[1],
                    channel_center_frequency_segment_1: bytes[2],
                };
                proof {
                    lemma_vht_channel_width_code_roundtrip_from(bytes[0]);
                    assert(v.raw() =~= bytes@.subrange(0, 3));
                }
                Some(v)
            },
            None => None,
        }
    }

    /// The encoded bytes.
    pub fn to_bytes(&self) -> (v: Vec<u8>)
        ensures
            v@ == self.raw(),
    {
        let mut v: Vec<u8> = Vec::new();
        v.push(self.channel_width.to_u8());
        v.push(self.channel_center_frequency_segment_0);
        v.push(self.channel_center_frequency_segment_1);
        proof {
            assert(v@ =~= self.raw());
        }
        v
    }

    /// The channel width described by the field, `None` for 20/40 MHz.
    pub open spec fn spec_channel_width(&self) -> Option<ChannelWidth> {
        spec_vht_channel_width(
            self.channel_width,
            self.channel_center_frequency_segment_0,
            self.channel_center_frequency_segment_1,
        )
    }

    /// The channel width described by the field: 80, 160 or 80+80 MHz, decided for the
    /// combined code by the distance between the segments; `None` for 20/40 MHz.
    pub fn channel_width(&self) -> (w: Option<ChannelWidth>)
        ensures
            w == self.spec_channel_width(),
    {
        match self.channel_width {
            VhtChannelWidth::TwentyOrFortyMhz => None,
            VhtChannelWidth::EightyOrOneHundredSixtyOrEightyPlusEightyMhz => {
                let s0 = self.channel_center_frequency_segment_0;
                let s1 = self.channel_center_frequency_segment_1;
                let diff = if s1 >= s0 {
                    s1 - s0
                } else {
                    s0 - s1
                };
                if s1 == 0 {
                    Some(ChannelWidth::EightyMhz)
                } else if diff == 8 {
                    Some(ChannelWidth::OneSixtyMhz)
                } else {
                    Some(ChannelWidth::EightyPlusEightyMhz)
                }
            },
            VhtChannelWidth::OneHundredSixtyMhz => Some(ChannelWidth::OneSixtyMhz),
            VhtChannelWidth::EightyPlusEightyMhz => Some(ChannelWidth::EightyPlusEightyMhz),
        }
    }

    /// Whether `f` is the displayable field of this value.
    pub open spec fn field_shows(&self, f: Field) -> bool {
        &&& f.title@ == "VHT Operation Information"@
        &&& f.value@ == ""@
        &&& f.bytes matches Some(b) && b@ == self.raw()
        &&& f.byte is None
        &&& f.bits is None
        &&& f.units is None
        &&& f.subfields@.len() == 3
        &&& byte_field_is(f.subfields@[0], "VHT Channel Width"@, self.channel_width.spec_text(), Some("MHz"@), self.channel_width.spec_to_u8())
        &&& byte_field_is(f.subfields@[1], "Channel Center Frequency Segment 0"@, decimal(self.channel_center_frequency_segment_0 as nat), None, self.channel_center_frequency_segment_0)
        &&& byte_field_is(f.subfields@[2], "Channel Center Frequency Segment 1"@, decimal(self.channel_center_frequency_segment_1 as nat), None, self.channel_center_frequency_segment_1)
    }

    /// The value as a displayable field.
    pub fn to_field(&self) -> (f: Field)
        ensures
            self.field_shows(f),
    {
        let mut sub: Vec<Field> = Vec::new();
        sub.push(byte_field_with_units("VHT Channel Width", self.channel_width.to_string(), "MHz", self.channel_width.to_u8()));
        sub.push(byte_field("Channel Center Frequency Segment 0", u64_text(self.channel_center_frequency_segment_0 as u64), self.channel_center_frequency_segment_0));
        sub.push(byte_field("Channel Center Frequency Segment 1", u64_text(self.channel_center_frequency_segment_1 as u64), self.channel_center_frequency_segment_1));
        Field::new("VHT Operation Information", "").with_bytes(self.to_bytes()).with_subfields(sub)
    }
}

/// A code read back from a width gives the width.
proof fn lemma_vht_channel_width_code_roundtrip_from(v: u8)
    requires
        VhtChannelWidth::spec_from_u8(v) is Some,
    ensures
        VhtChannelWidth::spec_from_u8(v).unwrap().spec_to_u8() == v,
{
}

/// A VHT Operation element: how an 802.11ac access point operates.
#[derive(Debug, Clone, Copy, PartialEq, Eq, Hash)]
pub struct VhtOperation {
    pub vht_operation_information: VhtOperationInformation,
    pub basic_vht_mcs_and_nss_set: VhtMcsMap,
}

/// The layout of a VhtOperation body: the parts in order, 5 bytes in all.
pub open spec fn spec_vht_operation_valid(b: Seq<u8>) -> bool {
    &&& b.len() >= 5
    &&& VhtOperationInformation::spec_valid(b.subrange(0, 3))
    &&& VhtMcsMap::spec_valid(b.subrange(3, 5))
}

impl VhtOperation {
    pub const NAME: &'static str = "VHT Operation";
    pub const ID: u8 = 192;
    pub const ID_EXT: Option<u8> = None;
    pub const LENGTH: usize = 5;

    /// The parts are exactly the consecutive slices of `b`.
    pub open spec fn spec_parsed_from(&self, b: Seq<u8>) -> bool {
        &&& self.vht_operation_information.raw() == b.subrange(0, 3)
        &&& self.basic_vht_mcs_and_nss_set.raw() == b.subrange(3, 5)
    }

    /// Parses the element body. `None` when it is shorter than 5 bytes or a part holds an
    /// undefined code.
    pub fn from_bytes(bytes: &[u8]) -> (r: Option<VhtOperation>)
        ensures
            r is Some <==> spec_vht_operation_valid(bytes@),
            r matches Some(c) ==> c.spec_parsed_from(bytes@),
    {
        if bytes.len() < 5 {
            return None;
        }
        let vht_operation_information = match VhtOperationInformation::from_bytes(vstd::slice::slice_subrange(bytes, 0, 3)) {
            Some(v) => v,
            None => {
                proof {
                    assert(bytes@.subrange(0, 3).subrange(0, 3) =~= bytes@.subrange(0, 3));
                }
                return None;
            },
        };
        let basic_vht_mcs_and_nss_set = match VhtMcsMap::from_bytes(vstd::slice::slice_subrange(bytes, 3, 5)) {
            Some(v) => v,
            None => {
                proof {
                    assert(bytes@.subrange(3, 5).subrange(0, 2) =~= bytes@.subrange(3, 5));
                }
                return None;
            },
        };
        proof {
            assert(bytes@.subrange(0, 3).subrange(0, 3) =~= bytes@.subrange(0, 3));
            assert(bytes@.subrange(3, 5).subrange(0, 2) =~= bytes@.subrange(3, 5));
        }
        Some(VhtOperation { vht_operation_information, basic_vht_mcs_and_nss_set })
    }
    /// The channel width the access point operates at, `None` for 20/40 MHz.
    pub open spec fn spec_channel_width(&self) -> Option<ChannelWidth> {
        self.vht_operation_information.spec_channel_width()
    }

    /// The channel width the access point operates at, `None` for 20/40 MHz (which the HT
    /// Operation element describes).
    pub fn channel_width(&self) -> (w: Option<ChannelWidth>)
        ensures
            w == self.spec_channel_width(),
    {
        self.vht_operation_information.channel_width()
    }

    /// The one-line summary: the width, then each nonzero center frequency segment.
    pub open spec fn spec_summary(&self) -> Seq<char> {
        let i = self.vht_operation_information;
        i.channel_width.spec_text() + " MHz"@ + (if i.channel_center_frequency_segment_0 > 0 {
            ", Channel Center Frequency Segment 0: "@ + decimal(i.channel_center_frequency_segment_0 as nat)
        } else {
            ""@
        }) + (if i.channel_center_frequency_segment_1 > 0 {
            ", Channel Center Frequency Segment 1: "@ + decimal(i.channel_center_frequency_segment_1 as nat)
        } else {
            ""@
        })
    }

    /// A one-line summary, for example
    /// `80/160/80+80 MHz, Channel Center Frequency Segment 0: 42`.
    pub fn summary(&self) -> (s: String)
        ensures
            s@ == self.spec_summary(),
    {
        proof {
            reveal_strlit("");
        }
        let i = self.vht_operation_information;
        let mut s = i.channel_width.to_string();
        s.append(" MHz");
        let ghost s0 = s@;
        if i.channel_center_frequency_segment_0 > 0 {
            s.append(", Channel Center Frequency Segment 0: ");
            s.append(u64_text(i.channel_center_frequency_segment_0 as u64).as_str());
        }
        let ghost s1 = s@;
        assert(s1 =~= s0 + (if i.channel_center_frequency_segment_0 > 0 {
            ", Channel Center Frequency Segment 0: "@ + decimal(i.channel_center_frequency_segment_0 as nat)
        } else {
            ""@
        }));
        if i.channel_center_frequency_segment_1 > 0 {
            s.append(", Channel Center Frequency Segment 1: ");
            s.append(u64_text(i.channel_center_frequency_segment_1 as u64).as_str());
        }
        assert(s@ =~= s1 + (if i.channel_center_frequency_segment_1 > 0 {
            ", Channel Center Frequency Segment 1: "@ + decimal(i.channel_center_frequency_segment_1 as nat)
        } else {
            ""@
        }));
        s
    }

    /// The element's fields: the operation information and the basic MCS map.
    pub fn fields(&self) -> (v: Vec<Field>)
        ensures
            v@.len() == 2,
            self.vht_operation_information.field_shows(v@[0]),
            self.basic_vht_mcs_and_nss_set.field_shows(v@[1], "Basic VHT-MCS and NSS Set"@),
    {
        let mut v: Vec<Field> = Vec::new();
        v.push(self.vht_operation_information.to_field());
        v.push(self.basic_vht_mcs_and_nss_set.to_field("Basic VHT-MCS and NSS Set"));
        v
    }
}

} // verus!
