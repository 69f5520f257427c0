//! The HT Capabilities element (802.11n).
use vstd::prelude::*;

use crate::bits::{
    bit_set, bits_value, lemma_bits_value_bound, lemma_two_pow_64, lemma_two_pow_monotone, read_bit,
    read_bits, read_u16_bits, read_u8_bits,
};
use crate::ies::field::{
    bit_field, bit_field_is, bit_field_with_units, reserved_bits, reserved_field_is, BitRange,
    Field,
};
use crate::bits::two_pow;
use crate::channel_width::ChannelWidth;
use crate::text::{bool_string, bool_text, decimal, owned, paren_decimal, paren_text, u64_text};

verus! {

/// The channel widths an HT station supports.
#[derive(Debug, Clone, Copy, PartialEq, Eq, Structural, Hash)]
pub enum SupportedChannelWidthSet {
    TwentyMhz,
    TwentyOrFortyMhz,
}

impl SupportedChannelWidthSet {
    /// The value encoded by a raw code, if the code is defined.
    pub open spec fn spec_from_u8(v: u8) -> Option<SupportedChannelWidthSet> {
        if v == 0 {
            Some(SupportedChannelWidthSet::TwentyMhz)
        } else if v == 1 {
            Some(SupportedChannelWidthSet::TwentyOrFortyMhz)
        } else {
            None
        }
    }

    /// The raw code of the value.
    pub open spec fn spec_to_u8(self) -> u8 {
        match self {
            SupportedChannelWidthSet::TwentyMhz => 0,
            SupportedChannelWidthSet::TwentyOrFortyMhz => 1,
        }
    }

    /// The human-readable text of the value.
    pub open spec fn spec_text(self) -> Seq<char> {
        match self {
            SupportedChannelWidthSet::TwentyMhz => "20"@,
            SupportedChannelWidthSet::TwentyOrFortyMhz => "20/40"@,
        }
    }

    /// Decodes a raw code; `None` for an undefined code.
    pub fn from_u8(v: u8) -> (r: Option<SupportedChannelWidthSet>)
        ensures
            r == Self::spec_from_u8(v),
    {
        match v {
            0 => Some(SupportedChannelWidthSet::TwentyMhz),
            1 => Some(SupportedChannelWidthSet::TwentyOrFortyMhz),
            _ => None,
        }
    }

    /// The raw code of the value.
    pub fn to_u8(&self) -> (v: u8)
        ensures
            v == self.spec_to_u8(),
            Self::spec_from_u8(v) == Some(*self),
    {
        match self {
            SupportedChannelWidthSet::TwentyMhz => 0,
            SupportedChannelWidthSet::TwentyOrFortyMhz => 1,
        }
    }

    /// The human-readable text of the value.
    pub fn to_string(&self) -> (s: String)
        ensures
            s@ == self.spec_text(),
    {
        match self {
            SupportedChannelWidthSet::TwentyMhz => String::from_str("20"),
            SupportedChannelWidthSet::TwentyOrFortyMhz => String::from_str("20/40"),
        }
    }
}

/// Decoding a value's own code gives the value back.
pub proof fn lemma_supported_channel_width_set_code_roundtrip(v: SupportedChannelWidthSet)
    ensures
        SupportedChannelWidthSet::spec_from_u8(v.spec_to_u8()) == Some(v),
{
}

/// The spatial multiplexing power save mode.
#[derive(Debug, Clone, Copy, PartialEq, Eq, Structural, Hash)]
pub enum SmPowerSave {
    Static,
    Dynamic,
    Disabled,
}

impl SmPowerSave {
    /// The value encoded by a raw code, if the code is defined.
    pub open spec fn spec_from_u8(v: u8) -> Option<SmPowerSave> {
        if v == 0 {
            Some(SmPowerSave::Static)
        } else if v == 1 {
            Some(SmPowerSave::Dynamic)
        } else if v == 3 {
            Some(SmPowerSave::Disabled)
        } else {
            None
        }
    }

    /// The raw code of the value.
    pub open spec fn spec_to_u8(self) -> u8 {
        match self {
            SmPowerSave::Static => 0,
            SmPowerSave::Dynamic => 1,
            SmPowerSave::Disabled => 3,
        }
    }

    /// The human-readable text of the value.
    pub open spec fn spec_text(self) -> Seq<char> {
        match self {
            SmPowerSave::Static => "Static"@,
            SmPowerSave::Dynamic => "Dynamic"@,
            SmPowerSave::Disabled => "None"@,
        }
    }

    /// Decodes a raw code; `None` for an undefined code.
    pub fn from_u8(v: u8) -> (r: Option<SmPowerSave>)
        ensures
            r == Self::spec_from_u8(v),
    {
        match v {
            0 => Some(SmPowerSave::Static),
            1 => Some(SmPowerSave::Dynamic),
            3 => Some(SmPowerSave::Disabled),
            _ => None,
        }
    }

    /// The raw code of the value.
    pub fn to_u8(&self) -> (v: u8)
        ensures
            v == self.spec_to_u8(),
            Self::spec_from_u8(v) == Some(*self),
    {
        match self {
            SmPowerSave::Static => 0,
            SmPowerSave::Dynamic => 1,
            SmPowerSave::Disabled => 3,
        }
    }

    /// The human-readable text of the value.
    pub fn to_string(&self) -> (s: String)
        ensures
            s@ == self.spec_text(),
    {
        match self {
            SmPowerSave::Static => String::from_str("Static"),
            SmPowerSave::Dynamic => String::from_str("Dynamic"),
            SmPowerSave::Disabled => String::from_str("None"),
        }
    }
}

/// Decoding a value's own code gives the value back.
pub proof fn lemma_sm_power_save_code_roundtrip(v: SmPowerSave)
    ensures
        SmPowerSave::spec_from_u8(v.spec_to_u8()) == Some(v),
{
}

/// The number of spatial streams for which STBC reception is supported.
#[derive(Debug, Clone, Copy, PartialEq, Eq, Structural, Hash)]
pub enum RxStbc {
    NotSupported,
    OneSpatialStream,
    OneAndTwoSpatialStreams,
    OneTwoAndThreeSpatialStreams,
}

impl RxStbc {
    /// The value encoded by a raw code, if the code is defined.
    pub open spec fn spec_from_u8(v: u8) -> Option<RxStbc> {
        if v == 0 {
            Some(RxStbc::NotSupported)
        } else if v == 1 {
            Some(RxStbc::OneSpatialStream)
        } else if v == 2 {
            Some(RxStbc::OneAndTwoSpatialStreams)
        } else if v == 3 {
            Some(RxStbc::OneTwoAndThreeSpatialStreams)
        } else {
            None
        }
    }

    /// The raw code of the value.
    pub open spec fn spec_to_u8(self) -> u8 {
        match self {
            RxStbc::NotSupported => 0,
            RxStbc::OneSpatialStream => 1,
            RxStbc::OneAndTwoSpatialStreams => 2,
            RxStbc::OneTwoAndThreeSpatialStreams => 3,
        }
    }

    /// The human-readable text of the value.
    pub open spec fn spec_text(self) -> Seq<char> {
        match self {
            RxStbc::NotSupported => "Not Supported"@,
            RxStbc::OneSpatialStream => "One Spatial Stream"@,
            RxStbc::OneAndTwoSpatialStreams => "One and Two Spatial Streams"@,
            RxStbc::OneTwoAndThreeSpatialStreams => "One, Two, and Three Spatial Streams"@,
        }
    }

    /// Decodes a raw code; `None` for an undefined code.
    pub fn from_u8(v: u8) -> (r: Option<RxStbc>)
        ensures
            r == Self::spec_from_u8(v),
    {
        match v {
            0 => Some(RxStbc::NotSupported),
            1 => Some(RxStbc::OneSpatialStream),
            2 => Some(RxStbc::OneAndTwoSpatialStreams),
            3 => Some(RxStbc::OneTwoAndThreeSpatialStreams),
            _ => None,
        }
    }

    /// The raw code of the value.
    pub fn to_u8(&self) -> (v: u8)
        ensures
            v == self.spec_to_u8(),
            Self::spec_from_u8(v) == Some(*self),
    {
        match self {
            RxStbc::NotSupported => 0,
            RxStbc::OneSpatialStream => 1,
            RxStbc::OneAndTwoSpatialStreams => 2,
            RxStbc::OneTwoAndThreeSpatialStreams => 3,
        }
    }

    /// The human-readable text of the value.
    pub fn to_string(&self) -> (s: String)
        ensures
            s@ == self.spec_text(),
    {
        match self {
            RxStbc::NotSupported => String::from_str("Not Supported"),
            RxStbc::OneSpatialStream => String::from_str("One Spatial Stream"),
            RxStbc::OneAndTwoSpatialStreams => String::from_str("One and Two Spatial Streams"),
            RxStbc::OneTwoAndThreeSpatialStreams => String::from_str("One, Two, and Three Spatial Streams"),
        }
    }
}

/// Decoding a value's own code gives the value back.
pub proof fn lemma_rx_stbc_code_roundtrip(v: RxStbc)
    ensures
        RxStbc::spec_from_u8(v.spec_to_u8()) == Some(v),
{
}

/// The minimum time between the starts of adjacent MPDUs.
#[derive(Debug, Clone, Copy, PartialEq, Eq, Structural, Hash)]
pub enum MpduStartSpacing {
    NoRestriction,
    QuarterMicrosecond,
    HalfMicrosecond,
    OneMicrosecond,
    TwoMicroseconds,
    FourMicroseconds,
    EightMicroseconds,
    SixteenMicroseconds,
}

impl MpduStartSpacing {
    /// The value encoded by a raw code, if the code is defined.
    pub open spec fn spec_from_u8(v: u8) -> Option<MpduStartSpacing> {
        if v == 0 {
            Some(MpduStartSpacing::NoRestriction)
        } else if v == 1 {
            Some(MpduStartSpacing::QuarterMicrosecond)
        } else if v == 2 {
            Some(MpduStartSpacing::HalfMicrosecond)
        } else if v == 3 {
            Some(MpduStartSpacing::OneMicrosecond)
        } else if v == 4 {
            Some(MpduStartSpacing::TwoMicroseconds)
        } else if v == 5 {
            Some(MpduStartSpacing::FourMicroseconds)
        } else if v == 6 {
            Some(MpduStartSpacing::EightMicroseconds)
        } else if v == 7 {
            Some(MpduStartSpacing::SixteenMicroseconds)
        } else {
            None
        }
    }

    /// The raw code of the value.
    pub open spec fn spec_to_u8(self) -> u8 {
        match self {
            MpduStartSpacing::NoRestriction => 0,
            MpduStartSpacing::QuarterMicrosecond => 1,
            MpduStartSpacing::HalfMicrosecond => 2,
            MpduStartSpacing::OneMicrosecond => 3,
            MpduStartSpacing::TwoMicroseconds => 4,
            MpduStartSpacing::FourMicroseconds => 5,
            MpduStartSpacing::EightMicroseconds => 6,
            MpduStartSpacing::SixteenMicroseconds => 7,
        }
    }

    /// The human-readable text of the value.
    pub open spec fn spec_text(self) -> Seq<char> {
        match self {
            MpduStartSpacing::NoRestriction => "No Restriction"@,
            MpduStartSpacing::QuarterMicrosecond => "1/4 μs"@,
            MpduStartSpacing::HalfMicrosecond => "1/2 μs"@,
            MpduStartSpacing::OneMicrosecond => "1 μs"@,
            MpduStartSpacing::TwoMicroseconds => "2 μs"@,
            MpduStartSpacing::FourMicroseconds => "4 μs"@,
            MpduStartSpacing::EightMicroseconds => "8 μs"@,
            MpduStartSpacing::SixteenMicroseconds => "16 μs"@,
        }
    }

    /// Decodes a raw code; `None` for an undefined code.
    pub fn from_u8(v: u8) -> (r: Option<MpduStartSpacing>)
        ensures
            r == Self::spec_from_u8(v),
    {
        match v {
            0 => Some(MpduStartSpacing::NoRestriction),
            1 => Some(MpduStartSpacing::QuarterMicrosecond),
            2 => Some(MpduStartSpacing::HalfMicrosecond),
            3 => Some(MpduStartSpacing::OneMicrosecond),
            4 => Some(MpduStartSpacing::TwoMicroseconds),
            5 => Some(MpduStartSpacing::FourMicroseconds),
            6 => Some(MpduStartSpacing::EightMicroseconds),
            7 => Some(MpduStartSpacing::SixteenMicroseconds),
            _ => None,
        }
    }

    /// The raw code of the value.
    pub fn to_u8(&self) -> (v: u8)
        ensures
            v == self.spec_to_u8(),
            Self::spec_from_u8(v) == Some(*self),
    {
        match self {
            MpduStartSpacing::NoRestriction => 0,
            MpduStartSpacing::QuarterMicrosecond => 1,
            MpduStartSpacing::HalfMicrosecond => 2,
            MpduStartSpacing::OneMicrosecond => 3,
            MpduStartSpacing::TwoMicroseconds => 4,
            MpduStartSpacing::FourMicroseconds => 5,
            MpduStartSpacing::EightMicroseconds => 6,
            MpduStartSpacing::SixteenMicroseconds => 7,
        }
    }

    /// The human-readable text of the value.
    pub fn to_string(&self) -> (s: String)
        ensures
            s@ == self.spec_text(),
    {
        match self {
            MpduStartSpacing::NoRestriction => String::from_str("No Restriction"),
            MpduStartSpacing::QuarterMicrosecond => String::from_str("1/4 μs"),
            MpduStartSpacing::HalfMicrosecond => String::from_str("1/2 μs"),
            MpduStartSpacing::OneMicrosecond => String::from_str("1 μs"),
            MpduStartSpacing::TwoMicroseconds => String::from_str("2 μs"),
            MpduStartSpacing::FourMicroseconds => String::from_str("4 μs"),
            MpduStartSpacing::EightMicroseconds => String::from_str("8 μs"),
            MpduStartSpacing::SixteenMicroseconds => String::from_str("16 μs"),
        }
    }
}

/// Decoding a value's own code gives the value back.
pub proof fn lemma_mpdu_start_spacing_code_roundtrip(v: MpduStartSpacing)
    ensures
        MpduStartSpacing::spec_from_u8(v.spec_to_u8()) == Some(v),
{
}

/// The MCS feedback capability.
#[derive(Debug, Clone, Copy, PartialEq, Eq, Structural, Hash)]
pub enum McsFeedback {
    NoMfb,
    UnsolicitedMfb,
    ResponseOrUnsolicitedMfb,
}

impl McsFeedback {
    /// The value encoded by a raw code, if the code is defined.
    pub open spec fn spec_from_u8(v: u8) -> Option<McsFeedback> {
        if v == 0 {
            Some(McsFeedback::NoMfb)
        } else if v == 2 {
            Some(McsFeedback::UnsolicitedMfb)
        } else if v == 3 {
            Some(McsFeedback::ResponseOrUnsolicitedMfb)
        } else {
            None
        }
    }

    /// The raw code of the value.
    pub open spec fn spec_to_u8(self) -> u8 {
        match self {
            McsFeedback::NoMfb => 0,
            McsFeedback::UnsolicitedMfb => 2,
            McsFeedback::ResponseOrUnsolicitedMfb => 3,
        }
    }

    /// The human-readable text of the value.
    pub open spec fn spec_text(self) -> Seq<char> {
        match self {
            McsFeedback::NoMfb => "No MFB"@,
            McsFeedback::UnsolicitedMfb => "Unsolicited MFB"@,
            McsFeedback::ResponseOrUnsolicitedMfb => "Response (Delayed/Immediate) or Unsolicited MFB"@,
        }
    }

    /// Decodes a raw code; `None` for an undefined code.
    pub fn from_u8(v: u8) -> (r: Option<McsFeedback>)
        ensures
            r == Self::spec_from_u8(v),
    {
        match v {
            0 => Some(McsFeedback::NoMfb),
            2 => Some(McsFeedback::UnsolicitedMfb),
            3 => Some(McsFeedback::ResponseOrUnsolicitedMfb),
            _ => None,
        }
    }

    /// The raw code of the value.
    pub fn to_u8(&self) -> (v: u8)
        ensures
            v == self.spec_to_u8(),
            Self::spec_from_u8(v) == Some(*self),
    {
        match self {
            McsFeedback::NoMfb => 0,
            McsFeedback::UnsolicitedMfb => 2,
            McsFeedback::ResponseOrUnsolicitedMfb => 3,
        }
    }

    /// The human-readable text of the value.
    pub fn to_string(&self) -> (s: String)
        ensures
            s@ == self.spec_text(),
    {
        match self {
            McsFeedback::NoMfb => String::from_str("No MFB"),
            McsFeedback::UnsolicitedMfb => String::from_str("Unsolicited MFB"),
            McsFeedback::ResponseOrUnsolicitedMfb => String::from_str("Response (Delayed/Immediate) or Unsolicited MFB"),
        }
    }
}

/// Decoding a value's own code gives the value back.
pub proof fn lemma_mcs_feedback_code_roundtrip(v: McsFeedback)
    ensures
        McsFeedback::spec_from_u8(v.spec_to_u8()) == Some(v),
{
}

/// The transmit beamforming calibration capability.
#[derive(Debug, Clone, Copy, PartialEq, Eq, Structural, Hash)]
pub enum Calibration {
    NotSupported,
    Respond,
    InitiateAndRespond,
}

impl Calibration {
    /// The value encoded by a raw code, if the code is defined.
    pub open spec fn spec_from_u8(v: u8) -> Option<Calibration> {
        if v == 0 {
            Some(Calibration::NotSupported)
        } else if v == 1 {
            Some(Calibration::Respond)
        } else if v == 3 {
            Some(Calibration::InitiateAndRespond)
        } else {
            None
        }
    }

    /// The raw code of the value.
    pub open spec fn spec_to_u8(self) -> u8 {
        match self {
            Calibration::NotSupported => 0,
            Calibration::Respond => 1,
            Calibration::InitiateAndRespond => 3,
        }
    }

    /// The human-readable text of the value.
    pub open spec fn spec_text(self) -> Seq<char> {
        match self {
            Calibration::NotSupported => "Not Supported"@,
            Calibration::Respond => "Respond to Calibration Request"@,
            Calibration::InitiateAndRespond => "Initiate and Respond to Calibration Request"@,
        }
    }

    /// Decodes a raw code; `None` for an undefined code.
    pub fn from_u8(v: u8) -> (r: Option<Calibration>)
        ensures
            r == Self::spec_from_u8(v),
    {
        match v {
            0 => Some(Calibration::NotSupported),
            1 => Some(Calibration::Respond),
            3 => Some(Calibration::InitiateAndRespond),
            _ => None,
        }
    }

    /// The raw code of the value.
    pub fn to_u8(&self) -> (v: u8)
        ensures
            v == self.spec_to_u8(),
            Self::spec_from_u8(v) == Some(*self),
    {
        match self {
            Calibration::NotSupported => 0,
            Calibration::Respond => 1,
            Calibration::InitiateAndRespond => 3,
        }
    }

    /// The human-readable text of the value.
    pub fn to_string(&self) -> (s: String)
        ensures
            s@ == self.spec_text(),
    {
        match self {
            Calibration::NotSupported => String::from_str("Not Supported"),
            Calibration::Respond => String::from_str("Respond to Calibration Request"),
            Calibration::InitiateAndRespond => String::from_str("Initiate and Respond to Calibration Request"),
        }
    }
}

/// Decoding a value's own code gives the value back.
pub proof fn lemma_calibration_code_roundtrip(v: Calibration)
    ensures
        Calibration::spec_from_u8(v.spec_to_u8()) == Some(v),
{
}

/// A beamforming feedback capability.
#[derive(Debug, Clone, Copy, PartialEq, Eq, Structural, Hash)]
pub enum BeamformingFeedback {
    NotSupported,
    Delayed,
    Immediate,
    DelayedAndImmediate,
}

impl BeamformingFeedback {
    /// The value encoded by a raw code, if the code is defined.
    pub open spec fn spec_from_u8(v: u8) -> Option<BeamformingFeedback> {
        if v == 0 {
            Some(BeamformingFeedback::NotSupported)
        } else if v == 1 {
            Some(BeamformingFeedback::Delayed)
        } else if v == 2 {
            Some(BeamformingFeedback::Immediate)
        } else if v == 3 {
            Some(BeamformingFeedback::DelayedAndImmediate)
        } else {
            None
        }
    }

    /// The raw code of the value.
    pub open spec fn spec_to_u8(self) -> u8 {
        match self {
            BeamformingFeedback::NotSupported => 0,
            BeamformingFeedback::Delayed => 1,
            BeamformingFeedback::Immediate => 2,
            BeamformingFeedback::DelayedAndImmediate => 3,
        }
    }

    /// The human-readable text of the value.
    pub open spec fn spec_text(self) -> Seq<char> {
        match self {
            BeamformingFeedback::NotSupported => "Not Supported"@,
            BeamformingFeedback::Delayed => "Delayed"@,
            BeamformingFeedback::Immediate => "Immediate"@,
            BeamformingFeedback::DelayedAndImmediate => "Delayed and Immediate"@,
        }
    }

    /// Decodes a raw code; `None` for an undefined code.
    pub fn from_u8(v: u8) -> (r: Option<BeamformingFeedback>)
        ensures
            r == Self::spec_from_u8(v),
    {
        match v {
            0 => Some(BeamformingFeedback::NotSupported),
            1 => Some(BeamformingFeedback::Delayed),
            2 => Some(BeamformingFeedback::Immediate),
            3 => Some(BeamformingFeedback::DelayedAndImmediate),
            _ => None,
        }
    }

    /// The raw code of the value.
    pub fn to_u8(&self) -> (v: u8)
        ensures
            v == self.spec_to_u8(),
            Self::spec_from_u8(v) == Some(*self),
    {
        match self {
            BeamformingFeedback::NotSupported => 0,
            BeamformingFeedback::Delayed => 1,
            BeamformingFeedback::Immediate => 2,
            BeamformingFeedback::DelayedAndImmediate => 3,
        }
    }

    /// The human-readable text of the value.
    pub fn to_string(&self) -> (s: String)
        ensures
            s@ == self.spec_text(),
    {
        match self {
            BeamformingFeedback::NotSupported => String::from_str("Not Supported"),
            BeamformingFeedback::Delayed => String::from_str("Delayed"),
            BeamformingFeedback::Immediate => String::from_str("Immediate"),
            BeamformingFeedback::DelayedAndImmediate => String::from_str("Delayed and Immediate"),
        }
    }
}

/// Decoding a value's own code gives the value back.
pub proof fn lemma_beamforming_feedback_code_roundtrip(v: BeamformingFeedback)
    ensures
        BeamformingFeedback::spec_from_u8(v.spec_to_u8()) == Some(v),
{
}

/// The minimal subcarrier grouping for beamforming feedback.
#[derive(Debug, Clone, Copy, PartialEq, Eq, Structural, Hash)]
pub enum MinimalGrouping {
    One,
    OneOrTwo,
    OneOrFour,
    OneOrTwoOrFour,
}

impl MinimalGrouping {
    /// The value encoded by a raw code, if the code is defined.
    pub open spec fn spec_from_u8(v: u8) -> Option<MinimalGrouping> {
        if v == 0 {
            Some(MinimalGrouping::One)
        } else if v == 1 {
            Some(MinimalGrouping::OneOrTwo)
        } else if v == 2 {
            Some(MinimalGrouping::OneOrFour)
        } else if v == 3 {
            Some(MinimalGrouping::OneOrTwoOrFour)
        } else {
            None
        }
    }

    /// The raw code of the value.
    pub open spec fn spec_to_u8(self) -> u8 {
        match self {
            MinimalGrouping::One => 0,
            MinimalGrouping::OneOrTwo => 1,
            MinimalGrouping::OneOrFour => 2,
            MinimalGrouping::OneOrTwoOrFour => 3,
        }
    }

    /// The human-readable text of the value.
    pub open spec fn spec_text(self) -> Seq<char> {
        match self {
            MinimalGrouping::One => "1"@,
            MinimalGrouping::OneOrTwo => "1 or 2"@,
            MinimalGrouping::OneOrFour => "1 or 4"@,
            MinimalGrouping::OneOrTwoOrFour => "1, 2, or 4"@,
        }
    }

    /// Decodes a raw code; `None` for an undefined code.
    pub fn from_u8(v: u8) -> (r: Option<MinimalGrouping>)
        ensures
            r == Self::spec_from_u8(v),
    {
        match v {
            0 => Some(MinimalGrouping::One),
            1 => Some(MinimalGrouping::OneOrTwo),
            2 => Some(MinimalGrouping::OneOrFour),
            3 => Some(MinimalGrouping::OneOrTwoOrFour),
            _ => None,
        }
    }

    /// The raw code of the value.
    pub fn to_u8(&self) -> (v: u8)
        ensures
            v == self.spec_to_u8(),
            Self::spec_from_u8(v) == Some(*self),
    {
        match self {
            MinimalGrouping::One => 0,
            MinimalGrouping::OneOrTwo => 1,
            MinimalGrouping::OneOrFour => 2,
            MinimalGrouping::OneOrTwoOrFour => 3,
        }
    }

    /// The human-readable text of the value.
    pub fn to_string(&self) -> (s: String)
        ensures
            s@ == self.spec_text(),
    {
        match self {
            MinimalGrouping::One => String::from_str("1"),
            MinimalGrouping::OneOrTwo => String::from_str("1 or 2"),
            MinimalGrouping::OneOrFour => String::from_str("1 or 4"),
            MinimalGrouping::OneOrTwoOrFour => String::from_str("1, 2, or 4"),
        }
    }
}

/// Decoding a value's own code gives the value back.
pub proof fn lemma_minimal_grouping_code_roundtrip(v: MinimalGrouping)
    ensures
        MinimalGrouping::spec_from_u8(v.spec_to_u8()) == Some(v),
{
}

/// The HT Capability Information field of an HT Capabilities element.
#[derive(Debug, Clone, Copy, PartialEq, Eq, Hash)]
pub struct HtCapabilityInformation {
    bytes: [u8; 2],
}

impl HtCapabilityInformation {
    /// The encoded length in bytes.
    pub const LENGTH: usize = 2;

    /// Whether `bytes` (exactly 2 of them) encode a valid value.
    pub open spec fn spec_valid(bytes: Seq<u8>) -> bool {
        &&& bytes.len() == 2
        &&& SupportedChannelWidthSet::spec_from_u8(bits_value(bytes, 1, 1) as u8) is Some
        &&& SmPowerSave::spec_from_u8(bits_value(bytes, 2, 2) as u8) is Some
        &&& RxStbc::spec_from_u8(bits_value(bytes, 8, 2) as u8) is Some
    }

    /// The encoded bytes.
    pub closed spec fn raw(&self) -> Seq<u8> {
        self.bytes@
    }

    /// Every value is encoded in exactly 2 bytes.
    pub proof fn lemma_raw_len(&self)
        ensures
            self.raw().len() == 2,
    {
    }

    /// Decodes the value from the first 2 bytes of `bytes`. `None` when there are fewer
    /// bytes or they do not encode a valid value.
    pub fn from_bytes(bytes: &[u8]) -> (r: Option<HtCapabilityInformation>)
        ensures
            r is Some <==> bytes@.len() >= 2 && Self::spec_valid(bytes@.subrange(0, 2)),
            r matches Some(v) ==> v.raw() == bytes@.subrange(0, 2),
    {
        if bytes.len() < 2 {
            return None;
        }
        let a: [u8; 2] = [bytes[0], bytes[1]];
        proof {
            assert(a@ =~= bytes@.subrange(0, 2));
        }
        if SupportedChannelWidthSet::from_u8(read_u8_bits(a.as_slice(), 1, 1)).is_none() {
            return None;
        }
        if SmPowerSave::from_u8(read_u8_bits(a.as_slice(), 2, 2)).is_none() {
            return None;
        }
        if RxStbc::from_u8(read_u8_bits(a.as_slice(), 8, 2)).is_none() {
            return None;
        }
        Some(HtCapabilityInformation { bytes: a })
    }

    /// The encoded bytes.
    pub fn to_bytes(&self) -> (v: Vec<u8>)
        ensures
            v@ == self.raw(),
    {
        vstd::slice::slice_to_vec(self.bytes.as_slice())
    }

    /// The "LDPC Coding Capability" subfield (bit 0).
    pub open spec fn spec_ldpc_coding_capability(&self) -> bool {
        bit_set(self.raw(), 0)
    }

    /// The "LDPC Coding Capability" subfield (bit 0).
    pub fn ldpc_coding_capability(&self) -> (b: bool)
        ensures
            b == self.spec_ldpc_coding_capability(),
    {
        read_bit(self.bytes.as_slice(), 0)
    }

    /// The "Supported Channel Width Set" subfield (bit 1).
    pub open spec fn spec_supported_channel_width_set(&self) -> SupportedChannelWidthSet {
        match SupportedChannelWidthSet::spec_from_u8(bits_value(self.raw(), 1, 1) as u8) {
            Some(v) => v,
            None => SupportedChannelWidthSet::TwentyMhz,
        }
    }

    /// The "Supported Channel Width Set" subfield (bit 1).
    pub fn supported_channel_width_set(&self) -> (v: SupportedChannelWidthSet)
        ensures
            v == self.spec_supported_channel_width_set(),
    {
        match SupportedChannelWidthSet::from_u8(read_u8_bits(self.bytes.as_slice(), 1, 1)) {
            Some(v) => v,
            None => SupportedChannelWidthSet::TwentyMhz,
        }
    }

    /// The "SM Power Save" subfield (bits 2-3).
    pub open spec fn spec_sm_power_save(&self) -> SmPowerSave {
        match SmPowerSave::spec_from_u8(bits_value(self.raw(), 2, 2) as u8) {
            Some(v) => v,
            None => SmPowerSave::Static,
        }
    }

    /// The "SM Power Save" subfield (bits 2-3).
    pub fn sm_power_save(&self) -> (v: SmPowerSave)
        ensures
            v == self.spec_sm_power_save(),
    {
        match SmPowerSave::from_u8(read_u8_bits(self.bytes.as_slice(), 2, 2)) {
            Some(v) => v,
            None => SmPowerSave::Static,
        }
    }

    /// The "HT-Greenfield" subfield (bit 4).
    pub open spec fn spec_ht_greenfield(&self) -> bool {
        bit_set(self.raw(), 4)
    }

    /// The "HT-Greenfield" subfield (bit 4).
    pub fn ht_greenfield(&self) -> (b: bool)
        ensures
            b == self.spec_ht_greenfield(),
    {
        read_bit(self.bytes.as_slice(), 4)
    }

    /// The "Short GI for 20 MHz" subfield (bit 5).
    pub open spec fn spec_short_gi_for_twenty_mhz(&self) -> bool {
        bit_set(self.raw(), 5)
    }

    /// The "Short GI for 20 MHz" subfield (bit 5).
    pub fn short_gi_for_twenty_mhz(&self) -> (b: bool)
        ensures
            b == self.spec_short_gi_for_twenty_mhz(),
    {
        read_bit(self.bytes.as_slice(), 5)
    }

    /// The "Short GI for 40 MHz" subfield (bit 6).
    pub open spec fn spec_short_gi_for_forty_mhz(&self) -> bool {
        bit_set(self.raw(), 6)
    }

    /// The "Short GI for 40 MHz" subfield (bit 6).
    pub fn short_gi_for_forty_mhz(&self) -> (b: bool)
        ensures
            b == self.spec_short_gi_for_forty_mhz(),
    {
        read_bit(self.bytes.as_slice(), 6)
    }

    /// The "Tx STBC" subfield (bit 7).
    pub open spec fn spec_tx_stbc(&self) -> bool {
        bit_set(self.raw(), 7)
    }

    /// The "Tx STBC" subfield (bit 7).
    pub fn tx_stbc(&self) -> (b: bool)
        ensures
            b == self.spec_tx_stbc(),
    {
        read_bit(self.bytes.as_slice(), 7)
    }

    /// The "Rx STBC" subfield (bits 8-9).
    pub open spec fn spec_rx_stbc(&self) -> RxStbc {
        match RxStbc::spec_from_u8(bits_value(self.raw(), 8, 2) as u8) {
            Some(v) => v,
            None => RxStbc::NotSupported,
        }
    }

    /// The "Rx STBC" subfield (bits 8-9).
    pub fn rx_stbc(&self) -> (v: RxStbc)
        ensures
            v == self.spec_rx_stbc(),
    {
        match RxStbc::from_u8(read_u8_bits(self.bytes.as_slice(), 8, 2)) {
            Some(v) => v,
            None => RxStbc::NotSupported,
        }
    }

    /// The "Maximum A-MSDU Length" subfield (bit 11).
    pub open spec fn spec_maximum_amsdu_length(&self) -> u16 {
        if bit_set(self.raw(), 11) { 7935u16 } else { 3839u16 }
    }

    /// The "Maximum A-MSDU Length" subfield (bit 11).
    pub fn maximum_amsdu_length(&self) -> (v: u16)
        ensures
            v == self.spec_maximum_amsdu_length(),
    {
        if read_bit(self.bytes.as_slice(), 11) { 7935 } else { 3839 }
    }

    /// The "DSSS/CCK Mode in 40 MHz" subfield (bit 12).
    pub open spec fn spec_dsss_cck_mode_in_forty_mhz(&self) -> bool {
        bit_set(self.raw(), 12)
    }

    /// The "DSSS/CCK Mode in 40 MHz" subfield (bit 12).
    pub fn dsss_cck_mode_in_forty_mhz(&self) -> (b: bool)
        ensures
            b == self.spec_dsss_cck_mode_in_forty_mhz(),
    {
        read_bit(self.bytes.as_slice(), 12)
    }

    /// The "40 MHz Intolerant" subfield (bit 14).
    pub open spec fn spec_forty_mhz_intolerant(&self) -> bool {
        bit_set(self.raw(), 14)
    }

    /// The "40 MHz Intolerant" subfield (bit 14).
    pub fn forty_mhz_intolerant(&self) -> (b: bool)
        ensures
            b == self.spec_forty_mhz_intolerant(),
    {
        read_bit(self.bytes.as_slice(), 14)
    }

    /// Whether `f` is the displayable field of this value: one subfield per bit field.
    pub open spec fn field_shows(&self, f: Field) -> bool {
        &&& f.title@ == "HT Capability Information"@
        &&& f.value@ == ""@
        &&& f.bytes matches Some(b) && b@ == self.raw()
        &&& f.byte is None
        &&& f.bits is None
        &&& f.units is None
        &&& f.subfields@.len() == 14
        &&& bit_field_is(f.subfields@[0], "LDPC Coding Capability"@, bool_text(self.spec_ldpc_coding_capability()), None, self.raw(), 0, 1)
        &&& bit_field_is(f.subfields@[1], "Supported Channel Width Set"@, self.spec_supported_channel_width_set().spec_text(), Some("MHz"@), self.raw(), 1, 1)
        &&& bit_field_is(f.subfields@[2], "SM Power Save"@, self.spec_sm_power_save().spec_text(), None, self.raw(), 2, 2)
        &&& bit_field_is(f.subfields@[3], "HT-Greenfield"@, bool_text(self.spec_ht_greenfield()), None, self.raw(), 4, 1)
        &&& bit_field_is(f.subfields@[4], "Short GI for 20 MHz"@, bool_text(self.spec_short_gi_for_twenty_mhz()), None, self.raw(), 5, 1)
        &&& bit_field_is(f.subfields@[5], "Short GI for 40 MHz"@, bool_text(self.spec_short_gi_for_forty_mhz()), None, self.raw(), 6, 1)
        &&& bit_field_is(f.subfields@[6], "Tx STBC"@, bool_text(self.spec_tx_stbc()), None, self.raw(), 7, 1)
        &&& bit_field_is(f.subfields@[7], "Rx STBC"@, self.spec_rx_stbc().spec_text(), None, self.raw(), 8, 2)
        &&& reserved_field_is(f.subfields@[8], self.raw(), 10, 1)
        &&& bit_field_is(f.subfields@[9], "Maximum A-MSDU Length"@, decimal(self.spec_maximum_amsdu_length() as nat), Some("bytes"@), self.raw(), 11, 1)
        &&& bit_field_is(f.subfields@[10], "DSSS/CCK Mode in 40 MHz"@, bool_text(self.spec_dsss_cck_mode_in_forty_mhz()), None, self.raw(), 12, 1)
        &&& reserved_field_is(f.subfields@[11], self.raw(), 13, 1)
        &&& bit_field_is(f.subfields@[12], "40 MHz Intolerant"@, bool_text(self.spec_forty_mhz_intolerant()), None, self.raw(), 14, 1)
        &&& reserved_field_is(f.subfields@[13], self.raw(), 15, 1)
    }

    /// The value as a displayable field with one subfield per bit field.
    pub fn to_field(&self) -> (f: Field)
        ensures
            self.field_shows(f),
    {
        let bytes = self.bytes.as_slice();
        let mut subfields: Vec<Field> = Vec::new();
        subfields.push(bit_field("LDPC Coding Capability", bool_string(self.ldpc_coding_capability()), bytes, 0, 1));
        subfields.push(bit_field_with_units("Supported Channel Width Set", self.supported_channel_width_set().to_string(), owned("MHz"), bytes, 1, 1));
        subfields.push(bit_field("SM Power Save", self.sm_power_save().to_string(), bytes, 2, 2));
        subfields.push(bit_field("HT-Greenfield", bool_string(self.ht_greenfield()), bytes, 4, 1));
        subfields.push(bit_field("Short GI for 20 MHz", bool_string(self.short_gi_for_twenty_mhz()), bytes, 5, 1));
        subfields.push(bit_field("Short GI for 40 MHz", bool_string(self.short_gi_for_forty_mhz()), bytes, 6, 1));
        subfields.push(bit_field("Tx STBC", bool_string(self.tx_stbc()), bytes, 7, 1));
        subfields.push(bit_field("Rx STBC", self.rx_stbc().to_string(), bytes, 8, 2));
        subfields.push(reserved_bits(bytes, 10, 1));
        subfields.push(bit_field_with_units("Maximum A-MSDU Length", u64_text(self.maximum_amsdu_length() as u64), owned("bytes"), bytes, 11, 1));
        subfields.push(bit_field("DSSS/CCK Mode in 40 MHz", bool_string(self.dsss_cck_mode_in_forty_mhz()), bytes, 12, 1));
        subfields.push(reserved_bits(bytes, 13, 1));
        subfields.push(bit_field("40 MHz Intolerant", bool_string(self.forty_mhz_intolerant()), bytes, 14, 1));
        subfields.push(reserved_bits(bytes, 15, 1));
        Field::new("HT Capability Information", "").with_bytes(self.to_bytes()).with_subfields(subfields)
    }

}

/// The A-MPDU Parameters field of an HT Capabilities element.
#[derive(Debug, Clone, Copy, PartialEq, Eq, Hash)]
pub struct AmpduParameters {
    bytes: [u8; 1],
}

impl AmpduParameters {
    /// The encoded length in bytes.
    pub const LENGTH: usize = 1;

    /// Whether `bytes` (exactly 1 of them) encode a valid value.
    pub open spec fn spec_valid(bytes: Seq<u8>) -> bool {
        &&& bytes.len() == 1
        &&& MpduStartSpacing::spec_from_u8(bits_value(bytes, 2, 3) as u8) is Some
    }

    /// The encoded bytes.
    pub closed spec fn raw(&self) -> Seq<u8> {
        self.bytes@
    }

    /// Every value is encoded in exactly 1 bytes.
    pub proof fn lemma_raw_len(&self)
        ensures
            self.raw().len() == 1,
    {
    }

    /// Decodes the value from the first 1 bytes of `bytes`. `None` when there are fewer
    /// bytes or they do not encode a valid value.
    pub fn from_bytes(bytes: &[u8]) -> (r: Option<AmpduParameters>)
        ensures
            r is Some <==> bytes@.len() >= 1 && Self::spec_valid(bytes@.subrange(0, 1)),
            r matches Some(v) ==> v.raw() == bytes@.subrange(0, 1),
    {
        if bytes.len() < 1 {
            return None;
        }
        let a: [u8; 1] = [bytes[0]];
        proof {
            assert(a@ =~= bytes@.subrange(0, 1));
        }
        if MpduStartSpacing::from_u8(read_u8_bits(a.as_slice(), 2, 3)).is_none() {
            return None;
        }
        Some(AmpduParameters { bytes: a })
    }

    /// The encoded bytes.
    pub fn to_bytes(&self) -> (v: Vec<u8>)
        ensures
            v@ == self.raw(),
    {
        vstd::slice::slice_to_vec(self.bytes.as_slice())
    }

    /// The "Maximum A-MPDU Length Exponent" subfield (bits 0-1).
    pub open spec fn spec_maximum_ampdu_length_exponent(&self) -> u8 {
        bits_value(self.raw(), 0, 2) as u8
    }

    /// The "Maximum A-MPDU Length Exponent" subfield (bits 0-1).
    pub fn maximum_ampdu_length_exponent(&self) -> (v: u8)
        ensures
            v == self.spec_maximum_ampdu_length_exponent(),
            v == bits_value(self.raw(), 0, 2),
    {
        read_u8_bits(self.bytes.as_slice(), 0, 2)
    }

    /// The "Minimum MPDU Start Spacing" subfield (bits 2-4).
    pub open spec fn spec_minimum_mpdu_start_spacing(&self) -> MpduStartSpacing {
        match MpduStartSpacing::spec_from_u8(bits_value(self.raw(), 2, 3) as u8) {
            Some(v) => v,
            None => MpduStartSpacing::NoRestriction,
        }
    }

    /// The "Minimum MPDU Start Spacing" subfield (bits 2-4).
    pub fn minimum_mpdu_start_spacing(&self) -> (v: MpduStartSpacing)
        ensures
            v == self.spec_minimum_mpdu_start_spacing(),
    {
        match MpduStartSpacing::from_u8(read_u8_bits(self.bytes.as_slice(), 2, 3)) {
            Some(v) => v,
            None => MpduStartSpacing::NoRestriction,
        }
    }

    /// Whether `f` is the displayable field of this value: one subfield per bit field.
    pub open spec fn field_shows(&self, f: Field) -> bool {
        &&& f.title@ == "A-MPDU Parameters"@
        &&& f.value@ == ""@
        &&& f.byte == Some(self.raw()[0])
        &&& f.bytes is None
        &&& f.bits is None
        &&& f.units is None
        &&& f.subfields@.len() == 3
        &&& bit_field_is(f.subfields@[0], "Maximum A-MPDU Length Exponent"@, decimal(self.spec_maximum_ampdu_length_exponent() as nat), None, self.raw(), 0, 2)
        &&& bit_field_is(f.subfields@[1], "Minimum MPDU Start Spacing"@, self.spec_minimum_mpdu_start_spacing().spec_text(), None, self.raw(), 2, 3)
        &&& reserved_field_is(f.subfields@[2], self.raw(), 5, 3)
    }

    /// The value as a displayable field with one subfield per bit field.
    pub fn to_field(&self) -> (f: Field)
        ensures
            self.field_shows(f),
    {
        let bytes = self.bytes.as_slice();
        let mut subfields: Vec<Field> = Vec::new();
        subfields.push(bit_field("Maximum A-MPDU Length Exponent", u64_text(self.maximum_ampdu_length_exponent() as u64), bytes, 0, 2));
        subfields.push(bit_field("Minimum MPDU Start Spacing", self.minimum_mpdu_start_spacing().to_string(), bytes, 2, 3));
        subfields.push(reserved_bits(bytes, 5, 3));
        Field::new("A-MPDU Parameters", "").with_byte(self.bytes[0]).with_subfields(subfields)
    }

    /// The maximum A-MPDU length in bytes: 2^(13 + exponent) - 1.
    pub fn max_ampdu_length(&self) -> (n: u32)
        ensures
            n == two_pow((13 + self.spec_maximum_ampdu_length_exponent()) as nat) - 1,
    {
        proof {
            reveal_with_fuel(two_pow, 17);
            lemma_bits_value_bound(self.raw(), 0, 2);
            assert(two_pow(2) == 4);
        }
        match self.maximum_ampdu_length_exponent() {
            0 => 8191,
            1 => 16383,
            2 => 32767,
            _ => 65535,
        }
    }

}

/// The Supported MCS Set field: the MCS indices a station can receive and transmit.
#[derive(Debug, Clone, Copy, PartialEq, Eq, Hash)]
pub struct SupportedMcsSet {
    bytes: [u8; 16],
}

impl SupportedMcsSet {
    /// The encoded length in bytes.
    pub const LENGTH: usize = 16;

    /// Whether `bytes` (exactly 16 of them) encode a valid value.
    pub open spec fn spec_valid(bytes: Seq<u8>) -> bool {
        bytes.len() == 16
    }

    /// The encoded bytes.
    pub closed spec fn raw(&self) -> Seq<u8> {
        self.bytes@
    }

    /// Every value is encoded in exactly 16 bytes.
    pub proof fn lemma_raw_len(&self)
        ensures
            self.raw().len() == 16,
    {
    }

    /// Decodes the value from the first 16 bytes of `bytes`. `None` when there are fewer
    /// bytes or they do not encode a valid value.
    pub fn from_bytes(bytes: &[u8]) -> (r: Option<SupportedMcsSet>)
        ensures
            r is Some <==> bytes@.len() >= 16 && Self::spec_valid(bytes@.subrange(0, 16)),
            r matches Some(v) ==> v.raw() == bytes@.subrange(0, 16),
    {
        if bytes.len() < 16 {
            return None;
        }
        let a: [u8; 16] = [bytes[0], bytes[1], bytes[2], bytes[3], bytes[4], bytes[5], bytes[6], bytes[7], bytes[8], bytes[9], bytes[10], bytes[11], bytes[12], bytes[13], bytes[14], bytes[15]];
        proof {
            assert(a@ =~= bytes@.subrange(0, 16));
        }
        Some(SupportedMcsSet { bytes: a })
    }

    /// The encoded bytes.
    pub fn to_bytes(&self) -> (v: Vec<u8>)
        ensures
            v@ == self.raw(),
    {
        vstd::slice::slice_to_vec(self.bytes.as_slice())
    }

    /// The rx highest supported data rate subfield (bits 80-89).
    pub open spec fn spec_rx_highest_supported_data_rate(&self) -> u16 {
        bits_value(self.raw(), 80, 10) as u16
    }

    /// The rx highest supported data rate subfield (bits 80-89).
    pub fn rx_highest_supported_data_rate(&self) -> (v: u16)
        ensures
            v == self.spec_rx_highest_supported_data_rate(),
            v == bits_value(self.raw(), 80, 10),
    {
        read_u16_bits(self.bytes.as_slice(), 80, 10)
    }

    /// The tx mcs set defined subfield (bit 96).
    pub open spec fn spec_tx_mcs_set_defined(&self) -> bool {
        bit_set(self.raw(), 96)
    }

    /// The tx mcs set defined subfield (bit 96).
    pub fn tx_mcs_set_defined(&self) -> (b: bool)
        ensures
            b == self.spec_tx_mcs_set_defined(),
    {
        read_bit(self.bytes.as_slice(), 96)
    }

    /// The tx rx mcs set not equal subfield (bit 97).
    pub open spec fn spec_tx_rx_mcs_set_not_equal(&self) -> bool {
        bit_set(self.raw(), 97)
    }

    /// The tx rx mcs set not equal subfield (bit 97).
    pub fn tx_rx_mcs_set_not_equal(&self) -> (b: bool)
        ensures
            b == self.spec_tx_rx_mcs_set_not_equal(),
    {
        read_bit(self.bytes.as_slice(), 97)
    }

    /// The tx maximum number spatial streams supported subfield (bits 98-99).
    pub open spec fn spec_tx_maximum_number_spatial_streams_supported(&self) -> u8 {
        bits_value(self.raw(), 98, 2) as u8
    }

    /// The tx maximum number spatial streams supported subfield (bits 98-99).
    pub fn tx_maximum_number_spatial_streams_supported(&self) -> (v: u8)
        ensures
            v == self.spec_tx_maximum_number_spatial_streams_supported(),
            v == bits_value(self.raw(), 98, 2),
    {
        read_u8_bits(self.bytes.as_slice(), 98, 2)
    }

    /// The tx unequal modulation supported subfield (bit 100).
    pub open spec fn spec_tx_unequal_modulation_supported(&self) -> bool {
        bit_set(self.raw(), 100)
    }

    /// The tx unequal modulation supported subfield (bit 100).
    pub fn tx_unequal_modulation_supported(&self) -> (b: bool)
        ensures
            b == self.spec_tx_unequal_modulation_supported(),
    {
        read_bit(self.bytes.as_slice(), 100)
    }

    /// Whether MCS index `mcs` is set in the Rx MCS bitmask (indices above 76 never are).
    pub open spec fn spec_is_mcs_supported(&self, mcs: int) -> bool {
        0 <= mcs <= 76 && bit_set(self.raw(), mcs)
    }

    /// The highest `k' < k` such that MCS `base + k'` is supported, if any.
    pub open spec fn spec_highest_mcs_below(&self, base: int, k: int) -> Option<u8>
        decreases k,
    {
        if k <= 0 {
            None
        } else if self.spec_is_mcs_supported(base + k - 1) {
            Some((k - 1) as u8)
        } else {
            self.spec_highest_mcs_below(base, k - 1)
        }
    }

    /// Whether any of the eight MCS indices of spatial stream `stream` (1-4) is supported.
    pub open spec fn spec_stream_has_mcs(&self, stream: int) -> bool {
        self.spec_highest_mcs_below((stream - 1) * 8, 8) is Some
    }

    /// The number of spatial streams: the highest stream (1-4) with a supported MCS, at least 1.
    pub open spec fn spec_max_spatial_streams(&self) -> u8 {
        if self.spec_stream_has_mcs(4) {
            4
        } else if self.spec_stream_has_mcs(3) {
            3
        } else if self.spec_stream_has_mcs(2) {
            2
        } else {
            1
        }
    }

    /// The highest MCS index within its stream (0-7) supported for `stream`, if any.
    pub open spec fn spec_max_mcs_for_stream(&self, stream: u8) -> Option<u8> {
        if stream == 0 || stream > 4 {
            None
        } else {
            self.spec_highest_mcs_below((stream - 1) * 8, 8)
        }
    }

    /// Checks whether a specific MCS index is supported.
    pub fn is_mcs_supported(&self, mcs: u8) -> (b: bool)
        ensures
            b == self.spec_is_mcs_supported(mcs as int),
    {
        if mcs > 76 {
            return false;
        }
        read_bit(self.bytes.as_slice(), mcs as usize)
    }

    /// The highest index `k < 8` with MCS `base + k` supported.
    fn highest_mcs_in_block(&self, base: u8) -> (r: Option<u8>)
        requires
            base <= 24,
        ensures
            r == self.spec_highest_mcs_below(base as int, 8),
    {
        let mut k: u8 = 8;
        while k > 0
            invariant
                k <= 8,
                base <= 24,
                self.spec_highest_mcs_below(base as int, 8) == self.spec_highest_mcs_below(
                    base as int,
                    k as int,
                ),
            decreases k,
        {
            if self.is_mcs_supported(base + k - 1) {
                return Some(k - 1);
            }
            k = k - 1;
        }
        None
    }

    /// The maximum number of spatial streams supported. MCS 0-7 belong to 1 stream, 8-15 to
    /// 2 streams, 16-23 to 3 streams and 24-31 to 4 streams; at least 1 is reported.
    pub fn max_spatial_streams(&self) -> (n: u8)
        ensures
            n == self.spec_max_spatial_streams(),
            1 <= n <= 4,
    {
        let mut stream: u8 = 4;
        while stream > 1
            invariant
                1 <= stream <= 4,
                forall|s: int| stream < s <= 4 ==> !#[trigger] self.spec_stream_has_mcs(s),
            decreases stream,
        {
            if self.highest_mcs_in_block((stream - 1) * 8).is_some() {
                return stream;
            }
            stream = stream - 1;
        }
        1
    }

    /// The maximum MCS index (0-7) supported for the given spatial stream (1-4).
    pub fn max_mcs_for_stream(&self, stream: u8) -> (r: Option<u8>)
        ensures
            r == self.spec_max_mcs_for_stream(stream),
    {
        if stream == 0 || stream > 4 {
            return None;
        }
        self.highest_mcs_in_block((stream - 1) * 8)
    }

    /// The Rx MCS bitmask in little-endian order: its 77 bits and zero padding to 16 bytes.
    pub open spec fn spec_rx_mcs_bitmask_le_bytes(&self) -> Seq<u8> {
        self.raw().subrange(0, 9).push(self.raw()[9] & 0x1fu8) + Seq::new(6, |i: int| 0u8)
    }

    /// The Rx MCS bitmask in little-endian order (16 bytes).
    pub fn rx_mcs_bitmask_le_bytes(&self) -> (v: Vec<u8>)
        ensures
            v@ == self.spec_rx_mcs_bitmask_le_bytes(),
    {
        let mut v: Vec<u8> = Vec::new();
        let mut i: usize = 0;
        while i < 9
            invariant
                i <= 9,
                v@ == self.raw().subrange(0, i as int),
                self.raw().len() == 16,
            decreases 9 - i,
        {
            v.push(self.bytes[i]);
            proof {
                assert(v@ =~= self.raw().subrange(0, (i + 1) as int));
            }
            i = i + 1;
        }
        v.push(self.bytes[9] & 0x1fu8);
        let ghost head = v@;
        let mut j: usize = 0;
        while j < 6
            invariant
                j <= 6,
                v@ == head + Seq::new(j as nat, |i: int| 0u8),
            decreases 6 - j,
        {
            v.push(0u8);
            proof {
                assert(v@ =~= head + Seq::new((j + 1) as nat, |i: int| 0u8));
            }
            j = j + 1;
        }
        v
    }

    /// The field describing one spatial stream's eight MCS indices.
    fn spatial_stream_field(stream: u8, byte: u8) -> (f: Field)
        requires
            1 <= stream <= 4,
        ensures
            stream_field_is(f, stream, byte),
    {
        let title = if stream == 1 {
            owned("1 Spatial Stream")
        } else {
            let mut t = u64_text(stream as u64);
            t.append(" Spatial Streams");
            t
        };
        let base = (stream - 1) * 8;
        let mut subfields: Vec<Field> = Vec::new();
        let mut i: u8 = 0;
        while i < 8
            invariant
                i <= 8,
                base == (stream - 1) * 8,
                1 <= stream <= 4,
                subfields@.len() == i,
                forall|j: int| 0 <= j < i ==> mcs_index_field_is(#[trigger] subfields@[j], base as int, j, byte),
            decreases 8 - i,
        {
            let supported = crate::bits::read_bit(&[byte], i as usize);
            let mut title = owned("MCS Index ");
            let number = u64_text((base + i) as u64);
            title.append(number.as_str());
            let value = if supported {
                owned("Supported")
            } else {
                owned("Not Supported")
            };
            let sub = Field::text("", value).with_bits(BitRange::from_byte(byte, i as usize, 1)).with_units(
                mcs_modulation(i),
            );
            let sub = Field { title, ..sub };
            subfields.push(sub);
            i = i + 1;
        }
        Field { title, ..Field::new("", "") }.with_byte(byte).with_subfields(subfields)
    }

    /// The value as a displayable field titled `title`.
    pub fn to_field(&self, title: &str) -> (f: Field)
        ensures
            f.title@ == title@,
            f.value@ == ""@,
            f.bytes matches Some(b) && b@ == self.raw(),
            f.subfields@.len() == 8,
            f.subfields@[0].title@ == "Rx MCS Set"@,
            f.subfields@[0].bytes matches Some(b) && b@ == self.spec_rx_mcs_bitmask_le_bytes(),
            f.subfields@[0].subfields@.len() == 6,
            forall|s: int|
                #![trigger f.subfields@[0].subfields@[s]]
                0 <= s < 4 ==> stream_field_is(
                    f.subfields@[0].subfields@[s],
                    (s + 1) as u8,
                    self.raw()[s],
                ),
            bit_field_is(
                f.subfields@[0].subfields@[4],
                "Rx MCS Index 32"@,
                supported_text(self.spec_is_mcs_supported(32)),
                None,
                self.spec_rx_mcs_bitmask_le_bytes().subrange(4, 10),
                0,
                1,
            ),
            bit_field_is(
                f.subfields@[0].subfields@[5],
                "Rx MCS Indices 33-76"@,
                ""@,
                None,
                self.spec_rx_mcs_bitmask_le_bytes().subrange(4, 10),
                1,
                43,
            ),
            bit_field_is(
                f.subfields@[1],
                "Rx Highest Supported Data Rate"@,
                decimal(self.spec_rx_highest_supported_data_rate() as nat),
                Some("Mb/s"@),
                self.raw().subrange(10, 12),
                0,
                10,
            ),
            reserved_field_is(f.subfields@[2], self.raw().subrange(11, 16), 2, 6),
            bit_field_is(
                f.subfields@[3],
                "Tx MCS Set Defined"@,
                bool_text(self.spec_tx_mcs_set_defined()),
                None,
                self.raw().subrange(11, 16),
                8,
                1,
            ),
            bit_field_is(
                f.subfields@[4],
                "Tx Rx MCS Set Not Equal"@,
                bool_text(self.spec_tx_rx_mcs_set_not_equal()),
                None,
                self.raw().subrange(11, 16),
                9,
                1,
            ),
            bit_field_is(
                f.subfields@[5],
                "Tx Maximum Number Spatial Streams Supported"@,
                decimal((self.spec_tx_maximum_number_spatial_streams_supported() + 1) as nat),
                Some(paren_decimal(self.spec_tx_maximum_number_spatial_streams_supported() as nat)),
                self.raw().subrange(11, 16),
                10,
                2,
            ),
            bit_field_is(
                f.subfields@[6],
                "Tx Unequal Modulation Supported"@,
                bool_text(self.spec_tx_unequal_modulation_supported()),
                None,
                self.raw().subrange(11, 16),
                12,
                1,
            ),
            reserved_field_is(f.subfields@[7], self.raw().subrange(11, 16), 13, 27),
    {
        let mask = self.rx_mcs_bitmask_le_bytes();
        let mask_tail = vstd::slice::slice_subrange(mask.as_slice(), 4, 10);
        let mut rx_subfields: Vec<Field> = Vec::new();
        rx_subfields.push(Self::spatial_stream_field(1, self.bytes[0]));
        rx_subfields.push(Self::spatial_stream_field(2, self.bytes[1]));
        rx_subfields.push(Self::spatial_stream_field(3, self.bytes[2]));
        rx_subfields.push(Self::spatial_stream_field(4, self.bytes[3]));
        let mcs32 = if self.is_mcs_supported(32) {
            owned("Supported")
        } else {
            owned("Not Supported")
        };
        rx_subfields.push(bit_field("Rx MCS Index 32", mcs32, mask_tail, 0, 1));
        rx_subfields.push(bit_field("Rx MCS Indices 33-76", owned(""), mask_tail, 1, 43));
        let rx_mcs_set = Field::new("Rx MCS Set", "").with_subfields(rx_subfields).with_bytes(mask);
        let bytes = self.bytes.as_slice();
        let rate_bytes = vstd::slice::slice_subrange(bytes, 10, 12);
        let tail = vstd::slice::slice_subrange(bytes, 11, 16);
        let mut subfields: Vec<Field> = Vec::new();
        subfields.push(rx_mcs_set);
        subfields.push(
            bit_field_with_units(
                "Rx Highest Supported Data Rate",
                u64_text(self.rx_highest_supported_data_rate() as u64),
                owned("Mb/s"),
                rate_bytes,
                0,
                10,
            ),
        );
        subfields.push(reserved_bits(tail, 2, 6));
        subfields.push(
            bit_field("Tx MCS Set Defined", bool_string(self.tx_mcs_set_defined()), tail, 8, 1),
        );
        subfields.push(
            bit_field(
                "Tx Rx MCS Set Not Equal",
                bool_string(self.tx_rx_mcs_set_not_equal()),
                tail,
                9,
                1,
            ),
        );
        let nss = self.tx_maximum_number_spatial_streams_supported();
        subfields.push(
            bit_field_with_units(
                "Tx Maximum Number Spatial Streams Supported",
                u64_text(nss as u64 + 1),
                paren_text(nss as u64),
                tail,
                10,
                2,
            ),
        );
        subfields.push(
            bit_field(
                "Tx Unequal Modulation Supported",
                bool_string(self.tx_unequal_modulation_supported()),
                tail,
                12,
                1,
            ),
        );
        subfields.push(reserved_bits(tail, 13, 27));
        Field::new(title, "").with_subfields(subfields).with_bytes(self.to_bytes())
    }

}

/// "Supported" or "Not Supported".
pub open spec fn supported_text(b: bool) -> Seq<char> {
    if b {
        "Supported"@
    } else {
        "Not Supported"@
    }
}

/// The modulation and coding of an MCS index within its spatial stream, in parentheses.
pub open spec fn spec_mcs_modulation(i: int) -> Seq<char> {
    if i == 0 {
        "(BPSK 1/2)"@
    } else if i == 1 {
        "(QPSK 1/2)"@
    } else if i == 2 {
        "(QPSK 3/4)"@
    } else if i == 3 {
        "(16-QAM 1/2)"@
    } else if i == 4 {
        "(16-QAM 3/4)"@
    } else if i == 5 {
        "(64-QAM 2/3)"@
    } else if i == 6 {
        "(64-QAM 3/4)"@
    } else if i == 7 {
        "(64-QAM 5/6)"@
    } else {
        ""@
    }
}

/// The modulation and coding of an MCS index within its spatial stream.
pub fn mcs_modulation(i: u8) -> (s: &'static str)
    ensures
        s@ == spec_mcs_modulation(i as int),
{
    match i {
        0 => "(BPSK 1/2)",
        1 => "(QPSK 1/2)",
        2 => "(QPSK 3/4)",
        3 => "(16-QAM 1/2)",
        4 => "(16-QAM 3/4)",
        5 => "(64-QAM 2/3)",
        6 => "(64-QAM 3/4)",
        7 => "(64-QAM 5/6)",
        _ => "",
    }
}

/// `f` describes MCS index `base + j` of a stream whose bitmask byte is `byte`.
pub open spec fn mcs_index_field_is(f: Field, base: int, j: int, byte: u8) -> bool {
    bit_field_is(
        f,
        "MCS Index "@ + decimal((base + j) as nat),
        supported_text(bit_set(seq![byte], j)),
        Some(spec_mcs_modulation(j)),
        seq![byte],
        j,
        1,
    )
}

/// `f` describes the eight MCS indices of spatial stream `stream` (1-4) stored in `byte`.
pub open spec fn stream_field_is(f: Field, stream: u8, byte: u8) -> bool {
    &&& f.title@ == (if stream == 1 {
        "1 Spatial Stream"@
    } else {
        decimal(stream as nat) + " Spatial Streams"@
    })
    &&& f.value@ == ""@
    &&& f.byte == Some(byte)
    &&& f.subfields@.len() == 8
    &&& forall|j: int| 0 <= j < 8 ==> mcs_index_field_is(#[trigger] f.subfields@[j], (stream - 1) * 8, j, byte)
}

/// The HT Extended Capabilities field of an HT Capabilities element.
#[derive(Debug, Clone, Copy, PartialEq, Eq, Hash)]
pub struct HtExtendedCapabilities {
    bytes: [u8; 2],
}

impl HtExtendedCapabilities {
    /// The encoded length in bytes.
    pub const LENGTH: usize = 2;

    /// Whether `bytes` (exactly 2 of them) encode a valid value.
    pub open spec fn spec_valid(bytes: Seq<u8>) -> bool {
        &&& bytes.len() == 2
        &&& McsFeedback::spec_from_u8(bits_value(bytes, 8, 2) as u8) is Some
    }

    /// The encoded bytes.
    pub closed spec fn raw(&self) -> Seq<u8> {
        self.bytes@
    }

    /// Every value is encoded in exactly 2 bytes.
    pub proof fn lemma_raw_len(&self)
        ensures
            self.raw().len() == 2,
    {
    }

    /// Decodes the value from the first 2 bytes of `bytes`. `None` when there are fewer
    /// bytes or they do not encode a valid value.
    pub fn from_bytes(bytes: &[u8]) -> (r: Option<HtExtendedCapabilities>)
        ensures
            r is Some <==> bytes@.len() >= 2 && Self::spec_valid(bytes@.subrange(0, 2)),
            r matches Some(v) ==> v.raw() == bytes@.subrange(0, 2),
    {
        if bytes.len() < 2 {
            return None;
        }
        let a: [u8; 2] = [bytes[0], bytes[1]];
        proof {
            assert(a@ =~= bytes@.subrange(0, 2));
        }
        if McsFeedback::from_u8(read_u8_bits(a.as_slice(), 8, 2)).is_none() {
            return None;
        }
        Some(HtExtendedCapabilities { bytes: a })
    }

    /// The encoded bytes.
    pub fn to_bytes(&self) -> (v: Vec<u8>)
        ensures
            v@ == self.raw(),
    {
        vstd::slice::slice_to_vec(self.bytes.as_slice())
    }

    /// The "MCS Feedback" subfield (bits 8-9).
    pub open spec fn spec_mcs_feedback(&self) -> McsFeedback {
        match McsFeedback::spec_from_u8(bits_value(self.raw(), 8, 2) as u8) {
            Some(v) => v,
            None => McsFeedback::NoMfb,
        }
    }

    /// The "MCS Feedback" subfield (bits 8-9).
    pub fn mcs_feedback(&self) -> (v: McsFeedback)
        ensures
            v == self.spec_mcs_feedback(),
    {
        match McsFeedback::from_u8(read_u8_bits(self.bytes.as_slice(), 8, 2)) {
            Some(v) => v,
            None => McsFeedback::NoMfb,
        }
    }

    /// The "+HTC-HT Support" subfield (bit 10).
    pub open spec fn spec_htc_ht_support(&self) -> bool {
        bit_set(self.raw(), 10)
    }

    /// The "+HTC-HT Support" subfield (bit 10).
    pub fn htc_ht_support(&self) -> (b: bool)
        ensures
            b == self.spec_htc_ht_support(),
    {
        read_bit(self.bytes.as_slice(), 10)
    }

    /// The "RD Responder" subfield (bit 11).
    pub open spec fn spec_rd_responder(&self) -> bool {
        bit_set(self.raw(), 11)
    }

    /// The "RD Responder" subfield (bit 11).
    pub fn rd_responder(&self) -> (b: bool)
        ensures
            b == self.spec_rd_responder(),
    {
        read_bit(self.bytes.as_slice(), 11)
    }

    /// Whether `f` is the displayable field of this value: one subfield per bit field.
    pub open spec fn field_shows(&self, f: Field) -> bool {
        &&& f.title@ == "HT Extended Capabilities"@
        &&& f.value@ == ""@
        &&& f.bytes matches Some(b) && b@ == self.raw()
        &&& f.byte is None
        &&& f.bits is None
        &&& f.units is None
        &&& f.subfields@.len() == 5
        &&& reserved_field_is(f.subfields@[0], self.raw(), 0, 8)
        &&& bit_field_is(f.subfields@[1], "MCS Feedback"@, self.spec_mcs_feedback().spec_text(), None, self.raw(), 8, 2)
        &&& bit_field_is(f.subfields@[2], "+HTC-HT Support"@, bool_text(self.spec_htc_ht_support()), None, self.raw(), 10, 1)
        &&& bit_field_is(f.subfields@[3], "RD Responder"@, bool_text(self.spec_rd_responder()), None, self.raw(), 11, 1)
        &&& reserved_field_is(f.subfields@[4], self.raw(), 12, 4)
    }

    /// The value as a displayable field with one subfield per bit field.
    pub fn to_field(&self) -> (f: Field)
        ensures
            self.field_shows(f),
    {
        let bytes = self.bytes.as_slice();
        let mut subfields: Vec<Field> = Vec::new();
        subfields.push(reserved_bits(bytes, 0, 8));
        subfields.push(bit_field("MCS Feedback", self.mcs_feedback().to_string(), bytes, 8, 2));
        subfields.push(bit_field("+HTC-HT Support", bool_string(self.htc_ht_support()), bytes, 10, 1));
        subfields.push(bit_field("RD Responder", bool_string(self.rd_responder()), bytes, 11, 1));
        subfields.push(reserved_bits(bytes, 12, 4));
        Field::new("HT Extended Capabilities", "").with_bytes(self.to_bytes()).with_subfields(subfields)
    }

}

/// The Transmit Beamforming Capabilities field of an HT Capabilities element.
#[derive(Debug, Clone, Copy, PartialEq, Eq, Hash)]
pub struct TransmitBeamformingCapabilities {
    bytes: [u8; 4],
}

impl TransmitBeamformingCapabilities {
    /// The encoded length in bytes.
    pub const LENGTH: usize = 4;

    /// Whether `bytes` (exactly 4 of them) encode a valid value.
    pub open spec fn spec_valid(bytes: Seq<u8>) -> bool {
        &&& bytes.len() == 4
        &&& Calibration::spec_from_u8(bits_value(bytes, 6, 2) as u8) is Some
        &&& BeamformingFeedback::spec_from_u8(bits_value(bytes, 11, 2) as u8) is Some
        &&& BeamformingFeedback::spec_from_u8(bits_value(bytes, 13, 2) as u8) is Some
        &&& BeamformingFeedback::spec_from_u8(bits_value(bytes, 15, 2) as u8) is Some
        &&& MinimalGrouping::spec_from_u8(bits_value(bytes, 17, 2) as u8) is Some
    }

    /// The encoded bytes.
    pub closed spec fn raw(&self) -> Seq<u8> {
        self.bytes@
    }

    /// Every value is encoded in exactly 4 bytes.
    pub proof fn lemma_raw_len(&self)
        ensures
            self.raw().len() == 4,
    {
    }

    /// Decodes the value from the first 4 bytes of `bytes`. `None` when there are fewer
    /// bytes or they do not encode a valid value.
    pub fn from_bytes(bytes: &[u8]) -> (r: Option<TransmitBeamformingCapabilities>)
        ensures
            r is Some <==> bytes@.len() >= 4 && Self::spec_valid(bytes@.subrange(0, 4)),
            r matches Some(v) ==> v.raw() == bytes@.subrange(0, 4),
    {
        if bytes.len() < 4 {
            return None;
        }
        let a: [u8; 4] = [bytes[0], bytes[1], bytes[2], bytes[3]];
        proof {
            assert(a@ =~= bytes@.subrange(0, 4));
        }
        if Calibration::from_u8(read_u8_bits(a.as_slice(), 6, 2)).is_none() {
            return None;
        }
        if BeamformingFeedback::from_u8(read_u8_bits(a.as_slice(), 11, 2)).is_none() {
            return None;
        }
        if BeamformingFeedback::from_u8(read_u8_bits(a.as_slice(), 13, 2)).is_none() {
            return None;
        }
        if BeamformingFeedback::from_u8(read_u8_bits(a.as_slice(), 15, 2)).is_none() {
            return None;
        }
        if MinimalGrouping::from_u8(read_u8_bits(a.as_slice(), 17, 2)).is_none() {
            return None;
        }
        Some(TransmitBeamformingCapabilities { bytes: a })
    }

    /// The encoded bytes.
    pub fn to_bytes(&self) -> (v: Vec<u8>)
        ensures
            v@ == self.raw(),
    {
        vstd::slice::slice_to_vec(self.bytes.as_slice())
    }

    /// The "Implicit Transmit Beamforming Receiving Capable" subfield (bit 0).
    pub open spec fn spec_implicit_transmit_beamforming_receiving_capable(&self) -> bool {
        bit_set(self.raw(), 0)
    }

    /// The "Implicit Transmit Beamforming Receiving Capable" subfield (bit 0).
    pub fn implicit_transmit_beamforming_receiving_capable(&self) -> (b: bool)
        ensures
            b == self.spec_implicit_transmit_beamforming_receiving_capable(),
    {
        read_bit(self.bytes.as_slice(), 0)
    }

    /// The "Receive Staggered Sounding Capable" subfield (bit 1).
    pub open spec fn spec_receive_staggered_sounding_capable(&self) -> bool {
        bit_set(self.raw(), 1)
    }

    /// The "Receive Staggered Sounding Capable" subfield (bit 1).
    pub fn receive_staggered_sounding_capable(&self) -> (b: bool)
        ensures
            b == self.spec_receive_staggered_sounding_capable(),
    {
        read_bit(self.bytes.as_slice(), 1)
    }

    /// The "Transmit Staggered Sounding Capable" subfield (bit 2).
    pub open spec fn spec_transmit_staggered_sounding_capable(&self) -> bool {
        bit_set(self.raw(), 2)
    }

    /// The "Transmit Staggered Sounding Capable" subfield (bit 2).
    pub fn transmit_staggered_sounding_capable(&self) -> (b: bool)
        ensures
            b == self.spec_transmit_staggered_sounding_capable(),
    {
        read_bit(self.bytes.as_slice(), 2)
    }

    /// The "Receive NDP Capable" subfield (bit 3).
    pub open spec fn spec_receive_ndp_capable(&self) -> bool {
        bit_set(self.raw(), 3)
    }

    /// The "Receive NDP Capable" subfield (bit 3).
    pub fn receive_ndp_capable(&self) -> (b: bool)
        ensures
            b == self.spec_receive_ndp_capable(),
    {
        read_bit(self.bytes.as_slice(), 3)
    }

    /// The "Transmit NDP Capable" subfield (bit 4).
    pub open spec fn spec_transmit_ndp_capable(&self) -> bool {
        bit_set(self.raw(), 4)
    }

    /// The "Transmit NDP Capable" subfield (bit 4).
    pub fn transmit_ndp_capable(&self) -> (b: bool)
        ensures
            b == self.spec_transmit_ndp_capable(),
    {
        read_bit(self.bytes.as_slice(), 4)
    }

    /// The "Implicit Transmit Beamforming Capable" subfield (bit 5).
    pub open spec fn spec_implicit_transmit_beamforming_capable(&self) -> bool {
        bit_set(self.raw(), 5)
    }

    /// The "Implicit Transmit Beamforming Capable" subfield (bit 5).
    pub fn implicit_transmit_beamforming_capable(&self) -> (b: bool)
        ensures
            b == self.spec_implicit_transmit_beamforming_capable(),
    {
        read_bit(self.bytes.as_slice(), 5)
    }

    /// The "Calibration" subfield (bits 6-7).
    pub open spec fn spec_calibration(&self) -> Calibration {
        match Calibration::spec_from_u8(bits_value(self.raw(), 6, 2) as u8) {
            Some(v) => v,
            None => Calibration::NotSupported,
        }
    }

    /// The "Calibration" subfield (bits 6-7).
    pub fn calibration(&self) -> (v: Calibration)
        ensures
            v == self.spec_calibration(),
    {
        match Calibration::from_u8(read_u8_bits(self.bytes.as_slice(), 6, 2)) {
            Some(v) => v,
            None => Calibration::NotSupported,
        }
    }

    /// The "Explicit CSI Transmit Beamforming Capable" subfield (bit 8).
    pub open spec fn spec_explicit_csi_transmit_beamforming_capable(&self) -> bool {
        bit_set(self.raw(), 8)
    }

    /// The "Explicit CSI Transmit Beamforming Capable" subfield (bit 8).
    pub fn explicit_csi_transmit_beamforming_capable(&self) -> (b: bool)
        ensures
            b == self.spec_explicit_csi_transmit_beamforming_capable(),
    {
        read_bit(self.bytes.as_slice(), 8)
    }

    /// The "Explicit Noncompressed Steering Capable" subfield (bit 9).
    pub open spec fn spec_explicit_noncompressed_steering_capable(&self) -> bool {
        bit_set(self.raw(), 9)
    }

    /// The "Explicit Noncompressed Steering Capable" subfield (bit 9).
    pub fn explicit_noncompressed_steering_capable(&self) -> (b: bool)
        ensures
            b == self.spec_explicit_noncompressed_steering_capable(),
    {
        read_bit(self.bytes.as_slice(), 9)
    }

    /// The "Explicit Compressed Steering Capable" subfield (bit 10).
    pub open spec fn spec_explicit_compressed_steering_capable(&self) -> bool {
        bit_set(self.raw(), 10)
    }

    /// The "Explicit Compressed Steering Capable" subfield (bit 10).
    pub fn explicit_compressed_steering_capable(&self) -> (b: bool)
        ensures
            b == self.spec_explicit_compressed_steering_capable(),
    {
        read_bit(self.bytes.as_slice(), 10)
    }

    /// The "Explicit Transmit Beamforming CSI Feedback" subfield (bits 11-12).
    pub open spec fn spec_explicit_transmit_beamforming_csi_feedback(&self) -> BeamformingFeedback {
        match BeamformingFeedback::spec_from_u8(bits_value(self.raw(), 11, 2) as u8) {
            Some(v) => v,
            None => BeamformingFeedback::NotSupported,
        }
    }

    /// The "Explicit Transmit Beamforming CSI Feedback" subfield (bits 11-12).
    pub fn explicit_transmit_beamforming_csi_feedback(&self) -> (v: BeamformingFeedback)
        ensures
            v == self.spec_explicit_transmit_beamforming_csi_feedback(),
    {
        match BeamformingFeedback::from_u8(read_u8_bits(self.bytes.as_slice(), 11, 2)) {
            Some(v) => v,
            None => BeamformingFeedback::NotSupported,
        }
    }

    /// The "Explicit Noncompressed Beamforming Feedback Capable" subfield (bits 13-14).
    pub open spec fn spec_explicit_noncompressed_beamforming_feedback_capable(&self) -> BeamformingFeedback {
        match BeamformingFeedback::spec_from_u8(bits_value(self.raw(), 13, 2) as u8) {
            Some(v) => v,
            None => BeamformingFeedback::NotSupported,
        }
    }

    /// The "Explicit Noncompressed Beamforming Feedback Capable" subfield (bits 13-14).
    pub fn explicit_noncompressed_beamforming_feedback_capable(&self) -> (v: BeamformingFeedback)
        ensures
            v == self.spec_explicit_noncompressed_beamforming_feedback_capable(),
    {
        match BeamformingFeedback::from_u8(read_u8_bits(self.bytes.as_slice(), 13, 2)) {
            Some(v) => v,
            None => BeamformingFeedback::NotSupported,
        }
    }

    /// The "Explicit Compressed Beamforming Feedback Capable" subfield (bits 15-16).
    pub open spec fn spec_explicit_compressed_beamforming_feedback_capable(&self) -> BeamformingFeedback {
        match BeamformingFeedback::spec_from_u8(bits_value(self.raw(), 15, 2) as u8) {
            Some(v) => v,
            None => BeamformingFeedback::NotSupported,
        }
    }

    /// The "Explicit Compressed Beamforming Feedback Capable" subfield (bits 15-16).
    pub fn explicit_compressed_beamforming_feedback_capable(&self) -> (v: BeamformingFeedback)
        ensures
            v == self.spec_explicit_compressed_beamforming_feedback_capable(),
    {
        match BeamformingFeedback::from_u8(read_u8_bits(self.bytes.as_slice(), 15, 2)) {
            Some(v) => v,
            None => BeamformingFeedback::NotSupported,
        }
    }

    /// The "Minimal Grouping" subfield (bits 17-18).
    pub open spec fn spec_minimal_grouping(&self) -> MinimalGrouping {
        match MinimalGrouping::spec_from_u8(bits_value(self.raw(), 17, 2) as u8) {
            Some(v) => v,
            None => MinimalGrouping::One,
        }
    }

    /// The "Minimal Grouping" subfield (bits 17-18).
    pub fn minimal_grouping(&self) -> (v: MinimalGrouping)
        ensures
            v == self.spec_minimal_grouping(),
    {
        match MinimalGrouping::from_u8(read_u8_bits(self.bytes.as_slice(), 17, 2)) {
            Some(v) => v,
            None => MinimalGrouping::One,
        }
    }

    /// The "CSI Number of Beamformer Antennas Supported" subfield (bits 19-20).
    pub open spec fn spec_csi_number_of_beamformer_antennas_supported(&self) -> u8 {
        bits_value(self.raw(), 19, 2) as u8
    }

    /// The "CSI Number of Beamformer Antennas Supported" subfield (bits 19-20).
    pub fn csi_number_of_beamformer_antennas_supported(&self) -> (v: u8)
        ensures
            v == self.spec_csi_number_of_beamformer_antennas_supported(),
            v == bits_value(self.raw(), 19, 2),
    {
        read_u8_bits(self.bytes.as_slice(), 19, 2)
    }

    /// The "Noncompressed Steering Number of Beamformer Antennas Supported" subfield (bits 21-22).
    pub open spec fn spec_noncompressed_steering_number_of_beamformer_antennas_supported(&self) -> u8 {
        bits_value(self.raw(), 21, 2) as u8
    }

    /// The "Noncompressed Steering Number of Beamformer Antennas Supported" subfield (bits 21-22).
    pub fn noncompressed_steering_number_of_beamformer_antennas_supported(&self) -> (v: u8)
        ensures
            v == self.spec_noncompressed_steering_number_of_beamformer_antennas_supported(),
            v == bits_value(self.raw(), 21, 2),
    {
        read_u8_bits(self.bytes.as_slice(), 21, 2)
    }

    /// The "Compressed Steering Number of Beamformer Antennas Supported" subfield (bits 23-24).
    pub open spec fn spec_compressed_steering_number_of_beamformer_antennas_supported(&self) -> u8 {
        bits_value(self.raw(), 23, 2) as u8
    }

    /// The "Compressed Steering Number of Beamformer Antennas Supported" subfield (bits 23-24).
    pub fn compressed_steering_number_of_beamformer_antennas_supported(&self) -> (v: u8)
        ensures
            v == self.spec_compressed_steering_number_of_beamformer_antennas_supported(),
            v == bits_value(self.raw(), 23, 2),
    {
        read_u8_bits(self.bytes.as_slice(), 23, 2)
    }

    /// The "CSI Max Number of Rows Beamformer Supported" subfield (bits 25-26).
    pub open spec fn spec_csi_max_number_of_rows_beamformer_supported(&self) -> u8 {
        bits_value(self.raw(), 25, 2) as u8
    }

    /// The "CSI Max Number of Rows Beamformer Supported" subfield (bits 25-26).
    pub fn csi_max_number_of_rows_beamformer_supported(&self) -> (v: u8)
        ensures
            v == self.spec_csi_max_number_of_rows_beamformer_supported(),
            v == bits_value(self.raw(), 25, 2),
    {
        read_u8_bits(self.bytes.as_slice(), 25, 2)
    }

    /// The "Channel Estimation Capability" subfield (bits 27-28).
    pub open spec fn spec_channel_estimation_capability(&self) -> u8 {
        bits_value(self.raw(), 27, 2) as u8
    }

    /// The "Channel Estimation Capability" subfield (bits 27-28).
    pub fn channel_estimation_capability(&self) -> (v: u8)
        ensures
            v == self.spec_channel_estimation_capability(),
            v == bits_value(self.raw(), 27, 2),
    {
        read_u8_bits(self.bytes.as_slice(), 27, 2)
    }

    /// Whether `f` is the displayable field of this value: one subfield per bit field.
    pub open spec fn field_shows(&self, f: Field) -> bool {
        &&& f.title@ == "Transmit Beamforming Capabilities"@
        &&& f.value@ == ""@
        &&& f.bytes matches Some(b) && b@ == self.raw()
        &&& f.byte is None
        &&& f.bits is None
        &&& f.units is None
        &&& f.subfields@.len() == 20
        &&& bit_field_is(f.subfields@[0], "Implicit Transmit Beamforming Receiving Capable"@, bool_text(self.spec_implicit_transmit_beamforming_receiving_capable()), None, self.raw(), 0, 1)
        &&& bit_field_is(f.subfields@[1], "Receive Staggered Sounding Capable"@, bool_text(self.spec_receive_staggered_sounding_capable()), None, self.raw(), 1, 1)
        &&& bit_field_is(f.subfields@[2], "Transmit Staggered Sounding Capable"@, bool_text(self.spec_transmit_staggered_sounding_capable()), None, self.raw(), 2, 1)
        &&& bit_field_is(f.subfields@[3], "Receive NDP Capable"@, bool_text(self.spec_receive_ndp_capable()), None, self.raw(), 3, 1)
        &&& bit_field_is(f.subfields@[4], "Transmit NDP Capable"@, bool_text(self.spec_transmit_ndp_capable()), None, self.raw(), 4, 1)
        &&& bit_field_is(f.subfields@[5], "Implicit Transmit Beamforming Capable"@, bool_text(self.spec_implicit_transmit_beamforming_capable()), None, self.raw(), 5, 1)
        &&& bit_field_is(f.subfields@[6], "Calibration"@, self.spec_calibration().spec_text(), None, self.raw(), 6, 2)
        &&& bit_field_is(f.subfields@[7], "Explicit CSI Transmit Beamforming Capable"@, bool_text(self.spec_explicit_csi_transmit_beamforming_capable()), None, self.raw(), 8, 1)
        &&& bit_field_is(f.subfields@[8], "Explicit Noncompressed Steering Capable"@, bool_text(self.spec_explicit_noncompressed_steering_capable()), None, self.raw(), 9, 1)
        &&& bit_field_is(f.subfields@[9], "Explicit Compressed Steering Capable"@, bool_text(self.spec_explicit_compressed_steering_capable()), None, self.raw(), 10, 1)
        &&& bit_field_is(f.subfields@[10], "Explicit Transmit Beamforming CSI Feedback"@, self.spec_explicit_transmit_beamforming_csi_feedback().spec_text(), None, self.raw(), 11, 2)
        &&& bit_field_is(f.subfields@[11], "Explicit Noncompressed Beamforming Feedback Capable"@, self.spec_explicit_noncompressed_beamforming_feedback_capable().spec_text(), None, self.raw(), 13, 2)
        &&& bit_field_is(f.subfields@[12], "Explicit Compressed Beamforming Feedback Capable"@, self.spec_explicit_compressed_beamforming_feedback_capable().spec_text(), None, self.raw(), 15, 2)
        &&& bit_field_is(f.subfields@[13], "Minimal Grouping"@, self.spec_minimal_grouping().spec_text(), None, self.raw(), 17, 2)
        &&& bit_field_is(f.subfields@[14], "CSI Number of Beamformer Antennas Supported"@, decimal((self.spec_csi_number_of_beamformer_antennas_supported() + 1) as nat), Some("Tx antenna sounding"@), self.raw(), 19, 2)
        &&& bit_field_is(f.subfields@[15], "Noncompressed Steering Number of Beamformer Antennas Supported"@, decimal((self.spec_noncompressed_steering_number_of_beamformer_antennas_supported() + 1) as nat), Some("Tx antenna sounding"@), self.raw(), 21, 2)
        &&& bit_field_is(f.subfields@[16], "Compressed Steering Number of Beamformer Antennas Supported"@, decimal((self.spec_compressed_steering_number_of_beamformer_antennas_supported() + 1) as nat), Some("Tx antenna sounding"@), self.raw(), 23, 2)
        &&& bit_field_is(f.subfields@[17], "CSI Max Number of Rows Beamformer Supported"@, decimal((self.spec_csi_max_number_of_rows_beamformer_supported() + 1) as nat), Some(if self.spec_csi_max_number_of_rows_beamformer_supported() == 0 { "row of CSI"@ } else { "rows of CSI"@ }), self.raw(), 25, 2)
        &&& bit_field_is(f.subfields@[18], "Channel Estimation Capability"@, decimal((self.spec_channel_estimation_capability() + 1) as nat), Some(if self.spec_channel_estimation_capability() == 0 { "space-time stream"@ } else { "space-time streams"@ }), self.raw(), 27, 2)
        &&& reserved_field_is(f.subfields@[19], self.raw(), 29, 3)
    }

    /// The value as a displayable field with one subfield per bit field.
    pub fn to_field(&self) -> (f: Field)
        ensures
            self.field_shows(f),
    {
        let bytes = self.bytes.as_slice();
        let mut subfields: Vec<Field> = Vec::new();
        subfields.push(bit_field("Implicit Transmit Beamforming Receiving Capable", bool_string(self.implicit_transmit_beamforming_receiving_capable()), bytes, 0, 1));
        subfields.push(bit_field("Receive Staggered Sounding Capable", bool_string(self.receive_staggered_sounding_capable()), bytes, 1, 1));
        subfields.push(bit_field("Transmit Staggered Sounding Capable", bool_string(self.transmit_staggered_sounding_capable()), bytes, 2, 1));
        subfields.push(bit_field("Receive NDP Capable", bool_string(self.receive_ndp_capable()), bytes, 3, 1));
        subfields.push(bit_field("Transmit NDP Capable", bool_string(self.transmit_ndp_capable()), bytes, 4, 1));
        subfields.push(bit_field("Implicit Transmit Beamforming Capable", bool_string(self.implicit_transmit_beamforming_capable()), bytes, 5, 1));
        subfields.push(bit_field("Calibration", self.calibration().to_string(), bytes, 6, 2));
        subfields.push(bit_field("Explicit CSI Transmit Beamforming Capable", bool_string(self.explicit_csi_transmit_beamforming_capable()), bytes, 8, 1));
        subfields.push(bit_field("Explicit Noncompressed Steering Capable", bool_string(self.explicit_noncompressed_steering_capable()), bytes, 9, 1));
        subfields.push(bit_field("Explicit Compressed Steering Capable", bool_string(self.explicit_compressed_steering_capable()), bytes, 10, 1));
        subfields.push(bit_field("Explicit Transmit Beamforming CSI Feedback", self.explicit_transmit_beamforming_csi_feedback().to_string(), bytes, 11, 2));
        subfields.push(bit_field("Explicit Noncompressed Beamforming Feedback Capable", self.explicit_noncompressed_beamforming_feedback_capable().to_string(), bytes, 13, 2));
        subfields.push(bit_field("Explicit Compressed Beamforming Feedback Capable", self.explicit_compressed_beamforming_feedback_capable().to_string(), bytes, 15, 2));
        subfields.push(bit_field("Minimal Grouping", self.minimal_grouping().to_string(), bytes, 17, 2));
        subfields.push(bit_field_with_units("CSI Number of Beamformer Antennas Supported", u64_text(self.csi_number_of_beamformer_antennas_supported() as u64 + 1), owned("Tx antenna sounding"), bytes, 19, 2));
        subfields.push(bit_field_with_units("Noncompressed Steering Number of Beamformer Antennas Supported", u64_text(self.noncompressed_steering_number_of_beamformer_antennas_supported() as u64 + 1), owned("Tx antenna sounding"), bytes, 21, 2));
        subfields.push(bit_field_with_units("Compressed Steering Number of Beamformer Antennas Supported", u64_text(self.compressed_steering_number_of_beamformer_antennas_supported() as u64 + 1), owned("Tx antenna sounding"), bytes, 23, 2));
        subfields.push(bit_field_with_units("CSI Max Number of Rows Beamformer Supported", u64_text(self.csi_max_number_of_rows_beamformer_supported() as u64 + 1), owned(if self.csi_max_number_of_rows_beamformer_supported() == 0 { "row of CSI" } else { "rows of CSI" }), bytes, 25, 2));
        subfields.push(bit_field_with_units("Channel Estimation Capability", u64_text(self.channel_estimation_capability() as u64 + 1), owned(if self.channel_estimation_capability() == 0 { "space-time stream" } else { "space-time streams" }), bytes, 27, 2));
        subfields.push(reserved_bits(bytes, 29, 3));
        Field::new("Transmit Beamforming Capabilities", "").with_bytes(self.to_bytes()).with_subfields(subfields)
    }

}

/// The antenna selection (ASEL) Capabilities field of an HT Capabilities element.
#[derive(Debug, Clone, Copy, PartialEq, Eq, Hash)]
pub struct AselCapabilities {
    bytes: [u8; 1],
}

impl AselCapabilities {
    /// The encoded length in bytes.
    pub const LENGTH: usize = 1;

    /// Whether `bytes` (exactly 1 of them) encode a valid value.
    pub open spec fn spec_valid(bytes: Seq<u8>) -> bool {
        bytes.len() == 1
    }

    /// The encoded bytes.
    pub closed spec fn raw(&self) -> Seq<u8> {
        self.bytes@
    }

    /// Every value is encoded in exactly 1 bytes.
    pub proof fn lemma_raw_len(&self)
        ensures
            self.raw().len() == 1,
    {
    }

    /// Decodes the value from the first 1 bytes of `bytes`. `None` when there are fewer
    /// bytes or they do not encode a valid value.
    pub fn from_bytes(bytes: &[u8]) -> (r: Option<AselCapabilities>)
        ensures
            r is Some <==> bytes@.len() >= 1 && Self::spec_valid(bytes@.subrange(0, 1)),
            r matches Some(v) ==> v.raw() == bytes@.subrange(0, 1),
    {
        if bytes.len() < 1 {
            return None;
        }
        let a: [u8; 1] = [bytes[0]];
        proof {
            assert(a@ =~= bytes@.subrange(0, 1));
        }
        Some(AselCapabilities { bytes: a })
    }

    /// The encoded bytes.
    pub fn to_bytes(&self) -> (v: Vec<u8>)
        ensures
            v@ == self.raw(),
    {
        vstd::slice::slice_to_vec(self.bytes.as_slice())
    }

    /// The "Antenna Selection Capable" subfield (bit 0).
    pub open spec fn spec_antenna_selection_capable(&self) -> bool {
        bit_set(self.raw(), 0)
    }

    /// The "Antenna Selection Capable" subfield (bit 0).
    pub fn antenna_selection_capable(&self) -> (b: bool)
        ensures
            b == self.spec_antenna_selection_capable(),
    {
        read_bit(self.bytes.as_slice(), 0)
    }

    /// The "Explicit CSI Feedback Based Transmit ASEL Capable" subfield (bit 1).
    pub open spec fn spec_explicit_csi_feedback_based_transmit_asel_capable(&self) -> bool {
        bit_set(self.raw(), 1)
    }

    /// The "Explicit CSI Feedback Based Transmit ASEL Capable" subfield (bit 1).
    pub fn explicit_csi_feedback_based_transmit_asel_capable(&self) -> (b: bool)
        ensures
            b == self.spec_explicit_csi_feedback_based_transmit_asel_capable(),
    {
        read_bit(self.bytes.as_slice(), 1)
    }

    /// The "Antenna Indices Feedback Based Transmit ASEL Capable" subfield (bit 2).
    pub open spec fn spec_antenna_indices_feedback_based_transmit_asel_capable(&self) -> bool {
        bit_set(self.raw(), 2)
    }

    /// The "Antenna Indices Feedback Based Transmit ASEL Capable" subfield (bit 2).
    pub fn antenna_indices_feedback_based_transmit_asel_capable(&self) -> (b: bool)
        ensures
            b == self.spec_antenna_indices_feedback_based_transmit_asel_capable(),
    {
        read_bit(self.bytes.as_slice(), 2)
    }

    /// The "Explicit CSI Feedback Capable" subfield (bit 3).
    pub open spec fn spec_explicit_csi_feedback_capable(&self) -> bool {
        bit_set(self.raw(), 3)
    }

    /// The "Explicit CSI Feedback Capable" subfield (bit 3).
    pub fn explicit_csi_feedback_capable(&self) -> (b: bool)
        ensures
            b == self.spec_explicit_csi_feedback_capable(),
    {
        read_bit(self.bytes.as_slice(), 3)
    }

    /// The "Antenna Indices Feedback Capable" subfield (bit 4).
    pub open spec fn spec_antenna_indices_feedback_capable(&self) -> bool {
        bit_set(self.raw(), 4)
    }

    /// The "Antenna Indices Feedback Capable" subfield (bit 4).
    pub fn antenna_indices_feedback_capable(&self) -> (b: bool)
        ensures
            b == self.spec_antenna_indices_feedback_capable(),
    {
        read_bit(self.bytes.as_slice(), 4)
    }

    /// The "Receive ASEL Capable" subfield (bit 5).
    pub open spec fn spec_receive_asel_capable(&self) -> bool {
        bit_set(self.raw(), 5)
    }

    /// The "Receive ASEL Capable" subfield (bit 5).
    pub fn receive_asel_capable(&self) -> (b: bool)
        ensures
            b == self.spec_receive_asel_capable(),
    {
        read_bit(self.bytes.as_slice(), 5)
    }

    /// The "Transmit Sounding PPDUs Capable" subfield (bit 6).
    pub open spec fn spec_transmit_sounding_ppdus_capable(&self) -> bool {
        bit_set(self.raw(), 6)
    }

    /// The "Transmit Sounding PPDUs Capable" subfield (bit 6).
    pub fn transmit_sounding_ppdus_capable(&self) -> (b: bool)
        ensures
            b == self.spec_transmit_sounding_ppdus_capable(),
    {
        read_bit(self.bytes.as_slice(), 6)
    }

    /// Whether `f` is the displayable field of this value: one subfield per bit field.
    pub open spec fn field_shows(&self, f: Field) -> bool {
        &&& f.title@ == "ASEL Capabilities"@
        &&& f.value@ == ""@
        &&& f.byte == Some(self.raw()[0])
        &&& f.bytes is None
        &&& f.bits is None
        &&& f.units is None
        &&& f.subfields@.len() == 8
        &&& bit_field_is(f.subfields@[0], "Antenna Selection Capable"@, bool_text(self.spec_antenna_selection_capable()), None, self.raw(), 0, 1)
        &&& bit_field_is(f.subfields@[1], "Explicit CSI Feedback Based Transmit ASEL Capable"@, bool_text(self.spec_explicit_csi_feedback_based_transmit_asel_capable()), None, self.raw(), 1, 1)
        &&& bit_field_is(f.subfields@[2], "Antenna Indices Feedback Based Transmit ASEL Capable"@, bool_text(self.spec_antenna_indices_feedback_based_transmit_asel_capable()), None, self.raw(), 2, 1)
        &&& bit_field_is(f.subfields@[3], "Explicit CSI Feedback Capable"@, bool_text(self.spec_explicit_csi_feedback_capable()), None, self.raw(), 3, 1)
        &&& bit_field_is(f.subfields@[4], "Antenna Indices Feedback Capable"@, bool_text(self.spec_antenna_indices_feedback_capable()), None, self.raw(), 4, 1)
        &&& bit_field_is(f.subfields@[5], "Receive ASEL Capable"@, bool_text(self.spec_receive_asel_capable()), None, self.raw(), 5, 1)
        &&& bit_field_is(f.subfields@[6], "Transmit Sounding PPDUs Capable"@, bool_text(self.spec_transmit_sounding_ppdus_capable()), None, self.raw(), 6, 1)
        &&& reserved_field_is(f.subfields@[7], self.raw(), 7, 1)
    }

    /// The value as a displayable field with one subfield per bit field.
    pub fn to_field(&self) -> (f: Field)
        ensures
            self.field_shows(f),
    {
        let bytes = self.bytes.as_slice();
        let mut subfields: Vec<Field> = Vec::new();
        subfields.push(bit_field("Antenna Selection Capable", bool_string(self.antenna_selection_capable()), bytes, 0, 1));
        subfields.push(bit_field("Explicit CSI Feedback Based Transmit ASEL Capable", bool_string(self.explicit_csi_feedback_based_transmit_asel_capable()), bytes, 1, 1));
        subfields.push(bit_field("Antenna Indices Feedback Based Transmit ASEL Capable", bool_string(self.antenna_indices_feedback_based_transmit_asel_capable()), bytes, 2, 1));
        subfields.push(bit_field("Explicit CSI Feedback Capable", bool_string(self.explicit_csi_feedback_capable()), bytes, 3, 1));
        subfields.push(bit_field("Antenna Indices Feedback Capable", bool_string(self.antenna_indices_feedback_capable()), bytes, 4, 1));
        subfields.push(bit_field("Receive ASEL Capable", bool_string(self.receive_asel_capable()), bytes, 5, 1));
        subfields.push(bit_field("Transmit Sounding PPDUs Capable", bool_string(self.transmit_sounding_ppdus_capable()), bytes, 6, 1));
        subfields.push(reserved_bits(bytes, 7, 1));
        Field::new("ASEL Capabilities", "").with_byte(self.bytes[0]).with_subfields(subfields)
    }

}

/// An HT Capabilities element (802.11n).
#[derive(Debug, Clone, Copy, PartialEq, Eq, Hash)]
pub struct HtCapabilities {
    pub ht_capability_information: HtCapabilityInformation,
    pub ampdu_parameters: AmpduParameters,
    pub supported_mcs_set: SupportedMcsSet,
    pub ht_extended_capabilities: HtExtendedCapabilities,
    pub transmit_beamforming_capabilities: TransmitBeamformingCapabilities,
    pub asel_capabilities: AselCapabilities,
}

/// The layout of an HT Capabilities element body: the parts in order, 26 bytes in all.
pub open spec fn spec_ht_capabilities_valid(b: Seq<u8>) -> bool {
    &&& b.len() >= 26
    &&& HtCapabilityInformation::spec_valid(b.subrange(0, 2))
    &&& AmpduParameters::spec_valid(b.subrange(2, 3))
    &&& SupportedMcsSet::spec_valid(b.subrange(3, 19))
    &&& HtExtendedCapabilities::spec_valid(b.subrange(19, 21))
    &&& TransmitBeamformingCapabilities::spec_valid(b.subrange(21, 25))
    &&& AselCapabilities::spec_valid(b.subrange(25, 26))
}

impl HtCapabilities {
    pub const NAME: &'static str = "HT Capabilities";
    pub const ID: u8 = 45;
    pub const ID_EXT: Option<u8> = None;
    pub const MIN_LENGTH: usize = 26;

    /// The element's parts are exactly the consecutive slices of `b`.
    pub open spec fn spec_parsed_from(&self, b: Seq<u8>) -> bool {
        &&& self.ht_capability_information.raw() == b.subrange(0, 2)
        &&& self.ampdu_parameters.raw() == b.subrange(2, 3)
        &&& self.supported_mcs_set.raw() == b.subrange(3, 19)
        &&& self.ht_extended_capabilities.raw() == b.subrange(19, 21)
        &&& self.transmit_beamforming_capabilities.raw() == b.subrange(21, 25)
        &&& self.asel_capabilities.raw() == b.subrange(25, 26)
    }

    /// Parses the element body. `None` when it is shorter than 26 bytes or a part holds an
    /// undefined code.
    pub fn from_bytes(bytes: &[u8]) -> (r: Option<HtCapabilities>)
        ensures
            r is Some <==> spec_ht_capabilities_valid(bytes@),
            r matches Some(c) ==> c.spec_parsed_from(bytes@),
    {
        if bytes.len() < 26 {
            return None;
        }
        let ht_capability_information = HtCapabilityInformation::from_bytes(
            vstd::slice::slice_subrange(bytes, 0, 2),
        );
        let ampdu_parameters = AmpduParameters::from_bytes(vstd::slice::slice_subrange(bytes, 2, 3));
        let supported_mcs_set = SupportedMcsSet::from_bytes(
            vstd::slice::slice_subrange(bytes, 3, 19),
        );
        let ht_extended_capabilities = HtExtendedCapabilities::from_bytes(
            vstd::slice::slice_subrange(bytes, 19, 21),
        );
        let transmit_beamforming_capabilities = TransmitBeamformingCapabilities::from_bytes(
            vstd::slice::slice_subrange(bytes, 21, 25),
        );
        let asel_capabilities = AselCapabilities::from_bytes(
            vstd::slice::slice_subrange(bytes, 25, 26),
        );
        proof {
            assert(bytes@.subrange(0, 2).subrange(0, 2) =~= bytes@.subrange(0, 2));
            assert(bytes@.subrange(2, 3).subrange(0, 1) =~= bytes@.subrange(2, 3));
            assert(bytes@.subrange(3, 19).subrange(0, 16) =~= bytes@.subrange(3, 19));
            assert(bytes@.subrange(19, 21).subrange(0, 2) =~= bytes@.subrange(19, 21));
            assert(bytes@.subrange(21, 25).subrange(0, 4) =~= bytes@.subrange(21, 25));
            assert(bytes@.subrange(25, 26).subrange(0, 1) =~= bytes@.subrange(25, 26));
        }
        match (
            ht_capability_information,
            ampdu_parameters,
            supported_mcs_set,
            ht_extended_capabilities,
            transmit_beamforming_capabilities,
            asel_capabilities,
        ) {
            (Some(a), Some(b), Some(c), Some(d), Some(e), Some(f)) => Some(
                HtCapabilities {
                    ht_capability_information: a,
                    ampdu_parameters: b,
                    supported_mcs_set: c,
                    ht_extended_capabilities: d,
                    transmit_beamforming_capabilities: e,
                    asel_capabilities: f,
                },
            ),
            _ => None,
        }
    }

    /// The highest MCS index of the highest supported spatial stream, 0 when none is set.
    pub open spec fn spec_max_mcs(&self) -> u8 {
        match self.supported_mcs_set.spec_max_mcs_for_stream(
            self.supported_mcs_set.spec_max_spatial_streams(),
        ) {
            Some(m) => m,
            None => 0,
        }
    }

    /// The highest MCS index (0-7) of the highest supported spatial stream, 0 if none is set.
    pub fn max_mcs(&self) -> (m: u8)
        ensures
            m == self.spec_max_mcs(),
    {
        let max_streams = self.supported_mcs_set.max_spatial_streams();
        match self.supported_mcs_set.max_mcs_for_stream(max_streams) {
            Some(m) => m,
            None => 0,
        }
    }

    /// Whether the short guard interval is supported at a channel width (20 and 40 MHz only).
    pub open spec fn spec_supports_short_gi_for_width(&self, width: ChannelWidth) -> bool {
        match width {
            ChannelWidth::TwentyMhz => self.ht_capability_information.spec_short_gi_for_twenty_mhz(),
            ChannelWidth::FortyMhz => self.ht_capability_information.spec_short_gi_for_forty_mhz(),
            _ => false,
        }
    }

    /// Whether the short guard interval is supported at a channel width (20 and 40 MHz only).
    pub fn supports_short_gi_for_width(&self, width: ChannelWidth) -> (b: bool)
        ensures
            b == self.spec_supports_short_gi_for_width(width),
    {
        match width {
            ChannelWidth::TwentyMhz => self.ht_capability_information.short_gi_for_twenty_mhz(),
            ChannelWidth::FortyMhz => self.ht_capability_information.short_gi_for_forty_mhz(),
            _ => false,
        }
    }

    /// The one-line summary: channel widths and number of spatial streams.
    pub open spec fn spec_summary(&self) -> Seq<char> {
        let n = self.supported_mcs_set.spec_max_spatial_streams();
        self.ht_capability_information.spec_supported_channel_width_set().spec_text()
            + " MHz, "@ + spatial_streams_text(n)
    }

    /// A one-line summary, for example `20/40 MHz, 2 Spatial Streams`.
    pub fn summary(&self) -> (s: String)
        ensures
            s@ == self.spec_summary(),
    {
        let n = self.supported_mcs_set.max_spatial_streams();
        let mut s = self.ht_capability_information.supported_channel_width_set().to_string();
        s.append(" MHz, ");
        let streams = spatial_streams_string(n);
        s.append(streams.as_str());
        s
    }

    /// The element's parts as displayable fields.
    pub fn fields(&self) -> (v: Vec<Field>)
        ensures
            v@.len() == 6,
            v@[0].title@ == "HT Capability Information"@,
            v@[1].title@ == "A-MPDU Parameters"@,
            v@[2].title@ == "Supported MCS Set"@,
            v@[3].title@ == "HT Extended Capabilities"@,
            v@[4].title@ == "Transmit Beamforming Capabilities"@,
            v@[5].title@ == "ASEL Capabilities"@,
    {
        let mut v: Vec<Field> = Vec::new();
        v.push(self.ht_capability_information.to_field());
        v.push(self.ampdu_parameters.to_field());
        v.push(self.supported_mcs_set.to_field("Supported MCS Set"));
        v.push(self.ht_extended_capabilities.to_field());
        v.push(self.transmit_beamforming_capabilities.to_field());
        v.push(self.asel_capabilities.to_field());
        v
    }
}

/// "1 Spatial Stream" or "n Spatial Streams".
pub open spec fn spatial_streams_text(n: u8) -> Seq<char> {
    if n == 1 {
        "1 Spatial Stream"@
    } else {
        decimal(n as nat) + " Spatial Streams"@
    }
}

/// "1 Spatial Stream" or "n Spatial Streams".
pub fn spatial_streams_string(n: u8) -> (s: String)
    ensures
        s@ == spatial_streams_text(n),
{
    if n == 1 {
        owned("1 Spatial Stream")
    } else {
        let mut s = u64_text(n as u64);
        s.append(" Spatial Streams");
        s
    }
}

/// The highest MCS reported for the highest stream is one the bitmask marks as supported,
/// and the stream count is between 1 and 4.
pub proof fn lemma_max_mcs_is_supported(set: SupportedMcsSet, stream: u8)
    requires
        set.spec_max_mcs_for_stream(stream) is Some,
    ensures
        1 <= stream <= 4,
        set.spec_is_mcs_supported(
            (stream - 1) * 8 + set.spec_max_mcs_for_stream(stream).unwrap(),
        ),
        set.spec_max_mcs_for_stream(stream).unwrap() < 8,
{
    lemma_highest_mcs_below_supported(set, (stream - 1) * 8, 8);
}

/// A found index lies below the bound and is supported.
pub proof fn lemma_highest_mcs_below_supported(set: SupportedMcsSet, base: int, k: int)
    requires
        set.spec_highest_mcs_below(base, k) is Some,
        k <= 8,
    ensures
        0 <= set.spec_highest_mcs_below(base, k).unwrap() < k,
        set.spec_is_mcs_supported(base + set.spec_highest_mcs_below(base, k).unwrap()),
    decreases k,
{
    if k > 0 && !set.spec_is_mcs_supported(base + k - 1) {
        lemma_highest_mcs_below_supported(set, base, k - 1);
    }
}

/// The number of spatial streams never exceeds the highest stream with a supported MCS.
pub proof fn lemma_max_spatial_streams_has_mcs(set: SupportedMcsSet)
    ensures
        1 <= set.spec_max_spatial_streams() <= 4,
        set.spec_max_spatial_streams() > 1 ==> set.spec_stream_has_mcs(
            set.spec_max_spatial_streams() as int,
        ),
        forall|s: int|
            set.spec_max_spatial_streams() < s <= 4 ==> !#[trigger] set.spec_stream_has_mcs(s),
{
}

} // verus!
