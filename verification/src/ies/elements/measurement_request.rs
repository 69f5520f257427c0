//! The Measurement Request element: a measurement a station is asked to make.
use vstd::prelude::*;

use crate::bits::{
    bit_set, bits_value, lemma_bits_value_bound, lemma_two_pow_64, lemma_two_pow_monotone, read_bit,
    read_bits, read_u16_bits, read_u8_bits,
};
use crate::ies::field::{
    bit_field, bit_field_is, bit_field_with_units, reserved_bits, reserved_field_is, BitRange,
    Field,
};
use crate::ies::field::{byte_field, byte_field_is, bytes_field, bytes_field_is};
use crate::text::{debug_list_string, debug_list_text, bool_string, bool_text, decimal, owned, paren_decimal, paren_text, u64_text};

verus! {

/// The Measurement Request Mode field of a Measurement Request element.
#[derive(Debug, Clone, Copy, PartialEq, Eq, Hash)]
pub struct MeasurementRequestMode {
    bytes: [u8; 1],
}

impl MeasurementRequestMode {
    /// The encoded length in bytes.
    pub const LENGTH: usize = 1;

    /// Whether `bytes` (exactly 1 of them) encode a valid value.
    pub open spec fn spec_valid(bytes: Seq<u8>) -> bool {
        bytes.len() == 1
    }

    /// The encoded bytes.
    pub closed spec fn raw(&self) -> Seq<u8> {
        self.bytes@
    }

    /// Every value is encoded in exactly 1 bytes.
    pub proof fn lemma_raw_len(&self)
        ensures
            self.raw().len() == 1,
    {
    }

    /// Decodes the value from the first 1 bytes of `bytes`. `None` when there are fewer
    /// bytes or they do not encode a valid value.
    pub fn from_bytes(bytes: &[u8]) -> (r: Option<MeasurementRequestMode>)
        ensures
            r is Some <==> bytes@.len() >= 1 && Self::spec_valid(bytes@.subrange(0, 1)),
            r matches Some(v) ==> v.raw() == bytes@.subrange(0, 1),
    {
        if bytes.len() < 1 {
            return None;
        }
        let a: [u8; 1] = [bytes[0]];
        proof {
            assert(a@ =~= bytes@.subrange(0, 1));
        }
        Some(MeasurementRequestMode { bytes: a })
    }

    /// The encoded bytes.
    pub fn to_bytes(&self) -> (v: Vec<u8>)
        ensures
            v@ == self.raw(),
    {
        vstd::slice::slice_to_vec(self.bytes.as_slice())
    }

    /// The "Parallel" subfield (bit 0).
    pub open spec fn spec_parallel(&self) -> bool {
        bit_set(self.raw(), 0)
    }

    /// The "Parallel" subfield (bit 0).
    pub fn parallel(&self) -> (b: bool)
        ensures
            b == self.spec_parallel(),
    {
        read_bit(self.bytes.as_slice(), 0)
    }

    /// The "Enable" subfield (bit 1).
    pub open spec fn spec_enable(&self) -> bool {
        bit_set(self.raw(), 1)
    }

    /// The "Enable" subfield (bit 1).
    pub fn enable(&self) -> (b: bool)
        ensures
            b == self.spec_enable(),
    {
        read_bit(self.bytes.as_slice(), 1)
    }

    /// The "Request" subfield (bit 2).
    pub open spec fn spec_request(&self) -> bool {
        bit_set(self.raw(), 2)
    }

    /// The "Request" subfield (bit 2).
    pub fn request(&self) -> (b: bool)
        ensures
            b == self.spec_request(),
    {
        read_bit(self.bytes.as_slice(), 2)
    }

    /// The "Report" subfield (bit 3).
    pub open spec fn spec_report(&self) -> bool {
        bit_set(self.raw(), 3)
    }

    /// The "Report" subfield (bit 3).
    pub fn report(&self) -> (b: bool)
        ensures
            b == self.spec_report(),
    {
        read_bit(self.bytes.as_slice(), 3)
    }

    /// The "Duration Mandatory" subfield (bit 4).
    pub open spec fn spec_duration_mandatory(&self) -> bool {
        bit_set(self.raw(), 4)
    }

    /// The "Duration Mandatory" subfield (bit 4).
    pub fn duration_mandatory(&self) -> (b: bool)
        ensures
            b == self.spec_duration_mandatory(),
    {
        read_bit(self.bytes.as_slice(), 4)
    }

    /// Whether `f` is the displayable field of this value: one subfield per bit field.
    pub open spec fn field_shows(&self, f: Field) -> bool {
        &&& f.title@ == "Measurement Request Mode"@
        &&& f.value@ == ""@
        &&& f.byte == Some(self.raw()[0])
        &&& f.bytes is None
        &&& f.bits is None
        &&& f.units is None
        &&& f.subfields@.len() == 6
        &&& bit_field_is(f.subfields@[0], "Parallel"@, bool_text(self.spec_parallel()), None, self.raw(), 0, 1)
        &&& bit_field_is(f.subfields@[1], "Enable"@, bool_text(self.spec_enable()), None, self.raw(), 1, 1)
        &&& bit_field_is(f.subfields@[2], "Request"@, bool_text(self.spec_request()), None, self.raw(), 2, 1)
        &&& bit_field_is(f.subfields@[3], "Report"@, bool_text(self.spec_report()), None, self.raw(), 3, 1)
        &&& bit_field_is(f.subfields@[4], "Duration Mandatory"@, bool_text(self.spec_duration_mandatory()), None, self.raw(), 4, 1)
        &&& reserved_field_is(f.subfields@[5], self.raw(), 5, 3)
    }

    /// The value as a displayable field with one subfield per bit field.
    pub fn to_field(&self) -> (f: Field)
        ensures
            self.field_shows(f),
    {
        let bytes = self.bytes.as_slice();
        let mut subfields: Vec<Field> = Vec::new();
        subfields.push(bit_field("Parallel", bool_string(self.parallel()), bytes, 0, 1));
        subfields.push(bit_field("Enable", bool_string(self.enable()), bytes, 1, 1));
        subfields.push(bit_field("Request", bool_string(self.request()), bytes, 2, 1));
        subfields.push(bit_field("Report", bool_string(self.report()), bytes, 3, 1));
        subfields.push(bit_field("Duration Mandatory", bool_string(self.duration_mandatory()), bytes, 4, 1));
        subfields.push(reserved_bits(bytes, 5, 3));
        Field::new("Measurement Request Mode", "").with_byte(self.bytes[0]).with_subfields(subfields)
    }

}

/// The type of measurement a Measurement Request element asks for.
#[derive(Debug, Clone, Copy, PartialEq, Eq, Structural, Hash)]
pub enum MeasurementType {
    Basic,
    ClearChannelAssessment,
    ReceivePowerIndicationHistogram,
    ChannelLoad,
    NoiseHistogram,
    Beacon,
    Frame,
    StaStatistics,
    Lci,
    TransmitStreamCategoryMeasurement,
    MulticastDiagnostics,
    LocationCivic,
    LocationIdentifier,
    DirectionalChannelQuality,
    DirectionalMeasurement,
    DirectionalStatistics,
    FineTimingMeasurementRange,
    Reserved(u8),
    MeasurementPause,
}

impl MeasurementType {
    /// The type a code decodes to: codes 17 to 254 are reserved, 255 is a pause.
    pub open spec fn spec_from_u8(v: u8) -> MeasurementType {
        if v == 0 {
            MeasurementType::Basic
        } else if v == 1 {
            MeasurementType::ClearChannelAssessment
        } else if v == 2 {
            MeasurementType::ReceivePowerIndicationHistogram
        } else if v == 3 {
            MeasurementType::ChannelLoad
        } else if v == 4 {
            MeasurementType::NoiseHistogram
        } else if v == 5 {
            MeasurementType::Beacon
        } else if v == 6 {
            MeasurementType::Frame
        } else if v == 7 {
            MeasurementType::StaStatistics
        } else if v == 8 {
            MeasurementType::Lci
        } else if v == 9 {
            MeasurementType::TransmitStreamCategoryMeasurement
        } else if v == 10 {
            MeasurementType::MulticastDiagnostics
        } else if v == 11 {
            MeasurementType::LocationCivic
        } else if v == 12 {
            MeasurementType::LocationIdentifier
        } else if v == 13 {
            MeasurementType::DirectionalChannelQuality
        } else if v == 14 {
            MeasurementType::DirectionalMeasurement
        } else if v == 15 {
            MeasurementType::DirectionalStatistics
        } else if v == 16 {
            MeasurementType::FineTimingMeasurementRange
        } else if v == 255 {
            MeasurementType::MeasurementPause
        } else {
            MeasurementType::Reserved(v)
        }
    }

    /// The code of the type.
    pub open spec fn spec_to_u8(self) -> u8 {
        match self {
            MeasurementType::Basic => 0,
            MeasurementType::ClearChannelAssessment => 1,
            MeasurementType::ReceivePowerIndicationHistogram => 2,
            MeasurementType::ChannelLoad => 3,
            MeasurementType::NoiseHistogram => 4,
            MeasurementType::Beacon => 5,
            MeasurementType::Frame => 6,
            MeasurementType::StaStatistics => 7,
            MeasurementType::Lci => 8,
            MeasurementType::TransmitStreamCategoryMeasurement => 9,
            MeasurementType::MulticastDiagnostics => 10,
            MeasurementType::LocationCivic => 11,
            MeasurementType::LocationIdentifier => 12,
            MeasurementType::DirectionalChannelQuality => 13,
            MeasurementType::DirectionalMeasurement => 14,
            MeasurementType::DirectionalStatistics => 15,
            MeasurementType::FineTimingMeasurementRange => 16,
            MeasurementType::Reserved(v) => v,
            MeasurementType::MeasurementPause => 255,
        }
    }

    /// The name of the type.
    pub open spec fn spec_text(self) -> Seq<char> {
        match self {
            MeasurementType::Basic => "Basic"@,
            MeasurementType::ClearChannelAssessment => "Clear Channel Assessment"@,
            MeasurementType::ReceivePowerIndicationHistogram => "Receive Power Indication Histogram"@,
            MeasurementType::ChannelLoad => "Channel Load"@,
            MeasurementType::NoiseHistogram => "Noise Histogram"@,
            MeasurementType::Beacon => "Beacon"@,
            MeasurementType::Frame => "Frame"@,
            MeasurementType::StaStatistics => "STA Statistics"@,
            MeasurementType::Lci => "LCI"@,
            MeasurementType::TransmitStreamCategoryMeasurement => "Transmit Stream Category Measurement"@,
            MeasurementType::MulticastDiagnostics => "Multicast Diagnostics"@,
            MeasurementType::LocationCivic => "Location Civic"@,
            MeasurementType::LocationIdentifier => "Location Identifier"@,
            MeasurementType::DirectionalChannelQuality => "Directional Channel Quality"@,
            MeasurementType::DirectionalMeasurement => "Directional Measurement"@,
            MeasurementType::DirectionalStatistics => "Directional Statistics"@,
            MeasurementType::FineTimingMeasurementRange => "Fine Timing Measurement Range"@,
            MeasurementType::Reserved(v) => "Reserved ("@ + decimal(v as nat) + ")"@,
            MeasurementType::MeasurementPause => "Measurement Pause"@,
        }
    }

    /// Decodes a code.
    pub fn from_u8(v: u8) -> (r: MeasurementType)
        ensures
            r == Self::spec_from_u8(v),
    {
        match v {
            0 => MeasurementType::Basic,
            1 => MeasurementType::ClearChannelAssessment,
            2 => MeasurementType::ReceivePowerIndicationHistogram,
            3 => MeasurementType::ChannelLoad,
            4 => MeasurementType::NoiseHistogram,
            5 => MeasurementType::Beacon,
            6 => MeasurementType::Frame,
            7 => MeasurementType::StaStatistics,
            8 => MeasurementType::Lci,
            9 => MeasurementType::TransmitStreamCategoryMeasurement,
            10 => MeasurementType::MulticastDiagnostics,
            11 => MeasurementType::LocationCivic,
            12 => MeasurementType::LocationIdentifier,
            13 => MeasurementType::DirectionalChannelQuality,
            14 => MeasurementType::DirectionalMeasurement,
            15 => MeasurementType::DirectionalStatistics,
            16 => MeasurementType::FineTimingMeasurementRange,
            255 => MeasurementType::MeasurementPause,
            _ => MeasurementType::Reserved(v),
        }
    }

    /// The code of the type.
    pub fn to_u8(&self) -> (v: u8)
        ensures
            v == self.spec_to_u8(),
    {
        match self {
            MeasurementType::Basic => 0,
            MeasurementType::ClearChannelAssessment => 1,
            MeasurementType::ReceivePowerIndicationHistogram => 2,
            MeasurementType::ChannelLoad => 3,
            MeasurementType::NoiseHistogram => 4,
            MeasurementType::Beacon => 5,
            MeasurementType::Frame => 6,
            MeasurementType::StaStatistics => 7,
            MeasurementType::Lci => 8,
            MeasurementType::TransmitStreamCategoryMeasurement => 9,
            MeasurementType::MulticastDiagnostics => 10,
            MeasurementType::LocationCivic => 11,
            MeasurementType::LocationIdentifier => 12,
            MeasurementType::DirectionalChannelQuality => 13,
            MeasurementType::DirectionalMeasurement => 14,
            MeasurementType::DirectionalStatistics => 15,
            MeasurementType::FineTimingMeasurementRange => 16,
            MeasurementType::Reserved(v) => *v,
            MeasurementType::MeasurementPause => 255,
        }
    }

    /// The name of the type, for example `Channel Load` or `Reserved (20)`.
    pub fn to_string(&self) -> (s: String)
        ensures
            s@ == self.spec_text(),
    {
        match self {
            MeasurementType::Basic => String::from_str("Basic"),
            MeasurementType::ClearChannelAssessment => String::from_str("Clear Channel Assessment"),
            MeasurementType::ReceivePowerIndicationHistogram => String::from_str("Receive Power Indication Histogram"),
            MeasurementType::ChannelLoad => String::from_str("Channel Load"),
            MeasurementType::NoiseHistogram => String::from_str("Noise Histogram"),
            MeasurementType::Beacon => String::from_str("Beacon"),
            MeasurementType::Frame => String::from_str("Frame"),
            MeasurementType::StaStatistics => String::from_str("STA Statistics"),
            MeasurementType::Lci => String::from_str("LCI"),
            MeasurementType::TransmitStreamCategoryMeasurement => String::from_str("Transmit Stream Category Measurement"),
            MeasurementType::MulticastDiagnostics => String::from_str("Multicast Diagnostics"),
            MeasurementType::LocationCivic => String::from_str("Location Civic"),
            MeasurementType::LocationIdentifier => String::from_str("Location Identifier"),
            MeasurementType::DirectionalChannelQuality => String::from_str("Directional Channel Quality"),
            MeasurementType::DirectionalMeasurement => String::from_str("Directional Measurement"),
            MeasurementType::DirectionalStatistics => String::from_str("Directional Statistics"),
            MeasurementType::FineTimingMeasurementRange => String::from_str("Fine Timing Measurement Range"),
            MeasurementType::Reserved(v) => {
                let mut s = String::from_str("Reserved (");
                s.append(u64_text(*v as u64).as_str());
                s.append(")");
                s
            },
            MeasurementType::MeasurementPause => String::from_str("Measurement Pause"),
        }
    }
}

/// A Measurement Request element: a token, the request mode, the measurement type and the
/// request's own bytes.
#[derive(Debug, Clone, PartialEq, Eq, Hash)]
pub struct MeasurementRequest {
    pub measurement_token: u8,
    pub measurement_request_mode: MeasurementRequestMode,
    pub measurement_type: MeasurementType,
    pub measurement_request: Vec<u8>,
}

impl MeasurementRequest {
    pub const NAME: &'static str = "Measurement Request";
    pub const ID: u8 = 38;
    pub const ID_EXT: Option<u8> = None;

    /// Whether the element is the one read from body `b`: the token, mode and type bytes, then
    /// the rest.
    pub open spec fn spec_parsed_from(&self, b: Seq<u8>) -> bool {
        &&& b.len() >= 3
        &&& self.measurement_token == b[0]
        &&& self.measurement_request_mode.raw() == b.subrange(1, 2)
        &&& self.measurement_type == MeasurementType::spec_from_u8(b[2])
        &&& self.measurement_request@ == b.subrange(3, b.len() as int)
    }

    /// Parses the element body; `None` when it is shorter than three bytes.
    pub fn from_bytes(bytes: &[u8]) -> (r: Option<MeasurementRequest>)
        ensures
            r is Some <==> bytes@.len() >= 3,
            r matches Some(m) ==> m.spec_parsed_from(bytes@),
    {
        if bytes.len() < 3 {
            return None;
        }
        let mode = match MeasurementRequestMode::from_bytes(vstd::slice::slice_subrange(bytes, 1, 2)) {
            Some(m) => m,
            None => return None,
        };
        proof {
            assert(bytes@.subrange(1, 2).subrange(0, 1) =~= bytes@.subrange(1, 2));
        }
        Some(MeasurementRequest {
            measurement_token: bytes[0],
            measurement_request_mode: mode,
            measurement_type: MeasurementType::from_u8(bytes[2]),
            measurement_request: vstd::slice::slice_to_vec(vstd::slice::slice_subrange(bytes, 3, bytes.len())),
        })
    }

    /// The one-line summary.
    pub open spec fn spec_summary(&self) -> Seq<char> {
        "Measurement Type: "@ + self.measurement_type.spec_text()
    }

    /// The one-line summary, for example `Measurement Type: Beacon`.
    pub fn summary(&self) -> (s: String)
        ensures
            s@ == self.spec_summary(),
    {
        let mut s = String::from_str("Measurement Type: ");
        s.append(self.measurement_type.to_string().as_str());
        s
    }

    /// The element's fields: the token, the mode, the type and the request bytes.
    pub fn fields(&self) -> (fs: Vec<Field>)
        ensures
            fs@.len() == 4,
            byte_field_is(fs@[0], "Measurement Token"@, decimal(self.measurement_token as nat), None, self.measurement_token),
            self.measurement_request_mode.field_shows(fs@[1]),
            bytes_field_is(fs@[2], "Measurement Type"@, self.measurement_type.spec_text(), None, seq![self.measurement_type.spec_to_u8()]),
            bytes_field_is(fs@[3], "Measurement Request"@, debug_list_text(self.measurement_request@), None, self.measurement_request@),
    {
        let mut fs: Vec<Field> = Vec::new();
        fs.push(byte_field("Measurement Token", u64_text(self.measurement_token as u64), self.measurement_token));
        fs.push(self.measurement_request_mode.to_field());
        let mut code: Vec<u8> = Vec::new();
        code.push(self.measurement_type.to_u8());
        proof {
            assert(code@ =~= seq![self.measurement_type.spec_to_u8()]);
        }
        fs.push(bytes_field("Measurement Type", self.measurement_type.to_string(), code));
        fs.push(bytes_field("Measurement Request", debug_list_string(self.measurement_request.as_slice()), vstd::slice::slice_to_vec(self.measurement_request.as_slice())));
        fs
    }
}

} // verus!
