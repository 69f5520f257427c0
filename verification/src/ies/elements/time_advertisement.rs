//! The Time Advertisement element: the time source of an access point and the time it keeps.
use vstd::prelude::*;

use crate::bits::{
    le_bytes_of, le_bytes_u16, le_value, lemma_le_value_bound, lemma_le_value_split, lemma_two_pow_64,
    read_le_u64, two_pow, u128_le_bytes, u16_le_bytes,
};
use crate::ies::field::{byte_field, byte_field_is, bytes_field, bytes_field_is, Field};
use crate::text::{decimal, signed_decimal, u128_text, u64_text};

verus! {

/// The time source an access point announces.
#[derive(Debug, Clone, Copy, PartialEq, Eq, Structural, Hash)]
pub enum TimingCapabilities {
    NoStandardizedExternalTimeSource,
    TimestampOffsetBasedOnUtc,
    UtcTimeAtWhichTsfTimerIs0,
    Reserved(u8),
}

impl TimingCapabilities {
    /// The capability a code decodes to.
    pub open spec fn spec_from_u8(v: u8) -> TimingCapabilities {
        if v == 0 {
            TimingCapabilities::NoStandardizedExternalTimeSource
        } else if v == 1 {
            TimingCapabilities::TimestampOffsetBasedOnUtc
        } else if v == 2 {
            TimingCapabilities::UtcTimeAtWhichTsfTimerIs0
        } else {
            TimingCapabilities::Reserved(v)
        }
    }

    /// The code of the capability.
    pub open spec fn spec_to_u8(self) -> u8 {
        match self {
            TimingCapabilities::NoStandardizedExternalTimeSource => 0,
            TimingCapabilities::TimestampOffsetBasedOnUtc => 1,
            TimingCapabilities::UtcTimeAtWhichTsfTimerIs0 => 2,
            TimingCapabilities::Reserved(v) => v,
        }
    }

    /// The text of the capability.
    pub open spec fn spec_text(self) -> Seq<char> {
        match self {
            TimingCapabilities::NoStandardizedExternalTimeSource => "No standardized external time source"@,
            TimingCapabilities::TimestampOffsetBasedOnUtc => "Timestamp offset based on UTC"@,
            TimingCapabilities::UtcTimeAtWhichTsfTimerIs0 => "UTC time at which the TSF timer is 0"@,
            TimingCapabilities::Reserved(v) => "Reserved ("@ + decimal(v as nat) + ")"@,
        }
    }

    /// Decodes a code; codes other than 0, 1 and 2 are reserved.
    pub fn from_u8(v: u8) -> (r: TimingCapabilities)
        ensures
            r == Self::spec_from_u8(v),
    {
        match v {
            0 => TimingCapabilities::NoStandardizedExternalTimeSource,
            1 => TimingCapabilities::TimestampOffsetBasedOnUtc,
            2 => TimingCapabilities::UtcTimeAtWhichTsfTimerIs0,
            _ => TimingCapabilities::Reserved(v),
        }
    }

    /// The code of the capability.
    pub fn to_u8(&self) -> (v: u8)
        ensures
            v == self.spec_to_u8(),
    {
        match self {
            TimingCapabilities::NoStandardizedExternalTimeSource => 0,
            TimingCapabilities::TimestampOffsetBasedOnUtc => 1,
            TimingCapabilities::UtcTimeAtWhichTsfTimerIs0 => 2,
            TimingCapabilities::Reserved(v) => *v,
        }
    }

    /// The text of the capability, for example `Timestamp offset based on UTC`.
    pub fn to_string(&self) -> (s: String)
        ensures
            s@ == self.spec_text(),
    {
        match self {
            TimingCapabilities::NoStandardizedExternalTimeSource => String::from_str("No standardized external time source"),
            TimingCapabilities::TimestampOffsetBasedOnUtc => String::from_str("Timestamp offset based on UTC"),
            TimingCapabilities::UtcTimeAtWhichTsfTimerIs0 => String::from_str("UTC time at which the TSF timer is 0"),
            TimingCapabilities::Reserved(v) => {
                let mut s = String::from_str("Reserved (");
                s.append(u64_text(*v as u64).as_str());
                s.append(")");
                s
            },
        }
    }
}

/// A Time Value field: a UTC date and time.
#[derive(Debug, Clone, Copy, PartialEq, Eq, Structural, Hash)]
pub struct TimeValue {
    pub year: u16,
    pub month: u8,
    pub day_of_month: u8,
    pub hours: u8,
    pub minutes: u8,
    pub seconds: u8,
    pub milliseconds: u16,
    pub reserved: u8,
}

impl TimeValue {
    /// The encoded bytes: the year and milliseconds least significant byte first.
    pub open spec fn spec_raw(&self) -> Seq<u8> {
        le_bytes_u16(self.year) + seq![self.month, self.day_of_month, self.hours, self.minutes, self.seconds]
            + le_bytes_u16(self.milliseconds) + seq![self.reserved]
    }

    /// Decodes the ten bytes at the front of `bytes`; `None` when there are fewer.
    pub fn from_bytes(bytes: &[u8]) -> (r: Option<TimeValue>)
        ensures
            r is Some <==> bytes@.len() >= 10,
            r matches Some(t) ==> t.spec_raw() == bytes@.subrange(0, 10),
    {
        if bytes.len() < 10 {
            return None;
        }
        let t = TimeValue {
            year: bytes[0] as u16 + bytes[1] as u16 * 256,
            month: bytes[2],
            day_of_month: bytes[3],
            hours: bytes[4],
            minutes: bytes[5],
            seconds: bytes[6],
            milliseconds: bytes[7] as u16 + bytes[8] as u16 * 256,
            reserved: bytes[9],
        };
        proof {
            assert(t.year % 256 == bytes@[0] && t.year / 256 == bytes@[1]);
            assert(t.milliseconds % 256 == bytes@[7] && t.milliseconds / 256 == bytes@[8]);
            assert(t.spec_raw() =~= bytes@.subrange(0, 10));
        }
        Some(t)
    }

    /// The encoded bytes.
    pub fn to_bytes(&self) -> (v: Vec<u8>)
        ensures
            v@ == self.spec_raw(),
    {
        let mut v = u16_le_bytes(self.year);
        v.push(self.month);
        v.push(self.day_of_month);
        v.push(self.hours);
        v.push(self.minutes);
        v.push(self.seconds);
        let mut ms = u16_le_bytes(self.milliseconds);
        v.append(&mut ms);
        v.push(self.reserved);
        proof {
            assert(v@ =~= self.spec_raw());
        }
        v
    }

    /// Whether `f` is the displayable field of the time value: its bytes, with one subfield
    /// per part.
    pub open spec fn spec_field_shows(&self, f: Field) -> bool {
        let s = f.subfields@;
        &&& f.title@ == "Time Value"@
        &&& f.value@ == ""@
        &&& f.bytes matches Some(b) && b@ == self.spec_raw()
        &&& f.byte is None
        &&& f.bits is None
        &&& f.units is None
        &&& s.len() == 8
        &&& bytes_field_is(s[0], "Year"@, decimal(self.year as nat), None, le_bytes_u16(self.year))
        &&& byte_field_is(s[1], "Month"@, decimal(self.month as nat), None, self.month)
        &&& byte_field_is(s[2], "Day"@, decimal(self.day_of_month as nat), None, self.day_of_month)
        &&& byte_field_is(s[3], "Hours"@, decimal(self.hours as nat), None, self.hours)
        &&& byte_field_is(s[4], "Minutes"@, decimal(self.minutes as nat), None, self.minutes)
        &&& byte_field_is(s[5], "Seconds"@, decimal(self.seconds as nat), None, self.seconds)
        &&& bytes_field_is(s[6], "Milliseconds"@, decimal(self.milliseconds as nat), None, le_bytes_u16(self.milliseconds))
        &&& byte_field_is(s[7], "Reserved"@, decimal(self.reserved as nat), None, self.reserved)
    }

    /// The time value as a displayable field; see `spec_field_shows`.
    pub fn to_field(&self) -> (f: Field)
        ensures
            self.spec_field_shows(f),
    {
        let mut s: Vec<Field> = Vec::new();
        s.push(bytes_field("Year", u64_text(self.year as u64), u16_le_bytes(self.year)));
        s.push(byte_field("Month", u64_text(self.month as u64), self.month));
        s.push(byte_field("Day", u64_text(self.day_of_month as u64), self.day_of_month));
        s.push(byte_field("Hours", u64_text(self.hours as u64), self.hours));
        s.push(byte_field("Minutes", u64_text(self.minutes as u64), self.minutes));
        s.push(byte_field("Seconds", u64_text(self.seconds as u64), self.seconds));
        s.push(bytes_field("Milliseconds", u64_text(self.milliseconds as u64), u16_le_bytes(self.milliseconds)));
        s.push(byte_field("Reserved", u64_text(self.reserved as u64), self.reserved));
        Field::new("Time Value", "").with_bytes(self.to_bytes()).with_subfields(s)
    }
}

/// The number of bytes a Time Advertisement body of `len` bytes whose first byte is `code` is
/// read from: the code, then for a timestamp offset 10 bytes of offset and 5 of error, for a
/// UTC time 10 bytes of time value, 5 of error and 1 counter, for a reserved code the rest.
pub open spec fn spec_time_advertisement_len(code: u8, len: nat) -> nat {
    if code == 0 {
        1
    } else if code == 1 {
        16
    } else if code == 2 {
        17
    } else {
        len
    }
}

/// The text of a signed 128-bit value.
pub fn i128_text(n: i128) -> (s: String)
    ensures
        s@ == signed_decimal(n as int),
{
    if n < 0 {
        let magnitude: u128 = if n == i128::MIN { 0x8000_0000_0000_0000_0000_0000_0000_0000u128 } else { (-n) as u128 };
        let mut s = String::from_str("-");
        proof {
            reveal_strlit("-");
        }
        s.append(u128_text(magnitude).as_str());
        s
    } else {
        u128_text(n as u128)
    }
}

/// A Time Advertisement element: the time source and, as it announces, a timestamp offset or
/// a UTC time, with the error and update counter that go with them.
#[derive(Debug, Clone, PartialEq, Eq, Hash)]
pub struct TimeAdvertisement {
    pub timing_capabilities: TimingCapabilities,
    pub time_value_ns: Option<i128>,
    pub time_value: Option<TimeValue>,
    pub time_error: Option<u64>,
    pub time_update_counter: Option<u8>,
    pub reserved: Option<Vec<u8>>,
}

/// The bytes an optional byte vector holds.
pub open spec fn opt_bytes(o: Option<Vec<u8>>) -> Option<Seq<u8>> {
    match o {
        Some(v) => Some(v@),
        None => None,
    }
}

impl TimeAdvertisement {
    pub const NAME: &'static str = "Time Advertisement";
    pub const ID: u8 = 69;
    pub const ID_EXT: Option<u8> = None;

    /// Whether the element is the one read from body `b`: the parts its time source calls for,
    /// each read from its place (numbers least significant byte first).
    pub open spec fn spec_parsed_from(&self, b: Seq<u8>) -> bool {
        let code = b[0];
        &&& b.len() >= 1
        &&& b.len() >= spec_time_advertisement_len(code, b.len())
        &&& self.timing_capabilities == TimingCapabilities::spec_from_u8(code)
        &&& self.time_value_ns == (if code == 1 { Some(le_value(b, 1, 10) as i128) } else { None })
        &&& (self.time_value is Some <==> code == 2)
        &&& (self.time_value matches Some(t) ==> t.spec_raw() == b.subrange(1, 11))
        &&& self.time_error == (if code == 1 || code == 2 { Some(le_value(b, 11, 5) as u64) } else { None })
        &&& self.time_update_counter == (if code == 2 { Some(b[16]) } else { None })
        &&& opt_bytes(self.reserved) == (if code > 2 { Some(b.subrange(1, b.len() as int)) } else { None })
    }

    /// Parses the element body; `None` when it is shorter than its time source calls for.
    pub fn from_bytes(bytes: &[u8]) -> (r: Option<TimeAdvertisement>)
        ensures
            r is Some <==> bytes@.len() >= 1 && bytes@.len() >= spec_time_advertisement_len(bytes@[0], bytes@.len()),
            r matches Some(t) ==> t.spec_parsed_from(bytes@),
    {
        if bytes.len() < 1 {
            return None;
        }
        let code = bytes[0];
        let need: usize = if code == 0 {
            1
        } else if code == 1 {
            16
        } else if code == 2 {
            17
        } else {
            bytes.len()
        };
        if bytes.len() < need {
            return None;
        }
        let timing_capabilities = TimingCapabilities::from_u8(code);
        let time_value_ns = if code == 1 {
            let lo = read_le_u64(bytes, 1, 8);
            let hi = read_le_u64(bytes, 9, 2);
            proof {
                lemma_le_value_split(bytes@, 1, 8, 2);
                lemma_le_value_bound(bytes@, 9, 2);
                lemma_two_pow_64();
                assert(two_pow(16) == 0x10000);
                assert(le_value(bytes@, 1, 10) == lo + 0x1_0000_0000_0000_0000 * hi);
            }
            Some(lo as i128 + hi as i128 * 0x1_0000_0000_0000_0000i128)
        } else {
            None
        };
        let time_value = if code == 2 {
            TimeValue::from_bytes(vstd::slice::slice_subrange(bytes, 1, 11))
        } else {
            None
        };
        let time_error = if code == 1 || code == 2 {
            Some(read_le_u64(bytes, 11, 5))
        } else {
            None
        };
        let time_update_counter = if code == 2 {
            Some(bytes[16])
        } else {
            None
        };
        let reserved = if code > 2 {
            Some(vstd::slice::slice_to_vec(vstd::slice::slice_subrange(bytes, 1, bytes.len())))
        } else {
            None
        };
        let t = TimeAdvertisement { timing_capabilities, time_value_ns, time_value, time_error, time_update_counter, reserved };
        proof {
            if code == 2 {
                assert(bytes@.subrange(1, 11).subrange(0, 10) =~= bytes@.subrange(1, 11));
            }
            assert(t.time_value_ns == (if code == 1 { Some(le_value(bytes@, 1, 10) as i128) } else { None }));
            assert(t.time_error == (if code == 1 || code == 2 { Some(le_value(bytes@, 11, 5) as u64) } else { None }));
            assert(opt_bytes(t.reserved) == (if code > 2 { Some(bytes@.subrange(1, bytes@.len() as int)) } else { None }));
        }
        Some(t)
    }

    /// The one-line summary: the time source.
    pub fn summary(&self) -> (s: String)
        ensures
            s@ == self.timing_capabilities.spec_text(),
    {
        self.timing_capabilities.to_string()
    }

    /// The element's fields: the time source with its code byte, then each part present: the
    /// timestamp offset in ns with its ten bytes, the time value, the time error (in ns for a
    /// timestamp offset, in ms for a UTC time) with its five bytes, and the update counter.
    pub open spec fn spec_fields_shown(&self, fs: Seq<Field>) -> bool {
        let n1: int = 1;
        let n2: int = n1 + if self.time_value_ns is Some { 1int } else { 0 };
        let n3: int = n2 + if self.time_value is Some { 1int } else { 0 };
        let shows_error = self.time_error is Some && (self.timing_capabilities
            == TimingCapabilities::TimestampOffsetBasedOnUtc || self.timing_capabilities
            == TimingCapabilities::UtcTimeAtWhichTsfTimerIs0);
        let n4: int = n3 + if shows_error { 1int } else { 0 };
        let n5: int = n4 + if self.time_update_counter is Some { 1int } else { 0 };
        &&& fs.len() == n5
        &&& bytes_field_is(fs[0], "Timing Capabilities"@, self.timing_capabilities.spec_text(), None, seq![self.timing_capabilities.spec_to_u8()])
        &&& (self.time_value_ns matches Some(v) ==> bytes_field_is(fs[n1], "Time Value"@, signed_decimal(v as int), Some("ns"@), le_bytes_of((v as u128) as nat, 10)))
        &&& (self.time_value matches Some(t) ==> t.spec_field_shows(fs[n2]))
        &&& (shows_error ==> bytes_field_is(fs[n3], "Time Error"@, decimal(self.time_error->0 as nat),
            Some(if self.timing_capabilities == TimingCapabilities::TimestampOffsetBasedOnUtc { "ns"@ } else { "ms"@ }),
            le_bytes_of(self.time_error->0 as nat, 5)))
        &&& (self.time_update_counter matches Some(c) ==> byte_field_is(fs[n4], "Time Update Counter"@, decimal(c as nat), None, c))
    }

    /// The element's fields; see `spec_fields_shown`.
    pub fn fields(&self) -> (fs: Vec<Field>)
        ensures
            self.spec_fields_shown(fs@),
    {
        let mut fs: Vec<Field> = Vec::new();
        let mut code: Vec<u8> = Vec::new();
        code.push(self.timing_capabilities.to_u8());
        fs.push(bytes_field("Timing Capabilities", self.timing_capabilities.to_string(), code));
        if let Some(v) = self.time_value_ns {
            fs.push(bytes_field("Time Value", i128_text(v), u128_le_bytes(v as u128, 10)).with_units("ns"));
        }
        if let Some(t) = &self.time_value {
            fs.push(t.to_field());
        }
        if let Some(e) = self.time_error {
            match self.timing_capabilities {
                TimingCapabilities::TimestampOffsetBasedOnUtc => {
                    fs.push(bytes_field("Time Error", u64_text(e), u128_le_bytes(e as u128, 5)).with_units("ns"));
                },
                TimingCapabilities::UtcTimeAtWhichTsfTimerIs0 => {
                    fs.push(bytes_field("Time Error", u64_text(e), u128_le_bytes(e as u128, 5)).with_units("ms"));
                },
                _ => {},
            }
        }
        if let Some(c) = self.time_update_counter {
            fs.push(byte_field("Time Update Counter", u64_text(c as u64), c));
        }
        proof {
            assert(code@ =~= seq![self.timing_capabilities.spec_to_u8()]);
        }
        fs
    }
}

} // verus!
