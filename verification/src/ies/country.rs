//! The Country element in its earlier form, whose triplets are read as subbands that inherit
//! the operating information announced before them.
use core::str::Utf8Error;
use vstd::prelude::*;

use crate::ies::elements::country::{country_code_text, Environment};
use crate::text::{decimal, i64_text, signed_decimal, u64_text};
use crate::utf8::str_from_utf8;

verus! {

/// A Country element holding its triplets as raw bytes.
#[derive(Debug, Clone, PartialEq, Eq, Hash)]
pub struct Country {
    country_code: [u8; 2],
    environment: u8,
    triplets: Vec<u8>,
}

/// The subbands found in the first `k` triplets of `t`, with the operating information in
/// force after them. A triplet whose first byte is at most 233 describes a subband, which takes
/// the most recent operating information; any other triplet replaces that information.
pub open spec fn subband_scan(t: Seq<u8>, k: int) -> (Seq<SubbandInfo>, Option<OperatingInfo>)
    decreases k,
{
    if k <= 0 {
        (seq![], None)
    } else {
        let (subs, last) = subband_scan(t, k - 1);
        let a = t[3 * (k - 1)];
        let b = t[3 * (k - 1) + 1];
        let c = t[3 * (k - 1) + 2];
        if a <= 233 {
            (
                subs.push(
                    SubbandInfo {
                        first_channel_number: a,
                        number_of_channels: b,
                        max_transmit_power_level_dbm: c as i8,
                        operating_info: last,
                    },
                ),
                last,
            )
        } else {
            (
                subs,
                Some(
                    OperatingInfo {
                        operating_extension_id: a,
                        operating_class: b,
                        coverage_class: c,
                    },
                ),
            )
        }
    }
}

impl Country {
    pub const NAME: &'static str = "Country";
    pub const ID: u8 = 7;
    pub const ID_EXT: Option<u8> = None;
    pub const MIN_LENGTH: usize = 6;

    /// The two country code bytes.
    pub closed spec fn spec_country_code(&self) -> Seq<u8> {
        self.country_code@
    }

    /// The environment byte.
    pub closed spec fn spec_environment(&self) -> u8 {
        self.environment
    }

    /// The bytes after the environment byte.
    pub closed spec fn spec_triplets(&self) -> Seq<u8> {
        self.triplets@
    }

    /// Parses an element body: two code bytes, the environment byte, then the triplet bytes.
    /// `None` when the body is shorter than three bytes.
    pub fn from_bytes(bytes: &[u8]) -> (r: Option<Country>)
        ensures
            r is Some <==> bytes@.len() >= 3,
            r matches Some(c) ==> c.spec_country_code() == bytes@.subrange(0, 2)
                && c.spec_environment() == bytes@[2] && c.spec_triplets() == bytes@.subrange(
                3,
                bytes@.len() as int,
            ),
    {
        if bytes.len() < 3 {
            return None;
        }
        let code: [u8; 2] = [bytes[0], bytes[1]];
        proof {
            assert(code@ =~= bytes@.subrange(0, 2));
        }
        let rest = vstd::slice::slice_subrange(bytes, 3, bytes.len());
        Some(Country { country_code: code, environment: bytes[2], triplets: vstd::slice::slice_to_vec(rest) })
    }

    /// The country code as text, or `??` when its bytes are not UTF-8.
    pub fn country_code(&self) -> (s: &str)
        ensures
            country_code_text(self.spec_country_code(), s),
    {
        proof {
            reveal_strlit("??");
        }
        match str_from_utf8(self.country_code.as_slice()) {
            Ok(s) => s,
            Err(_) => "??",
        }
    }

    /// The environment the regulations apply to.
    pub fn environment(&self) -> (e: Environment)
        ensures
            e == Environment::spec_from_byte(self.spec_environment()),
    {
        Environment::from_byte(self.environment)
    }

    /// The subbands of the element, in order. Each whole three-byte triplet is read; a trailing
    /// partial triplet is ignored.
    pub fn subband_info(&self) -> (v: Vec<SubbandInfo>)
        ensures
            v@ == subband_scan(self.spec_triplets(), (self.spec_triplets().len() / 3) as int).0,
    {
        let t = self.triplets.as_slice();
        let len = t.len();
        let n = len / 3;
        let mut subbands: Vec<SubbandInfo> = Vec::new();
        let mut last: Option<OperatingInfo> = None;
        let mut k: usize = 0;
        assert(3 * n <= t@.len());
        while k < n
            invariant
                t@ == self.spec_triplets(),
                n == t@.len() / 3,
                3 * n <= t@.len(),
                len == t@.len(),
                k <= n,
                (subbands@, last) == subband_scan(t@, k as int),
            decreases n - k,
        {
            assert(3 * k + 3 <= 3 * n);
            let a = t[3 * k];
            let b = t[3 * k + 1];
            let c = t[3 * k + 2];
            if a <= 233 {
                subbands.push(
                    SubbandInfo {
                        first_channel_number: a,
                        number_of_channels: b,
                        max_transmit_power_level_dbm: c as i8,
                        operating_info: last,
                    },
                );
            } else {
                last = Some(
                    OperatingInfo { operating_extension_id: a, operating_class: b, coverage_class: c },
                );
            }
            k = k + 1;
        }
        subbands
    }
}

/// Operating information from a Country element triplet.
#[derive(Debug, Clone, Copy, PartialEq, Eq, Structural)]
pub struct OperatingInfo {
    pub operating_extension_id: u8,
    pub operating_class: u8,
    pub coverage_class: u8,
}

impl OperatingInfo {
    /// The air propagation time in microseconds: three times the coverage class, for coverage
    /// classes 0 to 31; `None` above.
    pub fn air_propagation_time_us(&self) -> (t: Option<u16>)
        ensures
            self.coverage_class <= 31 ==> t == Some((self.coverage_class * 3) as u16),
            self.coverage_class > 31 ==> t is None,
    {
        if self.coverage_class <= 31 {
            Some(self.coverage_class as u16 * 3)
        } else {
            None
        }
    }

    /// The multi-line description.
    pub open spec fn spec_text(&self) -> Seq<char> {
        "Operating Info:\n\tOperating Extension ID: "@ + decimal(self.operating_extension_id as nat)
            + "\n\tOperating Class: "@ + decimal(self.operating_class as nat)
            + "\r\n\tCoverage Class: "@ + decimal(self.coverage_class as nat) + "\r\n\t"@
    }

    /// A multi-line description of the operating information.
    pub fn to_string(&self) -> (s: String)
        ensures
            s@ == self.spec_text(),
    {
        let mut s = String::from_str("Operating Info:\n\tOperating Extension ID: ");
        s.append(u64_text(self.operating_extension_id as u64).as_str());
        s.append("\n\tOperating Class: ");
        s.append(u64_text(self.operating_class as u64).as_str());
        s.append("\r\n\tCoverage Class: ");
        s.append(u64_text(self.coverage_class as u64).as_str());
        s.append("\r\n\t");
        s
    }
}

/// A subband from a Country element: a run of channels with a transmit power limit.
#[derive(Debug, Clone, PartialEq, Eq, Structural)]
pub struct SubbandInfo {
    pub first_channel_number: u8,
    pub number_of_channels: u8,
    pub max_transmit_power_level_dbm: i8,
    pub operating_info: Option<OperatingInfo>,
}

impl SubbandInfo {
    /// The multi-line description.
    pub open spec fn spec_text(&self) -> Seq<char> {
        "Subband Info:\n\tFirst Channel Number: "@ + decimal(self.first_channel_number as nat)
            + "\n\tNumber of Channels: "@ + decimal(self.number_of_channels as nat)
            + "\n\tMaximum Transmit Power Level: "@ + signed_decimal(
            self.max_transmit_power_level_dbm as int,
        ) + " dBm"@
    }

    /// A multi-line description of the subband.
    pub fn to_string(&self) -> (s: String)
        ensures
            s@ == self.spec_text(),
    {
        let mut s = String::from_str("Subband Info:\n\tFirst Channel Number: ");
        s.append(u64_text(self.first_channel_number as u64).as_str());
        s.append("\n\tNumber of Channels: ");
        s.append(u64_text(self.number_of_channels as u64).as_str());
        s.append("\n\tMaximum Transmit Power Level: ");
        s.append(i64_text(self.max_transmit_power_level_dbm as i64).as_str());
        s.append(" dBm");
        s
    }
}

} // verus!
