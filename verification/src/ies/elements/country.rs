//! The Country element: the regulatory domain an access point operates under.
use core::str::Utf8Error;
use vstd::prelude::*;
use vstd::string::StringSliceAdditionalSpecFns;
use vstd::utf8::valid_utf8;

use crate::ies::field::{byte_field, byte_field_is, byte_field_with_units, bytes_field, bytes_field_is, Field};
use crate::text::{decimal, i64_text, signed_decimal, u64_text};
use crate::utf8::str_from_utf8;

verus! {

/// A Country element: country code, environment and the regulatory triplets.
#[derive(Debug, Clone, PartialEq, Eq, Hash)]
pub struct Country {
    pub country_code: [u8; 2],
    pub environment: u8,
    pub triplets: Vec<Triplet>,
    /// The padding byte that follows the triplets when the body length calls for one.
    pub padding: Option<u8>,
}

/// The triplet encoded by three bytes: a first byte up to 200 opens a subband, a larger one
/// carries operating information.
pub open spec fn spec_triplet(a: u8, b: u8, c: u8) -> Triplet {
    if a <= 200 {
        Triplet::SubbandInfo {
            first_channel_number: a,
            number_of_channels: b,
            max_transmit_power_level: c as i8,
        }
    } else {
        Triplet::OperatingInfo { operating_extension_id: a, operating_class: b, coverage_class: c }
    }
}

/// The text a two-byte country code shows: the code itself when it is UTF-8, otherwise `??`.
pub open spec fn country_code_text(code: Seq<u8>, s: &str) -> bool {
    if valid_utf8(code) {
        s.spec_bytes() == code
    } else {
        s@ == "??"@
    }
}

impl Country {
    pub const NAME: &'static str = "Country";
    pub const ID: u8 = 7;
    pub const ID_EXT: Option<u8> = None;
    pub const MIN_LENGTH: usize = 6;
    /// Whether the element is the one read from body `b`: the code, the environment, one
    /// triplet per whole three bytes after them, and the padding byte when exactly one byte is
    /// left over.
    pub open spec fn spec_parsed_from(&self, b: Seq<u8>) -> bool {
        let n = (b.len() - 3) / 3;
        &&& b.len() >= 3
        &&& self.country_code@ == b.subrange(0, 2)
        &&& self.environment == b[2]
        &&& self.triplets@.len() == n
        &&& forall|i: int| 0 <= i < n ==> #[trigger] self.triplets@[i] == spec_triplet(b[3 + 3 * i], b[4 + 3 * i], b[5 + 3 * i])
        &&& self.padding == if (b.len() - 3) % 3 == 1 {
            Some(b[b.len() - 1])
        } else {
            None
        }
    }

    /// Parses an element body: two code bytes, the environment byte, as many whole triplets as
    /// fit, and one padding byte when exactly one byte is left over. `None` when the body is
    /// shorter than three bytes.
    pub fn from_bytes(bytes: &[u8]) -> (r: Option<Country>)
        ensures
            r is Some <==> bytes@.len() >= 3,
            r matches Some(c) ==> c.spec_parsed_from(bytes@),
    {
        let len = bytes.len();
        if len < 3 {
            return None;
        }
        let n = (len - 3) / 3;
        let mut triplets: Vec<Triplet> = Vec::new();
        let mut i: usize = 0;
        while i < n
            invariant
                n == (bytes@.len() - 3) / 3,
                len == bytes@.len(),
                i <= n,
                triplets@.len() == i,
                forall|j: int|
                    0 <= j < i ==> #[trigger] triplets@[j] == spec_triplet(
                        bytes@[3 + 3 * j],
                        bytes@[4 + 3 * j],
                        bytes@[5 + 3 * j],
                    ),
            decreases n - i,
        {
            let k = 3 + 3 * i;
            triplets.push(Triplet::from_parts(bytes[k], bytes[k + 1], bytes[k + 2]));
            i = i + 1;
        }
        let padding = if (len - 3) % 3 == 1 {
            Some(bytes[len - 1])
        } else {
            None
        };
        let code: [u8; 2] = [bytes[0], bytes[1]];
        proof {
            assert(code@ =~= bytes@.subrange(0, 2));
        }
        Some(Country { country_code: code, environment: bytes[2], triplets, padding })
    }

    /// The country code as text, or `??` when its bytes are not UTF-8.
    pub fn country_code(&self) -> (s: &str)
        ensures
            country_code_text(self.country_code@, s),
    {
        proof {
            reveal_strlit("??");
        }
        match str_from_utf8(self.country_code.as_slice()) {
            Ok(s) => s,
            Err(_) => "??",
        }
    }

    /// The environment the regulations apply to.
    pub fn environment(&self) -> (e: Environment)
        ensures
            e == Environment::spec_from_byte(self.environment),
    {
        Environment::from_byte(self.environment)
    }

    /// A one-line summary, for example `US (Indoor)`.
    pub fn summary(&self) -> (s: String)
        ensures
            exists|code: &str|
                country_code_text(self.country_code@, code) && s@ == code@ + " ("@
                    + Environment::spec_from_byte(self.environment).spec_text() + ")"@,
    {
        let code = self.country_code();
        let mut s = String::from_str(code);
        s.append(" (");
        s.append(self.environment().to_str());
        s.append(")");
        s
    }

    /// The element's fields: the country code, the environment, then one field per triplet.
    pub fn fields(&self) -> (v: Vec<Field>)
        ensures
            v@.len() == 2 + self.triplets@.len(),
            v@[0].title@ == "Country Code"@,
            v@[0].bytes matches Some(b) && b@ == self.country_code@,
            exists|code: &str|
                country_code_text(self.country_code@, code) && bytes_field_is(
                    v@[0],
                    "Country Code"@,
                    code@,
                    None,
                    self.country_code@,
                ),
            byte_field_is(
                v@[1],
                "Environment"@,
                Environment::spec_from_byte(self.environment).spec_text(),
                None,
                self.environment,
            ),
            forall|i: int|
                0 <= i < self.triplets@.len() ==> #[trigger] self.triplets@[i].field_shows(
                    v@[2 + i],
                ),
    {
        let mut v: Vec<Field> = Vec::new();
        let code = self.country_code();
        v.push(bytes_field("Country Code", String::from_str(code), vstd::slice::slice_to_vec(self.country_code.as_slice())));
        v.push(byte_field("Environment", String::from_str(self.environment().to_str()), self.environment));
        let mut i: usize = 0;
        while i < self.triplets.len()
            invariant
                i <= self.triplets@.len(),
                v@.len() == 2 + i,
                country_code_text(self.country_code@, code),
                bytes_field_is(v@[0], "Country Code"@, code@, None, self.country_code@),
                byte_field_is(
                    v@[1],
                    "Environment"@,
                    Environment::spec_from_byte(self.environment).spec_text(),
                    None,
                    self.environment,
                ),
                forall|j: int| 0 <= j < i ==> #[trigger] self.triplets@[j].field_shows(v@[2 + j]),
            decreases self.triplets@.len() - i,
        {
            v.push(self.triplets[i].to_field());
            i = i + 1;
        }
        v
    }
}

/// The environment a Country element's regulations apply to.
#[derive(Debug, Clone, Copy, PartialEq, Eq, Structural, Hash)]
pub enum Environment {
    Any,
    Outdoor,
    Indoor,
}

impl Environment {
    /// `O` means outdoor, `I` indoor, and every other byte any environment.
    pub open spec fn spec_from_byte(value: u8) -> Environment {
        if value == 79 {
            Environment::Outdoor
        } else if value == 73 {
            Environment::Indoor
        } else {
            Environment::Any
        }
    }

    /// The environment a byte stands for: `O` outdoor, `I` indoor, anything else any.
    pub fn from_byte(value: u8) -> (e: Environment)
        ensures
            e == Self::spec_from_byte(value),
    {
        if value == 79 {
            Environment::Outdoor
        } else if value == 73 {
            Environment::Indoor
        } else {
            Environment::Any
        }
    }

    /// The environment byte is the initial of the environment it names: a byte whose
    /// environment is not "any" is the first letter of that environment's name (`I` for
    /// Indoor, `O` for Outdoor), and exactly the bytes `I` and `O` name one.
    pub proof fn lemma_byte_is_initial(value: u8)
        ensures
            Self::spec_from_byte(value) != Environment::Any <==> (value == 73 || value == 79),
            Self::spec_from_byte(value) != Environment::Any ==> Self::spec_from_byte(value).spec_text().len() > 0
                && Self::spec_from_byte(value).spec_text()[0] == value as char,
    {
        reveal_strlit("Indoor");
        reveal_strlit("Outdoor");
    }

    /// The environment's name.
    pub open spec fn spec_text(self) -> Seq<char> {
        match self {
            Environment::Any => "Any"@,
            Environment::Outdoor => "Outdoor"@,
            Environment::Indoor => "Indoor"@,
        }
    }

    /// The environment's name.
    pub fn to_str(&self) -> (s: &'static str)
        ensures
            s@ == self.spec_text(),
    {
        match self {
            Environment::Any => "Any",
            Environment::Outdoor => "Outdoor",
            Environment::Indoor => "Indoor",
        }
    }

    /// The environment's name, for example `Indoor`.
    pub fn to_string(&self) -> (s: String)
        ensures
            s@ == self.spec_text(),
    {
        String::from_str(self.to_str())
    }
}

/// One regulatory triplet of a Country element.
#[derive(Debug, Clone, Copy, PartialEq, Eq, Structural, Hash)]
pub enum Triplet {
    SubbandInfo { first_channel_number: u8, number_of_channels: u8, max_transmit_power_level: i8 },
    OperatingInfo { operating_extension_id: u8, operating_class: u8, coverage_class: u8 },
}

impl Triplet {
    /// The three bytes of the triplet.
    pub open spec fn spec_bytes(self) -> Seq<u8> {
        match self {
            Triplet::SubbandInfo {
                first_channel_number,
                number_of_channels,
                max_transmit_power_level,
            } => seq![first_channel_number, number_of_channels, max_transmit_power_level as u8],
            Triplet::OperatingInfo { operating_extension_id, operating_class, coverage_class } => seq![
                operating_extension_id,
                operating_class,
                coverage_class,
            ],
        }
    }

    /// Decodes a triplet from its three bytes.
    pub fn from_parts(a: u8, b: u8, c: u8) -> (t: Triplet)
        ensures
            t == spec_triplet(a, b, c),
            t.spec_bytes() == seq![a, b, c],
    {
        proof {
            assert((c as i8) as u8 == c) by (bit_vector);
        }
        if a <= 200 {
            Triplet::SubbandInfo {
                first_channel_number: a,
                number_of_channels: b,
                max_transmit_power_level: c as i8,
            }
        } else {
            Triplet::OperatingInfo { operating_extension_id: a, operating_class: b, coverage_class: c }
        }
    }

    /// The three bytes of the triplet.
    pub fn to_bytes(&self) -> (v: Vec<u8>)
        ensures
            v@ == self.spec_bytes(),
    {
        let mut v: Vec<u8> = Vec::new();
        match *self {
            Triplet::SubbandInfo { first_channel_number, number_of_channels, max_transmit_power_level } => {
                v.push(first_channel_number);
                v.push(number_of_channels);
                v.push(max_transmit_power_level as u8);
            },
            Triplet::OperatingInfo { operating_extension_id, operating_class, coverage_class } => {
                v.push(operating_extension_id);
                v.push(operating_class);
                v.push(coverage_class);
            },
        }
        proof {
            assert(v@ =~= self.spec_bytes());
        }
        v
    }

    /// Whether `f` is the displayable field of this triplet.
    pub open spec fn field_shows(self, f: Field) -> bool {
        &&& f.value@ == ""@
        &&& f.bytes matches Some(b) && b@ == self.spec_bytes()
        &&& f.byte is None
        &&& f.bits is None
        &&& f.units is None
        &&& f.subfields@.len() == 3
        &&& match self {
            Triplet::SubbandInfo {
                first_channel_number,
                number_of_channels,
                max_transmit_power_level,
            } => {
                &&& f.title@ == "Subband Info"@
                &&& byte_field_is(f.subfields@[0], "First Channel Number"@, decimal(first_channel_number as nat), None, first_channel_number)
                &&& byte_field_is(f.subfields@[1], "Number of Channels"@, decimal(number_of_channels as nat), None, number_of_channels)
                &&& byte_field_is(f.subfields@[2], "Max Tx Power Level"@, signed_decimal(max_transmit_power_level as int), Some("dBm"@), max_transmit_power_level as u8)
            },
            Triplet::OperatingInfo { operating_extension_id, operating_class, coverage_class } => {
                &&& f.title@ == "Operating Info"@
                &&& byte_field_is(f.subfields@[0], "Operating Extension ID"@, decimal(operating_extension_id as nat), None, operating_extension_id)
                &&& byte_field_is(f.subfields@[1], "Operating Class"@, decimal(operating_class as nat), None, operating_class)
                &&& byte_field_is(f.subfields@[2], "Coverage Class"@, decimal(coverage_class as nat), None, coverage_class)
            },
        }
    }

    /// The triplet as a displayable field with its three bytes and one subfield per byte.
    pub fn to_field(&self) -> (f: Field)
        ensures
            self.field_shows(f),
    {
        let mut sub: Vec<Field> = Vec::new();
        match *self {
            Triplet::SubbandInfo { first_channel_number, number_of_channels, max_transmit_power_level } => {
                sub.push(byte_field("First Channel Number", u64_text(first_channel_number as u64), first_channel_number));
                sub.push(byte_field("Number of Channels", u64_text(number_of_channels as u64), number_of_channels));
                sub.push(byte_field_with_units("Max Tx Power Level", i64_text(max_transmit_power_level as i64), "dBm", max_transmit_power_level as u8));
                Field::new("Subband Info", "").with_subfields(sub).with_bytes(self.to_bytes())
            },
            Triplet::OperatingInfo { operating_extension_id, operating_class, coverage_class } => {
                sub.push(byte_field("Operating Extension ID", u64_text(operating_extension_id as u64), operating_extension_id));
                sub.push(byte_field("Operating Class", u64_text(operating_class as u64), operating_class));
                sub.push(byte_field("Coverage Class", u64_text(coverage_class as u64), coverage_class));
                Field::new("Operating Info", "").with_subfields(sub).with_bytes(self.to_bytes())
            },
        }
    }
}

} // verus!
