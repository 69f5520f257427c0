//! The Roaming Consortium element.
use vstd::prelude::*;

use crate::bits::{
    bit_set, bits_value, lemma_bits_value_bound, lemma_two_pow_64, lemma_two_pow_monotone, read_bit,
    read_bits, read_u16_bits, read_u8_bits,
};
use crate::ies::field::{
    bit_field, bit_field_is, bit_field_with_units, reserved_bits, reserved_field_is, BitRange,
    Field,
};
use crate::bits::lemma_bits_shift;
use crate::ies::field::{byte_field, byte_field_is, bytes_field, bytes_field_is};
use crate::text::{hex_joined, hex_joined_string, bool_string, bool_text, decimal, owned, paren_decimal, paren_text, u64_text};

verus! {

/// The OI lengths byte of a Roaming Consortium element.
#[derive(Debug, Clone, Copy, PartialEq, Eq, Hash)]
pub struct OiLengths {
    bytes: [u8; 1],
}

impl OiLengths {
    /// The encoded length in bytes.
    pub const LENGTH: usize = 1;

    /// Whether `bytes` (exactly 1 of them) encode a valid value.
    pub open spec fn spec_valid(bytes: Seq<u8>) -> bool {
        bytes.len() == 1
    }

    /// The encoded bytes.
    pub closed spec fn raw(&self) -> Seq<u8> {
        self.bytes@
    }

    /// Every value is encoded in exactly 1 bytes.
    pub proof fn lemma_raw_len(&self)
        ensures
            self.raw().len() == 1,
    {
    }

    /// Decodes the value from the first 1 bytes of `bytes`. `None` when there are fewer
    /// bytes or they do not encode a valid value.
    pub fn from_bytes(bytes: &[u8]) -> (r: Option<OiLengths>)
        ensures
            r is Some <==> bytes@.len() >= 1 && Self::spec_valid(bytes@.subrange(0, 1)),
            r matches Some(v) ==> v.raw() == bytes@.subrange(0, 1),
    {
        if bytes.len() < 1 {
            return None;
        }
        let a: [u8; 1] = [bytes[0]];
        proof {
            assert(a@ =~= bytes@.subrange(0, 1));
        }
        Some(OiLengths { bytes: a })
    }

    /// The encoded bytes.
    pub fn to_bytes(&self) -> (v: Vec<u8>)
        ensures
            v@ == self.raw(),
    {
        vstd::slice::slice_to_vec(self.bytes.as_slice())
    }

    /// The "OI 1 Length" subfield (bits 0-3).
    pub open spec fn spec_oi_1_length(&self) -> u8 {
        bits_value(self.raw(), 0, 4) as u8
    }

    /// The "OI 1 Length" subfield (bits 0-3).
    pub fn oi_1_length(&self) -> (v: u8)
        ensures
            v == self.spec_oi_1_length(),
            v == bits_value(self.raw(), 0, 4),
    {
        read_u8_bits(self.bytes.as_slice(), 0, 4)
    }

    /// The "OI 2 Length" subfield (bits 4-7).
    pub open spec fn spec_oi_2_length(&self) -> u8 {
        bits_value(self.raw(), 4, 4) as u8
    }

    /// The "OI 2 Length" subfield (bits 4-7).
    pub fn oi_2_length(&self) -> (v: u8)
        ensures
            v == self.spec_oi_2_length(),
            v == bits_value(self.raw(), 4, 4),
    {
        read_u8_bits(self.bytes.as_slice(), 4, 4)
    }

    /// Whether `f` is the displayable field of this value: one subfield per bit field.
    pub open spec fn field_shows(&self, f: Field) -> bool {
        &&& f.title@ == "OI Lengths"@
        &&& f.value@ == ""@
        &&& f.byte == Some(self.raw()[0])
        &&& f.bytes is None
        &&& f.bits is None
        &&& f.units is None
        &&& f.subfields@.len() == 2
        &&& bit_field_is(f.subfields@[0], "OI 1 Length"@, decimal(self.spec_oi_1_length() as nat), None, self.raw(), 0, 4)
        &&& bit_field_is(f.subfields@[1], "OI 2 Length"@, decimal(self.spec_oi_2_length() as nat), None, self.raw(), 4, 4)
    }

    /// The value as a displayable field with one subfield per bit field.
    pub fn to_field(&self) -> (f: Field)
        ensures
            self.field_shows(f),
    {
        let bytes = self.bytes.as_slice();
        let mut subfields: Vec<Field> = Vec::new();
        subfields.push(bit_field("OI 1 Length", u64_text(self.oi_1_length() as u64), bytes, 0, 4));
        subfields.push(bit_field("OI 2 Length", u64_text(self.oi_2_length() as u64), bytes, 4, 4));
        Field::new("OI Lengths", "").with_byte(self.bytes[0]).with_subfields(subfields)
    }

}

/// A Roaming Consortium element: the number of ANQP OIs and up to three OIs.
#[derive(Debug, Clone, PartialEq, Eq, Hash)]
pub struct RoamingConsortium {
    pub number_of_anqp_ois: u8,
    pub oi_1_and_2_lengths: OiLengths,
    pub oi_1: Vec<u8>,
    pub oi_2: Option<Vec<u8>>,
    pub oi_3: Option<Vec<u8>>,
}

/// An OI as colon-separated hex pairs, for example `50:6F:9A`.
pub open spec fn oi_text(oi: Seq<u8>) -> Seq<char> {
    hex_joined(oi, ":"@)
}

impl RoamingConsortium {
    pub const NAME: &'static str = "Roaming Consortium";
    pub const ID: u8 = 111;
    pub const ID_EXT: Option<u8> = None;
    /// Whether the element is the one read from body `b`: the ANQP OI count, the OI lengths,
    /// then OI 1, OI 2 when its length is not zero, and OI 3 when bytes remain.
    pub open spec fn spec_parsed_from(&self, b: Seq<u8>) -> bool {
        &&& b.len() >= 2
        &&& b.len() >= 2 + bits_value(b, 8, 4) + bits_value(b, 12, 4)
        &&& {
            let l1 = self.oi_1_and_2_lengths.spec_oi_1_length() as int;
            let l2 = self.oi_1_and_2_lengths.spec_oi_2_length() as int;
            &&& self.number_of_anqp_ois == b[0]
            &&& self.oi_1_and_2_lengths.raw() == b.subrange(1, 2)
            &&& self.oi_1@ == b.subrange(2, 2 + l1)
            &&& (self.oi_2 is Some <==> l2 > 0)
            &&& (self.oi_2 matches Some(o) ==> o@ == b.subrange(2 + l1, 2 + l1 + l2))
            &&& (self.oi_3 is Some <==> b.len() > 2 + l1 + l2)
            &&& (self.oi_3 matches Some(o) ==> o@ == b.subrange(2 + l1 + l2, b.len() as int))
        }
    }

    /// Parses the element body: the OI count, the lengths byte, OI 1, OI 2 when its length is
    /// nonzero, and OI 3 from whatever remains. `None` when the body is shorter than the two
    /// announced OIs.
    pub fn from_bytes(bytes: &[u8]) -> (r: Option<RoamingConsortium>)
        ensures
            r is Some <==> bytes@.len() >= 2 && bytes@.len() >= 2 + bits_value(bytes@, 8, 4) + bits_value(bytes@, 12, 4),
            r matches Some(x) ==> x.spec_parsed_from(bytes@),
    {
        let len = bytes.len();
        if len < 2 {
            return None;
        }
        let ls = vstd::slice::slice_subrange(bytes, 1, 2);
        proof {
            assert(ls@.subrange(0, 1) =~= ls@);
            assert(bytes@.subrange(1, 2) == ls@);
            lemma_bits_shift(bytes@, ls@, 1, 0, 4);
            lemma_bits_shift(bytes@, ls@, 1, 4, 4);
        }
        let lengths = OiLengths::from_bytes(ls).unwrap();
        let l1 = lengths.oi_1_length() as usize;
        let l2 = lengths.oi_2_length() as usize;
        if len < 2 + l1 + l2 {
            return None;
        }
        let oi_1 = vstd::slice::slice_to_vec(vstd::slice::slice_subrange(bytes, 2, 2 + l1));
        let oi_2 = if l2 > 0 {
            Some(vstd::slice::slice_to_vec(vstd::slice::slice_subrange(bytes, 2 + l1, 2 + l1 + l2)))
        } else {
            None
        };
        let oi_3 = if len > 2 + l1 + l2 {
            Some(vstd::slice::slice_to_vec(vstd::slice::slice_subrange(bytes, 2 + l1 + l2, len)))
        } else {
            None
        };
        Some(RoamingConsortium { number_of_anqp_ois: bytes[0], oi_1_and_2_lengths: lengths, oi_1, oi_2, oi_3 })
    }

    /// The one-line summary.
    pub open spec fn spec_summary(&self) -> Seq<char> {
        if self.number_of_anqp_ois == 1 {
            "1 ANQP OI"@
        } else {
            decimal(self.number_of_anqp_ois as nat) + " ANQP OIs"@
        }
    }

    /// A one-line summary, for example `2 ANQP OIs`.
    pub fn summary(&self) -> (s: String)
        ensures
            s@ == self.spec_summary(),
    {
        if self.number_of_anqp_ois == 1 {
            owned("1 ANQP OI")
        } else {
            let mut s = u64_text(self.number_of_anqp_ois as u64);
            s.append(" ANQP OIs");
            s
        }
    }

    /// The element's fields: the OI count, the lengths, then each OI present.
    pub fn fields(&self) -> (v: Vec<Field>)
        ensures
            v@.len() == 3 + (if self.oi_2 is Some { 1int } else { 0int }) + (if self.oi_3 is Some { 1int } else { 0int }),
            byte_field_is(v@[0], "Number of ANQP OIs"@, decimal(self.number_of_anqp_ois as nat), None, self.number_of_anqp_ois),
            self.oi_1_and_2_lengths.field_shows(v@[1]),
            bytes_field_is(v@[2], "OI 1"@, oi_text(self.oi_1@), None, self.oi_1@),
            self.oi_2 matches Some(o) ==> bytes_field_is(v@[3], "OI 2"@, oi_text(o@), None, o@),
            self.oi_3 matches Some(o) ==> bytes_field_is(v@[v@.len() - 1], "OI 3"@, oi_text(o@), None, o@),
    {
        let mut v: Vec<Field> = Vec::new();
        v.push(byte_field("Number of ANQP OIs", u64_text(self.number_of_anqp_ois as u64), self.number_of_anqp_ois));
        v.push(self.oi_1_and_2_lengths.to_field());
        v.push(bytes_field("OI 1", hex_joined_string(self.oi_1.as_slice(), ":"), vstd::slice::slice_to_vec(self.oi_1.as_slice())));
        if let Some(o) = &self.oi_2 {
            v.push(bytes_field("OI 2", hex_joined_string(o.as_slice(), ":"), vstd::slice::slice_to_vec(o.as_slice())));
        }
        if let Some(o) = &self.oi_3 {
            v.push(bytes_field("OI 3", hex_joined_string(o.as_slice(), ":"), vstd::slice::slice_to_vec(o.as_slice())));
        }
        v
    }
}

} // verus!
