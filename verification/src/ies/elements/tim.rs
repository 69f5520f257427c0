//! The TIM element: which stations have buffered traffic.
use vstd::prelude::*;

use crate::bits::{
    bit_set, bits_value, lemma_bits_value_bound, lemma_two_pow_64, lemma_two_pow_monotone, read_bit,
    read_bits, read_u16_bits, read_u8_bits,
};
use crate::ies::field::{
    bit_field, bit_field_is, bit_field_with_units, reserved_bits, reserved_field_is, BitRange,
    Field,
};
use crate::ies::field::{byte_field, byte_field_is};
use crate::text::{bool_string, bool_text, decimal, owned, paren_decimal, paren_text, u64_text};

verus! {

/// The Bitmap Control field of a TIM element.
#[derive(Debug, Clone, Copy, PartialEq, Eq, Hash)]
pub struct BitmapControl {
    bytes: [u8; 1],
}

impl BitmapControl {
    /// The encoded length in bytes.
    pub const LENGTH: usize = 1;

    /// Whether `bytes` (exactly 1 of them) encode a valid value.
    pub open spec fn spec_valid(bytes: Seq<u8>) -> bool {
        bytes.len() == 1
    }

    /// The encoded bytes.
    pub closed spec fn raw(&self) -> Seq<u8> {
        self.bytes@
    }

    /// Every value is encoded in exactly 1 bytes.
    pub proof fn lemma_raw_len(&self)
        ensures
            self.raw().len() == 1,
    {
    }

    /// Decodes the value from the first 1 bytes of `bytes`. `None` when there are fewer
    /// bytes or they do not encode a valid value.
    pub fn from_bytes(bytes: &[u8]) -> (r: Option<BitmapControl>)
        ensures
            r is Some <==> bytes@.len() >= 1 && Self::spec_valid(bytes@.subrange(0, 1)),
            r matches Some(v) ==> v.raw() == bytes@.subrange(0, 1),
    {
        if bytes.len() < 1 {
            return None;
        }
        let a: [u8; 1] = [bytes[0]];
        proof {
            assert(a@ =~= bytes@.subrange(0, 1));
        }
        Some(BitmapControl { bytes: a })
    }

    /// The encoded bytes.
    pub fn to_bytes(&self) -> (v: Vec<u8>)
        ensures
            v@ == self.raw(),
    {
        vstd::slice::slice_to_vec(self.bytes.as_slice())
    }

    /// The "Traffic Indicator" subfield (bit 0).
    pub open spec fn spec_traffic_indicator(&self) -> bool {
        bit_set(self.raw(), 0)
    }

    /// The "Traffic Indicator" subfield (bit 0).
    pub fn traffic_indicator(&self) -> (b: bool)
        ensures
            b == self.spec_traffic_indicator(),
    {
        read_bit(self.bytes.as_slice(), 0)
    }

    /// The "Bitmap Offset" subfield (bits 1-7).
    pub open spec fn spec_bitmap_offset(&self) -> u8 {
        bits_value(self.raw(), 1, 7) as u8
    }

    /// The "Bitmap Offset" subfield (bits 1-7).
    pub fn bitmap_offset(&self) -> (v: u8)
        ensures
            v == self.spec_bitmap_offset(),
            v == bits_value(self.raw(), 1, 7),
    {
        read_u8_bits(self.bytes.as_slice(), 1, 7)
    }

    /// Whether `f` is the displayable field of this value: one subfield per bit field.
    pub open spec fn field_shows(&self, f: Field) -> bool {
        &&& f.title@ == "Bitmap Control"@
        &&& f.value@ == ""@
        &&& f.byte == Some(self.raw()[0])
        &&& f.bytes is None
        &&& f.bits is None
        &&& f.units is None
        &&& f.subfields@.len() == 2
        &&& bit_field_is(f.subfields@[0], "Traffic Indicator"@, bool_text(self.spec_traffic_indicator()), None, self.raw(), 0, 1)
        &&& bit_field_is(f.subfields@[1], "Bitmap Offset"@, decimal(self.spec_bitmap_offset() as nat), None, self.raw(), 1, 7)
    }

    /// The value as a displayable field with one subfield per bit field.
    pub fn to_field(&self) -> (f: Field)
        ensures
            self.field_shows(f),
    {
        let bytes = self.bytes.as_slice();
        let mut subfields: Vec<Field> = Vec::new();
        subfields.push(bit_field("Traffic Indicator", bool_string(self.traffic_indicator()), bytes, 0, 1));
        subfields.push(bit_field("Bitmap Offset", u64_text(self.bitmap_offset() as u64), bytes, 1, 7));
        Field::new("Bitmap Control", "").with_byte(self.bytes[0]).with_subfields(subfields)
    }

}

/// A TIM (traffic indication map) element.
#[derive(Debug, Clone, PartialEq, Eq, Hash)]
pub struct Tim {
    pub dtim_count: u8,
    pub dtim_period: u8,
    pub bitmap_control: Option<BitmapControl>,
    pub partial_virtual_bitmap: Option<Vec<u8>>,
}

impl Tim {
    pub const NAME: &'static str = "TIM";
    pub const ID: u8 = 5;
    pub const ID_EXT: Option<u8> = None;

    /// Whether the element is the one read from body `b`: the DTIM count and period, the
    /// bitmap control when there is a third byte, and the partial virtual bitmap when there are
    /// more.
    pub open spec fn spec_parsed_from(&self, b: Seq<u8>) -> bool {
        &&& b.len() >= 2
        &&& self.dtim_count == b[0]
        &&& self.dtim_period == b[1]
        &&& (self.bitmap_control is Some <==> b.len() >= 3)
        &&& (self.bitmap_control matches Some(c) ==> c.raw() == b.subrange(2, 3))
        &&& (self.partial_virtual_bitmap is Some <==> b.len() >= 4)
        &&& (self.partial_virtual_bitmap matches Some(p) ==> p@ == b.subrange(3, b.len() as int))
    }

    /// Parses the element body: DTIM count and period, then the bitmap control when the body
    /// has a third byte and the partial virtual bitmap when it has more. `None` when the body
    /// is shorter than two bytes.
    pub fn from_bytes(bytes: &[u8]) -> (r: Option<Tim>)
        ensures
            r is Some <==> bytes@.len() >= 2,
            r matches Some(t) ==> t.spec_parsed_from(bytes@),
    {
        let len = bytes.len();
        if len < 2 {
            return None;
        }
        let control = if len >= 3 {
            let s = vstd::slice::slice_subrange(bytes, 2, 3);
            proof {
                assert(s@.subrange(0, 1) =~= s@);
            }
            Some(BitmapControl::from_bytes(s).unwrap())
        } else {
            None
        };
        let bitmap = if len >= 4 {
            Some(vstd::slice::slice_to_vec(vstd::slice::slice_subrange(bytes, 3, len)))
        } else {
            None
        };
        Some(Tim { dtim_count: bytes[0], dtim_period: bytes[1], bitmap_control: control, partial_virtual_bitmap: bitmap })
    }

    /// Whether the beacon carrying this element is a DTIM: the DTIM count is zero.
    pub fn is_dtim(&self) -> (b: bool)
        ensures
            b == (self.dtim_count == 0),
    {
        self.dtim_count == 0
    }

    /// The one-line summary.
    pub open spec fn spec_summary(&self) -> Seq<char> {
        "DTIM Count: "@ + decimal(self.dtim_count as nat) + ", DTIM Period: "@ + decimal(self.dtim_period as nat)
    }

    /// A one-line summary, for example `DTIM Count: 0, DTIM Period: 3`.
    pub fn summary(&self) -> (s: String)
        ensures
            s@ == self.spec_summary(),
    {
        let mut s = owned("DTIM Count: ");
        s.append(u64_text(self.dtim_count as u64).as_str());
        s.append(", DTIM Period: ");
        s.append(u64_text(self.dtim_period as u64).as_str());
        s
    }

    /// The element's fields: DTIM count and period, then the bitmap control when present.
    pub fn fields(&self) -> (v: Vec<Field>)
        ensures
            v@.len() == 2 + if self.bitmap_control is Some { 1int } else { 0int },
            byte_field_is(v@[0], "DTIM Count"@, decimal(self.dtim_count as nat), None, self.dtim_count),
            byte_field_is(v@[1], "DTIM Period"@, decimal(self.dtim_period as nat), None, self.dtim_period),
            self.bitmap_control matches Some(c) ==> c.field_shows(v@[2]),
    {
        let mut v: Vec<Field> = Vec::new();
        v.push(byte_field("DTIM Count", u64_text(self.dtim_count as u64), self.dtim_count));
        v.push(byte_field("DTIM Period", u64_text(self.dtim_period as u64), self.dtim_period));
        if let Some(c) = self.bitmap_control {
            v.push(c.to_field());
        }
        v
    }
}

} // verus!
