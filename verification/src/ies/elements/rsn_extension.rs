//! The RSN Extension element.
use vstd::prelude::*;

use crate::bits::{
    bit_set, bits_value, lemma_bits_value_bound, lemma_two_pow_64, lemma_two_pow_monotone, read_bit,
    read_bits, read_u16_bits, read_u8_bits,
};
use crate::ies::field::{
    bit_field, bit_field_is, bit_field_with_units, reserved_bits, reserved_field_is, BitRange,
    Field,
};
use crate::bits::lemma_bits_prefix;
use crate::text::{bool_string, bool_text, decimal, owned, paren_decimal, paren_text, u64_text};

verus! {

/// The Extended RSN Capabilities field: its length in bytes less one (bits 0-3), two
/// capability bits, and reserved bits up to the announced length.
#[derive(Debug, Clone, PartialEq, Eq, Hash)]
pub struct ExtendedRsnCapabilities {
    bytes: Vec<u8>,
}

impl ExtendedRsnCapabilities {
    /// The encoded bytes.
    pub closed spec fn raw(&self) -> Seq<u8> {
        self.bytes@
    }

    /// The announced length, in bytes less one.
    pub open spec fn spec_field_length(&self) -> u8 {
        bits_value(self.raw(), 0, 4) as u8
    }

    /// The field takes as many bytes as its first four bits announce, plus one.
    pub open spec fn spec_wf(&self) -> bool {
        self.raw().len() == self.spec_field_length() + 1
    }

    /// Parses the field from the start of `bytes`: as many bytes as the first four bits
    /// announce, plus one. `None` when `bytes` is empty or too short.
    pub fn from_bytes(bytes: &[u8]) -> (r: Option<ExtendedRsnCapabilities>)
        ensures
            r is Some <==> bytes@.len() >= 1 && bytes@.len() >= bits_value(bytes@, 0, 4) + 1,
            r matches Some(c) ==> c.raw() == bytes@.subrange(0, bits_value(bytes@, 0, 4) as int + 1) && c.spec_wf(),
    {
        if bytes.len() < 1 {
            return None;
        }
        let n = read_u8_bits(bytes, 0, 4) as usize + 1;
        if bytes.len() < n {
            return None;
        }
        let c = ExtendedRsnCapabilities { bytes: vstd::slice::slice_to_vec(vstd::slice::slice_subrange(bytes, 0, n)) };
        proof {
            let s = bytes@.subrange(0, n as int);
            assert(c.raw() == s);
            assert(s.subrange(0, 1) =~= bytes@.subrange(0, 1));
            lemma_bits_prefix(bytes@, s, 0, 4);
        }
        Some(c)
    }

    /// The announced length, in bytes less one.
    pub fn field_length(&self) -> (v: u8)
        requires
            self.spec_wf(),
        ensures
            v == self.spec_field_length(),
    {
        read_u8_bits(self.bytes.as_slice(), 0, 4)
    }

    /// The "Protected TWT Operation Support" bit (bit 4).
    pub fn protected_twt_operation_support(&self) -> (b: bool)
        requires
            self.spec_wf(),
        ensures
            b == bit_set(self.raw(), 4),
    {
        read_bit(self.bytes.as_slice(), 4)
    }

    /// The "SAE Hash-to-Element" bit (bit 5).
    pub fn sae_hash_to_element(&self) -> (b: bool)
        requires
            self.spec_wf(),
        ensures
            b == bit_set(self.raw(), 5),
    {
        read_bit(self.bytes.as_slice(), 5)
    }

    /// Whether `f` is the displayable field of this value.
    pub open spec fn field_shows(&self, f: Field) -> bool {
        let b = self.raw();
        &&& f.title@ == "Extended RSN Capabilities"@
        &&& f.value@ == ""@
        &&& f.bytes matches Some(x) && x@ == b
        &&& f.byte is None
        &&& f.bits is None
        &&& f.units is None
        &&& f.subfields@.len() == 4
        &&& bit_field_is(f.subfields@[0], "Field Length"@, decimal(self.spec_field_length() as nat), Some(if self.spec_field_length() == 1 { "byte"@ } else { "bytes"@ }), b, 0, 4)
        &&& bit_field_is(f.subfields@[1], "Protected TWT Operation Support"@, bool_text(bit_set(b, 4)), None, b, 4, 1)
        &&& bit_field_is(f.subfields@[2], "SAE Hash-to-Element"@, bool_text(bit_set(b, 5)), None, b, 5, 1)
        &&& reserved_field_is(f.subfields@[3], b, 6, b.len() * 8 - 6)
    }

    /// The value as a displayable field; the reserved bits run to the end of the field.
    pub fn to_field(&self) -> (f: Field)
        requires
            self.spec_wf(),
        ensures
            self.field_shows(f),
    {
        let b = self.bytes.as_slice();
        let fl = self.field_length();
        let mut sub: Vec<Field> = Vec::new();
        sub.push(bit_field_with_units("Field Length", u64_text(fl as u64), owned(if fl == 1 { "byte" } else { "bytes" }), b, 0, 4));
        sub.push(bit_field("Protected TWT Operation Support", bool_string(self.protected_twt_operation_support()), b, 4, 1));
        sub.push(bit_field("SAE Hash-to-Element", bool_string(self.sae_hash_to_element()), b, 5, 1));
        sub.push(reserved_bits(b, 6, b.len() * 8 - 6));
        Field::new("Extended RSN Capabilities", "").with_bytes(vstd::slice::slice_to_vec(b)).with_subfields(sub)
    }
}

/// An RSN Extension element (RSNXE).
#[derive(Debug, Clone, PartialEq, Eq, Hash)]
pub struct RsnExtension {
    pub extended_rsn_capabilities: ExtendedRsnCapabilities,
}

impl RsnExtension {
    pub const NAME: &'static str = "RSNXE";
    pub const ID: u8 = 244;
    pub const ID_EXT: Option<u8> = None;

    /// Parses the element body, which holds the extended capabilities. `None` when it is
    /// empty or shorter than they announce.
    pub fn from_bytes(bytes: &[u8]) -> (r: Option<RsnExtension>)
        ensures
            r is Some <==> bytes@.len() >= 1 && bytes@.len() >= bits_value(bytes@, 0, 4) + 1,
            r matches Some(x) ==> x.extended_rsn_capabilities.raw() == bytes@.subrange(0, bits_value(bytes@, 0, 4) as int + 1)
                && x.extended_rsn_capabilities.spec_wf(),
    {
        match ExtendedRsnCapabilities::from_bytes(bytes) {
            Some(c) => Some(RsnExtension { extended_rsn_capabilities: c }),
            None => None,
        }
    }

    /// The one-line summary, which is empty.
    pub fn summary(&self) -> (s: String)
        ensures
            s@ == Seq::<char>::empty(),
    {
        proof {
            reveal_strlit("");
        }
        String::from_str("")
    }

    /// The element's single field.
    pub fn fields(&self) -> (v: Vec<Field>)
        requires
            self.extended_rsn_capabilities.spec_wf(),
        ensures
            v@.len() == 1,
            self.extended_rsn_capabilities.field_shows(v@[0]),
    {
        let mut v: Vec<Field> = Vec::new();
        v.push(self.extended_rsn_capabilities.to_field());
        v
    }
}

} // verus!
