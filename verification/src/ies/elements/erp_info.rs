//! The ERP Information element.
use vstd::prelude::*;

use crate::bits::{
    bit_set, bits_value, lemma_bits_value_bound, lemma_two_pow_64, lemma_two_pow_monotone, read_bit,
    read_bits, read_u16_bits, read_u8_bits,
};
use crate::ies::field::{
    bit_field, bit_field_is, bit_field_with_units, reserved_bits, reserved_field_is, BitRange,
    Field,
};
use crate::text::{bool_string, bool_text, decimal, owned, paren_decimal, paren_text, u64_text};

verus! {

/// An ERP Information element: how an 802.11g access point protects non-ERP stations.
#[derive(Debug, Clone, Copy, PartialEq, Eq, Hash)]
pub struct ErpInfo {
    bytes: [u8; 1],
}

impl ErpInfo {
    /// The encoded length in bytes.
    pub const LENGTH: usize = 1;

    /// Whether `bytes` (exactly 1 of them) encode a valid value.
    pub open spec fn spec_valid(bytes: Seq<u8>) -> bool {
        bytes.len() == 1
    }

    /// The encoded bytes.
    pub closed spec fn raw(&self) -> Seq<u8> {
        self.bytes@
    }

    /// Every value is encoded in exactly 1 bytes.
    pub proof fn lemma_raw_len(&self)
        ensures
            self.raw().len() == 1,
    {
    }

    /// Decodes the value from the first 1 bytes of `bytes`. `None` when there are fewer
    /// bytes or they do not encode a valid value.
    pub fn from_bytes(bytes: &[u8]) -> (r: Option<ErpInfo>)
        ensures
            r is Some <==> bytes@.len() >= 1 && Self::spec_valid(bytes@.subrange(0, 1)),
            r matches Some(v) ==> v.raw() == bytes@.subrange(0, 1),
    {
        if bytes.len() < 1 {
            return None;
        }
        let a: [u8; 1] = [bytes[0]];
        proof {
            assert(a@ =~= bytes@.subrange(0, 1));
        }
        Some(ErpInfo { bytes: a })
    }

    /// The encoded bytes.
    pub fn to_bytes(&self) -> (v: Vec<u8>)
        ensures
            v@ == self.raw(),
    {
        vstd::slice::slice_to_vec(self.bytes.as_slice())
    }

    /// The non erp present subfield (bit 0).
    pub open spec fn spec_non_erp_present(&self) -> bool {
        bit_set(self.raw(), 0)
    }

    /// The non erp present subfield (bit 0).
    pub fn non_erp_present(&self) -> (b: bool)
        ensures
            b == self.spec_non_erp_present(),
    {
        read_bit(self.bytes.as_slice(), 0)
    }

    /// The use protection subfield (bit 1).
    pub open spec fn spec_use_protection(&self) -> bool {
        bit_set(self.raw(), 1)
    }

    /// The use protection subfield (bit 1).
    pub fn use_protection(&self) -> (b: bool)
        ensures
            b == self.spec_use_protection(),
    {
        read_bit(self.bytes.as_slice(), 1)
    }

    /// The barker preamble mode subfield (bit 2).
    pub open spec fn spec_barker_preamble_mode(&self) -> bool {
        bit_set(self.raw(), 2)
    }

    /// The barker preamble mode subfield (bit 2).
    pub fn barker_preamble_mode(&self) -> (b: bool)
        ensures
            b == self.spec_barker_preamble_mode(),
    {
        read_bit(self.bytes.as_slice(), 2)
    }

    pub const NAME: &'static str = "ERP Info";
    pub const ID: u8 = 42;
    pub const ID_ALT: u8 = 47;
    pub const ID_EXT: Option<u8> = None;

    /// The one-line summary, which is empty.
    pub fn summary(&self) -> (s: String)
        ensures
            s@ == ""@,
    {
        String::from_str("")
    }

    /// The element's fields: one per flag and the reserved bits, each with the element's byte.
    pub fn fields(&self) -> (fs: Vec<Field>)
        ensures
            fs@.len() == 4,
            bit_field_is(fs@[0], "Non ERP Present"@, bool_text(self.spec_non_erp_present()), None, self.raw(), 0, 1),
            bit_field_is(fs@[1], "Use Protection"@, bool_text(self.spec_use_protection()), None, self.raw(), 1, 1),
            bit_field_is(fs@[2], "Barker Preamble Mode"@, bool_text(self.spec_barker_preamble_mode()), None, self.raw(), 2, 1),
            reserved_field_is(fs@[3], self.raw(), 3, 5),
    {
        let bytes = self.bytes.as_slice();
        let mut fs: Vec<Field> = Vec::new();
        fs.push(bit_field("Non ERP Present", bool_string(self.non_erp_present()), bytes, 0, 1));
        fs.push(bit_field("Use Protection", bool_string(self.use_protection()), bytes, 1, 1));
        fs.push(bit_field("Barker Preamble Mode", bool_string(self.barker_preamble_mode()), bytes, 2, 1));
        fs.push(reserved_bits(bytes, 3, 5));
        fs
    }

}

} // verus!
