//! The Mobility Domain element (fast BSS transition).
use vstd::prelude::*;

use crate::bits::{
    bit_set, bits_value, lemma_bits_value_bound, lemma_two_pow_64, lemma_two_pow_monotone, read_bit,
    read_bits, read_u16_bits, read_u8_bits,
};
use crate::ies::field::{
    bit_field, bit_field_is, bit_field_with_units, reserved_bits, reserved_field_is, BitRange,
    Field,
};
use crate::bits::{le_bytes_u16, le_u16, read_le_u16, u16_le_bytes};
use crate::ies::field::{bytes_field, bytes_field_is};
use crate::text::{bool_string, bool_text, decimal, owned, paren_decimal, paren_text, u64_text};

verus! {

/// A Mobility Domain element: the mobility domain identifier and fast BSS transition policy.
#[derive(Debug, Clone, PartialEq, Eq, Hash)]
pub struct MobilityDomain {
    pub mdid: u16,
    pub ft_capability_and_policy: FtCapabilityAndPolicy,
}

impl MobilityDomain {
    pub const NAME: &'static str = "Mobility Domain";
    pub const ID: u8 = 54;
    pub const ID_EXT: Option<u8> = None;

    /// Parses the three-byte element body: a little-endian MDID and the policy byte. `None`
    /// when it is shorter.
    pub fn from_bytes(bytes: &[u8]) -> (r: Option<MobilityDomain>)
        ensures
            r is Some <==> bytes@.len() >= 3,
            r matches Some(v) ==> v.mdid == le_u16(bytes@, 0)
                && v.ft_capability_and_policy.raw() == bytes@.subrange(2, 3),
    {
        if bytes.len() < 3 {
            return None;
        }
        let ft = FtCapabilityAndPolicy::from_bytes(vstd::slice::slice_subrange(bytes, 2, 3));
        proof {
            assert(bytes@.subrange(2, 3).subrange(0, 1) =~= bytes@.subrange(2, 3));
        }
        match ft {
            Some(f) => Some(MobilityDomain { mdid: read_le_u16(bytes, 0), ft_capability_and_policy: f }),
            None => None,
        }
    }

    /// The one-line summary.
    pub open spec fn spec_summary(&self) -> Seq<char> {
        "MDID: "@ + decimal(self.mdid as nat)
    }

    /// A one-line summary, for example `MDID: 4660`.
    pub fn summary(&self) -> (s: String)
        ensures
            s@ == self.spec_summary(),
    {
        let mut s = String::from_str("MDID: ");
        s.append(u64_text(self.mdid as u64).as_str());
        s
    }

    /// The element's fields: the MDID with its little-endian bytes, then the policy bits.
    pub fn fields(&self) -> (v: Vec<Field>)
        ensures
            v@.len() == 2,
            bytes_field_is(v@[0], "MDID"@, decimal(self.mdid as nat), None, le_bytes_u16(self.mdid)),
            self.ft_capability_and_policy.field_shows(v@[1]),
    {
        let mut v: Vec<Field> = Vec::new();
        v.push(bytes_field("MDID", u64_text(self.mdid as u64), u16_le_bytes(self.mdid)));
        v.push(self.ft_capability_and_policy.to_field());
        v
    }
}

/// The FT Capability and Policy field of a Mobility Domain element.
#[derive(Debug, Clone, Copy, PartialEq, Eq, Hash)]
pub struct FtCapabilityAndPolicy {
    bytes: [u8; 1],
}

impl FtCapabilityAndPolicy {
    /// The encoded length in bytes.
    pub const LENGTH: usize = 1;

    /// Whether `bytes` (exactly 1 of them) encode a valid value.
    pub open spec fn spec_valid(bytes: Seq<u8>) -> bool {
        bytes.len() == 1
    }

    /// The encoded bytes.
    pub closed spec fn raw(&self) -> Seq<u8> {
        self.bytes@
    }

    /// Every value is encoded in exactly 1 bytes.
    pub proof fn lemma_raw_len(&self)
        ensures
            self.raw().len() == 1,
    {
    }

    /// Decodes the value from the first 1 bytes of `bytes`. `None` when there are fewer
    /// bytes or they do not encode a valid value.
    pub fn from_bytes(bytes: &[u8]) -> (r: Option<FtCapabilityAndPolicy>)
        ensures
            r is Some <==> bytes@.len() >= 1 && Self::spec_valid(bytes@.subrange(0, 1)),
            r matches Some(v) ==> v.raw() == bytes@.subrange(0, 1),
    {
        if bytes.len() < 1 {
            return None;
        }
        let a: [u8; 1] = [bytes[0]];
        proof {
            assert(a@ =~= bytes@.subrange(0, 1));
        }
        Some(FtCapabilityAndPolicy { bytes: a })
    }

    /// The encoded bytes.
    pub fn to_bytes(&self) -> (v: Vec<u8>)
        ensures
            v@ == self.raw(),
    {
        vstd::slice::slice_to_vec(self.bytes.as_slice())
    }

    /// The "Fast BSS Transition Over DS" subfield (bit 0).
    pub open spec fn spec_fast_bss_transition_over_ds(&self) -> bool {
        bit_set(self.raw(), 0)
    }

    /// The "Fast BSS Transition Over DS" subfield (bit 0).
    pub fn fast_bss_transition_over_ds(&self) -> (b: bool)
        ensures
            b == self.spec_fast_bss_transition_over_ds(),
    {
        read_bit(self.bytes.as_slice(), 0)
    }

    /// The "Resource Request Protocol Capability" subfield (bit 1).
    pub open spec fn spec_resource_request_protocol_capability(&self) -> bool {
        bit_set(self.raw(), 1)
    }

    /// The "Resource Request Protocol Capability" subfield (bit 1).
    pub fn resource_request_protocol_capability(&self) -> (b: bool)
        ensures
            b == self.spec_resource_request_protocol_capability(),
    {
        read_bit(self.bytes.as_slice(), 1)
    }

    /// Whether `f` is the displayable field of this value: one subfield per bit field.
    pub open spec fn field_shows(&self, f: Field) -> bool {
        &&& f.title@ == "FT Capability and Policy"@
        &&& f.value@ == ""@
        &&& f.byte == Some(self.raw()[0])
        &&& f.bytes is None
        &&& f.bits is None
        &&& f.units is None
        &&& f.subfields@.len() == 3
        &&& bit_field_is(f.subfields@[0], "Fast BSS Transition Over DS"@, bool_text(self.spec_fast_bss_transition_over_ds()), None, self.raw(), 0, 1)
        &&& bit_field_is(f.subfields@[1], "Resource Request Protocol Capability"@, bool_text(self.spec_resource_request_protocol_capability()), None, self.raw(), 1, 1)
        &&& reserved_field_is(f.subfields@[2], self.raw(), 2, 6)
    }

    /// The value as a displayable field with one subfield per bit field.
    pub fn to_field(&self) -> (f: Field)
        ensures
            self.field_shows(f),
    {
        let bytes = self.bytes.as_slice();
        let mut subfields: Vec<Field> = Vec::new();
        subfields.push(bit_field("Fast BSS Transition Over DS", bool_string(self.fast_bss_transition_over_ds()), bytes, 0, 1));
        subfields.push(bit_field("Resource Request Protocol Capability", bool_string(self.resource_request_protocol_capability()), bytes, 1, 1));
        subfields.push(reserved_bits(bytes, 2, 6));
        Field::new("FT Capability and Policy", "").with_byte(self.bytes[0]).with_subfields(subfields)
    }

}

} // verus!
