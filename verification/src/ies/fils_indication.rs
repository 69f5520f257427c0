//! The FILS Indication element: the fast initial link setup an access point supports.
use vstd::prelude::*;

use crate::bits::{
    bit_set, bits_value, lemma_bits_value_bound, lemma_two_pow_64, lemma_two_pow_monotone, read_bit,
    read_bits, read_u16_bits, read_u8_bits,
};
use crate::ies::field::{
    bit_field, bit_field_is, bit_field_with_units, reserved_bits, reserved_field_is, BitRange,
    Field,
};
use crate::bits::{le_bytes_u16, le_u16, read_le_u16, u16_le_bytes};
use crate::ies::field::{byte_field, byte_field_is, byte_field_with_units, bytes_field, bytes_field_is};
use crate::text::{debug_list_string, debug_list_text, hex_joined, hex_joined_string, bool_string, bool_text, decimal, owned, paren_decimal, paren_text, u64_text};

verus! {

/// The FILS Information field of a FILS Indication element.
#[derive(Debug, Clone, Copy, PartialEq, Eq, Hash)]
pub struct FilsInformation {
    bytes: [u8; 2],
}

impl FilsInformation {
    /// The encoded length in bytes.
    pub const LENGTH: usize = 2;

    /// Whether `bytes` (exactly 2 of them) encode a valid value.
    pub open spec fn spec_valid(bytes: Seq<u8>) -> bool {
        bytes.len() == 2
    }

    /// The encoded bytes.
    pub closed spec fn raw(&self) -> Seq<u8> {
        self.bytes@
    }

    /// Every value is encoded in exactly 2 bytes.
    pub proof fn lemma_raw_len(&self)
        ensures
            self.raw().len() == 2,
    {
    }

    /// Decodes the value from the first 2 bytes of `bytes`. `None` when there are fewer
    /// bytes or they do not encode a valid value.
    pub fn from_bytes(bytes: &[u8]) -> (r: Option<FilsInformation>)
        ensures
            r is Some <==> bytes@.len() >= 2 && Self::spec_valid(bytes@.subrange(0, 2)),
            r matches Some(v) ==> v.raw() == bytes@.subrange(0, 2),
    {
        if bytes.len() < 2 {
            return None;
        }
        let a: [u8; 2] = [bytes[0], bytes[1]];
        proof {
            assert(a@ =~= bytes@.subrange(0, 2));
        }
        Some(FilsInformation { bytes: a })
    }

    /// The encoded bytes.
    pub fn to_bytes(&self) -> (v: Vec<u8>)
        ensures
            v@ == self.raw(),
    {
        vstd::slice::slice_to_vec(self.bytes.as_slice())
    }

    /// The "Number of Public Key Identifiers" subfield (bits 0-2).
    pub open spec fn spec_number_of_public_key_identifiers(&self) -> u8 {
        bits_value(self.raw(), 0, 3) as u8
    }

    /// The "Number of Public Key Identifiers" subfield (bits 0-2).
    pub fn number_of_public_key_identifiers(&self) -> (v: u8)
        ensures
            v == self.spec_number_of_public_key_identifiers(),
            v == bits_value(self.raw(), 0, 3),
    {
        read_u8_bits(self.bytes.as_slice(), 0, 3)
    }

    /// The "Number of Realm Identifiers" subfield (bits 3-5).
    pub open spec fn spec_number_of_realm_identifiers(&self) -> u8 {
        bits_value(self.raw(), 3, 3) as u8
    }

    /// The "Number of Realm Identifiers" subfield (bits 3-5).
    pub fn number_of_realm_identifiers(&self) -> (v: u8)
        ensures
            v == self.spec_number_of_realm_identifiers(),
            v == bits_value(self.raw(), 3, 3),
    {
        read_u8_bits(self.bytes.as_slice(), 3, 3)
    }

    /// The "FILS IP Address Configuration" subfield (bit 6).
    pub open spec fn spec_fils_ip_address_configuration(&self) -> bool {
        bit_set(self.raw(), 6)
    }

    /// The "FILS IP Address Configuration" subfield (bit 6).
    pub fn fils_ip_address_configuration(&self) -> (b: bool)
        ensures
            b == self.spec_fils_ip_address_configuration(),
    {
        read_bit(self.bytes.as_slice(), 6)
    }

    /// The "Cache Identifier Included" subfield (bit 7).
    pub open spec fn spec_cache_identifier_included(&self) -> bool {
        bit_set(self.raw(), 7)
    }

    /// The "Cache Identifier Included" subfield (bit 7).
    pub fn cache_identifier_included(&self) -> (b: bool)
        ensures
            b == self.spec_cache_identifier_included(),
    {
        read_bit(self.bytes.as_slice(), 7)
    }

    /// The "HESSID Included" subfield (bit 8).
    pub open spec fn spec_hessid_included(&self) -> bool {
        bit_set(self.raw(), 8)
    }

    /// The "HESSID Included" subfield (bit 8).
    pub fn hessid_included(&self) -> (b: bool)
        ensures
            b == self.spec_hessid_included(),
    {
        read_bit(self.bytes.as_slice(), 8)
    }

    /// The "FILS Shared Key Authentication Without PFS Supported" subfield (bit 9).
    pub open spec fn spec_fils_shared_key_authentication_without_pfs_supported(&self) -> bool {
        bit_set(self.raw(), 9)
    }

    /// The "FILS Shared Key Authentication Without PFS Supported" subfield (bit 9).
    pub fn fils_shared_key_authentication_without_pfs_supported(&self) -> (b: bool)
        ensures
            b == self.spec_fils_shared_key_authentication_without_pfs_supported(),
    {
        read_bit(self.bytes.as_slice(), 9)
    }

    /// The "FILS Shared Key Authentication With PFS Supported" subfield (bit 10).
    pub open spec fn spec_fils_shared_key_authentication_with_pfs_supported(&self) -> bool {
        bit_set(self.raw(), 10)
    }

    /// The "FILS Shared Key Authentication With PFS Supported" subfield (bit 10).
    pub fn fils_shared_key_authentication_with_pfs_supported(&self) -> (b: bool)
        ensures
            b == self.spec_fils_shared_key_authentication_with_pfs_supported(),
    {
        read_bit(self.bytes.as_slice(), 10)
    }

    /// The "FILS Public Key Authentication Supported" subfield (bit 11).
    pub open spec fn spec_fils_public_key_authentication_supported(&self) -> bool {
        bit_set(self.raw(), 11)
    }

    /// The "FILS Public Key Authentication Supported" subfield (bit 11).
    pub fn fils_public_key_authentication_supported(&self) -> (b: bool)
        ensures
            b == self.spec_fils_public_key_authentication_supported(),
    {
        read_bit(self.bytes.as_slice(), 11)
    }

    /// Whether `f` is the displayable field of this value: one subfield per bit field.
    pub open spec fn field_shows(&self, f: Field) -> bool {
        &&& f.title@ == "FILS Information"@
        &&& f.value@ == ""@
        &&& f.bytes matches Some(b) && b@ == self.raw()
        &&& f.byte is None
        &&& f.bits is None
        &&& f.units is None
        &&& f.subfields@.len() == 9
        &&& bit_field_is(f.subfields@[0], "Number of Public Key Identifiers"@, decimal(self.spec_number_of_public_key_identifiers() as nat), None, self.raw(), 0, 3)
        &&& bit_field_is(f.subfields@[1], "Number of Realm Identifiers"@, decimal(self.spec_number_of_realm_identifiers() as nat), None, self.raw(), 3, 3)
        &&& bit_field_is(f.subfields@[2], "FILS IP Address Configuration"@, bool_text(self.spec_fils_ip_address_configuration()), None, self.raw(), 6, 1)
        &&& bit_field_is(f.subfields@[3], "Cache Identifier Included"@, bool_text(self.spec_cache_identifier_included()), None, self.raw(), 7, 1)
        &&& bit_field_is(f.subfields@[4], "HESSID Included"@, bool_text(self.spec_hessid_included()), None, self.raw(), 8, 1)
        &&& bit_field_is(f.subfields@[5], "FILS Shared Key Authentication Without PFS Supported"@, bool_text(self.spec_fils_shared_key_authentication_without_pfs_supported()), None, self.raw(), 9, 1)
        &&& bit_field_is(f.subfields@[6], "FILS Shared Key Authentication With PFS Supported"@, bool_text(self.spec_fils_shared_key_authentication_with_pfs_supported()), None, self.raw(), 10, 1)
        &&& bit_field_is(f.subfields@[7], "FILS Public Key Authentication Supported"@, bool_text(self.spec_fils_public_key_authentication_supported()), None, self.raw(), 11, 1)
        &&& reserved_field_is(f.subfields@[8], self.raw(), 12, 4)
    }

    /// The value as a displayable field with one subfield per bit field.
    pub fn to_field(&self) -> (f: Field)
        ensures
            self.field_shows(f),
    {
        let bytes = self.bytes.as_slice();
        let mut subfields: Vec<Field> = Vec::new();
        subfields.push(bit_field("Number of Public Key Identifiers", u64_text(self.number_of_public_key_identifiers() as u64), bytes, 0, 3));
        subfields.push(bit_field("Number of Realm Identifiers", u64_text(self.number_of_realm_identifiers() as u64), bytes, 3, 3));
        subfields.push(bit_field("FILS IP Address Configuration", bool_string(self.fils_ip_address_configuration()), bytes, 6, 1));
        subfields.push(bit_field("Cache Identifier Included", bool_string(self.cache_identifier_included()), bytes, 7, 1));
        subfields.push(bit_field("HESSID Included", bool_string(self.hessid_included()), bytes, 8, 1));
        subfields.push(bit_field("FILS Shared Key Authentication Without PFS Supported", bool_string(self.fils_shared_key_authentication_without_pfs_supported()), bytes, 9, 1));
        subfields.push(bit_field("FILS Shared Key Authentication With PFS Supported", bool_string(self.fils_shared_key_authentication_with_pfs_supported()), bytes, 10, 1));
        subfields.push(bit_field("FILS Public Key Authentication Supported", bool_string(self.fils_public_key_authentication_supported()), bytes, 11, 1));
        subfields.push(reserved_bits(bytes, 12, 4));
        Field::new("FILS Information", "").with_bytes(self.to_bytes()).with_subfields(subfields)
    }

}

/// A Realm Identifier: a hashed realm.
#[derive(Debug, Clone, Copy, PartialEq, Eq, Structural, Hash)]
pub struct RealmIdentifier {
    pub hashed_realm: u16,
}

impl RealmIdentifier {
    /// Whether `f` is the displayable field of the identifier: the hashed realm with its bytes,
    /// again as its single subfield.
    pub open spec fn spec_field_shows(&self, f: Field) -> bool {
        &&& f.title@ == "Realm Identifier"@
        &&& f.value@ == decimal(self.hashed_realm as nat)
        &&& f.bytes matches Some(b) && b@ == le_bytes_u16(self.hashed_realm)
        &&& f.byte is None
        &&& f.bits is None
        &&& f.units is None
        &&& f.subfields@.len() == 1
        &&& bytes_field_is(f.subfields@[0], "Hashed Realm"@, decimal(self.hashed_realm as nat), None, le_bytes_u16(self.hashed_realm))
    }

    /// The identifier as a displayable field; see `spec_field_shows`.
    pub fn to_field(&self) -> (f: Field)
        ensures
            self.spec_field_shows(f),
    {
        let mut subs: Vec<Field> = Vec::new();
        subs.push(bytes_field("Hashed Realm", u64_text(self.hashed_realm as u64), u16_le_bytes(self.hashed_realm)));
        Field::text("Realm Identifier", u64_text(self.hashed_realm as u64)).with_bytes(u16_le_bytes(self.hashed_realm)).with_subfields(subs)
    }
}

/// A Public Key Identifier: a key type and a public key indicator.
#[derive(Debug, Clone, PartialEq, Eq, Hash)]
pub struct PublicKeyIdentifier {
    pub key_type: u8,
    pub length: u8,
    pub public_key_indicator: Vec<u8>,
}

impl PublicKeyIdentifier {
    /// The encoded bytes: the key type, the length and the indicator.
    pub open spec fn spec_raw(&self) -> Seq<u8> {
        seq![self.key_type, self.length] + self.public_key_indicator@
    }

    /// The encoded bytes.
    pub fn to_bytes(&self) -> (v: Vec<u8>)
        ensures
            v@ == self.spec_raw(),
    {
        let mut v: Vec<u8> = Vec::new();
        v.push(self.key_type);
        v.push(self.length);
        let mut rest = vstd::slice::slice_to_vec(self.public_key_indicator.as_slice());
        v.append(&mut rest);
        proof {
            assert(v@ =~= self.spec_raw());
        }
        v
    }

    /// Whether `f` is the displayable field of the identifier: its bytes, with the key type,
    /// the length and the indicator as subfields.
    pub open spec fn spec_field_shows(&self, f: Field) -> bool {
        &&& f.title@ == "Public Key Identifier"@
        &&& f.value@ == ""@
        &&& f.bytes matches Some(b) && b@ == self.spec_raw()
        &&& f.byte is None
        &&& f.bits is None
        &&& f.units is None
        &&& f.subfields@.len() == 3
        &&& byte_field_is(f.subfields@[0], "Key Type"@, decimal(self.key_type as nat), None, self.key_type)
        &&& byte_field_is(f.subfields@[1], "Length"@, decimal(self.length as nat), Some(if self.length == 1 { "byte"@ } else { "bytes"@ }), self.length)
        &&& bytes_field_is(f.subfields@[2], "Public Key Indicator"@, debug_list_text(self.public_key_indicator@), None, self.public_key_indicator@)
    }

    /// The identifier as a displayable field; see `spec_field_shows`.
    pub fn to_field(&self) -> (f: Field)
        ensures
            self.spec_field_shows(f),
    {
        let mut subs: Vec<Field> = Vec::new();
        subs.push(byte_field("Key Type", u64_text(self.key_type as u64), self.key_type));
        subs.push(byte_field_with_units("Length", u64_text(self.length as u64), if self.length == 1 { "byte" } else { "bytes" }, self.length));
        subs.push(bytes_field("Public Key Indicator", debug_list_string(self.public_key_indicator.as_slice()), vstd::slice::slice_to_vec(self.public_key_indicator.as_slice())));
        Field::new("Public Key Identifier", "").with_bytes(self.to_bytes()).with_subfields(subs)
    }
}

/// The encodings of `count` public key identifiers at the front of `b`, if all are complete.
pub open spec fn spec_public_keys_split(b: Seq<u8>, count: nat) -> Option<Seq<Seq<u8>>>
    decreases count,
{
    if count == 0 {
        Some(seq![])
    } else if b.len() >= 2 && b.len() >= 2 + b[1] {
        let n = 2 + b[1];
        match spec_public_keys_split(b.subrange(n, b.len() as int), (count - 1) as nat) {
            Some(rest) => Some(seq![b.subrange(0, n)] + rest),
            None => None,
        }
    } else {
        None
    }
}

/// The number of bytes before the public key identifiers, given the two bytes of the FILS
/// information: those bytes, the cache identifier and HESSID when included, and the realm
/// identifiers.
pub open spec fn fils_prefix_len_of(h: Seq<u8>) -> nat {
    (2 + (if bit_set(h, 7) { 2int } else { 0 }) + (if bit_set(h, 8) { 6int } else { 0 }) + 2 * bits_value(h, 3, 3)) as nat
}

/// The number of bytes before the public key identifiers.
pub open spec fn spec_fils_prefix_len(info: FilsInformation) -> nat {
    fils_prefix_len_of(info.raw())
}

/// A FILS Indication element: the FILS information and the identifiers it announces.
#[derive(Debug, Clone, PartialEq, Eq, Hash)]
pub struct FilsIndication {
    pub fils_information: FilsInformation,
    pub cache_identifier: Option<u16>,
    pub hessid: Option<[u8; 6]>,
    pub realm_identifiers: Vec<RealmIdentifier>,
    pub public_key_identifiers: Vec<PublicKeyIdentifier>,
}

/// Whether the body `b` holds a complete FILS Indication element.
pub open spec fn spec_fils_indication_valid(b: Seq<u8>) -> bool {
    &&& b.len() >= 2
    &&& b.len() >= fils_prefix_len_of(b.subrange(0, 2))
    &&& spec_public_keys_split(b.subrange(fils_prefix_len_of(b.subrange(0, 2)) as int, b.len() as int), bits_value(b.subrange(0, 2), 0, 3))
        is Some
}

impl FilsIndication {
    pub const NAME: &'static str = "FILS Indication";
    pub const ID: u8 = 240;
    pub const ID_EXT: Option<u8> = None;

    /// Whether the element is the one read from body `b`: the FILS information, then the parts
    /// it announces at their places (numbers least significant byte first).
    pub open spec fn spec_parsed_from(&self, b: Seq<u8>) -> bool {
        let info = self.fils_information;
        let c: int = if info.spec_cache_identifier_included() { 2 } else { 0 };
        let h: int = if info.spec_hessid_included() { 6 } else { 0 };
        let p = spec_fils_prefix_len(info);
        let realms = self.realm_identifiers@;
        let keys = self.public_key_identifiers@;
        let split = spec_public_keys_split(b.subrange(p as int, b.len() as int), info.spec_number_of_public_key_identifiers() as nat);
        &&& b.len() >= p
        &&& info.raw() == b.subrange(0, 2)
        &&& self.cache_identifier == (if info.spec_cache_identifier_included() { Some(le_u16(b, 2)) } else { None })
        &&& (self.hessid is Some <==> info.spec_hessid_included())
        &&& (self.hessid matches Some(a) ==> a@ == b.subrange(2 + c, 8 + c))
        &&& realms.len() == info.spec_number_of_realm_identifiers()
        &&& forall|i: int| 0 <= i < realms.len() ==> (#[trigger] realms[i]).hashed_realm == le_u16(b, 2 + c + h + 2 * i)
        &&& split is Some
        &&& keys.len() == split->0.len()
        &&& forall|i: int| 0 <= i < keys.len() ==> (#[trigger] keys[i]).spec_raw() == split->0[i]
            && keys[i].length == keys[i].public_key_indicator@.len()
    }

    /// Parses the element body; `None` when it is cut short.
    pub fn from_bytes(bytes: &[u8]) -> (r: Option<FilsIndication>)
        ensures
            r is Some <==> spec_fils_indication_valid(bytes@),
            r matches Some(f) ==> f.spec_parsed_from(bytes@),
    {
        let info = match FilsInformation::from_bytes(bytes) {
            Some(i) => i,
            None => return None,
        };
        let len = bytes.len();
        let mut pos: usize = 2;
        let cache_identifier = if info.cache_identifier_included() {
            if len < 4 {
                return None;
            }
            pos = 4;
            Some(read_le_u16(bytes, 2))
        } else {
            None
        };
        let ghost c = pos;
        let hessid = if info.hessid_included() {
            if len - pos < 6 {
                return None;
            }
            let a = [bytes[pos], bytes[pos + 1], bytes[pos + 2], bytes[pos + 3], bytes[pos + 4], bytes[pos + 5]];
            proof {
                assert(a@ =~= bytes@.subrange(pos as int, pos + 6));
            }
            pos = pos + 6;
            Some(a)
        } else {
            None
        };
        let ghost h = pos;
        let h_exec = pos;
        let n_realms = info.number_of_realm_identifiers() as usize;
        if len - pos < 2 * n_realms {
            return None;
        }
        let mut realm_identifiers: Vec<RealmIdentifier> = Vec::new();
        let mut i: usize = 0;
        while i < n_realms
            invariant
                len == bytes@.len(),
                h == h_exec,
                h + 2 * n_realms <= len,
                i <= n_realms,
                realm_identifiers@.len() == i,
                forall|j: int| 0 <= j < i ==> (#[trigger] realm_identifiers@[j]).hashed_realm == le_u16(bytes@, h + 2 * j),
            decreases n_realms - i,
        {
            realm_identifiers.push(RealmIdentifier { hashed_realm: read_le_u16(bytes, h_exec + 2 * i) });
            i = i + 1;
        }
        pos = h_exec + 2 * n_realms;
        let n_keys = info.number_of_public_key_identifiers() as usize;
        let ghost p = pos;
        let ghost whole = bytes@.subrange(p as int, len as int);
        proof {
            assert(info.raw() == bytes@.subrange(0, 2));
            assert(p == fils_prefix_len_of(bytes@.subrange(0, 2)));
            assert(n_keys == bits_value(bytes@.subrange(0, 2), 0, 3));
        }
        let mut public_key_identifiers: Vec<PublicKeyIdentifier> = Vec::new();
        let mut k: usize = 0;
        let ghost mut done: Seq<Seq<u8>> = seq![];
        while k < n_keys
            invariant
                len == bytes@.len(),
                p <= pos <= len,
                whole == bytes@.subrange(p as int, len as int),
                spec_fils_indication_valid(bytes@) <==> spec_public_keys_split(whole, n_keys as nat) is Some,
                k <= n_keys,
                public_key_identifiers@.len() == k,
                done.len() == k,
                forall|j: int| 0 <= j < k ==> (#[trigger] public_key_identifiers@[j]).spec_raw() == done[j]
                    && public_key_identifiers@[j].length == public_key_identifiers@[j].public_key_indicator@.len(),
                spec_public_keys_split(whole, n_keys as nat) is Some <==> spec_public_keys_split(
                    bytes@.subrange(pos as int, len as int),
                    (n_keys - k) as nat,
                ) is Some,
                spec_public_keys_split(whole, n_keys as nat) is Some ==> spec_public_keys_split(whole, n_keys as nat)->0 == done
                    + spec_public_keys_split(bytes@.subrange(pos as int, len as int), (n_keys - k) as nat)->0,
            decreases n_keys - k,
        {
            let ghost rest = bytes@.subrange(pos as int, len as int);
            if len - pos < 2 {
                proof {
                    assert(spec_public_keys_split(rest, (n_keys - k) as nat) is None);
                }
                return None;
            }
            let l = bytes[pos + 1] as usize;
            if len - pos - 2 < l {
                proof {
                    assert(rest[1] == bytes@[pos + 1]);
                    assert(spec_public_keys_split(rest, (n_keys - k) as nat) is None);
                }
                return None;
            }
            let indicator = vstd::slice::slice_to_vec(vstd::slice::slice_subrange(bytes, pos + 2, pos + 2 + l));
            let key = PublicKeyIdentifier { key_type: bytes[pos], length: bytes[pos + 1], public_key_indicator: indicator };
            proof {
                assert(key.spec_raw() =~= rest.subrange(0, 2 + l as int));
                assert(rest.subrange(2 + l as int, rest.len() as int) =~= bytes@.subrange(pos + 2 + l, len as int));
                let old_done = done;
                done = done.push(rest.subrange(0, 2 + l as int));
                if spec_public_keys_split(whole, n_keys as nat) is Some {
                    assert(done + spec_public_keys_split(bytes@.subrange(pos + 2 + l, len as int), (n_keys - k - 1) as nat)->0
                        =~= old_done + spec_public_keys_split(rest, (n_keys - k) as nat)->0);
                }
            }
            public_key_identifiers.push(key);
            pos = pos + 2 + l;
            k = k + 1;
        }
        proof {
            assert(done + Seq::<Seq<u8>>::empty() =~= done);
        }
        Some(FilsIndication { fils_information: info, cache_identifier, hessid, realm_identifiers, public_key_identifiers })
    }

    /// The one-line summary, which is empty.
    pub fn summary(&self) -> (s: String)
        ensures
            s@ == ""@,
    {
        String::from_str("")
    }

    /// The element's fields: the FILS information, the cache identifier and HESSID when
    /// present, then each realm identifier and each public key identifier.
    pub open spec fn spec_fields_shown(&self, fs: Seq<Field>) -> bool {
        let n1: int = 1;
        let n2: int = n1 + if self.cache_identifier is Some { 1int } else { 0 };
        let n3: int = n2 + if self.hessid is Some { 1int } else { 0 };
        let realms = self.realm_identifiers@;
        let keys = self.public_key_identifiers@;
        let n4: int = n3 + realms.len();
        &&& fs.len() == n4 + keys.len()
        &&& self.fils_information.field_shows(fs[0])
        &&& (self.cache_identifier matches Some(ci) ==> bytes_field_is(fs[n1], "Cache Identifier"@, decimal(ci as nat), None, le_bytes_u16(ci)))
        &&& (self.hessid matches Some(a) ==> bytes_field_is(fs[n2], "HESSID"@, hex_joined(a@, ":"@), None, a@))
        &&& forall|i: int| 0 <= i < realms.len() ==> (#[trigger] realms[i]).spec_field_shows(fs[n3 + i])
        &&& forall|i: int| 0 <= i < keys.len() ==> (#[trigger] keys[i]).spec_field_shows(fs[n4 + i])
    }

    /// The element's fields; see `spec_fields_shown`.
    pub fn fields(&self) -> (fs: Vec<Field>)
        ensures
            self.spec_fields_shown(fs@),
    {
        let mut fs: Vec<Field> = Vec::new();
        fs.push(self.fils_information.to_field());
        if let Some(ci) = self.cache_identifier {
            fs.push(bytes_field("Cache Identifier", u64_text(ci as u64), u16_le_bytes(ci)));
        }
        if let Some(a) = &self.hessid {
            fs.push(bytes_field("HESSID", hex_joined_string(a.as_slice(), ":"), vstd::slice::slice_to_vec(a.as_slice())));
        }
        let ghost n3 = fs@.len();
        let ghost head = fs@;
        let mut i: usize = 0;
        while i < self.realm_identifiers.len()
            invariant
                i <= self.realm_identifiers@.len(),
                fs@.len() == n3 + i,
                fs@.subrange(0, n3 as int) == head,
                forall|j: int| 0 <= j < i ==> (#[trigger] self.realm_identifiers@[j]).spec_field_shows(fs@[n3 + j]),
            decreases self.realm_identifiers@.len() - i,
        {
            fs.push(self.realm_identifiers[i].to_field());
            proof {
                assert(fs@.subrange(0, n3 as int) =~= head);
            }
            i = i + 1;
        }
        let ghost n4 = fs@.len();
        let ghost head2 = fs@;
        let mut k: usize = 0;
        while k < self.public_key_identifiers.len()
            invariant
                k <= self.public_key_identifiers@.len(),
                fs@.len() == n4 + k,
                fs@.subrange(0, n4 as int) == head2,
                forall|j: int| 0 <= j < k ==> (#[trigger] self.public_key_identifiers@[j]).spec_field_shows(fs@[n4 + j]),
            decreases self.public_key_identifiers@.len() - k,
        {
            fs.push(self.public_key_identifiers[k].to_field());
            proof {
                assert(fs@.subrange(0, n4 as int) =~= head2);
            }
            k = k + 1;
        }
        proof {
            assert forall|j: int| 0 <= j < n4 implies #[trigger] fs@[j] == head2[j] by {
                assert(fs@.subrange(0, n4 as int)[j] == fs@[j]);
            }
            assert forall|j: int| 0 <= j < n3 implies #[trigger] head2[j] == head[j] by {
                assert(head2.subrange(0, n3 as int)[j] == head2[j]);
            }
        }
        fs
    }
}

} // verus!
