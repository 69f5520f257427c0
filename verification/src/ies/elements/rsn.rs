//! The RSN element: the security configuration of a protected network.
use vstd::prelude::*;

use crate::bits::{
    bit_set, bits_value, lemma_bits_value_bound, lemma_two_pow_64, lemma_two_pow_monotone, read_bit,
    read_bits, read_u16_bits, read_u8_bits,
};
use crate::ies::field::{
    bit_field, bit_field_is, bit_field_with_units, reserved_bits, reserved_field_is, BitRange,
    Field,
};
use crate::bits::{le_bytes_u16, le_u16, le_value, read_le_u128, read_le_u16, u16_le_bytes};
use crate::ies::field::{byte_field_is, bytes_field, bytes_field_is};
use crate::text::{hex_list, hex_list_string, join_strings, joined, u128_text, bool_string, bool_text, decimal, owned, paren_decimal, paren_text, u64_text};

verus! {

/// The little-endian bytes of the `n` lowest bytes of `v`.
pub open spec fn le_bytes_of(v: nat, n: nat) -> Seq<u8>
    decreases n,
{
    if n == 0 {
        seq![]
    } else {
        seq![(v % 256) as u8] + le_bytes_of(v / 256, (n - 1) as nat)
    }
}

/// The bytes of a list of cipher suites.
pub open spec fn ciphers_bytes(l: Seq<CipherSuite>) -> Seq<u8>
    decreases l.len(),
{
    if l.len() == 0 {
        seq![]
    } else {
        ciphers_bytes(l.drop_last()) + l.last().spec_bytes()
    }
}

/// The bytes of a list of AKM suites.
pub open spec fn akms_bytes(l: Seq<AkmSuite>) -> Seq<u8>
    decreases l.len(),
{
    if l.len() == 0 {
        seq![]
    } else {
        akms_bytes(l.drop_last()) + l.last().spec_bytes()
    }
}

/// The bytes of a list of PMKIDs, each little-endian.
pub open spec fn pmkids_bytes(l: Seq<u128>) -> Seq<u8>
    decreases l.len(),
{
    if l.len() == 0 {
        seq![]
    } else {
        pmkids_bytes(l.drop_last()) + le_bytes_of(l.last() as nat, 16)
    }
}

/// Whether `f` shows a list of cipher suites under `title`: two subfields per suite.
pub open spec fn cipher_list_field_is(f: Field, title: Seq<char>, l: Seq<CipherSuite>, prefix: Seq<char>) -> bool {
    &&& f.title@ == title
    &&& f.value@ == ""@
    &&& f.bytes matches Some(b) && b@ == ciphers_bytes(l)
    &&& f.byte is None
    &&& f.bits is None
    &&& f.units is None
    &&& f.subfields@.len() == 2 * l.len()
    &&& forall|j: int| 0 <= j < 2 * l.len() ==> #[trigger] l[j / 2].field_shows(f.subfields@[j], prefix, j % 2)
}

/// Whether `f` shows a list of AKM suites: two subfields per suite.
pub open spec fn akm_list_field_is(f: Field, l: Seq<AkmSuite>) -> bool {
    &&& f.title@ == "AKM Suite List"@
    &&& f.value@ == ""@
    &&& f.bytes matches Some(b) && b@ == akms_bytes(l)
    &&& f.byte is None
    &&& f.bits is None
    &&& f.units is None
    &&& f.subfields@.len() == 2 * l.len()
    &&& forall|j: int| 0 <= j < 2 * l.len() ==> #[trigger] l[j / 2].field_shows(f.subfields@[j], j % 2)
}

/// Whether `f` shows a list of PMKIDs: one subfield per PMKID.
pub open spec fn pmkid_list_field_is(f: Field, l: Seq<u128>) -> bool {
    &&& f.title@ == "PMKID List"@
    &&& f.value@ == ""@
    &&& f.bytes matches Some(b) && b@ == pmkids_bytes(l)
    &&& f.byte is None
    &&& f.bits is None
    &&& f.units is None
    &&& f.subfields@.len() == l.len()
    &&& forall|j: int| 0 <= j < l.len() ==> bytes_field_is(#[trigger] f.subfields@[j], "PMKID"@, decimal(l[j] as nat), None, le_bytes_of(l[j] as nat, 16))
}

/// A count field, or 0 when absent.
pub open spec fn count_or_zero(c: Option<u16>) -> int {
    match c {
        Some(v) => v as int,
        None => 0,
    }
}

/// 1 when an optional part is present, else 0.
pub open spec fn present<T>(o: Option<T>) -> int {
    if o is Some { 1 } else { 0 }
}

/// An RSN element: the ciphers, authentication and key management suites and capabilities of
/// a protected network. Each part after the version is present only when the body is long
/// enough to hold it and everything before it.
#[derive(Debug, Clone, PartialEq, Eq, Hash)]
pub struct Rsn {
    pub version: u16,
    pub group_data_cipher_suite: Option<CipherSuite>,
    pub pairwise_cipher_suite_count: Option<u16>,
    pub pairwise_cipher_suite_list: Option<Vec<CipherSuite>>,
    pub akm_suite_count: Option<u16>,
    pub akm_suite_list: Option<Vec<AkmSuite>>,
    pub rsn_capabilities: Option<RsnCapabilities>,
    pub pmkid_count: Option<u16>,
    pub pmkid_list: Option<Vec<u128>>,
    pub group_management_cipher_suite: Option<CipherSuite>,
}

impl Rsn {
    pub const NAME: &'static str = "RSNE";
    pub const ID: u8 = 48;
    pub const ID_EXT: Option<u8> = None;

    /// Where the AKM suite count starts.
    pub open spec fn spec_akm_pos(&self) -> int {
        8 + 4 * count_or_zero(self.pairwise_cipher_suite_count)
    }

    /// Where the RSN capabilities start.
    pub open spec fn spec_caps_pos(&self) -> int {
        self.spec_akm_pos() + 2 + 4 * count_or_zero(self.akm_suite_count)
    }

    /// Where the group management cipher suite starts.
    pub open spec fn spec_group_management_pos(&self) -> int {
        self.spec_caps_pos() + 4 + 16 * count_or_zero(self.pmkid_count)
    }

    /// The element holds exactly the parts of `b` that its length allows, in order.
    pub open spec fn spec_parsed_from(&self, b: Seq<u8>) -> bool {
        let len = b.len() as int;
        let a0 = self.spec_akm_pos();
        let r0 = self.spec_caps_pos();
        let g0 = self.spec_group_management_pos();
        &&& self.version == le_u16(b, 0)
        &&& (self.group_data_cipher_suite is Some <==> len >= 6)
        &&& (self.group_data_cipher_suite matches Some(g) ==> g.spec_bytes() == suite_at(b, 2))
        &&& (self.pairwise_cipher_suite_count is Some <==> len >= 8)
        &&& (self.pairwise_cipher_suite_count matches Some(c) ==> c == le_u16(b, 6))
        &&& (self.pairwise_cipher_suite_list is Some <==> len >= a0)
        &&& (self.pairwise_cipher_suite_list matches Some(l) ==> l@.len() == count_or_zero(self.pairwise_cipher_suite_count)
            && forall|j: int| 0 <= j < l@.len() ==> (#[trigger] l@[j]).spec_bytes() == suite_at(b, 8 + 4 * j))
        &&& (self.akm_suite_count is Some <==> len >= a0 + 2)
        &&& (self.akm_suite_count matches Some(c) ==> c == le_u16(b, a0))
        &&& (self.akm_suite_list is Some <==> len >= r0)
        &&& (self.akm_suite_list matches Some(l) ==> l@.len() == count_or_zero(self.akm_suite_count)
            && forall|j: int| 0 <= j < l@.len() ==> (#[trigger] l@[j]).spec_bytes() == suite_at(b, a0 + 2 + 4 * j))
        &&& (self.rsn_capabilities is Some <==> len >= r0 + 2)
        &&& (self.rsn_capabilities matches Some(c) ==> c.raw() == b.subrange(r0, r0 + 2))
        &&& (self.pmkid_count is Some <==> len >= r0 + 4)
        &&& (self.pmkid_count matches Some(c) ==> c == le_u16(b, r0 + 2))
        &&& (self.pmkid_list is Some <==> len >= g0)
        &&& (self.pmkid_list matches Some(l) ==> l@.len() == count_or_zero(self.pmkid_count)
            && forall|j: int| 0 <= j < l@.len() ==> #[trigger] l@[j] == le_value(b, r0 + 4 + 16 * j, 16))
        &&& (self.group_management_cipher_suite is Some <==> len >= g0 + 4)
        &&& (self.group_management_cipher_suite matches Some(g) ==> g.spec_bytes() == suite_at(b, g0))
    }

    /// Parses the element body. `None` only when it has fewer than the two version bytes.
    pub fn from_bytes(bytes: &[u8]) -> (r: Option<Rsn>)
        ensures
            r is Some <==> bytes@.len() >= 2,
            r matches Some(x) ==> x.spec_parsed_from(bytes@),
    {
        let len = bytes.len();
        if len < 2 {
            return None;
        }
        let version = read_le_u16(bytes, 0);
        let group = if len >= 6 { Some(CipherSuite::read_at(bytes, 2)) } else { None };
        let pc_opt = if len >= 8 { Some(read_le_u16(bytes, 6)) } else { None };
        let pc: usize = match pc_opt { Some(c) => c as usize, None => 0 };
        let a0: usize = 8 + 4 * pc;
        let plist = if len >= a0 { Some(read_ciphers(bytes, 8, pc)) } else { None };
        let ac_opt = if len >= a0 + 2 { Some(read_le_u16(bytes, a0)) } else { None };
        let ac: usize = match ac_opt { Some(c) => c as usize, None => 0 };
        let r0: usize = a0 + 2 + 4 * ac;
        let alist = if len >= r0 { Some(read_akms(bytes, a0 + 2, ac)) } else { None };
        let caps = if len >= r0 + 2 {
            let s = vstd::slice::slice_subrange(bytes, r0, r0 + 2);
            proof {
                assert(s@.subrange(0, 2) =~= s@);
            }
            Some(RsnCapabilities::from_bytes(s).unwrap())
        } else {
            None
        };
        let pm_opt = if len >= r0 + 4 { Some(read_le_u16(bytes, r0 + 2)) } else { None };
        let pm: usize = match pm_opt { Some(c) => c as usize, None => 0 };
        let g0: usize = r0 + 4 + 16 * pm;
        let pml = if len >= g0 { Some(read_pmkids(bytes, r0 + 4, pm)) } else { None };
        let gm = if len >= g0 + 4 { Some(CipherSuite::read_at(bytes, g0)) } else { None };
        let x = Rsn {
            version,
            group_data_cipher_suite: group,
            pairwise_cipher_suite_count: pc_opt,
            pairwise_cipher_suite_list: plist,
            akm_suite_count: ac_opt,
            akm_suite_list: alist,
            rsn_capabilities: caps,
            pmkid_count: pm_opt,
            pmkid_list: pml,
            group_management_cipher_suite: gm,
        };
        assert(x.spec_akm_pos() == a0);
        assert(x.spec_caps_pos() == r0);
        assert(x.spec_group_management_pos() == g0);
        Some(x)
    }

    /// The group cipher part of the summary, when the group suite is present.
    pub open spec fn spec_group_part(&self) -> Seq<Seq<char>> {
        match self.group_data_cipher_suite {
            Some(g) => seq!["Group Cipher: "@ + g.suite_type.spec_text()],
            None => seq![],
        }
    }

    /// The pairwise cipher part of the summary, when the pairwise list is present.
    pub open spec fn spec_pairwise_part(&self) -> Seq<Seq<char>> {
        match self.pairwise_cipher_suite_list {
            Some(l) => seq![
                (if l@.len() > 1 { "Pairwise Ciphers: "@ } else { "Pairwise Cipher: "@ })
                    + joined(l@.map_values(|c: CipherSuite| c.suite_type.spec_text()), ", "@),
            ],
            None => seq![],
        }
    }

    /// The AKM part of the summary, when the AKM list is present.
    pub open spec fn spec_akm_part(&self) -> Seq<Seq<char>> {
        match self.akm_suite_list {
            Some(l) => seq![
                (if l@.len() > 1 { "AKM Suites: "@ } else { "AKM Suite: "@ })
                    + joined(l@.map_values(|a: AkmSuite| spec_authentication_type(a.suite_type.0).spec_text()), ", "@),
            ],
            None => seq![],
        }
    }

    /// The summary parts: the group cipher, the pairwise ciphers and the AKM suites, each when
    /// present.
    pub open spec fn spec_summary_parts(&self) -> Seq<Seq<char>> {
        self.spec_group_part() + self.spec_pairwise_part() + self.spec_akm_part()
    }

    /// The one-line summary: the present parts joined by commas.
    pub open spec fn spec_summary(&self) -> Seq<char> {
        joined(self.spec_summary_parts(), ", "@)
    }

    /// A one-line summary, for example
    /// `Group Cipher: CCMP-128, Pairwise Cipher: CCMP-128, AKM Suite: PSK`.
    pub fn summary(&self) -> (s: String)
        ensures
            s@ == self.spec_summary(),
    {
        let mut parts: Vec<String> = Vec::new();
        if let Some(g) = &self.group_data_cipher_suite {
            let mut s = owned("Group Cipher: ");
            s.append(g.suite_type.to_string().as_str());
            parts.push(s);
        }
        let ghost pa = self.spec_group_part();
        assert(parts@.map_values(|p: String| p@) =~= pa);
        if let Some(l) = &self.pairwise_cipher_suite_list {
            let mut s = if l.len() > 1 { owned("Pairwise Ciphers: ") } else { owned("Pairwise Cipher: ") };
            s.append(cipher_texts(l).as_str());
            parts.push(s);
        }
        let ghost pb = pa + self.spec_pairwise_part();
        assert(parts@.map_values(|p: String| p@) =~= pb);
        if let Some(l) = &self.akm_suite_list {
            let mut s = if l.len() > 1 { owned("AKM Suites: ") } else { owned("AKM Suite: ") };
            s.append(akm_texts(l).as_str());
            parts.push(s);
        }
        assert(parts@.map_values(|p: String| p@) =~= self.spec_summary_parts());
        join_strings(&parts, ", ")
    }

    /// Where each field of `fields` starts: after the version, the group suite (2 fields),
    /// pairwise count, pairwise list, AKM count, AKM list, capabilities, PMKID count, PMKID
    /// list, and the group management suite (2 fields), each when present.
    pub open spec fn spec_field_starts(&self) -> Seq<int> {
        let o1: int = 1;
        let o2 = o1 + 2 * present(self.group_data_cipher_suite);
        let o3 = o2 + present(self.pairwise_cipher_suite_count);
        let o4 = o3 + present(self.pairwise_cipher_suite_list);
        let o5 = o4 + present(self.akm_suite_count);
        let o6 = o5 + present(self.akm_suite_list);
        let o7 = o6 + present(self.rsn_capabilities);
        let o8 = o7 + present(self.pmkid_count);
        let o9 = o8 + present(self.pmkid_list);
        let o10 = o9 + 2 * present(self.group_management_cipher_suite);
        seq![o1, o2, o3, o4, o5, o6, o7, o8, o9, o10]
    }

    /// The element's fields, in the order the parts appear: each part that is present, at the
    /// position `spec_field_starts` gives it.
    #[verifier::rlimit(80)]
    pub fn fields(&self) -> (v: Vec<Field>)
        ensures
            ({
                let o = self.spec_field_starts();
                &&& v@.len() == o[9]
                &&& bytes_field_is(v@[0], "Version"@, decimal(self.version as nat), None, le_bytes_u16(self.version))
                &&& (self.group_data_cipher_suite matches Some(g) ==> g.field_shows(v@[o[0]], "Group"@, 0) && g.field_shows(v@[o[0] + 1], "Group"@, 1))
                &&& (self.pairwise_cipher_suite_count matches Some(c) ==> bytes_field_is(v@[o[1]], "Pairwise Cipher Suite Count"@, decimal(c as nat), None, le_bytes_u16(c)))
                &&& (self.pairwise_cipher_suite_list matches Some(l) ==> cipher_list_field_is(v@[o[2]], "Pairwise Cipher Suite List"@, l@, "Pairwise"@))
                &&& (self.akm_suite_count matches Some(c) ==> bytes_field_is(v@[o[3]], "AKM Suite Count"@, decimal(c as nat), None, le_bytes_u16(c)))
                &&& (self.akm_suite_list matches Some(l) ==> akm_list_field_is(v@[o[4]], l@))
                &&& (self.rsn_capabilities matches Some(c) ==> c.field_shows(v@[o[5]]))
                &&& (self.pmkid_count matches Some(c) ==> bytes_field_is(v@[o[6]], "PMKID Count"@, decimal(c as nat), None, le_bytes_u16(c)))
                &&& (self.pmkid_list matches Some(l) ==> pmkid_list_field_is(v@[o[7]], l@))
                &&& (self.group_management_cipher_suite matches Some(g) ==> g.field_shows(v@[o[8]], "Group Management"@, 0) && g.field_shows(v@[o[8] + 1], "Group Management"@, 1))
            }),
    {
        let ghost o = self.spec_field_starts();
        let mut v: Vec<Field> = Vec::new();
        v.push(bytes_field("Version", u64_text(self.version as u64), u16_le_bytes(self.version)));
        if let Some(g) = self.group_data_cipher_suite {
            let mut fs = g.to_fields("Group");
            v.append(&mut fs);
        }
        assert(v@.len() == o[1]);
        if let Some(c) = self.pairwise_cipher_suite_count {
            v.push(bytes_field("Pairwise Cipher Suite Count", u64_text(c as u64), u16_le_bytes(c)));
        }
        assert(v@.len() == o[2]);
        if let Some(l) = &self.pairwise_cipher_suite_list {
            v.push(cipher_list_field("Pairwise Cipher Suite List", l, "Pairwise"));
        }
        assert(v@.len() == o[3]);
        if let Some(c) = self.akm_suite_count {
            v.push(bytes_field("AKM Suite Count", u64_text(c as u64), u16_le_bytes(c)));
        }
        assert(v@.len() == o[4]);
        if let Some(l) = &self.akm_suite_list {
            v.push(akm_list_field(l));
        }
        assert(v@.len() == o[5]);
        if let Some(c) = &self.rsn_capabilities {
            v.push(c.to_field());
        }
        assert(v@.len() == o[6]);
        if let Some(c) = self.pmkid_count {
            v.push(bytes_field("PMKID Count", u64_text(c as u64), u16_le_bytes(c)));
        }
        assert(v@.len() == o[7]);
        if let Some(l) = &self.pmkid_list {
            v.push(pmkid_list_field(l));
        }
        assert(v@.len() == o[8]);
        if let Some(g) = self.group_management_cipher_suite {
            let mut fs = g.to_fields("Group Management");
            v.append(&mut fs);
        }
        v
    }
}

/// Reads `n` cipher suites starting at byte `start`.
fn read_ciphers(b: &[u8], start: usize, n: usize) -> (l: Vec<CipherSuite>)
    requires
        start + 4 * n <= b@.len(),
    ensures
        l@.len() == n,
        forall|j: int| 0 <= j < n ==> (#[trigger] l@[j]).spec_bytes() == suite_at(b@, start + 4 * j),
{
    let mut l: Vec<CipherSuite> = Vec::new();
    let len = b.len();
    let mut j: usize = 0;
    while j < n
        invariant
            len == b@.len(),
            start + 4 * n <= b@.len(),
            j <= n,
            l@.len() == j,
            forall|k: int| 0 <= k < j ==> (#[trigger] l@[k]).spec_bytes() == suite_at(b@, start + 4 * k),
        decreases n - j,
    {
        assert(4 * j + 4 <= 4 * n);
        l.push(CipherSuite::read_at(b, start + 4 * j));
        j = j + 1;
    }
    l
}

/// Reads `n` AKM suites starting at byte `start`.
fn read_akms(b: &[u8], start: usize, n: usize) -> (l: Vec<AkmSuite>)
    requires
        start + 4 * n <= b@.len(),
    ensures
        l@.len() == n,
        forall|j: int| 0 <= j < n ==> (#[trigger] l@[j]).spec_bytes() == suite_at(b@, start + 4 * j),
{
    let mut l: Vec<AkmSuite> = Vec::new();
    let len = b.len();
    let mut j: usize = 0;
    while j < n
        invariant
            len == b@.len(),
            start + 4 * n <= b@.len(),
            j <= n,
            l@.len() == j,
            forall|k: int| 0 <= k < j ==> (#[trigger] l@[k]).spec_bytes() == suite_at(b@, start + 4 * k),
        decreases n - j,
    {
        assert(4 * j + 4 <= 4 * n);
        l.push(AkmSuite::read_at(b, start + 4 * j));
        j = j + 1;
    }
    l
}

/// Reads `n` little-endian PMKIDs starting at byte `start`.
fn read_pmkids(b: &[u8], start: usize, n: usize) -> (l: Vec<u128>)
    requires
        start + 16 * n <= b@.len(),
    ensures
        l@.len() == n,
        forall|j: int| 0 <= j < n ==> #[trigger] l@[j] == le_value(b@, start + 16 * j, 16),
{
    let mut l: Vec<u128> = Vec::new();
    let len = b.len();
    let mut j: usize = 0;
    while j < n
        invariant
            len == b@.len(),
            start + 16 * n <= b@.len(),
            j <= n,
            l@.len() == j,
            forall|k: int| 0 <= k < j ==> #[trigger] l@[k] == le_value(b@, start + 16 * k, 16),
        decreases n - j,
    {
        assert(16 * j + 16 <= 16 * n);
        l.push(read_le_u128(b, start + 16 * j));
        j = j + 1;
    }
    l
}

/// The names of the suites' types, joined by commas.
fn cipher_texts(l: &Vec<CipherSuite>) -> (s: String)
    ensures
        s@ == joined(l@.map_values(|c: CipherSuite| c.suite_type.spec_text()), ", "@),
{
    let mut texts: Vec<String> = Vec::new();
    let mut j: usize = 0;
    while j < l.len()
        invariant
            j <= l@.len(),
            texts@.len() == j,
            texts@.map_values(|p: String| p@) =~= l@.take(j as int).map_values(|c: CipherSuite| c.suite_type.spec_text()),
        decreases l@.len() - j,
    {
        let ghost before = texts@;
        texts.push(l[j].suite_type.to_string());
        proof {
            assert(l@.take(j + 1) =~= l@.take(j as int).push(l@[j as int]));
            assert(texts@.map_values(|p: String| p@) =~= before.map_values(|p: String| p@).push(texts@[j as int]@));
        }
        j = j + 1;
    }
    assert(l@.take(l@.len() as int) =~= l@);
    join_strings(&texts, ", ")
}

/// The names of the suites' authentication types, joined by commas.
fn akm_texts(l: &Vec<AkmSuite>) -> (s: String)
    ensures
        s@ == joined(l@.map_values(|a: AkmSuite| spec_authentication_type(a.suite_type.0).spec_text()), ", "@),
{
    let mut texts: Vec<String> = Vec::new();
    let mut j: usize = 0;
    while j < l.len()
        invariant
            j <= l@.len(),
            texts@.len() == j,
            texts@.map_values(|p: String| p@) =~= l@.take(j as int).map_values(|a: AkmSuite| spec_authentication_type(a.suite_type.0).spec_text()),
        decreases l@.len() - j,
    {
        let ghost before = texts@;
        texts.push(l[j].suite_type.authentication_type().to_string());
        proof {
            assert(l@.take(j + 1) =~= l@.take(j as int).push(l@[j as int]));
            assert(texts@.map_values(|p: String| p@) =~= before.map_values(|p: String| p@).push(texts@[j as int]@));
        }
        j = j + 1;
    }
    assert(l@.take(l@.len() as int) =~= l@);
    join_strings(&texts, ", ")
}

/// The field of a list of cipher suites: their bytes, and two subfields per suite.
fn cipher_list_field(title: &str, l: &Vec<CipherSuite>, prefix: &str) -> (f: Field)
    ensures
        cipher_list_field_is(f, title@, l@, prefix@),
{
    let mut bytes: Vec<u8> = Vec::new();
    let mut sub: Vec<Field> = Vec::new();
    let mut j: usize = 0;
    while j < l.len()
        invariant
            j <= l@.len(),
            bytes@ == ciphers_bytes(l@.take(j as int)),
            sub@.len() == 2 * j,
            forall|k: int| 0 <= k < 2 * j ==> #[trigger] l@[k / 2].field_shows(sub@[k], prefix@, k % 2),
        decreases l@.len() - j,
    {
        let mut b = l[j].to_bytes();
        bytes.append(&mut b);
        let mut fs = l[j].to_fields(prefix);
        sub.append(&mut fs);
        proof {
            assert(l@.take(j + 1).drop_last() =~= l@.take(j as int));
            assert((2 * j) / 2 == j && (2 * j + 1) / 2 == j && (2 * j) % 2 == 0 && (2 * j + 1) % 2 == 1);
        }
        j = j + 1;
    }
    assert(l@.take(l@.len() as int) =~= l@);
    Field::new(title, "").with_bytes(bytes).with_subfields(sub)
}

/// The field of a list of AKM suites: their bytes, and two subfields per suite.
fn akm_list_field(l: &Vec<AkmSuite>) -> (f: Field)
    ensures
        akm_list_field_is(f, l@),
{
    let mut bytes: Vec<u8> = Vec::new();
    let mut sub: Vec<Field> = Vec::new();
    let mut j: usize = 0;
    while j < l.len()
        invariant
            j <= l@.len(),
            bytes@ == akms_bytes(l@.take(j as int)),
            sub@.len() == 2 * j,
            forall|k: int| 0 <= k < 2 * j ==> #[trigger] l@[k / 2].field_shows(sub@[k], k % 2),
        decreases l@.len() - j,
    {
        let mut b = l[j].to_bytes();
        bytes.append(&mut b);
        let mut fs = l[j].to_fields();
        sub.append(&mut fs);
        proof {
            assert(l@.take(j + 1).drop_last() =~= l@.take(j as int));
            assert((2 * j) / 2 == j && (2 * j + 1) / 2 == j && (2 * j) % 2 == 0 && (2 * j + 1) % 2 == 1);
        }
        j = j + 1;
    }
    assert(l@.take(l@.len() as int) =~= l@);
    Field::new("AKM Suite List", "").with_bytes(bytes).with_subfields(sub)
}

/// The little-endian bytes of a 128-bit value.
fn u128_le_bytes(v: u128) -> (b: Vec<u8>)
    ensures
        b@ == le_bytes_of(v as nat, 16),
{
    let mut b: Vec<u8> = Vec::new();
    let mut cur: u128 = v;
    let mut k: usize = 0;
    while k < 16
        invariant
            k <= 16,
            b@ + le_bytes_of(cur as nat, (16 - k) as nat) == le_bytes_of(v as nat, 16),
        decreases 16 - k,
    {
        let ghost before = b@;
        b.push((cur % 256) as u8);
        proof {
            assert(le_bytes_of(cur as nat, (16 - k) as nat) == seq![(cur % 256) as u8] + le_bytes_of((cur / 256) as nat, (16 - k - 1) as nat));
            assert(b@ + le_bytes_of((cur / 256) as nat, (16 - k - 1) as nat) =~= before + le_bytes_of(cur as nat, (16 - k) as nat));
        }
        cur = cur / 256;
        k = k + 1;
    }
    assert(b@ + le_bytes_of(cur as nat, 0) =~= b@);
    b
}

/// The field of a list of PMKIDs: their bytes, and one subfield per PMKID.
fn pmkid_list_field(l: &Vec<u128>) -> (f: Field)
    ensures
        pmkid_list_field_is(f, l@),
{
    let mut bytes: Vec<u8> = Vec::new();
    let mut sub: Vec<Field> = Vec::new();
    let mut j: usize = 0;
    while j < l.len()
        invariant
            j <= l@.len(),
            bytes@ == pmkids_bytes(l@.take(j as int)),
            sub@.len() == j,
            forall|k: int| 0 <= k < j ==> bytes_field_is(#[trigger] sub@[k], "PMKID"@, decimal(l@[k] as nat), None, le_bytes_of(l@[k] as nat, 16)),
        decreases l@.len() - j,
    {
        let mut b = u128_le_bytes(l[j]);
        sub.push(bytes_field("PMKID", u128_text(l[j]), u128_le_bytes(l[j])));
        bytes.append(&mut b);
        proof {
            assert(l@.take(j + 1).drop_last() =~= l@.take(j as int));
        }
        j = j + 1;
    }
    assert(l@.take(l@.len() as int) =~= l@);
    Field::new("PMKID List", "").with_bytes(bytes).with_subfields(sub)
}

/// The cipher suite type codes of the IEEE 802.11 OUI.
#[derive(Debug, Clone, Copy, PartialEq, Eq, Structural, Hash)]
pub enum CipherSuiteType {
    UseGroupCipherSuite,
    Wep40,
    Tkip,
    Reserved,
    Ccmp128,
    Wep104,
    BipCmac128,
    GroupAddressedTrafficNotAllowed,
    Gcmp128,
    Gcmp256,
    Ccmp256,
    BipGmac128,
    BipGmac256,
    BipCmac256,
    Unknown(u8),
}

impl CipherSuiteType {
    /// The type a code stands for: codes 0 to 13 are named, every other code is unknown.
    pub open spec fn spec_from_u8(v: u8) -> CipherSuiteType {
        if v == 0 { CipherSuiteType::UseGroupCipherSuite }
        else if v == 1 { CipherSuiteType::Wep40 }
        else if v == 2 { CipherSuiteType::Tkip }
        else if v == 3 { CipherSuiteType::Reserved }
        else if v == 4 { CipherSuiteType::Ccmp128 }
        else if v == 5 { CipherSuiteType::Wep104 }
        else if v == 6 { CipherSuiteType::BipCmac128 }
        else if v == 7 { CipherSuiteType::GroupAddressedTrafficNotAllowed }
        else if v == 8 { CipherSuiteType::Gcmp128 }
        else if v == 9 { CipherSuiteType::Gcmp256 }
        else if v == 10 { CipherSuiteType::Ccmp256 }
        else if v == 11 { CipherSuiteType::BipGmac128 }
        else if v == 12 { CipherSuiteType::BipGmac256 }
        else if v == 13 { CipherSuiteType::BipCmac256 }
        else { CipherSuiteType::Unknown(v) }
    }

    /// The code of a type.
    pub open spec fn spec_to_u8(self) -> u8 {
        match self {
            CipherSuiteType::UseGroupCipherSuite => 0,
            CipherSuiteType::Wep40 => 1,
            CipherSuiteType::Tkip => 2,
            CipherSuiteType::Reserved => 3,
            CipherSuiteType::Ccmp128 => 4,
            CipherSuiteType::Wep104 => 5,
            CipherSuiteType::BipCmac128 => 6,
            CipherSuiteType::GroupAddressedTrafficNotAllowed => 7,
            CipherSuiteType::Gcmp128 => 8,
            CipherSuiteType::Gcmp256 => 9,
            CipherSuiteType::Ccmp256 => 10,
            CipherSuiteType::BipGmac128 => 11,
            CipherSuiteType::BipGmac256 => 12,
            CipherSuiteType::BipCmac256 => 13,
            CipherSuiteType::Unknown(v) => v,
        }
    }

    /// The type a code stands for.
    pub fn from_u8(v: u8) -> (t: CipherSuiteType)
        ensures
            t == Self::spec_from_u8(v),
    {
        if v == 0 { CipherSuiteType::UseGroupCipherSuite }
        else if v == 1 { CipherSuiteType::Wep40 }
        else if v == 2 { CipherSuiteType::Tkip }
        else if v == 3 { CipherSuiteType::Reserved }
        else if v == 4 { CipherSuiteType::Ccmp128 }
        else if v == 5 { CipherSuiteType::Wep104 }
        else if v == 6 { CipherSuiteType::BipCmac128 }
        else if v == 7 { CipherSuiteType::GroupAddressedTrafficNotAllowed }
        else if v == 8 { CipherSuiteType::Gcmp128 }
        else if v == 9 { CipherSuiteType::Gcmp256 }
        else if v == 10 { CipherSuiteType::Ccmp256 }
        else if v == 11 { CipherSuiteType::BipGmac128 }
        else if v == 12 { CipherSuiteType::BipGmac256 }
        else if v == 13 { CipherSuiteType::BipCmac256 }
        else { CipherSuiteType::Unknown(v) }
    }

    /// The code of a type.
    pub fn to_u8(&self) -> (v: u8)
        ensures
            v == self.spec_to_u8(),
    {
        match *self {
            CipherSuiteType::UseGroupCipherSuite => 0,
            CipherSuiteType::Wep40 => 1,
            CipherSuiteType::Tkip => 2,
            CipherSuiteType::Reserved => 3,
            CipherSuiteType::Ccmp128 => 4,
            CipherSuiteType::Wep104 => 5,
            CipherSuiteType::BipCmac128 => 6,
            CipherSuiteType::GroupAddressedTrafficNotAllowed => 7,
            CipherSuiteType::Gcmp128 => 8,
            CipherSuiteType::Gcmp256 => 9,
            CipherSuiteType::Ccmp256 => 10,
            CipherSuiteType::BipGmac128 => 11,
            CipherSuiteType::BipGmac256 => 12,
            CipherSuiteType::BipCmac256 => 13,
            CipherSuiteType::Unknown(v) => v,
        }
    }

    /// The name of a type.
    pub open spec fn spec_text(self) -> Seq<char> {
        match self {
            CipherSuiteType::UseGroupCipherSuite => "Use group cipher guite"@,
            CipherSuiteType::Wep40 => "WEP-40"@,
            CipherSuiteType::Tkip => "TKIP"@,
            CipherSuiteType::Reserved => "Reserved"@,
            CipherSuiteType::Ccmp128 => "CCMP-128"@,
            CipherSuiteType::Wep104 => "WEP-104"@,
            CipherSuiteType::BipCmac128 => "BIP-CMAC-128"@,
            CipherSuiteType::GroupAddressedTrafficNotAllowed => "Group addressed traffic not allowed"@,
            CipherSuiteType::Gcmp128 => "GCMP-128"@,
            CipherSuiteType::Gcmp256 => "GCMP-256"@,
            CipherSuiteType::Ccmp256 => "CCMP-256"@,
            CipherSuiteType::BipGmac128 => "BIP-GMAC-128"@,
            CipherSuiteType::BipGmac256 => "BIP-GMAC-256"@,
            CipherSuiteType::BipCmac256 => "BIP-CMAC-256"@,
            CipherSuiteType::Unknown(v) => unknown_suite_text(v),
        }
    }

    /// The name of a type, for example `CCMP-128` or `Unknown (200)`.
    pub fn to_string(&self) -> (s: String)
        ensures
            s@ == self.spec_text(),
    {
        match *self {
            CipherSuiteType::UseGroupCipherSuite => owned("Use group cipher guite"),
            CipherSuiteType::Wep40 => owned("WEP-40"),
            CipherSuiteType::Tkip => owned("TKIP"),
            CipherSuiteType::Reserved => owned("Reserved"),
            CipherSuiteType::Ccmp128 => owned("CCMP-128"),
            CipherSuiteType::Wep104 => owned("WEP-104"),
            CipherSuiteType::BipCmac128 => owned("BIP-CMAC-128"),
            CipherSuiteType::GroupAddressedTrafficNotAllowed => owned("Group addressed traffic not allowed"),
            CipherSuiteType::Gcmp128 => owned("GCMP-128"),
            CipherSuiteType::Gcmp256 => owned("GCMP-256"),
            CipherSuiteType::Ccmp256 => owned("CCMP-256"),
            CipherSuiteType::BipGmac128 => owned("BIP-GMAC-128"),
            CipherSuiteType::BipGmac256 => owned("BIP-GMAC-256"),
            CipherSuiteType::BipCmac256 => owned("BIP-CMAC-256"),
            CipherSuiteType::Unknown(v) => unknown_suite_string(v),
        }
    }
}

/// The name of an unknown suite type code.
pub open spec fn unknown_suite_text(v: u8) -> Seq<char> {
    "Unknown "@ + paren_decimal(v as nat)
}

/// The name of an unknown suite type code, for example `Unknown (200)`.
pub fn unknown_suite_string(v: u8) -> (s: String)
    ensures
        s@ == unknown_suite_text(v),
{
    let mut s = owned("Unknown ");
    s.append(paren_text(v as u64).as_str());
    s
}

/// Reading a code and writing it back gives the same code.
pub proof fn lemma_cipher_suite_type_code_roundtrip(v: u8)
    ensures
        CipherSuiteType::spec_from_u8(v).spec_to_u8() == v,
{
}

/// A cipher suite: an organization identifier and a suite type.
#[derive(Debug, Clone, Copy, PartialEq, Eq, Hash)]
pub struct CipherSuite {
    pub oui: [u8; 3],
    pub suite_type: CipherSuiteType,
}

/// The four bytes of a cipher or AKM suite starting at `pos`.
pub open spec fn suite_at(b: Seq<u8>, pos: int) -> Seq<u8> {
    b.subrange(pos, pos + 4)
}

impl CipherSuite {
    /// The encoded bytes: the OUI, then the type code.
    pub open spec fn spec_bytes(&self) -> Seq<u8> {
        self.oui@ + seq![self.suite_type.spec_to_u8()]
    }

    /// Reads the suite whose four bytes start at `pos`.
    pub fn read_at(b: &[u8], pos: usize) -> (c: CipherSuite)
        requires
            pos + 4 <= b@.len(),
        ensures
            c.spec_bytes() == suite_at(b@, pos as int),
    {
        let oui: [u8; 3] = [b[pos], b[pos + 1], b[pos + 2]];
        let c = CipherSuite { oui, suite_type: CipherSuiteType::from_u8(b[pos + 3]) };
        proof {
            lemma_cipher_suite_type_code_roundtrip(b@[pos + 3]);
            assert(c.spec_bytes() =~= suite_at(b@, pos as int));
        }
        c
    }

    /// The encoded bytes.
    pub fn to_bytes(&self) -> (v: Vec<u8>)
        ensures
            v@ == self.spec_bytes(),
    {
        let mut v: Vec<u8> = Vec::new();
        v.push(self.oui[0]);
        v.push(self.oui[1]);
        v.push(self.oui[2]);
        v.push(self.suite_type.to_u8());
        proof {
            assert(v@ =~= self.spec_bytes());
        }
        v
    }

    /// Whether `f` is field `k` (0 for the OUI, 1 for the type) of this suite under `prefix`.
    pub open spec fn field_shows(&self, f: Field, prefix: Seq<char>, k: int) -> bool {
        let code = self.suite_type.spec_to_u8();
        if k == 0 {
            bytes_field_is(f, prefix + " Cipher Suite OUI"@, hex_list(self.oui@), None, self.oui@)
        } else {
            byte_field_is(f, prefix + " Cipher Suite Type"@, self.suite_type.spec_text(), Some(paren_decimal(code as nat)), code)
        }
    }

    /// The suite's two fields: the OUI and the type, titled with `prefix`.
    pub fn to_fields(&self, prefix: &str) -> (v: Vec<Field>)
        ensures
            v@.len() == 2,
            self.field_shows(v@[0], prefix@, 0),
            self.field_shows(v@[1], prefix@, 1),
    {
        let mut t0 = String::from_str(prefix);
        t0.append(" Cipher Suite OUI");
        let mut t1 = String::from_str(prefix);
        t1.append(" Cipher Suite Type");
        let code = self.suite_type.to_u8();
        let f0 = Field::text(t0.as_str(), hex_list_string(self.oui.as_slice())).with_bytes(vstd::slice::slice_to_vec(self.oui.as_slice()));
        let f1 = Field::text(t1.as_str(), self.suite_type.to_string()).with_byte(code).with_units_string(paren_text(code as u64));
        let mut v: Vec<Field> = Vec::new();
        v.push(f0);
        v.push(f1);
        v
    }
}

/// The authentication an AKM suite uses.
#[derive(Debug, Clone, Copy, PartialEq, Eq, Structural, Hash)]
pub enum AuthenticationType {
    Reserved,
    AuthOver8021X,
    Psk,
    FtAuthOver8021X,
    FtAuthUsingPsk,
    Tdls,
    Sae,
    FtAuthOverSae,
    ApPeerKeyAuthWithSha256,
    AuthOver8021XUsingSuiteBCompliantEapMethod,
    AuthOver8021XUsingCnsaSuiteCompliantEapMethod,
    KeyManagementOverFilsUsingSha256AesSiv256OrAuthOver8021X,
    KeyManagementOverFilsUsingSha384AesSiv512OrAuthOver8021X,
    FtAuthOverFilsWithSha256AesSiv256OrAuthOver8021X,
    FtAuthOverFilsWithSha384AesSiv512OrAuthOver8021X,
}

impl AuthenticationType {
    /// The short name of an authentication type.
    pub open spec fn spec_text(self) -> Seq<char> {
        match self {
            AuthenticationType::Reserved => "Reserved"@,
            AuthenticationType::AuthOver8021X => "802.1X"@,
            AuthenticationType::Psk => "PSK"@,
            AuthenticationType::FtAuthOver8021X => "FT Over 802.1X"@,
            AuthenticationType::FtAuthUsingPsk => "FT Using PSK"@,
            AuthenticationType::Tdls => "TDLS"@,
            AuthenticationType::Sae => "SAE"@,
            AuthenticationType::FtAuthOverSae => "FT Over SAE"@,
            AuthenticationType::ApPeerKeyAuthWithSha256 => "APPeerKey"@,
            AuthenticationType::AuthOver8021XUsingSuiteBCompliantEapMethod => "802.1X"@,
            AuthenticationType::AuthOver8021XUsingCnsaSuiteCompliantEapMethod => "802.1X"@,
            AuthenticationType::KeyManagementOverFilsUsingSha256AesSiv256OrAuthOver8021X => "802.1X"@,
            AuthenticationType::KeyManagementOverFilsUsingSha384AesSiv512OrAuthOver8021X => "802.1X"@,
            AuthenticationType::FtAuthOverFilsWithSha256AesSiv256OrAuthOver8021X => "FT Auth Over FILS Or 802.1X"@,
            AuthenticationType::FtAuthOverFilsWithSha384AesSiv512OrAuthOver8021X => "FT Auth Over FILS Or 802.1X"@,
        }
    }

    /// The short name of an authentication type, for example `SAE`.
    pub fn to_string(&self) -> (s: String)
        ensures
            s@ == self.spec_text(),
    {
        owned(
            match *self {
                AuthenticationType::Reserved => "Reserved",
                AuthenticationType::AuthOver8021X => "802.1X",
                AuthenticationType::Psk => "PSK",
                AuthenticationType::FtAuthOver8021X => "FT Over 802.1X",
                AuthenticationType::FtAuthUsingPsk => "FT Using PSK",
                AuthenticationType::Tdls => "TDLS",
                AuthenticationType::Sae => "SAE",
                AuthenticationType::FtAuthOverSae => "FT Over SAE",
                AuthenticationType::ApPeerKeyAuthWithSha256 => "APPeerKey",
                AuthenticationType::AuthOver8021XUsingSuiteBCompliantEapMethod => "802.1X",
                AuthenticationType::AuthOver8021XUsingCnsaSuiteCompliantEapMethod => "802.1X",
                AuthenticationType::KeyManagementOverFilsUsingSha256AesSiv256OrAuthOver8021X => "802.1X",
                AuthenticationType::KeyManagementOverFilsUsingSha384AesSiv512OrAuthOver8021X => "802.1X",
                AuthenticationType::FtAuthOverFilsWithSha256AesSiv256OrAuthOver8021X => "FT Auth Over FILS Or 802.1X",
                AuthenticationType::FtAuthOverFilsWithSha384AesSiv512OrAuthOver8021X => "FT Auth Over FILS Or 802.1X",
            },
        )
    }
}

/// The key management an AKM suite uses.
#[derive(Debug, Clone, Copy, PartialEq, Eq, Structural, Hash)]
pub enum KeyManagementType {
    Rsna,
    Ft,
    TpkHandshake,
    RsnaOrAuthenticatedMeshPeeringExchange,
    Fils,
    Reserved,
}

/// An AKM suite type code of the IEEE 802.11 OUI.
#[derive(Debug, Clone, Copy, PartialEq, Eq, Structural, Hash)]
pub struct AkmSuiteType(pub u8);

/// The authentication each AKM suite type code selects.
pub open spec fn spec_authentication_type(v: u8) -> AuthenticationType {
    if v == 1 || v == 5 { AuthenticationType::AuthOver8021X }
    else if v == 2 || v == 6 || v == 20 { AuthenticationType::Psk }
    else if v == 3 || v == 13 { AuthenticationType::FtAuthOver8021X }
    else if v == 4 || v == 19 { AuthenticationType::FtAuthUsingPsk }
    else if v == 7 { AuthenticationType::Tdls }
    else if v == 8 { AuthenticationType::Sae }
    else if v == 9 { AuthenticationType::FtAuthOverSae }
    else if v == 10 { AuthenticationType::ApPeerKeyAuthWithSha256 }
    else if v == 11 { AuthenticationType::AuthOver8021XUsingSuiteBCompliantEapMethod }
    else if v == 12 { AuthenticationType::AuthOver8021XUsingCnsaSuiteCompliantEapMethod }
    else if v == 14 { AuthenticationType::KeyManagementOverFilsUsingSha256AesSiv256OrAuthOver8021X }
    else if v == 15 { AuthenticationType::KeyManagementOverFilsUsingSha384AesSiv512OrAuthOver8021X }
    else if v == 16 { AuthenticationType::FtAuthOverFilsWithSha256AesSiv256OrAuthOver8021X }
    else if v == 17 { AuthenticationType::FtAuthOverFilsWithSha384AesSiv512OrAuthOver8021X }
    else { AuthenticationType::Reserved }
}

/// The key management each AKM suite type code selects.
pub open spec fn spec_key_management_type(v: u8) -> KeyManagementType {
    if v == 1 || v == 2 || v == 5 || v == 6 || v == 10 || v == 11 || v == 12 || v == 20 { KeyManagementType::Rsna }
    else if v == 3 || v == 4 || v == 9 || v == 13 || v == 16 || v == 17 || v == 19 { KeyManagementType::Ft }
    else if v == 7 { KeyManagementType::TpkHandshake }
    else if v == 8 { KeyManagementType::RsnaOrAuthenticatedMeshPeeringExchange }
    else if v == 14 || v == 15 { KeyManagementType::Fils }
    else { KeyManagementType::Reserved }
}

/// The AKM suite types that authenticate with a pre-shared key are exactly codes 2, 6 and 20,
/// and those that authenticate over 802.1X (shown as "802.1X") exactly codes 1, 5, 11, 12, 14
/// and 15; the suite types whose key management is fast BSS transition are exactly those whose
/// authentication is named "FT ...".
pub proof fn lemma_akm_authentication_families(v: u8)
    ensures
        spec_authentication_type(v).spec_text() == "PSK"@ <==> (v == 2 || v == 6 || v == 20),
        spec_authentication_type(v).spec_text() == "802.1X"@ <==> (v == 1 || v == 5 || v == 11 || v == 12 || v == 14 || v == 15),
        spec_key_management_type(v) == KeyManagementType::Ft <==> (spec_authentication_type(v).spec_text().len() >= 2
            && spec_authentication_type(v).spec_text().subrange(0, 2) == "FT"@),
{
    reveal_strlit("Reserved");
    reveal_strlit("802.1X");
    reveal_strlit("PSK");
    reveal_strlit("FT Over 802.1X");
    reveal_strlit("FT Using PSK");
    reveal_strlit("TDLS");
    reveal_strlit("SAE");
    reveal_strlit("FT Over SAE");
    reveal_strlit("APPeerKey");
    reveal_strlit("FT Auth Over FILS Or 802.1X");
    reveal_strlit("FT");
    let t = spec_authentication_type(v).spec_text();
    if t.len() >= 2 {
        if t.subrange(0, 2) == "FT"@ {
            assert(t[0] == 'F' && t[1] == 'T') by {
                assert(t[0] == t.subrange(0, 2)[0]);
                assert(t[1] == t.subrange(0, 2)[1]);
            }
        }
    }
    match spec_authentication_type(v) {
        AuthenticationType::FtAuthOver8021X => assert(t.subrange(0, 2) =~= "FT"@),
        AuthenticationType::FtAuthUsingPsk => assert(t.subrange(0, 2) =~= "FT"@),
        AuthenticationType::FtAuthOverSae => assert(t.subrange(0, 2) =~= "FT"@),
        AuthenticationType::FtAuthOverFilsWithSha256AesSiv256OrAuthOver8021X => assert(t.subrange(0, 2) =~= "FT"@),
        AuthenticationType::FtAuthOverFilsWithSha384AesSiv512OrAuthOver8021X => assert(t.subrange(0, 2) =~= "FT"@),
        AuthenticationType::Psk => {
            assert(t =~= "PSK"@);
        },
        AuthenticationType::AuthOver8021X => {
            assert(t =~= "802.1X"@);
        },
        _ => {
            assert(t != "PSK"@) by {
                if t.len() == 3 {
                    assert(t[0] != "PSK"@[0]);
                }
            }
        },
    }
}

impl AkmSuiteType {
    /// The authentication the suite type selects; undefined codes are reserved.
    pub fn authentication_type(&self) -> (t: AuthenticationType)
        ensures
            t == spec_authentication_type(self.0),
    {
        match self.0 {
            0 => AuthenticationType::Reserved,
            1 => AuthenticationType::AuthOver8021X,
            2 => AuthenticationType::Psk,
            3 => AuthenticationType::FtAuthOver8021X,
            4 => AuthenticationType::FtAuthUsingPsk,
            5 => AuthenticationType::AuthOver8021X,
            6 => AuthenticationType::Psk,
            7 => AuthenticationType::Tdls,
            8 => AuthenticationType::Sae,
            9 => AuthenticationType::FtAuthOverSae,
            10 => AuthenticationType::ApPeerKeyAuthWithSha256,
            11 => AuthenticationType::AuthOver8021XUsingSuiteBCompliantEapMethod,
            12 => AuthenticationType::AuthOver8021XUsingCnsaSuiteCompliantEapMethod,
            13 => AuthenticationType::FtAuthOver8021X,
            14 => AuthenticationType::KeyManagementOverFilsUsingSha256AesSiv256OrAuthOver8021X,
            15 => AuthenticationType::KeyManagementOverFilsUsingSha384AesSiv512OrAuthOver8021X,
            16 => AuthenticationType::FtAuthOverFilsWithSha256AesSiv256OrAuthOver8021X,
            17 => AuthenticationType::FtAuthOverFilsWithSha384AesSiv512OrAuthOver8021X,
            18 => AuthenticationType::Reserved,
            19 => AuthenticationType::FtAuthUsingPsk,
            20 => AuthenticationType::Psk,
            _ => AuthenticationType::Reserved,
        }
    }

    /// The key management the suite type selects; undefined codes are reserved.
    pub fn key_management_type(&self) -> (t: KeyManagementType)
        ensures
            t == spec_key_management_type(self.0),
    {
        match self.0 {
            0 => KeyManagementType::Reserved,
            1 => KeyManagementType::Rsna,
            2 => KeyManagementType::Rsna,
            3 => KeyManagementType::Ft,
            4 => KeyManagementType::Ft,
            5 => KeyManagementType::Rsna,
            6 => KeyManagementType::Rsna,
            7 => KeyManagementType::TpkHandshake,
            8 => KeyManagementType::RsnaOrAuthenticatedMeshPeeringExchange,
            9 => KeyManagementType::Ft,
            10 => KeyManagementType::Rsna,
            11 => KeyManagementType::Rsna,
            12 => KeyManagementType::Rsna,
            13 => KeyManagementType::Ft,
            14 => KeyManagementType::Fils,
            15 => KeyManagementType::Fils,
            16 => KeyManagementType::Ft,
            17 => KeyManagementType::Ft,
            18 => KeyManagementType::Reserved,
            19 => KeyManagementType::Ft,
            20 => KeyManagementType::Rsna,
            _ => KeyManagementType::Reserved,
        }
    }
}

/// An authentication and key management suite: an organization identifier and a type.
#[derive(Debug, Clone, Copy, PartialEq, Eq, Hash)]
pub struct AkmSuite {
    pub oui: [u8; 3],
    pub suite_type: AkmSuiteType,
}

impl AkmSuite {
    /// The encoded bytes: the OUI, then the type code.
    pub open spec fn spec_bytes(&self) -> Seq<u8> {
        self.oui@ + seq![self.suite_type.0]
    }

    /// Reads the suite whose four bytes start at `pos`.
    pub fn read_at(b: &[u8], pos: usize) -> (c: AkmSuite)
        requires
            pos + 4 <= b@.len(),
        ensures
            c.spec_bytes() == suite_at(b@, pos as int),
    {
        let oui: [u8; 3] = [b[pos], b[pos + 1], b[pos + 2]];
        let c = AkmSuite { oui, suite_type: AkmSuiteType(b[pos + 3]) };
        proof {
            assert(c.spec_bytes() =~= suite_at(b@, pos as int));
        }
        c
    }

    /// The encoded bytes.
    pub fn to_bytes(&self) -> (v: Vec<u8>)
        ensures
            v@ == self.spec_bytes(),
    {
        let mut v: Vec<u8> = Vec::new();
        v.push(self.oui[0]);
        v.push(self.oui[1]);
        v.push(self.oui[2]);
        v.push(self.suite_type.0);
        proof {
            assert(v@ =~= self.spec_bytes());
        }
        v
    }

    /// Whether `f` is field `k` (0 for the OUI, 1 for the type) of this suite.
    pub open spec fn field_shows(&self, f: Field, k: int) -> bool {
        let code = self.suite_type.0;
        if k == 0 {
            bytes_field_is(f, "AKM Suite OUI"@, hex_list(self.oui@), None, self.oui@)
        } else {
            byte_field_is(f, "AKM Suite Type"@, spec_authentication_type(code).spec_text(), Some(paren_decimal(code as nat)), code)
        }
    }

    /// The suite's two fields: the OUI and the authentication type.
    pub fn to_fields(&self) -> (v: Vec<Field>)
        ensures
            v@.len() == 2,
            self.field_shows(v@[0], 0),
            self.field_shows(v@[1], 1),
    {
        let code = self.suite_type.0;
        let f0 = Field::text("AKM Suite OUI", hex_list_string(self.oui.as_slice())).with_bytes(vstd::slice::slice_to_vec(self.oui.as_slice()));
        let f1 = Field::text("AKM Suite Type", self.suite_type.authentication_type().to_string()).with_units_string(paren_text(code as u64)).with_byte(code);
        let mut v: Vec<Field> = Vec::new();
        v.push(f0);
        v.push(f1);
        v
    }
}

/// The RSN Capabilities field of an RSN element.
#[derive(Debug, Clone, Copy, PartialEq, Eq, Hash)]
pub struct RsnCapabilities {
    bytes: [u8; 2],
}

impl RsnCapabilities {
    /// The encoded length in bytes.
    pub const LENGTH: usize = 2;

    /// Whether `bytes` (exactly 2 of them) encode a valid value.
    pub open spec fn spec_valid(bytes: Seq<u8>) -> bool {
        bytes.len() == 2
    }

    /// The encoded bytes.
    pub closed spec fn raw(&self) -> Seq<u8> {
        self.bytes@
    }

    /// Every value is encoded in exactly 2 bytes.
    pub proof fn lemma_raw_len(&self)
        ensures
            self.raw().len() == 2,
    {
    }

    /// Decodes the value from the first 2 bytes of `bytes`. `None` when there are fewer
    /// bytes or they do not encode a valid value.
    pub fn from_bytes(bytes: &[u8]) -> (r: Option<RsnCapabilities>)
        ensures
            r is Some <==> bytes@.len() >= 2 && Self::spec_valid(bytes@.subrange(0, 2)),
            r matches Some(v) ==> v.raw() == bytes@.subrange(0, 2),
    {
        if bytes.len() < 2 {
            return None;
        }
        let a: [u8; 2] = [bytes[0], bytes[1]];
        proof {
            assert(a@ =~= bytes@.subrange(0, 2));
        }
        Some(RsnCapabilities { bytes: a })
    }

    /// The encoded bytes.
    pub fn to_bytes(&self) -> (v: Vec<u8>)
        ensures
            v@ == self.raw(),
    {
        vstd::slice::slice_to_vec(self.bytes.as_slice())
    }

    /// The "Preauthentication" subfield (bit 0).
    pub open spec fn spec_preauthentication(&self) -> bool {
        bit_set(self.raw(), 0)
    }

    /// The "Preauthentication" subfield (bit 0).
    pub fn preauthentication(&self) -> (b: bool)
        ensures
            b == self.spec_preauthentication(),
    {
        read_bit(self.bytes.as_slice(), 0)
    }

    /// The "No Pairwise" subfield (bit 1).
    pub open spec fn spec_no_pairwise(&self) -> bool {
        bit_set(self.raw(), 1)
    }

    /// The "No Pairwise" subfield (bit 1).
    pub fn no_pairwise(&self) -> (b: bool)
        ensures
            b == self.spec_no_pairwise(),
    {
        read_bit(self.bytes.as_slice(), 1)
    }

    /// The "PTKSA Replay Counter" subfield (bits 2-3).
    pub open spec fn spec_ptksa_replay_counter(&self) -> u8 {
        bits_value(self.raw(), 2, 2) as u8
    }

    /// The "PTKSA Replay Counter" subfield (bits 2-3).
    pub fn ptksa_replay_counter(&self) -> (v: u8)
        ensures
            v == self.spec_ptksa_replay_counter(),
            v == bits_value(self.raw(), 2, 2),
    {
        read_u8_bits(self.bytes.as_slice(), 2, 2)
    }

    /// The "GTKSA Replay Counter" subfield (bits 4-5).
    pub open spec fn spec_gtksa_replay_counter(&self) -> u8 {
        bits_value(self.raw(), 4, 2) as u8
    }

    /// The "GTKSA Replay Counter" subfield (bits 4-5).
    pub fn gtksa_replay_counter(&self) -> (v: u8)
        ensures
            v == self.spec_gtksa_replay_counter(),
            v == bits_value(self.raw(), 4, 2),
    {
        read_u8_bits(self.bytes.as_slice(), 4, 2)
    }

    /// The "MFPR" subfield (bit 6).
    pub open spec fn spec_mfpr(&self) -> bool {
        bit_set(self.raw(), 6)
    }

    /// The "MFPR" subfield (bit 6).
    pub fn mfpr(&self) -> (b: bool)
        ensures
            b == self.spec_mfpr(),
    {
        read_bit(self.bytes.as_slice(), 6)
    }

    /// The "MFPC" subfield (bit 7).
    pub open spec fn spec_mfpc(&self) -> bool {
        bit_set(self.raw(), 7)
    }

    /// The "MFPC" subfield (bit 7).
    pub fn mfpc(&self) -> (b: bool)
        ensures
            b == self.spec_mfpc(),
    {
        read_bit(self.bytes.as_slice(), 7)
    }

    /// The "Joint Multi-band RSNA" subfield (bit 8).
    pub open spec fn spec_joint_multiband_rsna(&self) -> bool {
        bit_set(self.raw(), 8)
    }

    /// The "Joint Multi-band RSNA" subfield (bit 8).
    pub fn joint_multiband_rsna(&self) -> (b: bool)
        ensures
            b == self.spec_joint_multiband_rsna(),
    {
        read_bit(self.bytes.as_slice(), 8)
    }

    /// The "PeerKey Enabled" subfield (bit 9).
    pub open spec fn spec_peerkey_enabled(&self) -> bool {
        bit_set(self.raw(), 9)
    }

    /// The "PeerKey Enabled" subfield (bit 9).
    pub fn peerkey_enabled(&self) -> (b: bool)
        ensures
            b == self.spec_peerkey_enabled(),
    {
        read_bit(self.bytes.as_slice(), 9)
    }

    /// The "SPP A-MSDU Capable" subfield (bit 10).
    pub open spec fn spec_spp_amsdu_capable(&self) -> bool {
        bit_set(self.raw(), 10)
    }

    /// The "SPP A-MSDU Capable" subfield (bit 10).
    pub fn spp_amsdu_capable(&self) -> (b: bool)
        ensures
            b == self.spec_spp_amsdu_capable(),
    {
        read_bit(self.bytes.as_slice(), 10)
    }

    /// The "SPP A-MSDU Required" subfield (bit 11).
    pub open spec fn spec_spp_amsdu_required(&self) -> bool {
        bit_set(self.raw(), 11)
    }

    /// The "SPP A-MSDU Required" subfield (bit 11).
    pub fn spp_amsdu_required(&self) -> (b: bool)
        ensures
            b == self.spec_spp_amsdu_required(),
    {
        read_bit(self.bytes.as_slice(), 11)
    }

    /// The "PBAC" subfield (bit 12).
    pub open spec fn spec_pbac(&self) -> bool {
        bit_set(self.raw(), 12)
    }

    /// The "PBAC" subfield (bit 12).
    pub fn pbac(&self) -> (b: bool)
        ensures
            b == self.spec_pbac(),
    {
        read_bit(self.bytes.as_slice(), 12)
    }

    /// The "Extended Key ID for Individually Addressed Frames" subfield (bit 13).
    pub open spec fn spec_extended_key_id_for_individually_address_frames(&self) -> bool {
        bit_set(self.raw(), 13)
    }

    /// The "Extended Key ID for Individually Addressed Frames" subfield (bit 13).
    pub fn extended_key_id_for_individually_address_frames(&self) -> (b: bool)
        ensures
            b == self.spec_extended_key_id_for_individually_address_frames(),
    {
        read_bit(self.bytes.as_slice(), 13)
    }

    /// The "OCVC" subfield (bit 14).
    pub open spec fn spec_ocvc(&self) -> bool {
        bit_set(self.raw(), 14)
    }

    /// The "OCVC" subfield (bit 14).
    pub fn ocvc(&self) -> (b: bool)
        ensures
            b == self.spec_ocvc(),
    {
        read_bit(self.bytes.as_slice(), 14)
    }

    /// Whether `f` is the displayable field of this value: one subfield per bit field. The
    /// "PeerKey Enabled" subfield marks bit 9 and shows the value of bit 8 (Joint Multi-band
    /// RSNA).
    pub open spec fn field_shows(&self, f: Field) -> bool {
        &&& f.title@ == "RSN Capabilities"@
        &&& f.value@ == ""@
        &&& f.bytes matches Some(b) && b@ == self.raw()
        &&& f.byte is None
        &&& f.bits is None
        &&& f.units is None
        &&& f.subfields@.len() == 14
        &&& bit_field_is(f.subfields@[0], "Preauthentication"@, bool_text(self.spec_preauthentication()), None, self.raw(), 0, 1)
        &&& bit_field_is(f.subfields@[1], "No Pairwise"@, bool_text(self.spec_no_pairwise()), None, self.raw(), 1, 1)
        &&& bit_field_is(f.subfields@[2], "PTKSA Replay Counter"@, decimal(self.spec_ptksa_replay_counter() as nat), None, self.raw(), 2, 2)
        &&& bit_field_is(f.subfields@[3], "GTKSA Replay Counter"@, decimal(self.spec_gtksa_replay_counter() as nat), None, self.raw(), 4, 2)
        &&& bit_field_is(f.subfields@[4], "MFPR"@, bool_text(self.spec_mfpr()), None, self.raw(), 6, 1)
        &&& bit_field_is(f.subfields@[5], "MFPC"@, bool_text(self.spec_mfpc()), None, self.raw(), 7, 1)
        &&& bit_field_is(f.subfields@[6], "Joint Multi-band RSNA"@, bool_text(self.spec_joint_multiband_rsna()), None, self.raw(), 8, 1)
        &&& bit_field_is(f.subfields@[7], "PeerKey Enabled"@, bool_text(self.spec_joint_multiband_rsna()), None, self.raw(), 9, 1)
        &&& bit_field_is(f.subfields@[8], "SPP A-MSDU Capable"@, bool_text(self.spec_spp_amsdu_capable()), None, self.raw(), 10, 1)
        &&& bit_field_is(f.subfields@[9], "SPP A-MSDU Required"@, bool_text(self.spec_spp_amsdu_required()), None, self.raw(), 11, 1)
        &&& bit_field_is(f.subfields@[10], "PBAC"@, bool_text(self.spec_pbac()), None, self.raw(), 12, 1)
        &&& bit_field_is(f.subfields@[11], "Extended Key ID for Individually Addressed Frames"@, bool_text(self.spec_extended_key_id_for_individually_address_frames()), None, self.raw(), 13, 1)
        &&& bit_field_is(f.subfields@[12], "OCVC"@, bool_text(self.spec_ocvc()), None, self.raw(), 14, 1)
        &&& reserved_field_is(f.subfields@[13], self.raw(), 15, 1)
    }

    /// The value as a displayable field with one subfield per bit field.
    pub fn to_field(&self) -> (f: Field)
        ensures
            self.field_shows(f),
    {
        let bytes = self.bytes.as_slice();
        let mut subfields: Vec<Field> = Vec::new();
        subfields.push(bit_field("Preauthentication", bool_string(self.preauthentication()), bytes, 0, 1));
        subfields.push(bit_field("No Pairwise", bool_string(self.no_pairwise()), bytes, 1, 1));
        subfields.push(bit_field("PTKSA Replay Counter", u64_text(self.ptksa_replay_counter() as u64), bytes, 2, 2));
        subfields.push(bit_field("GTKSA Replay Counter", u64_text(self.gtksa_replay_counter() as u64), bytes, 4, 2));
        subfields.push(bit_field("MFPR", bool_string(self.mfpr()), bytes, 6, 1));
        subfields.push(bit_field("MFPC", bool_string(self.mfpc()), bytes, 7, 1));
        subfields.push(bit_field("Joint Multi-band RSNA", bool_string(self.joint_multiband_rsna()), bytes, 8, 1));
        subfields.push(bit_field("PeerKey Enabled", bool_string(self.joint_multiband_rsna()), bytes, 9, 1));
        subfields.push(bit_field("SPP A-MSDU Capable", bool_string(self.spp_amsdu_capable()), bytes, 10, 1));
        subfields.push(bit_field("SPP A-MSDU Required", bool_string(self.spp_amsdu_required()), bytes, 11, 1));
        subfields.push(bit_field("PBAC", bool_string(self.pbac()), bytes, 12, 1));
        subfields.push(bit_field("Extended Key ID for Individually Addressed Frames", bool_string(self.extended_key_id_for_individually_address_frames()), bytes, 13, 1));
        subfields.push(bit_field("OCVC", bool_string(self.ocvc()), bytes, 14, 1));
        subfields.push(reserved_bits(bytes, 15, 1));
        Field::new("RSN Capabilities", "").with_bytes(self.to_bytes()).with_subfields(subfields)
    }

}

} // verus!
