//! Displayable fields parsed out of information elements.
use vstd::prelude::*;
use crate::bits::{bit_set};

verus! {

/// A range of bits within one or more bytes, used to show which bits encode a field's value.
///
/// When rendered, bits inside the range show their values (`0` or `1`) and bits outside
/// it show `.`.
#[derive(Debug, Clone, PartialEq, Eq)]
pub struct BitRange {
    pub bytes: Vec<u8>,
    pub start: usize,
    pub length: usize,
}

/// The character shown for bit `k` of a bit range.
pub open spec fn range_bit_char(bytes: Seq<u8>, start: int, length: int, k: int) -> char {
    if start <= k < start + length {
        if bit_set(bytes, k) {
            '1'
        } else {
            '0'
        }
    } else {
        '.'
    }
}

/// The eight bit characters of byte `j`, most significant first, split into two nibbles.
pub open spec fn range_byte_text(bytes: Seq<u8>, start: int, length: int, j: int) -> Seq<char> {
    seq![
        range_bit_char(bytes, start, length, 8 * j + 7),
        range_bit_char(bytes, start, length, 8 * j + 6),
        range_bit_char(bytes, start, length, 8 * j + 5),
        range_bit_char(bytes, start, length, 8 * j + 4),
        ' ',
        range_bit_char(bytes, start, length, 8 * j + 3),
        range_bit_char(bytes, start, length, 8 * j + 2),
        range_bit_char(bytes, start, length, 8 * j + 1),
        range_bit_char(bytes, start, length, 8 * j),
    ]
}

/// The rendering of bytes `j..n` of a bit range, highest byte first, separated by spaces.
pub open spec fn range_text_from(bytes: Seq<u8>, start: int, length: int, j: int) -> Seq<char>
    decreases bytes.len() - j,
{
    if j >= bytes.len() || j < 0 {
        seq![]
    } else if j == bytes.len() - 1 {
        range_byte_text(bytes, start, length, j)
    } else {
        range_text_from(bytes, start, length, j + 1) + seq![' '] + range_byte_text(
            bytes,
            start,
            length,
            j,
        )
    }
}

/// The full rendering of a bit range: every byte, most significant byte first.
pub open spec fn range_text(bytes: Seq<u8>, start: int, length: int) -> Seq<char> {
    range_text_from(bytes, start, length, 0)
}

impl BitRange {
    /// Creates a bit range over `bytes` covering `length` bits from bit `start` (bit 0 is the
    /// least significant bit of the first byte).
    pub fn new(bytes: &[u8], start: usize, length: usize) -> (r: BitRange)
        ensures
            r.bytes@ == bytes@,
            r.start == start,
            r.length == length,
    {
        BitRange { bytes: vstd::slice::slice_to_vec(bytes), start, length }
    }

    /// Creates a bit range over a single byte.
    pub fn from_byte(byte: u8, start: usize, length: usize) -> (r: BitRange)
        ensures
            r.bytes@ == seq![byte],
            r.start == start,
            r.length == length,
    {
        let mut bytes = Vec::new();
        bytes.push(byte);
        BitRange { bytes, start, length }
    }

    /// The character for one bit of the range.
    fn bit_char(&self, k: usize) -> (s: &'static str)
        requires
            k < self.bytes@.len() * 8,
        ensures
            s@ == seq![range_bit_char(self.bytes@, self.start as int, self.length as int, k as int)],
    {
        proof {
            reveal_strlit("1");
            reveal_strlit("0");
            reveal_strlit(".");
        }
        if self.start <= k && (k as u128) < (self.start as u128) + (self.length as u128) {
            if crate::bits::read_bit(self.bytes.as_slice(), k) {
                "1"
            } else {
                "0"
            }
        } else {
            "."
        }
    }

    /// Renders the bit range, for example `.001 0110`: bits in the range show their value,
    /// other bits show `.`, nibbles and bytes are separated by spaces, and the last byte comes
    /// first.
    pub fn to_string(&self) -> (s: String)
        requires
            self.bytes@.len() * 8 <= usize::MAX,
        ensures
            s@ == range_text(self.bytes@, self.start as int, self.length as int),
    {
        let n = self.bytes.len();
        let mut s = String::new();
        proof {
            reveal_strlit(" ");
        }
        if n == 0 {
            return s;
        }
        let mut j: usize = n;
        while j > 0
            invariant
                0 <= j <= n,
                n == self.bytes@.len(),
                n > 0,
                n * 8 <= usize::MAX,
                j == n ==> s@ == Seq::<char>::empty(),
                j < n ==> s@ == range_text_from(
                    self.bytes@,
                    self.start as int,
                    self.length as int,
                    j as int,
                ),
            decreases j,
        {
            let jj = j - 1;
            let base = jj * 8;
            let mut t = String::new();
            t.append(self.bit_char(base + 7));
            t.append(self.bit_char(base + 6));
            t.append(self.bit_char(base + 5));
            t.append(self.bit_char(base + 4));
            t.append(" ");
            t.append(self.bit_char(base + 3));
            t.append(self.bit_char(base + 2));
            t.append(self.bit_char(base + 1));
            t.append(self.bit_char(base));
            let ghost b = self.bytes@;
            let ghost st = self.start as int;
            let ghost ln = self.length as int;
            proof {
                reveal_strlit(" ");
                assert(t@ =~= range_byte_text(b, st, ln, jj as int));
            }
            let ghost old_s = s@;
            if jj + 1 < n {
                s.append(" ");
                s.append(t.as_str());
                proof {
                    assert(range_text_from(b, st, ln, jj as int) == range_text_from(
                        b,
                        st,
                        ln,
                        jj + 1,
                    ) + seq![' '] + range_byte_text(b, st, ln, jj as int));
                    assert(s@ =~= old_s + seq![' '] + t@);
                }
            } else {
                s.append(t.as_str());
                proof {
                    assert(range_text_from(b, st, ln, jj as int) == range_byte_text(
                        b,
                        st,
                        ln,
                        jj as int,
                    ));
                    assert(s@ =~= t@);
                }
            }
            j = jj;
        }
        s
    }
}

/// `f` is a leaf field showing the `len` bits of `bytes` that start at bit `start`, with the
/// given title, value and units.
pub open spec fn bit_field_is(
    f: Field,
    title: Seq<char>,
    value: Seq<char>,
    units: Option<Seq<char>>,
    bytes: Seq<u8>,
    start: int,
    len: int,
) -> bool {
    &&& f.title@ == title
    &&& f.value@ == value
    &&& f.byte is None
    &&& f.bytes is None
    &&& f.subfields@.len() == 0
    &&& match units {
        Some(u) => f.units matches Some(x) && x@ == u,
        None => f.units is None,
    }
    &&& f.bits matches Some(r) && r.bytes@ == bytes && r.start == start && r.length == len
}

/// `f` is the reserved field covering the `len` bits of `bytes` from bit `start`.
pub open spec fn reserved_field_is(f: Field, bytes: Seq<u8>, start: int, len: int) -> bool {
    bit_field_is(f, "Reserved"@, "---"@, None, bytes, start, len)
}

/// Builds a leaf field for the `len` bits of `bytes` starting at bit `start`.
pub fn bit_field(title: &str, value: String, bytes: &[u8], start: usize, len: usize) -> (f: Field)
    ensures
        bit_field_is(f, title@, value@, None, bytes@, start as int, len as int),
{
    Field::text(title, value).with_bits(BitRange::new(bytes, start, len))
}

/// Builds a leaf field with units for the `len` bits of `bytes` starting at bit `start`.
pub fn bit_field_with_units(
    title: &str,
    value: String,
    units: String,
    bytes: &[u8],
    start: usize,
    len: usize,
) -> (f: Field)
    ensures
        bit_field_is(f, title@, value@, Some(units@), bytes@, start as int, len as int),
{
    Field::text(title, value).with_bits(BitRange::new(bytes, start, len)).with_units_string(units)
}

/// Builds the reserved field for the `len` bits of `bytes` starting at bit `start`.
pub fn reserved_bits(bytes: &[u8], start: usize, len: usize) -> (f: Field)
    ensures
        reserved_field_is(f, bytes@, start as int, len as int),
{
    Field::reserved(BitRange::new(bytes, start, len))
}

/// `f` is a leaf field with the given title and value, shown with the single byte it was
/// parsed from.
pub open spec fn byte_field_is(f: Field, title: Seq<char>, value: Seq<char>, units: Option<Seq<char>>, byte: u8) -> bool {
    &&& f.title@ == title
    &&& f.value@ == value
    &&& f.byte == Some(byte)
    &&& f.bytes is None
    &&& f.bits is None
    &&& f.subfields@.len() == 0
    &&& match units {
        Some(u) => f.units matches Some(x) && x@ == u,
        None => f.units is None,
    }
}

/// `f` is a leaf field with the given title and value, shown with the bytes it was parsed
/// from.
pub open spec fn bytes_field_is(f: Field, title: Seq<char>, value: Seq<char>, units: Option<Seq<char>>, bytes: Seq<u8>) -> bool {
    &&& f.title@ == title
    &&& f.value@ == value
    &&& f.byte is None
    &&& f.bytes matches Some(b) && b@ == bytes
    &&& f.bits is None
    &&& f.subfields@.len() == 0
    &&& match units {
        Some(u) => f.units matches Some(x) && x@ == u,
        None => f.units is None,
    }
}

/// `f` is a leaf field with only a title, a value and optional units.
pub open spec fn text_field_is(f: Field, title: Seq<char>, value: Seq<char>, units: Option<Seq<char>>) -> bool {
    &&& f.title@ == title
    &&& f.value@ == value
    &&& f.byte is None
    &&& f.bytes is None
    &&& f.bits is None
    &&& f.subfields@.len() == 0
    &&& match units {
        Some(u) => f.units matches Some(x) && x@ == u,
        None => f.units is None,
    }
}

/// Builds a leaf field shown with the byte it was parsed from.
pub fn byte_field(title: &str, value: String, byte: u8) -> (f: Field)
    ensures
        byte_field_is(f, title@, value@, None, byte),
{
    Field::text(title, value).with_byte(byte)
}

/// Builds a leaf field with units, shown with the byte it was parsed from.
pub fn byte_field_with_units(title: &str, value: String, units: &str, byte: u8) -> (f: Field)
    ensures
        byte_field_is(f, title@, value@, Some(units@), byte),
{
    Field::text(title, value).with_units(units).with_byte(byte)
}

/// Builds a leaf field shown with the bytes it was parsed from.
pub fn bytes_field(title: &str, value: String, bytes: Vec<u8>) -> (f: Field)
    ensures
        bytes_field_is(f, title@, value@, None, bytes@),
{
    Field::text(title, value).with_bytes(bytes)
}

/// Builds a leaf field with units, shown with the bytes it was parsed from.
pub fn bytes_field_with_units(title: &str, value: String, units: &str, bytes: Vec<u8>) -> (f: Field)
    ensures
        bytes_field_is(f, title@, value@, Some(units@), bytes@),
{
    Field::text(title, value).with_units(units).with_bytes(bytes)
}

/// Builds a leaf field with units and no raw data.
pub fn text_field_with_units(title: &str, value: String, units: &str) -> (f: Field)
    ensures
        text_field_is(f, title@, value@, Some(units@)),
{
    Field::text(title, value).with_units(units)
}

/// A parsed field from a Wi-Fi information element.
///
/// A field has a title and a human-readable value, and optionally the raw byte or bytes it was
/// parsed from, the bits that encode it, units for its value, and nested subfields.
#[derive(Debug, PartialEq, Eq)]
pub struct Field {
    pub title: String,
    pub value: String,
    pub byte: Option<u8>,
    pub bytes: Option<Vec<u8>>,
    pub bits: Option<BitRange>,
    pub units: Option<String>,
    pub subfields: Vec<Field>,
}

impl Field {
    /// Creates a field with just a title and value.
    pub fn new(title: &str, value: &str) -> (f: Field)
        ensures
            f.title@ == title@,
            f.value@ == value@,
            f.byte is None,
            f.bytes is None,
            f.bits is None,
            f.units is None,
            f.subfields@.len() == 0,
    {
        Field {
            title: String::from_str(title),
            value: String::from_str(value),
            byte: None,
            bytes: None,
            bits: None,
            units: None,
            subfields: Vec::new(),
        }
    }

    /// Creates a field with a title and an already rendered value.
    pub fn text(title: &str, value: String) -> (f: Field)
        ensures
            f.title@ == title@,
            f.value@ == value@,
            f.byte is None,
            f.bytes is None,
            f.bits is None,
            f.units is None,
            f.subfields@.len() == 0,
    {
        Field {
            title: String::from_str(title),
            value,
            byte: None,
            bytes: None,
            bits: None,
            units: None,
            subfields: Vec::new(),
        }
    }

    /// Creates a reserved field: bits that carry no meaning in the 802.11 protocol.
    pub fn reserved(bits: BitRange) -> (f: Field)
        ensures
            f.title@ == "Reserved"@,
            f.value@ == "---"@,
            f.bits == Some(bits),
            f.byte is None,
            f.bytes is None,
            f.units is None,
            f.subfields@.len() == 0,
    {
        Field::new("Reserved", "---").with_bits(bits)
    }

    /// The same field, recording the single byte it was parsed from.
    pub fn with_byte(self, byte: u8) -> (f: Field)
        ensures
            f == (Field { byte: Some(byte), ..self }),
    {
        Field { byte: Some(byte), ..self }
    }

    /// The same field, recording the bytes it was parsed from.
    pub fn with_bytes(self, bytes: Vec<u8>) -> (f: Field)
        ensures
            f == (Field { bytes: Some(bytes), ..self }),
    {
        Field { bytes: Some(bytes), ..self }
    }

    /// The same field, recording the bits that encode it.
    pub fn with_bits(self, bits: BitRange) -> (f: Field)
        ensures
            f == (Field { bits: Some(bits), ..self }),
    {
        Field { bits: Some(bits), ..self }
    }

    /// The same field, with units for its value.
    pub fn with_units(self, units: &str) -> (f: Field)
        ensures
            f.units matches Some(u) && u@ == units@,
            f.title == self.title,
            f.value == self.value,
            f.byte == self.byte,
            f.bytes == self.bytes,
            f.bits == self.bits,
            f.subfields == self.subfields,
    {
        Field { units: Some(String::from_str(units)), ..self }
    }

    /// The same field, with already rendered units for its value.
    pub fn with_units_string(self, units: String) -> (f: Field)
        ensures
            f == (Field { units: Some(units), ..self }),
    {
        Field { units: Some(units), ..self }
    }

    /// The same field, with nested subfields.
    pub fn with_subfields(self, subfields: Vec<Field>) -> (f: Field)
        ensures
            f == (Field { subfields: subfields, ..self }),
    {
        Field { subfields, ..self }
    }

    /// The field's display name.
    pub fn title(&self) -> (s: &str)
        ensures
            s@ == self.title@,
    {
        self.title.as_str()
    }

    /// The field's value as human-readable text.
    pub fn value(&self) -> (s: &str)
        ensures
            s@ == self.value@,
    {
        self.value.as_str()
    }

    /// The single byte this field was parsed from, if recorded.
    pub fn byte(&self) -> (b: Option<u8>)
        ensures
            b == self.byte,
    {
        self.byte
    }

    /// The raw bytes this field was parsed from, if recorded.
    pub fn bytes(&self) -> (b: Option<&[u8]>)
        ensures
            b matches Some(v) ==> self.bytes matches Some(w) && v@ == w@,
            b is None <==> self.bytes is None,
    {
        match &self.bytes {
            Some(v) => Some(v.as_slice()),
            None => None,
        }
    }

    /// The rendering of the bits that encode this field (see `BitRange::to_string`).
    pub fn bits(&self) -> (s: Option<String>)
        requires
            self.bits matches Some(r) ==> r.bytes@.len() * 8 <= usize::MAX,
        ensures
            s matches Some(t) ==> self.bits matches Some(r) && t@ == range_text(
                r.bytes@,
                r.start as int,
                r.length as int,
            ),
            s is None <==> self.bits is None,
    {
        match &self.bits {
            Some(r) => Some(r.to_string()),
            None => None,
        }
    }

    /// Nested fields of compound data.
    pub fn subfields(&self) -> (s: &[Field])
        ensures
            s@ == self.subfields@,
    {
        self.subfields.as_slice()
    }

    /// The units of the field's value, if any.
    pub fn units(&self) -> (u: Option<&str>)
        ensures
            u matches Some(t) ==> self.units matches Some(w) && t@ == w@,
            u is None <==> self.units is None,
    {
        match &self.units {
            Some(t) => Some(t.as_str()),
            None => None,
        }
    }
}

/// The text of subfields' lines: for each, a new line, `- `, its title, `: ` and its value.
pub open spec fn subfield_lines(subs: Seq<Field>) -> Seq<char>
    decreases subs.len(),
{
    if subs.len() == 0 {
        seq![]
    } else {
        subfield_lines(subs.drop_last()) + "\n- "@ + subs.last().title@ + ": "@ + subs.last().value@
    }
}

impl Field {
    /// The text form: `title: value`, then a line for each subfield.
    pub open spec fn spec_text(&self) -> Seq<char> {
        self.title@ + ": "@ + self.value@ + subfield_lines(self.subfields@)
    }

    /// The text form, for example `BSS Load: \n- Station Count: 3`.
    pub fn to_string(&self) -> (s: String)
        ensures
            s@ == self.spec_text(),
    {
        let mut s = String::from_str("");
        proof {
            reveal_strlit("");
        }
        s.append(self.title.as_str());
        s.append(": ");
        s.append(self.value.as_str());
        let ghost head = s@;
        let subs = &self.subfields;
        let mut i: usize = 0;
        proof {
            assert(subfield_lines(subs@.subrange(0, 0)) =~= Seq::<char>::empty());
            assert(s@ =~= head + subfield_lines(subs@.subrange(0, 0)));
        }
        while i < subs.len()
            invariant
                i <= subs@.len(),
                s@ == head + subfield_lines(subs@.subrange(0, i as int)),
            decreases subs@.len() - i,
        {
            s.append("\n- ");
            s.append(subs[i].title.as_str());
            s.append(": ");
            s.append(subs[i].value.as_str());
            proof {
                let p = subs@.subrange(0, i + 1);
                assert(p.drop_last() =~= subs@.subrange(0, i as int));
                assert(p.last() == subs@[i as int]);
                assert(s@ =~= head + subfield_lines(p));
            }
            i = i + 1;
        }
        proof {
            assert(subs@.subrange(0, subs@.len() as int) =~= subs@);
        }
        s
    }
}

} // verus!
