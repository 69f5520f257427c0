//! Text rendering of numbers and flags, as shown in element summaries and fields.
use vstd::prelude::*;

verus! {

/// The decimal digit character for `d` (0..=9).
pub open spec fn digit_char(d: nat) -> char {
    if d == 0 {
        '0'
    } else if d == 1 {
        '1'
    } else if d == 2 {
        '2'
    } else if d == 3 {
        '3'
    } else if d == 4 {
        '4'
    } else if d == 5 {
        '5'
    } else if d == 6 {
        '6'
    } else if d == 7 {
        '7'
    } else if d == 8 {
        '8'
    } else {
        '9'
    }
}

/// The upper-case hexadecimal digit character for `d` (0..=15).
pub open spec fn hex_char(d: nat) -> char {
    if d < 10 {
        digit_char(d)
    } else if d == 10 {
        'A'
    } else if d == 11 {
        'B'
    } else if d == 12 {
        'C'
    } else if d == 13 {
        'D'
    } else if d == 14 {
        'E'
    } else {
        'F'
    }
}

/// The decimal representation of `n`, without leading zeros.
pub open spec fn decimal(n: nat) -> Seq<char>
    decreases n,
{
    if n < 10 {
        seq![digit_char(n)]
    } else {
        decimal(n / 10).push(digit_char(n % 10))
    }
}

/// The decimal representation of a signed integer, with a leading `-` when negative.
pub open spec fn signed_decimal(n: int) -> Seq<char> {
    if n < 0 {
        seq!['-'] + decimal((-n) as nat)
    } else {
        decimal(n as nat)
    }
}

/// Two upper-case hexadecimal digits for a byte.
pub open spec fn hex_byte(b: u8) -> Seq<char> {
    seq![hex_char((b / 16) as nat), hex_char((b % 16) as nat)]
}

/// The text of a boolean value.
pub open spec fn bool_text(b: bool) -> Seq<char> {
    if b {
        "true"@
    } else {
        "false"@
    }
}

/// Bytes rendered as upper-case hex pairs joined by `sep`.
pub open spec fn hex_joined(bytes: Seq<u8>, sep: Seq<char>) -> Seq<char>
    decreases bytes.len(),
{
    if bytes.len() == 0 {
        seq![]
    } else if bytes.len() == 1 {
        hex_byte(bytes[0])
    } else {
        hex_joined(bytes.drop_last(), sep) + sep + hex_byte(bytes.last())
    }
}

/// Pieces of text joined by `sep`.
pub open spec fn joined(parts: Seq<Seq<char>>, sep: Seq<char>) -> Seq<char>
    decreases parts.len(),
{
    if parts.len() == 0 {
        seq![]
    } else if parts.len() == 1 {
        parts[0]
    } else {
        joined(parts.drop_last(), sep) + sep + parts.last()
    }
}

/// The one-character text of a decimal digit.
pub fn digit_str(d: u8) -> (s: &'static str)
    requires
        d < 10,
    ensures
        s@ == seq![digit_char(d as nat)],
{
    proof {
        reveal_strlit("0");
        reveal_strlit("1");
        reveal_strlit("2");
        reveal_strlit("3");
        reveal_strlit("4");
        reveal_strlit("5");
        reveal_strlit("6");
        reveal_strlit("7");
        reveal_strlit("8");
        reveal_strlit("9");
    }
    match d {
        0 => "0",
        1 => "1",
        2 => "2",
        3 => "3",
        4 => "4",
        5 => "5",
        6 => "6",
        7 => "7",
        8 => "8",
        _ => "9",
    }
}

/// The one-character text of a hexadecimal digit.
pub fn hex_str(d: u8) -> (s: &'static str)
    requires
        d < 16,
    ensures
        s@ == seq![hex_char(d as nat)],
{
    if d < 10 {
        digit_str(d)
    } else {
        proof {
            reveal_strlit("A");
            reveal_strlit("B");
            reveal_strlit("C");
            reveal_strlit("D");
            reveal_strlit("E");
            reveal_strlit("F");
        }
        match d {
            10 => "A",
            11 => "B",
            12 => "C",
            13 => "D",
            14 => "E",
            _ => "F",
        }
    }
}

/// The decimal text of an unsigned integer.
pub fn u64_text(n: u64) -> (s: String)
    ensures
        s@ == decimal(n as nat),
    decreases n,
{
    if n < 10 {
        String::from_str(digit_str(n as u8))
    } else {
        let mut s = u64_text(n / 10);
        s.append(digit_str((n % 10) as u8));
        s
    }
}

/// The decimal text of a signed integer.
pub fn i64_text(n: i64) -> (s: String)
    ensures
        s@ == signed_decimal(n as int),
{
    if n < 0 {
        let magnitude: u64 = (0i128 - (n as i128)) as u64;
        let digits = u64_text(magnitude);
        let mut s = String::from_str("-");
        proof {
            reveal_strlit("-");
        }
        s.append(digits.as_str());
        s
    } else {
        u64_text(n as u64)
    }
}

/// A number in parentheses, as used for the raw code of an enumerated value.
pub open spec fn paren_decimal(n: nat) -> Seq<char> {
    seq!['('] + decimal(n) + seq![')']
}

/// A number in parentheses, for example `(3)`.
pub fn paren_text(n: u64) -> (s: String)
    ensures
        s@ == paren_decimal(n as nat),
{
    let digits = u64_text(n);
    let mut s = String::from_str("(");
    s.append(digits.as_str());
    s.append(")");
    proof {
        reveal_strlit("(");
        reveal_strlit(")");
        assert(s@ =~= paren_decimal(n as nat));
    }
    s
}

/// A static text as an owned string.
pub fn owned(t: &str) -> (s: String)
    ensures
        s@ == t@,
{
    String::from_str(t)
}

/// The text of a boolean value.
pub fn bool_string(b: bool) -> (s: String)
    ensures
        s@ == bool_text(b),
{
    if b {
        String::from_str("true")
    } else {
        String::from_str("false")
    }
}

/// Two upper-case hexadecimal digits for a byte.
pub fn hex_byte_string(b: u8) -> (s: String)
    ensures
        s@ == hex_byte(b),
{
    let mut s = String::from_str(hex_str(b / 16));
    s.append(hex_str(b % 16));
    s
}

/// Bytes rendered as upper-case hex pairs joined by `sep` (for example `00:50:F2`).
pub fn hex_joined_string(bytes: &[u8], sep: &str) -> (s: String)
    ensures
        s@ == hex_joined(bytes@, sep@),
{
    let mut s = String::new();
    let mut i: usize = 0;
    while i < bytes.len()
        invariant
            i <= bytes@.len(),
            s@ == hex_joined(bytes@.subrange(0, i as int), sep@),
        decreases bytes@.len() - i,
    {
        let hb = hex_byte_string(bytes[i]);
        if i > 0 {
            s.append(sep);
        }
        s.append(hb.as_str());
        proof {
            let pre = bytes@.subrange(0, (i + 1) as int);
            assert(pre.drop_last() =~= bytes@.subrange(0, i as int));
            assert(pre.last() == bytes@[i as int]);
            if i == 0 {
                assert(hex_joined(bytes@.subrange(0, 0), sep@) =~= Seq::<char>::empty());
            }
        }
        i = i + 1;
    }
    proof {
        assert(bytes@.subrange(0, bytes@.len() as int) =~= bytes@);
    }
    s
}

/// Pieces of text joined by `sep`.
pub fn join_strings(parts: &Vec<String>, sep: &str) -> (s: String)
    ensures
        s@ == joined(parts@.map_values(|p: String| p@), sep@),
{
    let ghost views = parts@.map_values(|p: String| p@);
    let mut s = String::new();
    let mut i: usize = 0;
    while i < parts.len()
        invariant
            i <= parts@.len(),
            views == parts@.map_values(|p: String| p@),
            s@ == joined(views.subrange(0, i as int), sep@),
        decreases parts@.len() - i,
    {
        if i > 0 {
            s.append(sep);
        }
        s.append(parts[i].as_str());
        proof {
            let pre = views.subrange(0, (i + 1) as int);
            assert(pre.drop_last() =~= views.subrange(0, i as int));
            assert(pre.last() == parts@[i as int]@);
            if i == 0 {
                assert(joined(views.subrange(0, 0), sep@) =~= Seq::<char>::empty());
            }
        }
        i = i + 1;
    }
    proof {
        assert(views.subrange(0, parts@.len() as int) =~= views);
    }
    s
}


/// The decimal text of a 128-bit unsigned integer.
pub fn u128_text(n: u128) -> (s: String)
    ensures
        s@ == decimal(n as nat),
    decreases n,
{
    if n < 10 {
        String::from_str(digit_str(n as u8))
    } else {
        let mut s = u128_text(n / 10);
        s.append(digit_str((n % 10) as u8));
        s
    }
}

/// Bytes as a bracketed list of upper-case hex pairs, for example `[00, 0F, AC]`.
pub open spec fn hex_list(bytes: Seq<u8>) -> Seq<char> {
    "["@ + hex_joined(bytes, ", "@) + "]"@
}

/// Bytes as a bracketed list of upper-case hex pairs, for example `[00, 0F, AC]`.
pub fn hex_list_string(bytes: &[u8]) -> (s: String)
    ensures
        s@ == hex_list(bytes@),
{
    let mut s = String::from_str("[");
    let inner = hex_joined_string(bytes, ", ");
    s.append(inner.as_str());
    s.append("]");
    s
}

/// The pretty-printed debug text of a list of bytes: `[]` when empty, else each byte in
/// decimal on its own indented line within brackets.
pub open spec fn debug_list_text(b: Seq<u8>) -> Seq<char>
    decreases b.len(),
{
    if b.len() == 0 {
        "[]"@
    } else {
        "[\n"@ + debug_lines(b) + "]"@
    }
}

/// The indented lines of the pretty-printed debug text of a list of bytes.
pub open spec fn debug_lines(b: Seq<u8>) -> Seq<char>
    decreases b.len(),
{
    if b.len() == 0 {
        seq![]
    } else {
        debug_lines(b.drop_last()) + "    "@ + decimal(b.last() as nat) + ",\n"@
    }
}

/// The pretty-printed debug text of a list of bytes; see `debug_list_text`.
pub fn debug_list_string(b: &[u8]) -> (s: String)
    ensures
        s@ == debug_list_text(b@),
{
    if b.len() == 0 {
        return String::from_str("[]");
    }
    let mut s = String::from_str("[\n");
    let mut i: usize = 0;
    proof {
        reveal_strlit("[\n");
        assert(debug_lines(b@.subrange(0, 0)) =~= Seq::<char>::empty());
    }
    while i < b.len()
        invariant
            i <= b@.len(),
            s@ == "[\n"@ + debug_lines(b@.subrange(0, i as int)),
        decreases b@.len() - i,
    {
        s.append("    ");
        s.append(u64_text(b[i] as u64).as_str());
        s.append(",\n");
        proof {
            let p = b@.subrange(0, i + 1);
            assert(p.drop_last() =~= b@.subrange(0, i as int));
            assert(p.last() == b@[i as int]);
            assert(s@ =~= "[\n"@ + debug_lines(p));
        }
        i = i + 1;
    }
    s.append("]");
    proof {
        assert(b@.subrange(0, b@.len() as int) =~= b@);
    }
    s
}


} // verus!
