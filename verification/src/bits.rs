//! Little-endian, least-significant-bit-first bit fields inside byte strings,
//! the layout used by 802.11 information elements.
use vstd::prelude::*;

verus! {

/// 2 to the power `n`.
pub open spec fn two_pow(n: nat) -> nat
    decreases n,
{
    if n == 0 {
        1
    } else {
        2 * two_pow((n - 1) as nat)
    }
}

/// Bit number `k` of `bytes`, counting from the least significant bit of the first byte.
/// Bits past the end of `bytes` read as 0.
pub open spec fn bit_of(bytes: Seq<u8>, k: int) -> nat {
    if 0 <= k < bytes.len() * 8 {
        ((bytes[k / 8] >> ((k % 8) as u8)) & 1u8) as nat
    } else {
        0
    }
}

/// The unsigned value of the `len` bits of `bytes` starting at bit `start`;
/// bit `start` is the least significant.
pub open spec fn bits_value(bytes: Seq<u8>, start: int, len: nat) -> nat
    decreases len,
{
    if len == 0 {
        0
    } else {
        bits_value(bytes, start, (len - 1) as nat) + bit_of(bytes, start + len - 1) * two_pow(
            (len - 1) as nat,
        )
    }
}

/// Whether bit `k` of `bytes` is set.
pub open spec fn bit_set(bytes: Seq<u8>, k: int) -> bool {
    bit_of(bytes, k) == 1
}

/// A little-endian 16-bit value stored at byte `i`.
pub open spec fn le_u16(bytes: Seq<u8>, i: int) -> u16 {
    (bytes[i] + bytes[i + 1] * 256) as u16
}

pub proof fn lemma_two_pow_pos(n: nat)
    ensures
        two_pow(n) >= 1,
    decreases n,
{
    if n > 0 {
        lemma_two_pow_pos((n - 1) as nat);
    }
}

pub proof fn lemma_two_pow_64()
    ensures
        two_pow(8) == 0x100,
        two_pow(16) == 0x10000,
        two_pow(32) == 0x1_0000_0000,
        two_pow(64) == 0x1_0000_0000_0000_0000,
{
    reveal_with_fuel(two_pow, 65);
}

pub proof fn lemma_bit_of_le_one(bytes: Seq<u8>, k: int)
    ensures
        bit_of(bytes, k) <= 1,
{
    if 0 <= k < bytes.len() * 8 {
        let b = bytes[k / 8];
        let s = (k % 8) as u8;
        assert((b >> s) & 1u8 <= 1u8) by (bit_vector);
    }
}

/// A field of `len` bits never reaches 2^len.
pub proof fn lemma_bits_value_bound(bytes: Seq<u8>, start: int, len: nat)
    ensures
        bits_value(bytes, start, len) < two_pow(len),
    decreases len,
{
    if len > 0 {
        lemma_bits_value_bound(bytes, start, (len - 1) as nat);
        lemma_bit_of_le_one(bytes, start + len - 1);
        assert(two_pow(len) == 2 * two_pow((len - 1) as nat));
        let prev = bits_value(bytes, start, (len - 1) as nat);
        let b = bit_of(bytes, start + len - 1);
        let p = two_pow((len - 1) as nat);
        assert(bits_value(bytes, start, len) == prev + b * p);
        assert(b <= 1);
        assert(b * p <= p) by (nonlinear_arith)
            requires
                b <= 1,
        ;
    }
}

/// Reads bit `k` of `bytes`.
pub fn read_bit(bytes: &[u8], k: usize) -> (b: bool)
    requires
        k < bytes@.len() * 8,
    ensures
        b == bit_set(bytes@, k as int),
{
    proof {
        lemma_bit_of_le_one(bytes@, k as int);
    }
    let byte = bytes[k / 8];
    let shift = (k % 8) as u8;
    (byte >> shift) & 1u8 == 1u8
}

/// Reads the `len`-bit field starting at bit `start` (least significant bit first).
pub fn read_bits(bytes: &[u8], start: usize, len: usize) -> (v: u64)
    requires
        len <= 64,
        start + len <= usize::MAX,
        start + len <= bytes@.len() * 8,
    ensures
        v == bits_value(bytes@, start as int, len as nat),
        (v as nat) < two_pow(len as nat),
{
    let mut acc: u128 = 0;
    let mut pow: u128 = 1;
    let mut i: usize = 0;
    proof {
        lemma_two_pow_64();
    }
    while i < len
        invariant
            i <= len <= 64,
            start + len <= bytes@.len() * 8,
            start + len <= usize::MAX,
            acc == bits_value(bytes@, start as int, i as nat),
            pow == two_pow(i as nat),
            acc < pow,
            two_pow(i as nat) <= two_pow(64),
            two_pow(64) == 0x1_0000_0000_0000_0000,
        decreases len - i,
    {
        let k = start + i;
        let byte = bytes[k / 8];
        let shift = (k % 8) as u8;
        let bit = (byte >> shift) & 1u8;
        proof {
            lemma_bit_of_le_one(bytes@, k as int);
            assert(bit as nat == bit_of(bytes@, k as int));
            assert(bits_value(bytes@, start as int, (i + 1) as nat) == bits_value(
                bytes@,
                start as int,
                i as nat,
            ) + bit_of(bytes@, k as int) * two_pow(i as nat));
            let bn = bit_of(bytes@, k as int);
            let pw = two_pow(i as nat);
            if bit == 0u8 {
                assert(bn * pw == 0) by (nonlinear_arith)
                    requires
                        bn == 0,
                ;
            } else {
                assert(bit == 1u8) by (bit_vector)
                    requires
                        bit <= 1u8,
                        bit != 0u8,
                ;
                assert(bn * pw == pw) by (nonlinear_arith)
                    requires
                        bn == 1,
                ;
            }
            assert(two_pow((i + 1) as nat) == 2 * two_pow(i as nat));
            if i + 1 < 64 {
                lemma_two_pow_monotone((i + 1) as nat, 64);
            }
        }
        if bit == 1u8 {
            acc = acc + pow;
        }
        pow = pow * 2;
        i = i + 1;
    }
    proof {
        lemma_bits_value_bound(bytes@, start as int, len as nat);
    }
    acc as u64
}

pub proof fn lemma_two_pow_monotone(a: nat, b: nat)
    requires
        a <= b,
    ensures
        two_pow(a) <= two_pow(b),
    decreases b,
{
    if a < b {
        lemma_two_pow_monotone(a, (b - 1) as nat);
        lemma_two_pow_pos((b - 1) as nat);
    }
}

/// Reads a field of at most 8 bits.
pub fn read_u8_bits(bytes: &[u8], start: usize, len: usize) -> (v: u8)
    requires
        len <= 8,
        start + len <= bytes@.len() * 8,
        start + len <= usize::MAX,
    ensures
        v == bits_value(bytes@, start as int, len as nat),
{
    proof {
        lemma_two_pow_monotone(len as nat, 8);
        lemma_two_pow_64();
    }
    read_bits(bytes, start, len) as u8
}

/// Reads a field of at most 16 bits.
pub fn read_u16_bits(bytes: &[u8], start: usize, len: usize) -> (v: u16)
    requires
        len <= 16,
        start + len <= bytes@.len() * 8,
        start + len <= usize::MAX,
    ensures
        v == bits_value(bytes@, start as int, len as nat),
{
    proof {
        lemma_two_pow_monotone(len as nat, 16);
        lemma_two_pow_64();
    }
    read_bits(bytes, start, len) as u16
}

/// Reads a little-endian 16-bit value at byte `i`.
pub fn read_le_u16(bytes: &[u8], i: usize) -> (v: u16)
    requires
        i + 2 <= bytes@.len(),
    ensures
        v == le_u16(bytes@, i as int),
{
    (bytes[i] as u16) + (bytes[i + 1] as u16) * 256
}

/// The two bytes of a 16-bit value, most significant first.
pub open spec fn be_bytes_u16(v: u16) -> Seq<u8> {
    seq![(v / 256) as u8, (v % 256) as u8]
}

/// The two bytes of a 16-bit value, least significant first.
pub open spec fn le_bytes_u16(v: u16) -> Seq<u8> {
    seq![(v % 256) as u8, (v / 256) as u8]
}

/// The big-endian encoding of a 16-bit value.
pub fn u16_be_bytes(v: u16) -> (b: Vec<u8>)
    ensures
        b@ == be_bytes_u16(v),
{
    let mut b = Vec::new();
    b.push((v / 256) as u8);
    b.push((v % 256) as u8);
    proof {
        assert(b@ =~= be_bytes_u16(v));
    }
    b
}

/// The little-endian encoding of a 16-bit value.
pub fn u16_le_bytes(v: u16) -> (b: Vec<u8>)
    ensures
        b@ == le_bytes_u16(v),
{
    let mut b = Vec::new();
    b.push((v % 256) as u8);
    b.push((v / 256) as u8);
    proof {
        assert(b@ =~= le_bytes_u16(v));
    }
    b
}


/// The `len` lowest bits of `v`, least significant first.
pub open spec fn code_bits(v: nat, len: nat) -> Seq<bool>
    decreases len,
{
    if len == 0 {
        seq![]
    } else {
        seq![v % 2 == 1] + code_bits(v / 2, (len - 1) as nat)
    }
}

/// The value of byte `j` when `bits` are packed least significant bit first; bits past the
/// end count as 0.
pub open spec fn packed_byte(bits: Seq<bool>, j: int) -> int {
    let b = |t: int| if 8 * j + t < bits.len() && bits[8 * j + t] { 1int } else { 0int };
    b(0) + 2 * b(1) + 4 * b(2) + 8 * b(3) + 16 * b(4) + 32 * b(5) + 64 * b(6) + 128 * b(7)
}

/// `bits` packed into bytes, least significant bit first, the last byte padded with zeros.
pub open spec fn pack_bits(bits: Seq<bool>) -> Seq<u8> {
    Seq::new(((bits.len() + 7) / 8) as nat, |j: int| packed_byte(bits, j) as u8)
}

/// Appends the `len` lowest bits of `v` to `bits`, least significant first.
pub fn push_code_bits(bits: &mut Vec<bool>, v: u8, len: usize)
    requires
        len <= 8,
    ensures
        final(bits)@ == old(bits)@ + code_bits(v as nat, len as nat),
{
    let mut cur: u8 = v;
    let mut i: usize = 0;
    while i < len
        invariant
            i <= len <= 8,
            bits@ + code_bits(cur as nat, (len - i) as nat) == old(bits)@ + code_bits(
                v as nat,
                len as nat,
            ),
        decreases len - i,
    {
        let ghost before = bits@;
        bits.push(cur % 2 == 1);
        proof {
            assert(code_bits(cur as nat, (len - i) as nat) == seq![cur % 2 == 1] + code_bits(
                (cur / 2) as nat,
                (len - i - 1) as nat,
            ));
            assert(bits@ + code_bits((cur / 2) as nat, (len - i - 1) as nat) =~= before
                + code_bits(cur as nat, (len - i) as nat));
        }
        cur = cur / 2;
        i = i + 1;
    }
    proof {
        assert(bits@ + code_bits(cur as nat, 0) =~= bits@);
    }
}

/// Packs `bits` into bytes, least significant bit first, padding the last byte with zeros.
pub fn pack_bit_vec(bits: &Vec<bool>) -> (out: Vec<u8>)
    requires
        bits@.len() + 8 <= usize::MAX,
    ensures
        out@ == pack_bits(bits@),
{
    let n = bits.len();
    let nbytes = (n + 7) / 8;
    let mut out: Vec<u8> = Vec::new();
    let mut j: usize = 0;
    while j < nbytes
        invariant
            n == bits@.len(),
            n + 8 <= usize::MAX,
            nbytes == (n + 7) / 8,
            j <= nbytes,
            out@.len() == j,
            forall|k: int| 0 <= k < j ==> out@[k] == packed_byte(bits@, k) as u8,
        decreases nbytes - j,
    {
        let mut acc: u32 = 0;
        let mut weight: u32 = 1;
        let mut t: usize = 0;
        while t < 8
            invariant
                n == bits@.len(),
                j < nbytes,
                nbytes == (n + 7) / 8,
                n + 8 <= usize::MAX,
                t <= 8,
                weight == if t == 0 { 1u32 } else if t == 1 { 2u32 } else if t == 2 { 4u32 } else if t == 3 { 8u32 } else if t == 4 { 16u32 } else if t == 5 { 32u32 } else if t == 6 { 64u32 } else if t == 7 { 128u32 } else { 256u32 },
                acc as int == {
                    let b = |q: int| if 8 * j + q < n && bits@[8 * j + q] { 1int } else { 0int };
                    (if t > 0 { b(0) } else { 0 }) + (if t > 1 { 2 * b(1) } else { 0 }) + (if t > 2 { 4 * b(2) } else { 0 }) + (if t > 3 { 8 * b(3) } else { 0 }) + (if t > 4 { 16 * b(4) } else { 0 }) + (if t > 5 { 32 * b(5) } else { 0 }) + (if t > 6 { 64 * b(6) } else { 0 }) + (if t > 7 { 128 * b(7) } else { 0 })
                },
                acc < weight,
            decreases 8 - t,
        {
            assert(8 * j + 8 <= 8 * nbytes);
            let k = 8 * j + t;
            if k < n && bits[k] {
                acc = acc + weight;
            }
            weight = weight * 2;
            t = t + 1;
        }
        out.push(acc as u8);
        j = j + 1;
    }
    proof {
        assert(out@ =~= pack_bits(bits@));
    }
    out
}


/// `code_bits` has the requested number of bits.
pub proof fn lemma_code_bits_len(v: nat, len: nat)
    ensures
        code_bits(v, len).len() == len,
    decreases len,
{
    if len > 0 {
        lemma_code_bits_len(v / 2, (len - 1) as nat);
    }
}


/// A field read from a prefix of `bytes` has the same value as in `bytes`.
pub proof fn lemma_bits_prefix(bytes: Seq<u8>, prefix: Seq<u8>, start: int, len: nat)
    requires
        prefix == bytes.subrange(0, prefix.len() as int),
        prefix.len() <= bytes.len(),
        0 <= start,
        start + len <= prefix.len() * 8,
    ensures
        bits_value(prefix, start, len) == bits_value(bytes, start, len),
    decreases len,
{
    if len > 0 {
        lemma_bits_prefix(bytes, prefix, start, (len - 1) as nat);
        let k = start + len - 1;
        assert(k / 8 < prefix.len());
        assert(prefix[k / 8] == bytes[k / 8]);
    }
}


/// The little-endian value of the `n` bytes of `bytes` starting at `i`.
pub open spec fn le_value(bytes: Seq<u8>, i: int, n: nat) -> nat
    decreases n,
{
    if n == 0 {
        0
    } else {
        (bytes[i] + 256 * le_value(bytes, i + 1, (n - 1) as nat)) as nat
    }
}

/// Reads a little-endian 128-bit value at byte `i`.
pub fn read_le_u128(bytes: &[u8], i: usize) -> (v: u128)
    requires
        i + 16 <= bytes@.len(),
    ensures
        v == le_value(bytes@, i as int, 16),
{
    let mut acc: u128 = 0;
    let mut k: usize = 16;
    let len = bytes.len();
    proof {
        lemma_le_value_bound(bytes@, i as int + 16, 0);
    }
    while k > 0
        invariant
            len == bytes@.len(),
            i + 16 <= bytes@.len(),
            k <= 16,
            acc == le_value(bytes@, i + k, (16 - k) as nat),
            le_value(bytes@, i + k, (16 - k) as nat) < two_pow(8 * (16 - k) as nat),
        decreases k,
    {
        let b = bytes[i + k - 1];
        proof {
            lemma_le_value_bound(bytes@, i + k - 1, (16 - k + 1) as nat);
            lemma_two_pow_monotone(8 * (16 - k + 1) as nat, 128);
            lemma_two_pow_128();
            assert(le_value(bytes@, i + k - 1, (16 - k + 1) as nat) == b + 256 * le_value(
                bytes@,
                i + k,
                (16 - k) as nat,
            ));
        }
        acc = (b as u128) + 256 * acc;
        k = k - 1;
    }
    acc
}

/// Reads the little-endian value of the `n` (at most 8) bytes at byte `i`.
pub fn read_le_u64(bytes: &[u8], i: usize, n: usize) -> (v: u64)
    requires
        n <= 8,
        i + n <= bytes@.len(),
    ensures
        v == le_value(bytes@, i as int, n as nat),
{
    let mut acc: u64 = 0;
    let mut k: usize = n;
    let len = bytes.len();
    proof {
        lemma_le_value_bound(bytes@, i as int + n, 0);
    }
    while k > 0
        invariant
            len == bytes@.len(),
            n <= 8,
            i + n <= bytes@.len(),
            k <= n,
            acc == le_value(bytes@, i + k, (n - k) as nat),
            le_value(bytes@, i + k, (n - k) as nat) < two_pow(8 * (n - k) as nat),
        decreases k,
    {
        let b = bytes[i + k - 1];
        proof {
            lemma_le_value_bound(bytes@, i + k - 1, (n - k + 1) as nat);
            lemma_two_pow_monotone(8 * (n - k + 1) as nat, 64);
            lemma_two_pow_64();
            assert(le_value(bytes@, i + k - 1, (n - k + 1) as nat) == b + 256 * le_value(
                bytes@,
                i + k,
                (n - k) as nat,
            ));
        }
        acc = (b as u64) + 256 * acc;
        k = k - 1;
    }
    acc
}

/// The `n` low bytes of `v`, least significant first.
pub open spec fn le_bytes_of(v: nat, n: nat) -> Seq<u8>
    decreases n,
{
    if n == 0 {
        seq![]
    } else {
        seq![(v % 256) as u8] + le_bytes_of(v / 256, (n - 1) as nat)
    }
}

/// The `n` (at most 16) low bytes of `v`, least significant first.
pub fn u128_le_bytes(v: u128, n: usize) -> (b: Vec<u8>)
    requires
        n <= 16,
    ensures
        b@ == le_bytes_of(v as nat, n as nat),
{
    let mut b: Vec<u8> = Vec::new();
    let mut x = v;
    let mut k: usize = 0;
    while k < n
        invariant
            k <= n,
            b@ + le_bytes_of(x as nat, (n - k) as nat) == le_bytes_of(v as nat, n as nat),
        decreases n - k,
    {
        let ghost before = b@;
        proof {
            assert(le_bytes_of(x as nat, (n - k) as nat) == seq![(x % 256) as u8] + le_bytes_of(
                (x / 256) as nat,
                (n - k - 1) as nat,
            ));
        }
        b.push((x % 256) as u8);
        x = x / 256;
        k = k + 1;
        proof {
            assert(b@ =~= before.push(b@.last()));
            assert(b@ + le_bytes_of(x as nat, (n - k) as nat) =~= before + (seq![b@.last()] + le_bytes_of(
                x as nat,
                (n - k) as nat,
            )));
        }
    }
    proof {
        assert(b@ + le_bytes_of(x as nat, 0) =~= b@);
    }
    b
}

/// The little-endian value of `m + n` bytes is that of the first `m` bytes plus 2^(8m) times
/// that of the next `n`.
pub proof fn lemma_le_value_split(bytes: Seq<u8>, i: int, m: nat, n: nat)
    ensures
        le_value(bytes, i, m + n) == le_value(bytes, i, m) + two_pow(8 * m) * le_value(bytes, i + m, n),
    decreases m,
{
    if m == 0 {
        assert(two_pow(0) == 1) by {
            reveal_with_fuel(two_pow, 1);
        }
        assert(le_value(bytes, i, 0) == 0);
        assert(m + n == n);
        assert(8 * m == 0);
        assert(i + m == i);
        assert(two_pow(8 * m) * le_value(bytes, i + m, n) == le_value(bytes, i, n));
    } else {
        lemma_le_value_split(bytes, i + 1, (m - 1) as nat, n);
        lemma_two_pow_add(8, 8 * (m - 1) as nat);
        assert(two_pow(8) == 256) by {
            lemma_two_pow_64();
        }
        assert(8 * m == 8 + 8 * (m - 1) as nat);
        assert((m + n - 1) as nat == (m - 1) as nat + n);
        let a = le_value(bytes, i + 1, (m - 1) as nat);
        let c = le_value(bytes, i + m, n);
        let p = two_pow(8 * (m - 1) as nat);
        assert(i + 1 + (m - 1) as nat == i + m);
        assert(le_value(bytes, i + 1, ((m - 1) as nat + n) as nat) == a + p * c);
        assert(le_value(bytes, i, m + n) == bytes[i] + 256 * le_value(bytes, i + 1, (m + n - 1) as nat));
        assert(le_value(bytes, i, m) == bytes[i] + 256 * a);
        assert(two_pow(8 * m) == 256 * p);
        assert(bytes[i] + 256 * (a + p * c) == (bytes[i] + 256 * a) + (256 * p) * c) by (nonlinear_arith);
        assert(two_pow(8 * m) * c == (256 * p) * c);
    }
}

/// The value of `n` bytes is below 2^(8n).
pub proof fn lemma_le_value_bound(bytes: Seq<u8>, i: int, n: nat)
    ensures
        le_value(bytes, i, n) < two_pow(8 * n),
    decreases n,
{
    if n > 0 {
        lemma_le_value_bound(bytes, i + 1, (n - 1) as nat);
        lemma_two_pow_add(8, 8 * (n - 1) as nat);
        reveal_with_fuel(two_pow, 9);
        let r = le_value(bytes, i + 1, (n - 1) as nat);
        let p = two_pow(8 * (n - 1) as nat);
        assert(bytes[i] + 256 * r < 256 * p) by (nonlinear_arith)
            requires
                r < p,
                r + 1 <= p,
                bytes[i] < 256,
        ;
        assert(8 * n == 8 + 8 * (n - 1) as nat);
    } else {
        reveal_with_fuel(two_pow, 1);
    }
}

/// 2^(a+b) = 2^a * 2^b.
pub proof fn lemma_two_pow_add(a: nat, b: nat)
    ensures
        two_pow(a + b) == two_pow(a) * two_pow(b),
    decreases a,
{
    if a > 0 {
        lemma_two_pow_add((a - 1) as nat, b);
        let x = two_pow((a - 1) as nat);
        let y = two_pow(b);
        assert(two_pow(a + b) == 2 * two_pow((a - 1 + b) as nat));
        assert(two_pow(a) == 2 * x);
        assert(2 * (x * y) == (2 * x) * y) by (nonlinear_arith);
    } else {
        assert(two_pow(0) == 1);
        assert(a + b == b);
        assert(1 * two_pow(b) == two_pow(b));
    }
}

/// 2^128.
pub proof fn lemma_two_pow_128()
    ensures
        two_pow(128) == 0x1_0000_0000_0000_0000_0000_0000_0000_0000,
{
    lemma_two_pow_64();
    lemma_two_pow_add(64, 64);
}


/// A field read from a slice of `bytes` that starts at byte `at` has the value of the field
/// `8 * at` bits further on in `bytes`.
pub proof fn lemma_bits_shift(bytes: Seq<u8>, part: Seq<u8>, at: int, start: int, len: nat)
    requires
        0 <= at,
        at + part.len() <= bytes.len(),
        part == bytes.subrange(at, at + part.len()),
        0 <= start,
        start + len <= part.len() * 8,
    ensures
        bits_value(part, start, len) == bits_value(bytes, 8 * at + start, len),
    decreases len,
{
    if len > 0 {
        lemma_bits_shift(bytes, part, at, start, (len - 1) as nat);
        let k = start + len - 1;
        assert((8 * at + k) / 8 == at + k / 8);
        assert((8 * at + k) % 8 == k % 8);
        assert(part[k / 8] == bytes[at + k / 8]);
    }
}

} // verus!
