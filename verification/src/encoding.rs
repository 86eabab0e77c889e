//! Byte-level encodings shared by the protocol and the report checks:
//! little- and big-endian 64-bit integers, lowercase hex, and decimal
//! rendering of small integers.

use vstd::prelude::*;

verus! {

/// The eight little-endian bytes of `x`.
pub open spec fn spec_u64_le(x: u64) -> Seq<u8> {
    seq![
        (x & 0xff) as u8,
        ((x >> 8) & 0xff) as u8,
        ((x >> 16) & 0xff) as u8,
        ((x >> 24) & 0xff) as u8,
        ((x >> 32) & 0xff) as u8,
        ((x >> 40) & 0xff) as u8,
        ((x >> 48) & 0xff) as u8,
        ((x >> 56) & 0xff) as u8,
    ]
}

/// The value read from eight little-endian bytes.
pub open spec fn spec_u64_of_le(s: Seq<u8>) -> u64
    recommends
        s.len() == 8,
{
    ((s[0] as u64) | ((s[1] as u64) << 8) | ((s[2] as u64) << 16) | ((s[3] as u64) << 24)
        | ((s[4] as u64) << 32) | ((s[5] as u64) << 40) | ((s[6] as u64) << 48) | ((s[7] as u64)
        << 56)) as u64
}

/// The eight big-endian bytes of `x`.
pub open spec fn spec_u64_be(x: u64) -> Seq<u8> {
    spec_u64_le(x).reverse()
}

/// Reading back the little-endian bytes of `x` yields `x` again.
pub proof fn lemma_u64_le_round_trip(x: u64)
    ensures
        spec_u64_of_le(spec_u64_le(x)) == x,
{
    let s = spec_u64_le(x);
    assert((((((x & 0xff) as u8) as u64) | (((((x >> 8) & 0xff) as u8) as u64) << 8) | (((((x
        >> 16) & 0xff) as u8) as u64) << 16) | (((((x >> 24) & 0xff) as u8) as u64) << 24) | (((((x
        >> 32) & 0xff) as u8) as u64) << 32) | (((((x >> 40) & 0xff) as u8) as u64) << 40) | (((((x
        >> 48) & 0xff) as u8) as u64) << 48) | (((((x >> 56) & 0xff) as u8) as u64) << 56)) as u64)
        == x) by (bit_vector);
    assert(s[0] == (x & 0xff) as u8);
    assert(s[7] == ((x >> 56) & 0xff) as u8);
}

pub fn u64_to_le_bytes(x: u64) -> (r: [u8; 8])
    ensures
        r@ == spec_u64_le(x),
{
    let r: [u8; 8] = [
        (x & 0xff) as u8,
        ((x >> 8) & 0xff) as u8,
        ((x >> 16) & 0xff) as u8,
        ((x >> 24) & 0xff) as u8,
        ((x >> 32) & 0xff) as u8,
        ((x >> 40) & 0xff) as u8,
        ((x >> 48) & 0xff) as u8,
        ((x >> 56) & 0xff) as u8,
    ];
    assert(r@ =~= spec_u64_le(x));
    r
}

pub fn u64_from_le_bytes(b: &[u8; 8]) -> (r: u64)
    ensures
        r == spec_u64_of_le(b@),
{
    (b[0] as u64) | ((b[1] as u64) << 8) | ((b[2] as u64) << 16) | ((b[3] as u64) << 24) | ((
    b[4] as u64) << 32) | ((b[5] as u64) << 40) | ((b[6] as u64) << 48) | ((b[7] as u64) << 56)
}

pub fn u64_to_be_bytes(x: u64) -> (r: [u8; 8])
    ensures
        r@ == spec_u64_be(x),
{
    let r: [u8; 8] = [
        ((x >> 56) & 0xff) as u8,
        ((x >> 48) & 0xff) as u8,
        ((x >> 40) & 0xff) as u8,
        ((x >> 32) & 0xff) as u8,
        ((x >> 24) & 0xff) as u8,
        ((x >> 16) & 0xff) as u8,
        ((x >> 8) & 0xff) as u8,
        (x & 0xff) as u8,
    ];
    assert(r@ =~= spec_u64_le(x).reverse());
    r
}

/// The value read from four little-endian bytes.
pub open spec fn spec_u32_of_le(s: Seq<u8>) -> u32
    recommends
        s.len() == 4,
{
    ((s[0] as u32) | ((s[1] as u32) << 8) | ((s[2] as u32) << 16) | ((s[3] as u32) << 24)) as u32
}

/// Reads the four little-endian bytes starting at `off`.
pub fn u32_at(b: &[u8], off: usize) -> (r: u32)
    requires
        off + 4 <= b@.len(),
    ensures
        r == spec_u32_of_le(b@.subrange(off as int, off + 4)),
{
    let r = (b[off] as u32) | ((b[off + 1] as u32) << 8) | ((b[off + 2] as u32) << 16) | ((b[off
        + 3] as u32) << 24);
    assert(b@.subrange(off as int, off + 4)[0] == b@[off as int]);
    r
}

/// Reads the eight little-endian bytes starting at `off`.
pub fn u64_at(b: &[u8], off: usize) -> (r: u64)
    requires
        off + 8 <= b@.len(),
    ensures
        r == spec_u64_of_le(b@.subrange(off as int, off + 8)),
{
    let r = (b[off] as u64) | ((b[off + 1] as u64) << 8) | ((b[off + 2] as u64) << 16) | ((b[off
        + 3] as u64) << 24) | ((b[off + 4] as u64) << 32) | ((b[off + 5] as u64) << 40) | ((b[off
        + 6] as u64) << 48) | ((b[off + 7] as u64) << 56);
    assert(b@.subrange(off as int, off + 8)[0] == b@[off as int]);
    r
}

/// Copies `N` bytes starting at `off` into a fixed-size array.
pub fn bytes_at<const N: usize>(b: &[u8], off: usize) -> (r: [u8; N])
    requires
        off + N <= b@.len(),
    ensures
        r@ == b@.subrange(off as int, off + N),
{
    let blen = b.len();
    let mut r: [u8; N] = [0u8; N];
    let mut i: usize = 0;
    while i < N
        invariant
            off + N <= blen,
            blen == b@.len(),
            i <= N,
            forall|j: int| 0 <= j < i ==> r@[j] == b@[off + j],
        decreases N - i,
    {
        r[i] = b[off + i];
        i += 1;
    }
    assert(r@ =~= b@.subrange(off as int, off + N));
    r
}

/// Byte-for-byte equality of two slices.
pub fn bytes_eq(a: &[u8], b: &[u8]) -> (r: bool)
    ensures
        r <==> a@ == b@,
{
    if a.len() != b.len() {
        assert(a@ != b@);
        return false;
    }
    let n = a.len();
    let mut i: usize = 0;
    while i < n
        invariant
            n == a@.len() == b@.len(),
            i <= n,
            forall|j: int| 0 <= j < i ==> a@[j] == b@[j],
        decreases n - i,
    {
        if a[i] != b[i] {
            return false;
        }
        i += 1;
    }
    assert(a@ =~= b@);
    true
}

/// Lowercase hex digit for a value below 16.
pub open spec fn spec_hex_digit(d: int) -> char
    recommends
        0 <= d < 16,
{
    if d == 0 {
        '0'
    } else if d == 1 {
        '1'
    } else if d == 2 {
        '2'
    } else if d == 3 {
        '3'
    } else if d == 4 {
        '4'
    } else if d == 5 {
        '5'
    } else if d == 6 {
        '6'
    } else if d == 7 {
        '7'
    } else if d == 8 {
        '8'
    } else if d == 9 {
        '9'
    } else if d == 10 {
        'a'
    } else if d == 11 {
        'b'
    } else if d == 12 {
        'c'
    } else if d == 13 {
        'd'
    } else if d == 14 {
        'e'
    } else {
        'f'
    }
}

/// Lowercase hex rendering of a byte string, two digits per byte.
pub open spec fn spec_hex_of(s: Seq<u8>) -> Seq<char>
    decreases s.len(),
{
    if s.len() == 0 {
        Seq::<char>::empty()
    } else {
        seq![
            spec_hex_digit((s.first() >> 4) as int),
            spec_hex_digit((s.first() & 0x0f) as int),
        ] + spec_hex_of(s.drop_first())
    }
}

/// Decimal rendering of a number, without leading zeros.
pub open spec fn spec_dec_of(n: int) -> Seq<char>
    recommends
        n >= 0,
    decreases n,
{
    if n < 10 {
        seq![spec_hex_digit(if 0 <= n < 10 { n } else { 0 })]
    } else {
        spec_dec_of(n / 10) + seq![spec_hex_digit(n % 10)]
    }
}

/// The ten decimal digit characters.
pub open spec fn is_dec_digit(c: char) -> bool {
    c == '0' || c == '1' || c == '2' || c == '3' || c == '4' || c == '5' || c == '6' || c == '7'
        || c == '8' || c == '9'
}

/// Hex rendering is two characters per byte.
pub proof fn lemma_hex_of_len(s: Seq<u8>)
    ensures
        spec_hex_of(s).len() == 2 * s.len(),
    decreases s.len(),
{
    if s.len() > 0 {
        lemma_hex_of_len(s.drop_first());
    }
}

/// Equal hex renderings of equally long byte strings come from equal
/// byte strings.
pub proof fn lemma_hex_of_injective(s1: Seq<u8>, s2: Seq<u8>)
    requires
        s1.len() == s2.len(),
        spec_hex_of(s1) == spec_hex_of(s2),
    ensures
        s1 == s2,
    decreases s1.len(),
{
    if s1.len() > 0 {
        let b1 = s1.first();
        let b2 = s2.first();
        lemma_hex_of_len(s1.drop_first());
        lemma_hex_of_len(s2.drop_first());
        assert(spec_hex_of(s1)[0] == spec_hex_digit((b1 >> 4) as int));
        assert(spec_hex_of(s1)[1] == spec_hex_digit((b1 & 0x0f) as int));
        assert(spec_hex_of(s2)[0] == spec_hex_digit((b2 >> 4) as int));
        assert(spec_hex_of(s2)[1] == spec_hex_digit((b2 & 0x0f) as int));
        assert((b1 >> 4) < 16 && (b1 & 0x0f) < 16 && (b2 >> 4) < 16 && (b2 & 0x0f) < 16)
            by (bit_vector);
        assert(b1 >> 4 == b2 >> 4 && b1 & 0x0f == b2 & 0x0f);
        assert(b1 == b2) by (bit_vector)
            requires
                b1 >> 4 == b2 >> 4 && b1 & 0x0f == b2 & 0x0f,
        ;
        assert(spec_hex_of(s1).skip(2) =~= spec_hex_of(s1.drop_first()));
        assert(spec_hex_of(s2).skip(2) =~= spec_hex_of(s2.drop_first()));
        lemma_hex_of_injective(s1.drop_first(), s2.drop_first());
        assert forall|i: int| 0 <= i < s1.len() implies s1[i] == s2[i] by {
            if i > 0 {
                assert(s1[i] == s1.drop_first()[i - 1]);
                assert(s2[i] == s2.drop_first()[i - 1]);
            }
        }
        assert(s1 =~= s2);
    } else {
        assert(s1 =~= s2);
    }
}

/// Every character of a decimal rendering is a decimal digit.
pub proof fn lemma_dec_of_digits(n: int)
    requires
        n >= 0,
    ensures
        spec_dec_of(n).len() >= 1,
        forall|i: int| 0 <= i < spec_dec_of(n).len() ==> is_dec_digit(#[trigger] spec_dec_of(n)[i]),
    decreases n,
{
    if n >= 10 {
        lemma_dec_of_digits(n / 10);
    }
}

/// Numbers below ten render as one digit; larger ones as more.
pub proof fn lemma_dec_of_short(n: int)
    requires
        n >= 0,
    ensures
        n < 10 <==> spec_dec_of(n).len() == 1,
    decreases n,
{
    if n >= 10 {
        lemma_dec_of_digits(n / 10);
    }
}

/// Distinct numbers have distinct decimal renderings.
pub proof fn lemma_dec_of_injective(a: int, b: int)
    requires
        a >= 0,
        b >= 0,
        spec_dec_of(a) == spec_dec_of(b),
    ensures
        a == b,
    decreases a + b,
{
    lemma_dec_of_short(a);
    lemma_dec_of_short(b);
    if a < 10 && b < 10 {
        assert(spec_dec_of(a)[0] == spec_hex_digit(a));
        assert(spec_dec_of(b)[0] == spec_hex_digit(b));
    } else if a >= 10 && b >= 10 {
        lemma_dec_of_digits(a / 10);
        lemma_dec_of_digits(b / 10);
        let la = spec_dec_of(a / 10).len() as int;
        let lb = spec_dec_of(b / 10).len() as int;
        assert(spec_dec_of(a).len() == la + 1);
        assert(spec_dec_of(b).len() == lb + 1);
        assert(spec_dec_of(a).last() == spec_hex_digit(a % 10));
        assert(spec_dec_of(b).last() == spec_hex_digit(b % 10));
        assert(a % 10 == b % 10);
        assert(spec_dec_of(a).drop_last() =~= spec_dec_of(a / 10));
        assert(spec_dec_of(b).drop_last() =~= spec_dec_of(b / 10));
        lemma_dec_of_injective(a / 10, b / 10);
        assert(a == 10 * (a / 10) + a % 10);
        assert(b == 10 * (b / 10) + b % 10);
    }
}

/// A decimal rendering followed by a non-digit determines the number and
/// the remainder: decimal renderings are never prefixes of one another.
pub proof fn lemma_dec_then(a: int, b: int, r1: Seq<char>, r2: Seq<char>)
    requires
        a >= 0,
        b >= 0,
        spec_dec_of(a) + r1 == spec_dec_of(b) + r2,
        r1.len() > 0,
        r2.len() > 0,
        !is_dec_digit(r1[0]),
        !is_dec_digit(r2[0]),
    ensures
        a == b,
        r1 == r2,
{
    let da = spec_dec_of(a);
    let db = spec_dec_of(b);
    lemma_dec_of_digits(a);
    lemma_dec_of_digits(b);
    let la = da.len() as int;
    let lb = db.len() as int;
    if la < lb {
        assert((da + r1)[la] == r1[0]);
        assert((db + r2)[la] == db[la]);
        assert(is_dec_digit(db[la]));
        assert(false);
    }
    if lb < la {
        assert((db + r2)[lb] == r2[0]);
        assert((da + r1)[lb] == da[lb]);
        assert(is_dec_digit(da[lb]));
        assert(false);
    }
    assert(la == lb);
    assert(da =~= (da + r1).subrange(0, la));
    assert(db =~= (db + r2).subrange(0, lb));
    lemma_dec_of_injective(a, b);
    assert(r1 =~= (da + r1).skip(la));
    assert(r2 =~= (db + r2).skip(lb));
}

} // verus!
