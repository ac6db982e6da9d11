//! SHA-256 fingerprints.

use crate::text;
use sha2::Digest;
use vstd::prelude::*;
use vstd::utf8::{decode_utf8, encode_utf8, encode_utf8_decode_utf8};

verus! {

/// The SHA-256 digest of a sequence of bytes.
pub uninterp spec fn sha256(bytes: Seq<u8>) -> Seq<u8>;

/// A SHA-256 computation in progress.
#[verifier::external_type_specification]
#[verifier::external_body]
pub struct ExSha256(sha2::Sha256);

/// The bytes that a computation in progress has taken in.
pub uninterp spec fn taken(hasher: sha2::Sha256) -> Seq<u8>;

/// `sha2::Sha256::new`: a computation that has taken in nothing.
#[verifier::external_body]
fn begin() -> (h: sha2::Sha256)
    ensures
        taken(h) == Seq::<u8>::empty(),
{
    sha2::Sha256::new()
}

/// `Digest::update` of `sha2::Sha256`: takes in the bytes after those taken in before.
#[verifier::external_body]
fn absorb(h: &mut sha2::Sha256, bytes: &[u8])
    ensures
        taken(*final(h)) == taken(*old(h)) + bytes@,
{
    h.update(bytes);
}

/// `Digest::finalize` of `sha2::Sha256`: the digest of all bytes taken in, 32 bytes long.
#[verifier::external_body]
fn finalize(h: sha2::Sha256) -> (r: Vec<u8>)
    ensures
        r@ == sha256(taken(h)),
        r@.len() == 32,
{
    h.finalize().to_vec()
}

/// Collects bytes and writes their digest.
pub struct Hasher {
    inner: sha2::Sha256,
}

/// The bytes that a hasher has taken in.
pub closed spec fn absorbed(hasher: Hasher) -> Seq<u8> {
    taken(hasher.inner)
}

impl Hasher {
    pub fn new() -> (h: Hasher)
        ensures
            absorbed(h) == Seq::<u8>::empty(),
    {
        Hasher { inner: begin() }
    }

    pub fn update(&mut self, bytes: &[u8])
        ensures
            absorbed(*final(self)) == absorbed(*old(self)) + bytes@,
    {
        absorb(&mut self.inner, bytes);
    }

    /// The digest of all bytes taken in, as hexadecimal digits.
    pub fn finish(self) -> (r: String)
        ensures
            r@ == fingerprint(absorbed(self)),
            text::hex_of_len(r@, 64),
    {
        let bytes = finalize(self.inner);
        proof {
            text::hex_is_hex(bytes@);
        }
        text::format_hex(&bytes)
    }
}

/// A digest in 64 hexadecimal digits.
pub open spec fn fingerprint(bytes: Seq<u8>) -> Seq<char> {
    text::hex(sha256(bytes))
}

/// The eight bytes of a number, the lowest first.
pub open spec fn le64(n: u64) -> Seq<u8> {
    seq![
        (n % 256) as u8,
        (n / 256 % 256) as u8,
        (n / 0x1_0000 % 256) as u8,
        (n / 0x100_0000 % 256) as u8,
        (n / 0x1_0000_0000 % 256) as u8,
        (n / 0x100_0000_0000 % 256) as u8,
        (n / 0x1_0000_0000_0000 % 256) as u8,
        (n / 0x100_0000_0000_0000 % 256) as u8,
    ]
}

/// The four bytes of a number, the lowest first.
pub open spec fn le32(n: u32) -> Seq<u8> {
    seq![
        (n % 256) as u8,
        (n / 256 % 256) as u8,
        (n / 0x1_0000 % 256) as u8,
        (n / 0x100_0000 % 256) as u8,
    ]
}

pub fn bytes_le64(n: u64) -> (v: Vec<u8>)
    ensures
        v@ == le64(n),
{
    let mut v: Vec<u8> = Vec::new();
    v.push((n % 256) as u8);
    v.push((n / 256 % 256) as u8);
    v.push((n / 0x1_0000 % 256) as u8);
    v.push((n / 0x100_0000 % 256) as u8);
    v.push((n / 0x1_0000_0000 % 256) as u8);
    v.push((n / 0x100_0000_0000 % 256) as u8);
    v.push((n / 0x1_0000_0000_0000 % 256) as u8);
    v.push((n / 0x100_0000_0000_0000 % 256) as u8);
    assert(v@ =~= le64(n));
    v
}

pub fn bytes_le32(n: u32) -> (v: Vec<u8>)
    ensures
        v@ == le32(n),
{
    let mut v: Vec<u8> = Vec::new();
    v.push((n % 256) as u8);
    v.push((n / 256 % 256) as u8);
    v.push((n / 0x1_0000 % 256) as u8);
    v.push((n / 0x100_0000 % 256) as u8);
    assert(v@ =~= le32(n));
    v
}

/// The bytes of numbers, one after another.
pub open spec fn le64s(values: Seq<u64>) -> Seq<u8>
    decreases values.len(),
{
    if values.len() == 0 {
        Seq::empty()
    } else {
        le64s(values.drop_last()) + le64(values.last())
    }
}

/// The bytes of 32-bit numbers, one after another.
pub open spec fn le32s(values: Seq<u32>) -> Seq<u8>
    decreases values.len(),
{
    if values.len() == 0 {
        Seq::empty()
    } else {
        le32s(values.drop_last()) + le32(values.last())
    }
}

impl Hasher {
    /// Takes in the bytes of several numbers.
    pub fn update_le64s(&mut self, values: &Vec<u64>)
        ensures
            absorbed(*final(self)) == absorbed(*old(self)) + le64s(values@),
    {
        let ghost before = absorbed(*self);
        let mut i: usize = 0;
        assert(values@.take(0) =~= Seq::<u64>::empty());
        assert(before =~= before + le64s(values@.take(0)));
        while i < values.len()
            invariant
                i <= values@.len(),
                absorbed(*self) == before + le64s(values@.take(i as int)),
            decreases values@.len() - i,
        {
            let bytes = bytes_le64(values[i]);
            self.update(bytes.as_slice());
            i += 1;
            assert(values@.take(i as int).drop_last() =~= values@.take(i - 1));
            assert(absorbed(*self) =~= before + le64s(values@.take(i as int)));
        }
        assert(values@.take(i as int) =~= values@);
    }

    /// Takes in the bytes of several 32-bit numbers.
    pub fn update_le32s(&mut self, values: &[u32])
        ensures
            absorbed(*final(self)) == absorbed(*old(self)) + le32s(values@),
    {
        let ghost before = absorbed(*self);
        let mut i: usize = 0;
        assert(values@.take(0) =~= Seq::<u32>::empty());
        assert(before =~= before + le32s(values@.take(0)));
        while i < values.len()
            invariant
                i <= values@.len(),
                absorbed(*self) == before + le32s(values@.take(i as int)),
            decreases values@.len() - i,
        {
            let bytes = bytes_le32(values[i]);
            self.update(bytes.as_slice());
            i += 1;
            assert(values@.take(i as int).drop_last() =~= values@.take(i - 1));
            assert(absorbed(*self) =~= before + le32s(values@.take(i as int)));
        }
        assert(values@.take(i as int) =~= values@);
    }
}

proof fn le32s_len(values: Seq<u32>)
    ensures
        le32s(values).len() == 4 * values.len(),
    decreases values.len(),
{
    if values.len() > 0 {
        le32s_len(values.drop_last());
    }
}

/// Lists of numbers are told apart by their bytes, so that what a fingerprint is taken of determines
/// the list.
pub proof fn number_lists_are_told_apart(a: Seq<u32>, b: Seq<u32>)
    requires
        le32s(a) == le32s(b),
    ensures
        a == b,
    decreases a.len(),
{
    le32s_len(a);
    le32s_len(b);
    if a.len() > 0 {
        let n = 4 * (a.len() - 1);
        let x = a.last();
        let y = b.last();
        le32s_len(a.drop_last());
        le32s_len(b.drop_last());
        assert(le32s(a).take(n) =~= le32s(a.drop_last()));
        assert(le32s(b).take(n) =~= le32s(b.drop_last()));
        number_lists_are_told_apart(a.drop_last(), b.drop_last());
        assert forall|i: int| 0 <= i < 4 implies le32(x)[i] == le32(y)[i] by {
            assert(le32s(a)[n + i] == le32(x)[i]);
            assert(le32s(b)[n + i] == le32(y)[i]);
        }
        assert(le32(x)[0] == le32(y)[0] && le32(x)[1] == le32(y)[1]);
        assert(le32(x)[2] == le32(y)[2] && le32(x)[3] == le32(y)[3]);
        bytes_of_32_tell(x, y);
        assert(x == y);
        assert(a =~= a.drop_last().push(x));
        assert(b =~= b.drop_last().push(y));
    } else {
        assert(b =~= a);
    }
}

/// Two numbers whose quotients by `256 * unit` agree, and whose quotients by `unit` agree in the
/// lowest byte, have the same quotient by `unit`.
proof fn quotient_tells(x: int, y: int, unit: int)
    requires
        0 <= x,
        0 <= y,
        0 < unit,
        x / (unit * 256) == y / (unit * 256),
        x / unit % 256 == y / unit % 256,
    ensures
        x / unit == y / unit,
{
    vstd::arithmetic::div_mod::lemma_div_denominator(x, unit, 256);
    vstd::arithmetic::div_mod::lemma_div_denominator(y, unit, 256);
}

/// Numbers with the same four bytes are equal.
proof fn bytes_of_32_tell(x: u32, y: u32)
    requires
        (x % 256) as u8 == (y % 256) as u8,
        (x / 256 % 256) as u8 == (y / 256 % 256) as u8,
        (x / 0x1_0000 % 256) as u8 == (y / 0x1_0000 % 256) as u8,
        (x / 0x100_0000 % 256) as u8 == (y / 0x100_0000 % 256) as u8,
    ensures
        x == y,
{
    quotient_tells(x as int, y as int, 0x1_0000);
    quotient_tells(x as int, y as int, 0x100);
    quotient_tells(x as int, y as int, 0x1);
}

/// Numbers with the same eight bytes are equal.
proof fn bytes_of_64_tell(x: u64, y: u64)
    requires
        (x % 256) as u8 == (y % 256) as u8,
        (x / 256 % 256) as u8 == (y / 256 % 256) as u8,
        (x / 0x1_0000 % 256) as u8 == (y / 0x1_0000 % 256) as u8,
        (x / 0x100_0000 % 256) as u8 == (y / 0x100_0000 % 256) as u8,
        (x / 0x1_0000_0000 % 256) as u8 == (y / 0x1_0000_0000 % 256) as u8,
        (x / 0x100_0000_0000 % 256) as u8 == (y / 0x100_0000_0000 % 256) as u8,
        (x / 0x1_0000_0000_0000 % 256) as u8 == (y / 0x1_0000_0000_0000 % 256) as u8,
        (x / 0x100_0000_0000_0000 % 256) as u8 == (y / 0x100_0000_0000_0000 % 256) as u8,
    ensures
        x == y,
{
    quotient_tells(x as int, y as int, 0x1_0000_0000_0000);
    quotient_tells(x as int, y as int, 0x100_0000_0000);
    quotient_tells(x as int, y as int, 0x1_0000_0000);
    quotient_tells(x as int, y as int, 0x100_0000);
    quotient_tells(x as int, y as int, 0x1_0000);
    quotient_tells(x as int, y as int, 0x100);
    quotient_tells(x as int, y as int, 0x1);
}

/// The eight bytes of a number tell it apart from every other, whatever follows them.
pub proof fn numbers_are_told_apart(x: u64, after_x: Seq<u8>, y: u64, after_y: Seq<u8>)
    requires
        le64(x) + after_x == le64(y) + after_y,
    ensures
        x == y,
        after_x == after_y,
{
    let whole = le64(x) + after_x;
    assert forall|i: int| 0 <= i < 8 implies le64(x)[i] == le64(y)[i] by {
        assert(whole[i] == le64(x)[i]);
        assert((le64(y) + after_y)[i] == le64(y)[i]);
    }
    assert(le64(x)[0] == le64(y)[0] && le64(x)[1] == le64(y)[1]);
    assert(le64(x)[2] == le64(y)[2] && le64(x)[3] == le64(y)[3]);
    assert(le64(x)[4] == le64(y)[4] && le64(x)[5] == le64(y)[5]);
    assert(le64(x)[6] == le64(y)[6] && le64(x)[7] == le64(y)[7]);
    bytes_of_64_tell(x, y);
    assert(after_x =~= whole.skip(8));
    assert(after_y =~= (le64(y) + after_y).skip(8));
}

/// The bytes of equally many numbers tell them apart, whatever follows them.
pub proof fn numbers_in_a_row_are_told_apart(
    a: Seq<u64>,
    after_a: Seq<u8>,
    b: Seq<u64>,
    after_b: Seq<u8>,
)
    requires
        a.len() == b.len(),
        le64s(a) + after_a == le64s(b) + after_b,
    ensures
        a == b,
        after_a == after_b,
    decreases a.len(),
{
    if a.len() == 0 {
        assert(after_a =~= le64s(a) + after_a);
        assert(after_b =~= le64s(b) + after_b);
        assert(a =~= b);
    } else {
        let rest_a = le64(a.last()) + after_a;
        let rest_b = le64(b.last()) + after_b;
        assert(le64s(a) + after_a =~= le64s(a.drop_last()) + rest_a);
        assert(le64s(b) + after_b =~= le64s(b.drop_last()) + rest_b);
        numbers_in_a_row_are_told_apart(a.drop_last(), rest_a, b.drop_last(), rest_b);
        numbers_are_told_apart(a.last(), after_a, b.last(), after_b);
        assert(a =~= a.drop_last().push(a.last()));
        assert(b =~= b.drop_last().push(b.last()));
    }
}

/// A text whose length stands before it is told apart from every other, whatever follows.
pub proof fn counted_texts_are_told_apart(
    a: Seq<char>,
    after_a: Seq<u8>,
    b: Seq<char>,
    after_b: Seq<u8>,
)
    requires
        encode_utf8(a).len() <= u64::MAX,
        encode_utf8(b).len() <= u64::MAX,
        le64(encode_utf8(a).len() as u64) + encode_utf8(a) + after_a == le64(
            encode_utf8(b).len() as u64,
        ) + encode_utf8(b) + after_b,
    ensures
        a == b,
        after_a == after_b,
{
    let x = encode_utf8(a);
    let y = encode_utf8(b);
    assert(le64(x.len() as u64) + x + after_a =~= le64(x.len() as u64) + (x + after_a));
    assert(le64(y.len() as u64) + y + after_b =~= le64(y.len() as u64) + (y + after_b));
    numbers_are_told_apart(x.len() as u64, x + after_a, y.len() as u64, y + after_b);
    assert(x =~= (x + after_a).take(x.len() as int));
    assert(y =~= (y + after_b).take(y.len() as int));
    assert(after_a =~= (x + after_a).skip(x.len() as int));
    assert(after_b =~= (y + after_b).skip(y.len() as int));
    encode_utf8_decode_utf8(a);
    encode_utf8_decode_utf8(b);
    assert(decode_utf8(x) == a && decode_utf8(y) == b);
}

/// The bits of a signed number tell it apart from every other.
pub proof fn signed_numbers_are_told_apart(x: i64, y: i64)
    requires
        x as u64 == y as u64,
    ensures
        x == y,
{
    assert(x as u64 == y as u64 ==> x == y) by (bit_vector);
}


/// Whether two different contents have one SHA-256 digest.
pub open spec fn collides(a: Seq<u8>, b: Seq<u8>) -> bool {
    a != b && sha256(a) == sha256(b)
}

/// Contents with one fingerprint are the same, unless SHA-256 has a collision there.
pub proof fn fingerprints_tell_contents_apart(a: Seq<u8>, b: Seq<u8>)
    requires
        fingerprint(a) == fingerprint(b),
    ensures
        a == b || collides(a, b),
{
    text::digits_are_told_apart(sha256(a), sha256(b));
}


} // verus!
