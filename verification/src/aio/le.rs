//! Integers as bytes, least significant byte first.

use vstd::prelude::*;

verus! {

/// The two bytes of `v`.
pub open spec fn le_u16(v: u16) -> Seq<u8> {
    seq![(v % 0x100) as u8, (v / 0x100) as u8]
}

/// The four bytes of `v`.
pub open spec fn le_u32(v: u32) -> Seq<u8> {
    seq![
        (v % 0x100) as u8,
        (v / 0x100 % 0x100) as u8,
        (v / 0x1_0000 % 0x100) as u8,
        (v / 0x100_0000) as u8,
    ]
}

/// The eight bytes of `v`.
pub open spec fn le_u64(v: u64) -> Seq<u8> {
    seq![
        (v % 0x100) as u8,
        (v / 0x100 % 0x100) as u8,
        (v / 0x1_0000 % 0x100) as u8,
        (v / 0x100_0000 % 0x100) as u8,
        (v / 0x1_0000_0000 % 0x100) as u8,
        (v / 0x100_0000_0000 % 0x100) as u8,
        (v / 0x1_0000_0000_0000 % 0x100) as u8,
        (v / 0x100_0000_0000_0000) as u8,
    ]
}

/// The number that two bytes spell.
pub open spec fn u16_of_le(b: Seq<u8>) -> u16 {
    (b[0] + 0x100 * b[1]) as u16
}

/// The number that four bytes spell.
pub open spec fn u32_of_le(b: Seq<u8>) -> u32 {
    (b[0] + 0x100 * b[1] + 0x1_0000 * b[2] + 0x100_0000 * b[3]) as u32
}

/// The number that eight bytes spell.
pub open spec fn u64_of_le(b: Seq<u8>) -> u64 {
    (b[0] + 0x100 * b[1] + 0x1_0000 * b[2] + 0x100_0000 * b[3] + 0x1_0000_0000 * b[4]
        + 0x100_0000_0000 * b[5] + 0x1_0000_0000_0000 * b[6] + 0x100_0000_0000_0000 * b[7]) as u64
}

/// The bits of a signed 16-bit number, read as an unsigned one.
pub open spec fn unsigned_16(v: i16) -> u16 {
    if v < 0 {
        (v + 0x1_0000) as u16
    } else {
        v as u16
    }
}

/// The bits of an unsigned 16-bit number, read as a signed one.
pub open spec fn signed_16(v: u16) -> i16 {
    if v >= 0x8000 {
        (v - 0x1_0000) as i16
    } else {
        v as i16
    }
}

/// The bits of a signed 64-bit number, read as an unsigned one.
pub open spec fn unsigned_64(v: i64) -> u64 {
    if v < 0 {
        (v + 0x1_0000_0000_0000_0000) as u64
    } else {
        v as u64
    }
}

/// The bits of an unsigned 64-bit number, read as a signed one.
pub open spec fn signed_64(v: u64) -> i64 {
    if v >= 0x8000_0000_0000_0000 {
        (v - 0x1_0000_0000_0000_0000) as i64
    } else {
        v as i64
    }
}

/// `buf` with the bytes from `at` on replaced by `piece`.
pub open spec fn overlaid(buf: Seq<u8>, at: int, piece: Seq<u8>) -> Seq<u8> {
    Seq::new(
        buf.len(),
        |i: int|
            if at <= i < at + piece.len() {
                piece[i - at]
            } else {
                buf[i]
            },
    )
}

/// Splits `v` into its two bytes.
pub(crate) fn u16_to_le(v: u16) -> (b: [u8; 2])
    ensures
        b@ == le_u16(v),
{
    let b = [(v % 0x100) as u8, (v / 0x100) as u8];
    assert(b@ =~= le_u16(v));
    b
}

/// Splits `v` into its four bytes.
pub(crate) fn u32_to_le(v: u32) -> (b: [u8; 4])
    ensures
        b@ == le_u32(v),
{
    let b = [
        (v % 0x100) as u8,
        (v / 0x100 % 0x100) as u8,
        (v / 0x1_0000 % 0x100) as u8,
        (v / 0x100_0000) as u8,
    ];
    assert(b@ =~= le_u32(v));
    b
}

/// Splits `v` into its eight bytes.
pub(crate) fn u64_to_le(v: u64) -> (b: [u8; 8])
    ensures
        b@ == le_u64(v),
{
    let b = [
        (v % 0x100) as u8,
        (v / 0x100 % 0x100) as u8,
        (v / 0x1_0000 % 0x100) as u8,
        (v / 0x100_0000 % 0x100) as u8,
        (v / 0x1_0000_0000 % 0x100) as u8,
        (v / 0x100_0000_0000 % 0x100) as u8,
        (v / 0x1_0000_0000_0000 % 0x100) as u8,
        (v / 0x100_0000_0000_0000) as u8,
    ];
    assert(b@ =~= le_u64(v));
    b
}

/// Reads the number that the two bytes of `buf` from `at` on spell.
pub(crate) fn u16_from_le(buf: &[u8], at: usize) -> (v: u16)
    requires
        at + 2 <= buf@.len(),
    ensures
        v == u16_of_le(buf@.subrange(at as int, at + 2)),
{
    buf[at] as u16 + 0x100 * (buf[at + 1] as u16)
}

/// Reads the number that the four bytes of `buf` from `at` on spell.
pub(crate) fn u32_from_le(buf: &[u8], at: usize) -> (v: u32)
    requires
        at + 4 <= buf@.len(),
    ensures
        v == u32_of_le(buf@.subrange(at as int, at + 4)),
{
    buf[at] as u32 + 0x100 * (buf[at + 1] as u32) + 0x1_0000 * (buf[at + 2] as u32) + 0x100_0000
        * (buf[at + 3] as u32)
}

/// Reads the number that the eight bytes of `buf` from `at` on spell.
pub(crate) fn u64_from_le(buf: &[u8], at: usize) -> (v: u64)
    requires
        at + 8 <= buf@.len(),
    ensures
        v == u64_of_le(buf@.subrange(at as int, at + 8)),
{
    buf[at] as u64 + 0x100 * (buf[at + 1] as u64) + 0x1_0000 * (buf[at + 2] as u64) + 0x100_0000
        * (buf[at + 3] as u64) + 0x1_0000_0000 * (buf[at + 4] as u64) + 0x100_0000_0000 * (buf[at
        + 5] as u64) + 0x1_0000_0000_0000 * (buf[at + 6] as u64) + 0x100_0000_0000_0000 * (buf[at
        + 7] as u64)
}

/// Reads the bits of `v` as an unsigned number.
pub(crate) fn i16_to_unsigned(v: i16) -> (u: u16)
    ensures
        u == unsigned_16(v),
{
    assert(v as u16 == unsigned_16(v)) by (bit_vector);
    #[verifier::truncate]
    (v as u16)
}

/// Reads the bits of `v` as a signed number.
pub(crate) fn u16_to_signed(v: u16) -> (s: i16)
    ensures
        s == signed_16(v),
{
    assert(v as i16 == signed_16(v)) by (bit_vector);
    #[verifier::truncate]
    (v as i16)
}

/// Reads the bits of `v` as an unsigned number.
pub(crate) fn i64_to_unsigned(v: i64) -> (u: u64)
    ensures
        u == unsigned_64(v),
{
    assert(v as u64 == unsigned_64(v)) by (bit_vector);
    #[verifier::truncate]
    (v as u64)
}

/// Reads the bits of `v` as a signed number.
pub(crate) fn u64_to_signed(v: u64) -> (s: i64)
    ensures
        s == signed_64(v),
{
    assert(v as i64 == signed_64(v)) by (bit_vector);
    #[verifier::truncate]
    (v as i64)
}

/// Copies `piece` into `buf` from `at` on.
pub(crate) fn put(buf: &mut [u8], at: usize, piece: &[u8])
    requires
        at + piece@.len() <= old(buf)@.len(),
    ensures
        final(buf)@ == overlaid(old(buf)@, at as int, piece@),
{
    let len: usize = buf.len();
    let mut i: usize = 0;
    while i < piece.len()
        invariant
            i <= piece@.len(),
            at + piece@.len() <= len,
            buf@.len() == len,
            buf@.len() == old(buf)@.len(),
            forall|j: int| 0 <= j < buf@.len() ==> buf@[j] == if at <= j < at + i {
                piece@[j - at]
            } else {
                old(buf)@[j]
            },
        decreases piece@.len() - i,
    {
        buf[at + i] = piece[i];
        i += 1;
    }
    assert(buf@ =~= overlaid(old(buf)@, at as int, piece@));
}

/// The two bytes of a number spell that number.
pub proof fn lemma_value_16(v: u16)
    ensures
        le_u16(v).len() == 2,
        u16_of_le(le_u16(v)) == v,
{
    assert(v == (v % 0x100) + 0x100 * (v / 0x100)) by (bit_vector);
}

/// Two bytes are the bytes of the number that they spell.
pub proof fn lemma_bytes_16(b: Seq<u8>)
    requires
        b.len() == 2,
    ensures
        le_u16(u16_of_le(b)) == b,
{
    let (b0, b1) = (b[0], b[1]);
    let x: u16 = u16_of_le(b);
    assert(x == b0 + 0x100 * b1);
    assert(x == b0 + 0x100 * b1 ==> x % 0x100 == b0 && x / 0x100 == b1) by (bit_vector);
    assert(le_u16(x) =~= b);
}

/// The four bytes of a number spell that number.
pub proof fn lemma_value_32(v: u32)
    ensures
        le_u32(v).len() == 4,
        u32_of_le(le_u32(v)) == v,
{
    assert(v == (v % 0x100) + 0x100 * (v / 0x100 % 0x100) + 0x1_0000 * (v / 0x1_0000 % 0x100)
        + 0x100_0000 * (v / 0x100_0000)) by (bit_vector);
}

/// Four bytes are the bytes of the number that they spell.
pub proof fn lemma_bytes_32(b: Seq<u8>)
    requires
        b.len() == 4,
    ensures
        le_u32(u32_of_le(b)) == b,
{
    let (b0, b1, b2, b3) = (b[0], b[1], b[2], b[3]);
    let x: u32 = u32_of_le(b);
    assert(x == b0 + 0x100 * b1 + 0x1_0000 * b2 + 0x100_0000 * b3);
    assert(x == b0 + 0x100 * b1 + 0x1_0000 * b2 + 0x100_0000 * b3 ==> x % 0x100 == b0 && x / 0x100
        % 0x100 == b1 && x / 0x1_0000 % 0x100 == b2 && x / 0x100_0000 == b3) by (bit_vector);
    assert(le_u32(x) =~= b);
}

/// The eight bytes of a number spell that number.
pub proof fn lemma_value_64(v: u64)
    ensures
        le_u64(v).len() == 8,
        u64_of_le(le_u64(v)) == v,
{
    assert(v == (v % 0x100) + 0x100 * (v / 0x100 % 0x100) + 0x1_0000 * (v / 0x1_0000 % 0x100)
        + 0x100_0000 * (v / 0x100_0000 % 0x100) + 0x1_0000_0000 * (v / 0x1_0000_0000 % 0x100)
        + 0x100_0000_0000 * (v / 0x100_0000_0000 % 0x100) + 0x1_0000_0000_0000 * (v
        / 0x1_0000_0000_0000 % 0x100) + 0x100_0000_0000_0000 * (v / 0x100_0000_0000_0000))
        by (bit_vector);
}

/// Eight bytes are the bytes of the number that they spell.
pub proof fn lemma_bytes_64(b: Seq<u8>)
    requires
        b.len() == 8,
    ensures
        le_u64(u64_of_le(b)) == b,
{
    let (b0, b1, b2, b3, b4, b5, b6, b7) = (b[0], b[1], b[2], b[3], b[4], b[5], b[6], b[7]);
    let x: u64 = u64_of_le(b);
    assert(x == b0 + 0x100 * b1 + 0x1_0000 * b2 + 0x100_0000 * b3 + 0x1_0000_0000 * b4
        + 0x100_0000_0000 * b5 + 0x1_0000_0000_0000 * b6 + 0x100_0000_0000_0000 * b7);
    assert(x == b0 + 0x100 * b1 + 0x1_0000 * b2 + 0x100_0000 * b3 + 0x1_0000_0000 * b4
        + 0x100_0000_0000 * b5 + 0x1_0000_0000_0000 * b6 + 0x100_0000_0000_0000 * b7 ==> x % 0x100
        == b0 && x / 0x100 % 0x100 == b1 && x / 0x1_0000 % 0x100 == b2 && x / 0x100_0000 % 0x100
        == b3 && x / 0x1_0000_0000 % 0x100 == b4 && x / 0x100_0000_0000 % 0x100 == b5 && x
        / 0x1_0000_0000_0000 % 0x100 == b6 && x / 0x100_0000_0000_0000 == b7) by (bit_vector);
    assert(le_u64(x) =~= b);
}

/// A signed 16-bit number, read as unsigned and back, is itself.
pub proof fn lemma_signed_16(v: i16)
    ensures
        signed_16(unsigned_16(v)) == v,
{
}

/// An unsigned 16-bit number, read as signed and back, is itself.
pub proof fn lemma_unsigned_16(v: u16)
    ensures
        unsigned_16(signed_16(v)) == v,
{
}

/// A signed 64-bit number, read as unsigned and back, is itself.
pub proof fn lemma_signed_64(v: i64)
    ensures
        signed_64(unsigned_64(v)) == v,
{
}

/// An unsigned 64-bit number, read as signed and back, is itself.
pub proof fn lemma_unsigned_64(v: u64)
    ensures
        unsigned_64(signed_64(v)) == v,
{
}

} // verus!
