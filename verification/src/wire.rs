//! Little-endian integers inside a byte sequence.
//!
//! Every multi-byte field of the wire layout is stored least significant byte
//! first, at any offset: nothing is aligned. The spec functions give the value
//! that a field has; the readers compute it without looking past the slice.

use vstd::prelude::*;

verus! {

/// The byte of `s` at `at`.
pub open spec fn le_u8(s: Seq<u8>, at: int) -> u8
    recommends
        0 <= at < s.len(),
{
    s[at]
}

/// The 16-bit value whose two bytes start at `at`, low byte first.
pub open spec fn le_u16(s: Seq<u8>, at: int) -> u16
    recommends
        0 <= at,
        at + 2 <= s.len(),
{
    (s[at] as int + 0x100 * (s[at + 1] as int)) as u16
}

/// The 32-bit value whose four bytes start at `at`, low byte first.
pub open spec fn le_u32(s: Seq<u8>, at: int) -> u32
    recommends
        0 <= at,
        at + 4 <= s.len(),
{
    (s[at] as int + 0x100 * (s[at + 1] as int) + 0x1_0000 * (s[at + 2] as int) + 0x100_0000 * (s[at
        + 3] as int)) as u32
}

/// The 64-bit value whose eight bytes start at `at`, low byte first.
pub open spec fn le_u64(s: Seq<u8>, at: int) -> u64
    recommends
        0 <= at,
        at + 8 <= s.len(),
{
    (le_u32(s, at) as int + 0x1_0000_0000 * (le_u32(s, at + 4) as int)) as u64
}

/// The sixteen bytes that start at `at`, as an array.
pub open spec fn le_block16(s: Seq<u8>, at: int) -> [u8; 16]
    recommends
        0 <= at,
        at + 16 <= s.len(),
{
    [
        s[at],
        s[at + 1],
        s[at + 2],
        s[at + 3],
        s[at + 4],
        s[at + 5],
        s[at + 6],
        s[at + 7],
        s[at + 8],
        s[at + 9],
        s[at + 10],
        s[at + 11],
        s[at + 12],
        s[at + 13],
        s[at + 14],
        s[at + 15],
    ]
}

/// The two bytes that store `x`, low byte first.
pub open spec fn spec_bytes_u16(x: u16) -> Seq<u8> {
    seq![(x % 0x100) as u8, (x / 0x100) as u8]
}

/// The four bytes that store `x`, low byte first.
pub open spec fn spec_bytes_u32(x: u32) -> Seq<u8> {
    seq![
        (x % 0x100) as u8,
        (x / 0x100 % 0x100) as u8,
        (x / 0x1_0000 % 0x100) as u8,
        (x / 0x100_0000) as u8,
    ]
}

/// The eight bytes that store `x`, low byte first.
pub open spec fn spec_bytes_u64(x: u64) -> Seq<u8> {
    spec_bytes_u32((x % 0x1_0000_0000) as u32) + spec_bytes_u32((x / 0x1_0000_0000) as u32)
}

/// Reading the two bytes that store a value gives the value, wherever the
/// bytes lie in a sequence.
pub proof fn lemma_read_stored_u16(before: Seq<u8>, after: Seq<u8>, x: u16)
    ensures
        le_u16(before + spec_bytes_u16(x) + after, before.len() as int) == x,
{
    let at = before.len() as int;
    let bytes = spec_bytes_u16(x);
    let s = before + bytes + after;
    assert(s[at] == bytes[0]);
    assert(s[at + 1] == bytes[1]);
}

/// Reading the four bytes that store a value gives the value, wherever the
/// bytes lie in a sequence.
pub proof fn lemma_read_stored_u32(before: Seq<u8>, after: Seq<u8>, x: u32)
    ensures
        le_u32(before + spec_bytes_u32(x) + after, before.len() as int) == x,
{
    let at = before.len() as int;
    let bytes = spec_bytes_u32(x);
    let s = before + bytes + after;
    assert(s[at] == bytes[0]);
    assert(s[at + 1] == bytes[1]);
    assert(s[at + 2] == bytes[2]);
    assert(s[at + 3] == bytes[3]);
    assert(x == (x % 0x100) + 0x100 * (x / 0x100 % 0x100) + 0x1_0000 * (x / 0x1_0000 % 0x100)
        + 0x100_0000 * (x / 0x100_0000)) by (bit_vector);
}

/// Reading the eight bytes that store a value gives the value, wherever the
/// bytes lie in a sequence.
pub proof fn lemma_read_stored_u64(before: Seq<u8>, after: Seq<u8>, x: u64)
    ensures
        le_u64(before + spec_bytes_u64(x) + after, before.len() as int) == x,
{
    let at = before.len() as int;
    let lo = (x % 0x1_0000_0000) as u32;
    let hi = (x / 0x1_0000_0000) as u32;
    let s = before + spec_bytes_u64(x) + after;
    lemma_read_stored_u32(before, spec_bytes_u32(hi) + after, lo);
    assert(s =~= before + spec_bytes_u32(lo) + (spec_bytes_u32(hi) + after));
    lemma_read_stored_u32(before + spec_bytes_u32(lo), after, hi);
    assert(s =~= (before + spec_bytes_u32(lo)) + spec_bytes_u32(hi) + after);
    assert((before + spec_bytes_u32(lo)).len() == at + 4);
    assert(le_u32(s, at) == lo);
    assert(le_u32(s, at + 4) == hi);
}

/// Whether `len` bytes starting at `at` lie inside a sequence of `total` bytes.
pub open spec fn fits(total: nat, at: int, len: int) -> bool {
    0 <= at && 0 <= len && at + len <= total
}

/// Reads one byte.
pub(crate) fn read_u8(buf: &[u8], at: usize) -> (r: u8)
    requires
        fits(buf@.len(), at as int, 1),
    ensures
        r == le_u8(buf@, at as int),
{
    buf[at]
}

/// Reads a 16-bit little-endian value.
pub(crate) fn read_u16(buf: &[u8], at: usize) -> (r: u16)
    requires
        fits(buf@.len(), at as int, 2),
    ensures
        r == le_u16(buf@, at as int),
{
    let b0: u16 = buf[at] as u16;
    let b1: u16 = buf[at + 1] as u16;
    b0 + 0x100 * b1
}

/// Reads a 32-bit little-endian value.
pub(crate) fn read_u32(buf: &[u8], at: usize) -> (r: u32)
    requires
        fits(buf@.len(), at as int, 4),
    ensures
        r == le_u32(buf@, at as int),
{
    let b0: u32 = buf[at] as u32;
    let b1: u32 = buf[at + 1] as u32;
    let b2: u32 = buf[at + 2] as u32;
    let b3: u32 = buf[at + 3] as u32;
    b0 + 0x100 * b1 + 0x1_0000 * b2 + 0x100_0000 * b3
}

/// Reads a 64-bit little-endian value.
pub(crate) fn read_u64(buf: &[u8], at: usize) -> (r: u64)
    requires
        fits(buf@.len(), at as int, 8),
    ensures
        r == le_u64(buf@, at as int),
{
    assert(buf@.len() == buf.len());
    let lo: u64 = read_u32(buf, at) as u64;
    let hi: u64 = read_u32(buf, at + 4) as u64;
    lo + 0x1_0000_0000 * hi
}

/// Reads sixteen bytes into an array.
pub(crate) fn read_block16(buf: &[u8], at: usize) -> (r: [u8; 16])
    requires
        fits(buf@.len(), at as int, 16),
    ensures
        r == le_block16(buf@, at as int),
{
    let r: [u8; 16] = [
        buf[at],
        buf[at + 1],
        buf[at + 2],
        buf[at + 3],
        buf[at + 4],
        buf[at + 5],
        buf[at + 6],
        buf[at + 7],
        buf[at + 8],
        buf[at + 9],
        buf[at + 10],
        buf[at + 11],
        buf[at + 12],
        buf[at + 13],
        buf[at + 14],
        buf[at + 15],
    ];
    assert(r =~= le_block16(buf@, at as int));
    r
}

/// Copies the bytes from `from` up to `to` into storage of their own.
pub(crate) fn copy_range(buf: &[u8], from: usize, to: usize) -> (r: Vec<u8>)
    requires
        from <= to <= buf@.len(),
    ensures
        r@ == buf@.subrange(from as int, to as int),
{
    let mut out: Vec<u8> = Vec::new();
    let mut i: usize = from;
    while i < to
        invariant
            from <= i <= to <= buf@.len(),
            out@ == buf@.subrange(from as int, i as int),
        decreases to - i,
    {
        out.push(buf[i]);
        i += 1;
        assert(out@ =~= buf@.subrange(from as int, i as int));
    }
    out
}

/// A buffer of `n` zero bytes.
pub(crate) fn zeroed(n: usize) -> (r: Vec<u8>)
    ensures
        r@ == Seq::new(n as nat, |i: int| 0u8),
{
    let mut out: Vec<u8> = Vec::new();
    let mut i: usize = 0;
    while i < n
        invariant
            i <= n,
            out@ == Seq::new(i as nat, |j: int| 0u8),
        decreases n - i,
    {
        out.push(0);
        i += 1;
        assert(out@ =~= Seq::new(i as nat, |j: int| 0u8));
    }
    out
}

/// Copies all of `buf` into storage of its own.
pub(crate) fn copy_all(buf: &[u8]) -> (r: Vec<u8>)
    ensures
        r@ == buf@,
{
    let out = copy_range(buf, 0, buf.len());
    assert(buf@.subrange(0, buf@.len() as int) =~= buf@);
    out
}

} // verus!
