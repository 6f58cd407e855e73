//! Little-endian fixed-width integers and length-prefixed byte strings: the
//! primitive pieces of the record and command wire layouts.

use vstd::prelude::*;

verus! {

/// The four little-endian bytes of a 32-bit integer.
pub open spec fn u32_le_bytes(x: u32) -> Seq<u8> {
    seq![
        (x & 0xff) as u8,
        ((x >> 8) & 0xff) as u8,
        ((x >> 16) & 0xff) as u8,
        ((x >> 24) & 0xff) as u8,
    ]
}

/// The eight little-endian bytes of a 64-bit integer.
pub open spec fn u64_le_bytes(x: u64) -> Seq<u8> {
    seq![
        (x & 0xff) as u8,
        ((x >> 8) & 0xff) as u8,
        ((x >> 16) & 0xff) as u8,
        ((x >> 24) & 0xff) as u8,
        ((x >> 32) & 0xff) as u8,
        ((x >> 40) & 0xff) as u8,
        ((x >> 48) & 0xff) as u8,
        ((x >> 56) & 0xff) as u8,
    ]
}

/// A signed 64-bit integer is laid out as its two's-complement bit image.
pub open spec fn i64_le_bytes(x: i64) -> Seq<u8> {
    u64_le_bytes(x as u64)
}

/// The 32-bit integer stored little-endian at offset `off`.
pub open spec fn le4_at(s: Seq<u8>, off: int) -> u32
    recommends
        0 <= off,
        off + 4 <= s.len(),
{
    (s[off] as u32) | ((s[off + 1] as u32) << 8) | ((s[off + 2] as u32) << 16) | ((s[off
        + 3] as u32) << 24)
}

/// The 64-bit integer stored little-endian at offset `off`.
pub open spec fn le8_at(s: Seq<u8>, off: int) -> u64
    recommends
        0 <= off,
        off + 8 <= s.len(),
{
    (s[off] as u64) | ((s[off + 1] as u64) << 8) | ((s[off + 2] as u64) << 16) | ((s[off
        + 3] as u64) << 24) | ((s[off + 4] as u64) << 32) | ((s[off + 5] as u64) << 40) | ((s[off
        + 6] as u64) << 48) | ((s[off + 7] as u64) << 56)
}

/// How a boolean is stored: one byte, zero or one.
pub open spec fn bool_byte(b: bool) -> u8 {
    if b {
        1
    } else {
        0
    }
}

pub proof fn lemma_u32_le_round(x: u32)
    ensures
        le4_at(u32_le_bytes(x), 0) == x,
{
    let s = u32_le_bytes(x);
    assert(((((x & 0xff) as u8) as u32) | ((((x >> 8) & 0xff) as u8) as u32) << 8 | ((((x >> 16)
        & 0xff) as u8) as u32) << 16 | ((((x >> 24) & 0xff) as u8) as u32) << 24) == x)
        by (bit_vector);
    assert(le4_at(s, 0) == x);
}

pub proof fn lemma_u64_le_round(x: u64)
    ensures
        le8_at(u64_le_bytes(x), 0) == x,
{
    let s = u64_le_bytes(x);
    assert(((((x & 0xff) as u8) as u64) | ((((x >> 8) & 0xff) as u8) as u64) << 8 | ((((x >> 16)
        & 0xff) as u8) as u64) << 16 | ((((x >> 24) & 0xff) as u8) as u64) << 24 | ((((x >> 32)
        & 0xff) as u8) as u64) << 32 | ((((x >> 40) & 0xff) as u8) as u64) << 40 | ((((x >> 48)
        & 0xff) as u8) as u64) << 48 | ((((x >> 56) & 0xff) as u8) as u64) << 56) == x)
        by (bit_vector);
    assert(le8_at(s, 0) == x);
}

pub proof fn lemma_i64_le_round(x: i64)
    ensures
        le8_at(i64_le_bytes(x), 0) as i64 == x,
{
    lemma_u64_le_round(x as u64);
    assert(((x as u64) as i64) == x) by (bit_vector);
}

/// Reading four bytes just past a prefix recovers the integer written there.
pub proof fn lemma_le4_concat(pre: Seq<u8>, x: u32, post: Seq<u8>)
    ensures
        le4_at(pre + u32_le_bytes(x) + post, pre.len() as int) == x,
{
    let s = pre + u32_le_bytes(x) + post;
    let n = pre.len() as int;
    assert forall|j: int| 0 <= j < 4 implies s[n + j] == u32_le_bytes(x)[j] by {
        assert(s[n + j] == (pre + u32_le_bytes(x))[n + j]);
    }
    lemma_u32_le_round(x);
    assert(le4_at(s, n) == le4_at(u32_le_bytes(x), 0));
}

/// Reading eight bytes just past a prefix recovers the integer written there.
pub proof fn lemma_le8_concat(pre: Seq<u8>, x: u64, post: Seq<u8>)
    ensures
        le8_at(pre + u64_le_bytes(x) + post, pre.len() as int) == x,
{
    let s = pre + u64_le_bytes(x) + post;
    let n = pre.len() as int;
    assert forall|j: int| 0 <= j < 8 implies s[n + j] == u64_le_bytes(x)[j] by {
        assert(s[n + j] == (pre + u64_le_bytes(x))[n + j]);
    }
    lemma_u64_le_round(x);
    assert(le8_at(s, n) == le8_at(u64_le_bytes(x), 0));
}

/// Reading a byte just past a prefix recovers the byte written there.
pub proof fn lemma_byte_concat(pre: Seq<u8>, b: u8, post: Seq<u8>)
    ensures
        (pre + seq![b] + post)[pre.len() as int] == b,
{
    let s = pre + seq![b] + post;
    let n = pre.len() as int;
    assert(s[n] == (pre + seq![b])[n]);
}

/// Slicing just past a prefix recovers the byte string written there.
pub proof fn lemma_slice_concat(pre: Seq<u8>, mid: Seq<u8>, post: Seq<u8>)
    ensures
        (pre + mid + post).subrange(pre.len() as int, pre.len() + mid.len() as int) == mid,
{
    let s = pre + mid + post;
    let n = pre.len() as int;
    assert forall|j: int| 0 <= j < mid.len() implies s[n + j] == mid[j] by {
        assert(s[n + j] == (pre + mid)[n + j]);
    }
    assert(s.subrange(n, n + mid.len()) =~= mid);
}

/// Appends the little-endian bytes of `x` to `out`.
pub fn push_u32_le(out: &mut Vec<u8>, x: u32)
    ensures
        final(out)@ == old(out)@ + u32_le_bytes(x),
{
    out.push((x & 0xff) as u8);
    out.push(((x >> 8) & 0xff) as u8);
    out.push(((x >> 16) & 0xff) as u8);
    out.push(((x >> 24) & 0xff) as u8);
    assert(out@ =~= old(out)@ + u32_le_bytes(x));
}

/// Appends the little-endian bytes of `x` to `out`.
pub fn push_u64_le(out: &mut Vec<u8>, x: u64)
    ensures
        final(out)@ == old(out)@ + u64_le_bytes(x),
{
    out.push((x & 0xff) as u8);
    out.push(((x >> 8) & 0xff) as u8);
    out.push(((x >> 16) & 0xff) as u8);
    out.push(((x >> 24) & 0xff) as u8);
    out.push(((x >> 32) & 0xff) as u8);
    out.push(((x >> 40) & 0xff) as u8);
    out.push(((x >> 48) & 0xff) as u8);
    out.push(((x >> 56) & 0xff) as u8);
    assert(out@ =~= old(out)@ + u64_le_bytes(x));
}

/// Appends the two's-complement little-endian bytes of `x` to `out`.
pub fn push_i64_le(out: &mut Vec<u8>, x: i64)
    ensures
        final(out)@ == old(out)@ + i64_le_bytes(x),
{
    push_u64_le(out, #[verifier::truncate] (x as u64));
}

/// Appends a copy of `src` to `out`.
pub fn push_bytes(out: &mut Vec<u8>, src: &Vec<u8>)
    ensures
        final(out)@ == old(out)@ + src@,
{
    let mut i: usize = 0;
    while i < src.len()
        invariant
            0 <= i <= src.len(),
            out@ == old(out)@ + src@.subrange(0, i as int),
        decreases src.len() - i,
    {
        out.push(src[i]);
        assert(out@ =~= old(out)@ + src@.subrange(0, i + 1 as int));
        i = i + 1;
    }
    assert(out@ =~= old(out)@ + src@);
}

/// Reads the 32-bit little-endian integer at `off`.
pub fn read_u32_le(data: &Vec<u8>, off: usize) -> (r: u32)
    requires
        off + 4 <= data.len(),
    ensures
        r == le4_at(data@, off as int),
{
    (data[off] as u32) | ((data[off + 1] as u32) << 8) | ((data[off + 2] as u32) << 16) | ((data[off
        + 3] as u32) << 24)
}

/// Reads the 64-bit little-endian integer at `off`.
pub fn read_u64_le(data: &Vec<u8>, off: usize) -> (r: u64)
    requires
        off + 8 <= data.len(),
    ensures
        r == le8_at(data@, off as int),
{
    (data[off] as u64) | ((data[off + 1] as u64) << 8) | ((data[off + 2] as u64) << 16) | ((data[off
        + 3] as u64) << 24) | ((data[off + 4] as u64) << 32) | ((data[off + 5] as u64) << 40)
        | ((data[off + 6] as u64) << 48) | ((data[off + 7] as u64) << 56)
}

/// Copies `n` bytes starting at `off` out of `data`.
pub fn read_bytes(data: &Vec<u8>, off: usize, n: usize) -> (r: Vec<u8>)
    requires
        off + n <= data.len(),
    ensures
        r@ == data@.subrange(off as int, off + n),
{
    let mut r: Vec<u8> = Vec::new();
    let mut i: usize = 0;
    while i < n
        invariant
            0 <= i <= n,
            off + n <= data.len(),
            r@ == data@.subrange(off as int, off + i),
        decreases n - i,
    {
        r.push(data[off + i]);
        assert(r@ =~= data@.subrange(off as int, off + i + 1));
        i = i + 1;
    }
    r
}

/// Overwrites the front of `dst` with `src`, leaving the tail as it was.
pub fn overwrite_prefix(dst: &mut Vec<u8>, src: &Vec<u8>)
    requires
        src@.len() <= old(dst)@.len(),
    ensures
        final(dst)@ == src@ + old(dst)@.skip(src@.len() as int),
{
    let mut i: usize = 0;
    while i < src.len()
        invariant
            0 <= i <= src@.len() <= dst@.len(),
            dst@.len() == old(dst)@.len(),
            forall|j: int| 0 <= j < i ==> dst@[j] == src@[j],
            forall|j: int| i <= j < dst@.len() ==> dst@[j] == old(dst)@[j],
        decreases src.len() - i,
    {
        let b = src[i];
        dst[i] = b;
        i = i + 1;
    }
    assert(dst@ =~= src@ + old(dst)@.skip(src@.len() as int));
}

} // verus!
