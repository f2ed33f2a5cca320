//! Little-endian integer encodings and length-prefixed byte strings: the
//! primitives shared by the sysreq wire format and the control wire protocol.
use vstd::prelude::*;

verus! {

/// The two little-endian bytes of a 16-bit value, least significant first.
pub open spec fn u16_le(x: u16) -> Seq<u8> {
    seq![(x & 0xff) as u8, ((x >> 8) & 0xff) as u8]
}

/// The four little-endian bytes of a 32-bit value, least significant first.
pub open spec fn u32_le(x: u32) -> Seq<u8> {
    seq![
        (x & 0xff) as u8,
        ((x >> 8) & 0xff) as u8,
        ((x >> 16) & 0xff) as u8,
        ((x >> 24) & 0xff) as u8,
    ]
}

/// The eight little-endian bytes of a 64-bit value, least significant first.
pub open spec fn u64_le(x: u64) -> Seq<u8> {
    seq![
        (x & 0xff) as u8,
        ((x >> 8) & 0xff) as u8,
        ((x >> 16) & 0xff) as u8,
        ((x >> 24) & 0xff) as u8,
        ((x >> 32) & 0xff) as u8,
        ((x >> 40) & 0xff) as u8,
        ((x >> 48) & 0xff) as u8,
        ((x >> 56) & 0xff) as u8,
    ]
}

/// The 16-bit value read from two little-endian bytes.
pub open spec fn le16(s: Seq<u8>) -> u16
    recommends
        s.len() == 2,
{
    (s[0] as u16) | ((s[1] as u16) << 8)
}

/// The 32-bit value read from four little-endian bytes.
pub open spec fn le32(s: Seq<u8>) -> u32
    recommends
        s.len() == 4,
{
    (s[0] as u32) | ((s[1] as u32) << 8) | ((s[2] as u32) << 16) | ((s[3] as u32) << 24)
}

/// The 64-bit value read from eight little-endian bytes.
pub open spec fn le64(s: Seq<u8>) -> u64
    recommends
        s.len() == 8,
{
    (s[0] as u64) | ((s[1] as u64) << 8) | ((s[2] as u64) << 16) | ((s[3] as u64) << 24)
        | ((s[4] as u64) << 32) | ((s[5] as u64) << 40) | ((s[6] as u64) << 48)
        | ((s[7] as u64) << 56)
}

/// Reading back the little-endian bytes of a 16-bit value recovers it.
pub proof fn lemma_u16_le_round(x: u16)
    ensures
        le16(u16_le(x)) == x,
{
    assert(((x & 0xff) as u8 as u16) | ((((x >> 8) & 0xff) as u8 as u16) << 8) == x)
        by (bit_vector);
}

/// Reading back the little-endian bytes of a 32-bit value recovers it.
pub proof fn lemma_u32_le_round(x: u32)
    ensures
        le32(u32_le(x)) == x,
{
    assert(((x & 0xff) as u8 as u32) | ((((x >> 8) & 0xff) as u8 as u32) << 8)
        | ((((x >> 16) & 0xff) as u8 as u32) << 16) | ((((x >> 24) & 0xff) as u8 as u32) << 24)
        == x) by (bit_vector);
}

/// Reading back the little-endian bytes of a 64-bit value recovers it.
pub proof fn lemma_u64_le_round(x: u64)
    ensures
        le64(u64_le(x)) == x,
{
    assert(((x & 0xff) as u8 as u64) | ((((x >> 8) & 0xff) as u8 as u64) << 8)
        | ((((x >> 16) & 0xff) as u8 as u64) << 16) | ((((x >> 24) & 0xff) as u8 as u64) << 24)
        | ((((x >> 32) & 0xff) as u8 as u64) << 32) | ((((x >> 40) & 0xff) as u8 as u64) << 40)
        | ((((x >> 48) & 0xff) as u8 as u64) << 48) | ((((x >> 56) & 0xff) as u8 as u64) << 56)
        == x) by (bit_vector);
}

/// Append the two little-endian bytes of `x` to `out`.
pub fn push_u16_le(out: &mut Vec<u8>, x: u16)
    ensures
        final(out)@ == old(out)@ + u16_le(x),
{
    out.push((x & 0xff) as u8);
    out.push(((x >> 8) & 0xff) as u8);
    assert(out@ =~= old(out)@ + u16_le(x));
}

/// Append the four little-endian bytes of `x` to `out`.
pub fn push_u32_le(out: &mut Vec<u8>, x: u32)
    ensures
        final(out)@ == old(out)@ + u32_le(x),
{
    out.push((x & 0xff) as u8);
    out.push(((x >> 8) & 0xff) as u8);
    out.push(((x >> 16) & 0xff) as u8);
    out.push(((x >> 24) & 0xff) as u8);
    assert(out@ =~= old(out)@ + u32_le(x));
}

/// Append the eight little-endian bytes of `x` to `out`.
pub fn push_u64_le(out: &mut Vec<u8>, x: u64)
    ensures
        final(out)@ == old(out)@ + u64_le(x),
{
    out.push((x & 0xff) as u8);
    out.push(((x >> 8) & 0xff) as u8);
    out.push(((x >> 16) & 0xff) as u8);
    out.push(((x >> 24) & 0xff) as u8);
    out.push(((x >> 32) & 0xff) as u8);
    out.push(((x >> 40) & 0xff) as u8);
    out.push(((x >> 48) & 0xff) as u8);
    out.push(((x >> 56) & 0xff) as u8);
    assert(out@ =~= old(out)@ + u64_le(x));
}

/// Append all of `b` to `out`.
pub fn push_bytes(out: &mut Vec<u8>, b: &Vec<u8>)
    ensures
        final(out)@ == old(out)@ + b@,
{
    let mut i: usize = 0;
    while i < b.len()
        invariant
            i <= b.len(),
            out@ == old(out)@ + b@.take(i as int),
        decreases b.len() - i,
    {
        out.push(b[i]);
        i = i + 1;
        assert(out@ =~= old(out)@ + b@.take(i as int));
    }
    assert(out@ =~= old(out)@ + b@);
}

/// Copy `n` bytes of `buf` starting at `start` into a fresh vector.
pub fn copy_range(buf: &Vec<u8>, start: usize, n: usize) -> (out: Vec<u8>)
    requires
        start + n <= buf.len(),
    ensures
        out@ == buf@.subrange(start as int, start as int + n as int),
{
    let mut out: Vec<u8> = Vec::new();
    let mut i: usize = 0;
    while i < n
        invariant
            i <= n,
            start + n <= buf.len(),
            out@ == buf@.subrange(start as int, start as int + i as int),
        decreases n - i,
    {
        out.push(buf[start + i]);
        i = i + 1;
        assert(out@ =~= buf@.subrange(start as int, start as int + i as int));
    }
    out
}

/// Read the 16-bit little-endian value at `pos`.
pub fn read_u16_le(buf: &Vec<u8>, pos: usize) -> (x: u16)
    requires
        pos + 2 <= buf.len(),
    ensures
        x == le16(buf@.subrange(pos as int, pos as int + 2)),
{
    let x = (buf[pos] as u16) | ((buf[pos + 1] as u16) << 8);
    proof {
        let s = buf@.subrange(pos as int, pos as int + 2);
        assert(s[0] == buf@[pos as int] && s[1] == buf@[pos as int + 1]);
    }
    x
}

/// Read the 32-bit little-endian value at `pos`.
pub fn read_u32_le(buf: &Vec<u8>, pos: usize) -> (x: u32)
    requires
        pos + 4 <= buf.len(),
    ensures
        x == le32(buf@.subrange(pos as int, pos as int + 4)),
{
    let x = (buf[pos] as u32) | ((buf[pos + 1] as u32) << 8) | ((buf[pos + 2] as u32) << 16)
        | ((buf[pos + 3] as u32) << 24);
    proof {
        let s = buf@.subrange(pos as int, pos as int + 4);
        assert(s[0] == buf@[pos as int] && s[1] == buf@[pos as int + 1] && s[2] == buf@[pos as int
            + 2] && s[3] == buf@[pos as int + 3]);
    }
    x
}

/// Read the 64-bit little-endian value at `pos`.
pub fn read_u64_le(buf: &Vec<u8>, pos: usize) -> (x: u64)
    requires
        pos + 8 <= buf.len(),
    ensures
        x == le64(buf@.subrange(pos as int, pos as int + 8)),
{
    let x = (buf[pos] as u64) | ((buf[pos + 1] as u64) << 8) | ((buf[pos + 2] as u64) << 16)
        | ((buf[pos + 3] as u64) << 24) | ((buf[pos + 4] as u64) << 32)
        | ((buf[pos + 5] as u64) << 40) | ((buf[pos + 6] as u64) << 48)
        | ((buf[pos + 7] as u64) << 56);
    proof {
        let s = buf@.subrange(pos as int, pos as int + 8);
        assert(s[0] == buf@[pos as int] && s[1] == buf@[pos as int + 1] && s[2] == buf@[pos as int
            + 2] && s[3] == buf@[pos as int + 3] && s[4] == buf@[pos as int + 4] && s[5]
            == buf@[pos as int + 5] && s[6] == buf@[pos as int + 6] && s[7] == buf@[pos as int
            + 7]);
    }
    x
}

/// Append all of slice `b` to `out`.
pub fn push_bytes_slice(out: &mut Vec<u8>, b: &[u8])
    ensures
        final(out)@ == old(out)@ + b@,
{
    let mut i: usize = 0;
    while i < b.len()
        invariant
            i <= b.len(),
            out@ == old(out)@ + b@.take(i as int),
        decreases b.len() - i,
    {
        out.push(b[i]);
        i = i + 1;
        assert(out@ =~= old(out)@ + b@.take(i as int));
    }
    assert(out@ =~= old(out)@ + b@);
}

/// Whether two byte vectors hold the same bytes.
pub fn bytes_eq(a: &Vec<u8>, b: &Vec<u8>) -> (r: bool)
    ensures
        r == (a@ == b@),
{
    if a.len() != b.len() {
        return false;
    }
    let mut i: usize = 0;
    while i < a.len()
        invariant
            i <= a.len(),
            a.len() == b.len(),
            forall|j: int| 0 <= j < i ==> a@[j] == b@[j],
        decreases a.len() - i,
    {
        if a[i] != b[i] {
            return false;
        }
        i = i + 1;
    }
    proof {
        assert(a@ =~= b@);
    }
    true
}

} // verus!
