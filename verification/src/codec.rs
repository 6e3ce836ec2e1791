//! Little-endian wire primitives shared by the binary codecs.
//!
//! Each width has a specification encoder over sequences, an executable
//! writer/reader pair proved against it, and a round-trip lemma.

use vstd::prelude::*;

verus! {

/// Little-endian image of a `u16`.
pub open spec fn enc_u16(v: u16) -> Seq<u8> {
    seq![(v & 0xff) as u8, ((v >> 8) & 0xff) as u8]
}

/// The `u16` two little-endian bytes denote.
pub open spec fn u16_from_bytes(b0: u8, b1: u8) -> u16 {
    (b0 + b1 * 0x100) as u16
}

/// Little-endian image of a `u32`.
pub open spec fn enc_u32(v: u32) -> Seq<u8> {
    seq![
        (v & 0xff) as u8,
        ((v >> 8) & 0xff) as u8,
        ((v >> 16) & 0xff) as u8,
        ((v >> 24) & 0xff) as u8,
    ]
}

/// The `u32` four little-endian bytes denote.
pub open spec fn u32_from_bytes(b0: u8, b1: u8, b2: u8, b3: u8) -> u32 {
    (b0 + b1 * 0x100 + b2 * 0x10000 + b3 * 0x1000000) as u32
}

/// Little-endian image of a `u64`.
pub open spec fn enc_u64(v: u64) -> Seq<u8> {
    seq![
        (v & 0xff) as u8,
        ((v >> 8) & 0xff) as u8,
        ((v >> 16) & 0xff) as u8,
        ((v >> 24) & 0xff) as u8,
        ((v >> 32) & 0xff) as u8,
        ((v >> 40) & 0xff) as u8,
        ((v >> 48) & 0xff) as u8,
        ((v >> 56) & 0xff) as u8,
    ]
}

/// The `u64` eight little-endian bytes denote.
pub open spec fn u64_from_bytes(
    b0: u8,
    b1: u8,
    b2: u8,
    b3: u8,
    b4: u8,
    b5: u8,
    b6: u8,
    b7: u8,
) -> u64 {
    (b0 + b1 * 0x100 + b2 * 0x10000 + b3 * 0x1000000 + b4 * 0x100000000 + b5 * 0x10000000000 + b6
        * 0x1000000000000 + b7 * 0x100000000000000) as u64
}

/// Little-endian image of an `i32`: that of its two's-complement bits.
pub open spec fn enc_i32(v: i32) -> Seq<u8> {
    enc_u32(v as u32)
}

/// Little-endian image of an `i64`: that of its two's-complement bits.
pub open spec fn enc_i64(v: i64) -> Seq<u8> {
    enc_u64(v as u64)
}

/// Write a `u16` in little-endian order.
pub fn write_u16(out: &mut Vec<u8>, v: u16)
    ensures
        final (out)@ == old(out)@ + enc_u16(v),
{
    proof {
        assert((v & 0xff) < 256 && ((v >> 8) & 0xff) < 256) by (bit_vector);
    }
    out.push((v & 0xff) as u8);
    out.push(((v >> 8) & 0xff) as u8);
    proof {
        assert(out@ =~= old(out)@ + enc_u16(v));
    }
}

/// Write a `u32` in little-endian order.
pub fn write_u32(out: &mut Vec<u8>, v: u32)
    ensures
        final (out)@ == old(out)@ + enc_u32(v),
{
    out.push((v & 0xff) as u8);
    out.push(((v >> 8) & 0xff) as u8);
    out.push(((v >> 16) & 0xff) as u8);
    out.push(((v >> 24) & 0xff) as u8);
    proof {
        assert(out@ =~= old(out)@ + enc_u32(v));
    }
}

/// Write a `u64` in little-endian order.
pub fn write_u64(out: &mut Vec<u8>, v: u64)
    ensures
        final (out)@ == old(out)@ + enc_u64(v),
{
    out.push((v & 0xff) as u8);
    out.push(((v >> 8) & 0xff) as u8);
    out.push(((v >> 16) & 0xff) as u8);
    out.push(((v >> 24) & 0xff) as u8);
    out.push(((v >> 32) & 0xff) as u8);
    out.push(((v >> 40) & 0xff) as u8);
    out.push(((v >> 48) & 0xff) as u8);
    out.push(((v >> 56) & 0xff) as u8);
    proof {
        assert(out@ =~= old(out)@ + enc_u64(v));
    }
}

/// Write an `i32` in little-endian order.
pub fn write_i32(out: &mut Vec<u8>, v: i32)
    ensures
        final (out)@ == old(out)@ + enc_i32(v),
{
    write_u32(out, v as u32);
}

/// Write an `i64` in little-endian order.
pub fn write_i64(out: &mut Vec<u8>, v: i64)
    ensures
        final (out)@ == old(out)@ + enc_i64(v),
{
    write_u64(out, v as u64);
}

/// Read a `u16` written in little-endian order.
pub fn read_u16(buf: &Vec<u8>, pos: usize) -> (r: Option<(u16, usize)>)
    ensures
        pos + 2 <= buf@.len() ==> (r matches Some(q) && q.0 == u16_from_bytes(
            buf@[pos as int],
            buf@[pos + 1],
        ) && q.1 == pos + 2),
        pos + 2 > buf@.len() ==> r is None,
{
    if pos < buf.len() && buf.len() - pos >= 2 {
        let b0 = buf[pos];
        let b1 = buf[pos + 1];
        Some(((b0 as u16) + (b1 as u16) * 0x100, pos + 2))
    } else {
        None
    }
}

/// Read a `u32` written in little-endian order.
pub fn read_u32(buf: &Vec<u8>, pos: usize) -> (r: Option<(u32, usize)>)
    ensures
        pos + 4 <= buf@.len() ==> (r matches Some(q) && q.0 == u32_from_bytes(
            buf@[pos as int],
            buf@[pos + 1],
            buf@[pos + 2],
            buf@[pos + 3],
        ) && q.1 == pos + 4),
        pos + 4 > buf@.len() ==> r is None,
{
    if pos < buf.len() && buf.len() - pos >= 4 {
        let b0 = buf[pos];
        let b1 = buf[pos + 1];
        let b2 = buf[pos + 2];
        let b3 = buf[pos + 3];
        Some(((b0 as u32) + (b1 as u32) * 0x100 + (b2 as u32) * 0x10000 + (b3 as u32) * 0x1000000, pos
            + 4))
    } else {
        None
    }
}

/// Read a `u64` written in little-endian order.
pub fn read_u64(buf: &Vec<u8>, pos: usize) -> (r: Option<(u64, usize)>)
    ensures
        pos + 8 <= buf@.len() ==> (r matches Some(q) && q.0 == u64_from_bytes(
            buf@[pos as int],
            buf@[pos + 1],
            buf@[pos + 2],
            buf@[pos + 3],
            buf@[pos + 4],
            buf@[pos + 5],
            buf@[pos + 6],
            buf@[pos + 7],
        ) && q.1 == pos + 8),
        pos + 8 > buf@.len() ==> r is None,
{
    if pos < buf.len() && buf.len() - pos >= 8 {
        let b0 = buf[pos];
        let b1 = buf[pos + 1];
        let b2 = buf[pos + 2];
        let b3 = buf[pos + 3];
        let b4 = buf[pos + 4];
        let b5 = buf[pos + 5];
        let b6 = buf[pos + 6];
        let b7 = buf[pos + 7];
        Some(((b0 as u64) + (b1 as u64) * 0x100 + (b2 as u64) * 0x10000 + (b3 as u64) * 0x1000000 + (
        b4 as u64) * 0x100000000 + (b5 as u64) * 0x10000000000 + (b6 as u64) * 0x1000000000000 + (
        b7 as u64) * 0x100000000000000, pos + 8))
    } else {
        None
    }
}

/// Read an `i32` written in little-endian order.
pub fn read_i32(buf: &Vec<u8>, pos: usize) -> (r: Option<(i32, usize)>)
    ensures
        pos + 4 <= buf@.len() ==> (r matches Some(q) && q.0 == dec_i32_at(buf@, pos as int)
            && q.1 == pos + 4),
        pos + 4 > buf@.len() ==> r is None,
{
    match read_u32(buf, pos) {
        Some((v, p)) => Some((v as i32, p)),
        None => None,
    }
}

/// Read an `i64` written in little-endian order.
pub fn read_i64(buf: &Vec<u8>, pos: usize) -> (r: Option<(i64, usize)>)
    ensures
        pos + 8 <= buf@.len() ==> (r matches Some(q) && q.0 == dec_i64_at(buf@, pos as int)
            && q.1 == pos + 8),
        pos + 8 > buf@.len() ==> r is None,
{
    match read_u64(buf, pos) {
        Some((v, p)) => Some((v as i64, p)),
        None => None,
    }
}

/// Reading back the two bytes of `enc_u16` yields the value written.
pub proof fn lemma_u16_roundtrip(v: u16)
    ensures
        u16_from_bytes(enc_u16(v)[0], enc_u16(v)[1]) == v,
{
    assert(enc_u16(v)[0] == (v & 0xff) as u8 && enc_u16(v)[1] == ((v >> 8) & 0xff) as u8);
    assert(((((v & 0xff) as u8) + (((v >> 8) & 0xff) as u8) * 0x100) as u16) == v) by (bit_vector);
}

/// Reading back the four bytes of `enc_u32` yields the value written.
pub proof fn lemma_u32_roundtrip(v: u32)
    ensures
        u32_from_bytes(enc_u32(v)[0], enc_u32(v)[1], enc_u32(v)[2], enc_u32(v)[3]) == v,
{
    assert(enc_u32(v)[0] == (v & 0xff) as u8 && enc_u32(v)[1] == ((v >> 8) & 0xff) as u8
        && enc_u32(v)[2] == ((v >> 16) & 0xff) as u8 && enc_u32(v)[3] == ((v >> 24) & 0xff) as u8);
    assert(((((v & 0xff) as u8) + (((v >> 8) & 0xff) as u8) * 0x100 + (((v >> 16) & 0xff) as u8)
        * 0x10000 + (((v >> 24) & 0xff) as u8) * 0x1000000) as u32) == v) by (bit_vector);
}

/// Reading back the eight bytes of `enc_u64` yields the value written.
pub proof fn lemma_u64_roundtrip(v: u64)
    ensures
        u64_from_bytes(
            enc_u64(v)[0],
            enc_u64(v)[1],
            enc_u64(v)[2],
            enc_u64(v)[3],
            enc_u64(v)[4],
            enc_u64(v)[5],
            enc_u64(v)[6],
            enc_u64(v)[7],
        ) == v,
{
    assert(enc_u64(v)[0] == (v & 0xff) as u8 && enc_u64(v)[1] == ((v >> 8) & 0xff) as u8
        && enc_u64(v)[2] == ((v >> 16) & 0xff) as u8 && enc_u64(v)[3] == ((v >> 24) & 0xff) as u8
        && enc_u64(v)[4] == ((v >> 32) & 0xff) as u8 && enc_u64(v)[5] == ((v >> 40) & 0xff) as u8
        && enc_u64(v)[6] == ((v >> 48) & 0xff) as u8 && enc_u64(v)[7] == ((v >> 56) & 0xff) as u8);
    assert(((((v & 0xff) as u8) + (((v >> 8) & 0xff) as u8) * 0x100 + (((v >> 16) & 0xff) as u8)
        * 0x10000 + (((v >> 24) & 0xff) as u8) * 0x1000000 + (((v >> 32) & 0xff) as u8)
        * 0x100000000 + (((v >> 40) & 0xff) as u8) * 0x10000000000 + (((v >> 48) & 0xff) as u8)
        * 0x1000000000000 + (((v >> 56) & 0xff) as u8) * 0x100000000000000) as u64) == v)
        by (bit_vector);
}

/// Round trip of the two's-complement image of an `i32`.
pub proof fn lemma_i32_roundtrip(v: i32)
    ensures
        u32_from_bytes(enc_i32(v)[0], enc_i32(v)[1], enc_i32(v)[2], enc_i32(v)[3]) as i32 == v,
{
    lemma_u32_roundtrip(v as u32);
    assert((v as u32) as i32 == v) by (bit_vector);
}

/// Round trip of the two's-complement image of an `i64`.
pub proof fn lemma_i64_roundtrip(v: i64)
    ensures
        u64_from_bytes(
            enc_i64(v)[0],
            enc_i64(v)[1],
            enc_i64(v)[2],
            enc_i64(v)[3],
            enc_i64(v)[4],
            enc_i64(v)[5],
            enc_i64(v)[6],
            enc_i64(v)[7],
        ) as i64 == v,
{
    lemma_u64_roundtrip(v as u64);
    assert((v as u64) as i64 == v) by (bit_vector);
}

/// The `u16` at `pos` in `s`, little-endian.
pub open spec fn dec_u16_at(s: Seq<u8>, pos: int) -> u16 {
    u16_from_bytes(s[pos], s[pos + 1])
}

/// The `u32` at `pos` in `s`, little-endian.
pub open spec fn dec_u32_at(s: Seq<u8>, pos: int) -> u32 {
    u32_from_bytes(s[pos], s[pos + 1], s[pos + 2], s[pos + 3])
}

/// The `u64` at `pos` in `s`, little-endian.
pub open spec fn dec_u64_at(s: Seq<u8>, pos: int) -> u64 {
    u64_from_bytes(
        s[pos],
        s[pos + 1],
        s[pos + 2],
        s[pos + 3],
        s[pos + 4],
        s[pos + 5],
        s[pos + 6],
        s[pos + 7],
    )
}

/// The `i32` at `pos` in `s`, little-endian two's complement.
pub open spec fn dec_i32_at(s: Seq<u8>, pos: int) -> i32 {
    dec_u32_at(s, pos) as i32
}

/// The `i64` at `pos` in `s`, little-endian two's complement.
pub open spec fn dec_i64_at(s: Seq<u8>, pos: int) -> i64 {
    dec_u64_at(s, pos) as i64
}

/// Append the bytes of `src` to `out`.
pub fn write_all(out: &mut Vec<u8>, src: &Vec<u8>)
    ensures
        final (out)@ == old(out)@ + src@,
{
    let mut i: usize = 0;
    while i < src.len()
        invariant
            i <= src@.len(),
            out@ == old(out)@ + src@.subrange(0, i as int),
        decreases src@.len() - i,
    {
        out.push(src[i]);
        i += 1;
        proof {
            assert(out@ =~= old(out)@ + src@.subrange(0, i as int));
        }
    }
    proof {
        assert(old(out)@ + src@.subrange(0, src@.len() as int) =~= old(out)@ + src@);
    }
}

/// Copy `n` bytes of `buf` starting at `pos` into a fresh vector.
pub fn read_exact(buf: &Vec<u8>, pos: usize, n: usize) -> (r: Option<(Vec<u8>, usize)>)
    ensures
        pos + n <= buf@.len() ==> (r matches Some(p) && p.0@ == buf@.subrange(
            pos as int,
            pos + n,
        ) && p.1 == pos + n),
        pos + n > buf@.len() ==> r is None,
{
    let len = buf.len();
    if pos <= len && len - pos >= n {
        let mut v: Vec<u8> = Vec::new();
        let mut i: usize = 0;
        while i < n
            invariant
                i <= n,
                pos + n <= len,
                len == buf@.len(),
                v@ == buf@.subrange(pos as int, pos + i),
            decreases n - i,
        {
            v.push(buf[pos + i]);
            i += 1;
            proof {
                assert(v@ =~= buf@.subrange(pos as int, pos + i));
            }
        }
        Some((v, pos + n))
    } else {
        None
    }
}

} // verus!
