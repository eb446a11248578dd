//! Little-endian encoding of fixed-width integers, the byte order of
//! every structure the amdxdna driver and the NPU firmware exchange.

use vstd::prelude::*;

verus! {

/// The two little-endian bytes of `x`.
pub open spec fn le_u16(x: u16) -> Seq<u8> {
    seq![(x & 0xff) as u8, ((x >> 8u16) & 0xff) as u8]
}

/// The four little-endian bytes of `x`.
pub open spec fn le_u32(x: u32) -> Seq<u8> {
    seq![
        (x & 0xff) as u8,
        ((x >> 8u32) & 0xff) as u8,
        ((x >> 16u32) & 0xff) as u8,
        ((x >> 24u32) & 0xff) as u8,
    ]
}

/// The eight little-endian bytes of `x`.
pub open spec fn le_u64(x: u64) -> Seq<u8> {
    le_u32((x & 0xffff_ffff) as u32) + le_u32((x >> 32u64) as u32)
}

/// Little-endian order, stated on place values: byte `i` carries weight
/// `256^i`, so the bytes of `x` weighted that way sum to `x`, each byte
/// below 256.
pub proof fn lemma_le_place_values(x16: u16, x32: u32, x64: u64)
    ensures
        le_u16(x16).len() == 2,
        le_u16(x16)[0] as int + 0x100 * le_u16(x16)[1] as int == x16,
        le_u32(x32).len() == 4,
        le_u32(x32)[0] as int + 0x100 * le_u32(x32)[1] as int + 0x1_0000 * le_u32(x32)[2] as int
            + 0x100_0000 * le_u32(x32)[3] as int == x32,
        le_u64(x64).len() == 8,
        le_u64(x64)[0] as int + 0x100 * le_u64(x64)[1] as int + 0x1_0000 * le_u64(x64)[2] as int
            + 0x100_0000 * le_u64(x64)[3] as int + 0x1_0000_0000 * le_u64(x64)[4] as int
            + 0x100_0000_0000 * le_u64(x64)[5] as int + 0x1_0000_0000_0000 * le_u64(x64)[6] as int
            + 0x100_0000_0000_0000 * le_u64(x64)[7] as int == x64,
{
    let a0 = (x16 & 0xff) as u8;
    let a1 = ((x16 >> 8u16) & 0xff) as u8;
    assert(a0 as u32 + 0x100 * (a1 as u32) == x16 as u32) by (bit_vector)
        requires
            a0 == (x16 & 0xff) as u8,
            a1 == ((x16 >> 8u16) & 0xff) as u8,
    ;
    lemma_u32_place_values(x32);
    let lo = (x64 & 0xffff_ffff) as u32;
    let hi = (x64 >> 32u64) as u32;
    lemma_u32_place_values(lo);
    lemma_u32_place_values(hi);
    assert(lo as u64 + 0x1_0000_0000 * (hi as u64) == x64) by (bit_vector)
        requires
            lo == (x64 & 0xffff_ffff) as u32,
            hi == (x64 >> 32u64) as u32,
    ;
    let e = le_u64(x64);
    assert(e[0] == le_u32(lo)[0] && e[1] == le_u32(lo)[1] && e[2] == le_u32(lo)[2] && e[3]
        == le_u32(lo)[3]);
    assert(e[4] == le_u32(hi)[0] && e[5] == le_u32(hi)[1] && e[6] == le_u32(hi)[2] && e[7]
        == le_u32(hi)[3]);
}

/// The four bytes of `x` weighted by `256^i` sum to `x`.
proof fn lemma_u32_place_values(x: u32)
    ensures
        le_u32(x)[0] as int + 0x100 * le_u32(x)[1] as int + 0x1_0000 * le_u32(x)[2] as int
            + 0x100_0000 * le_u32(x)[3] as int == x,
{
    let b0 = (x & 0xff) as u8;
    let b1 = ((x >> 8u32) & 0xff) as u8;
    let b2 = ((x >> 16u32) & 0xff) as u8;
    let b3 = ((x >> 24u32) & 0xff) as u8;
    assert(b0 as u64 + 0x100 * (b1 as u64) + 0x1_0000 * (b2 as u64) + 0x100_0000 * (b3 as u64)
        == x as u64) by (bit_vector)
        requires
            b0 == (x & 0xff) as u8,
            b1 == ((x >> 8u32) & 0xff) as u8,
            b2 == ((x >> 16u32) & 0xff) as u8,
            b3 == ((x >> 24u32) & 0xff) as u8,
    ;
}

/// The value that two little-endian bytes starting at `s[0]` stand for.
pub open spec fn from_le_u16(s: Seq<u8>) -> u16 {
    ((s[0] as u16) | ((s[1] as u16) << 8u16)) as u16
}

/// The value that four little-endian bytes starting at `s[0]` stand for.
pub open spec fn from_le_u32(s: Seq<u8>) -> u32 {
    ((s[0] as u32) | ((s[1] as u32) << 8u32) | ((s[2] as u32) << 16u32) | ((s[3] as u32)
        << 24u32)) as u32
}

/// The value that eight little-endian bytes starting at `s[0]` stand for.
pub open spec fn from_le_u64(s: Seq<u8>) -> u64 {
    ((from_le_u32(s) as u64) | ((from_le_u32(s.subrange(4, 8)) as u64) << 32u64)) as u64
}

/// `s` with the bytes `b` written over it from position `off` on.
pub open spec fn splice(s: Seq<u8>, off: int, b: Seq<u8>) -> Seq<u8> {
    s.subrange(0, off) + b + s.subrange(off + b.len(), s.len() as int)
}

/// Writing `b` at `off` keeps the length, puts `b` in the window and
/// leaves every byte outside it as it was.
pub proof fn lemma_splice(s: Seq<u8>, off: int, b: Seq<u8>)
    requires
        0 <= off,
        off + b.len() <= s.len(),
    ensures
        splice(s, off, b).len() == s.len(),
        splice(s, off, b).subrange(off, off + b.len()) == b,
        forall|i: int|
            0 <= i < s.len() && !(off <= i < off + b.len()) ==> #[trigger] splice(s, off, b)[i]
                == s[i],
{
    assert(splice(s, off, b).subrange(off, off + b.len()) =~= b);
}

/// Decoding the encoding of a `u16` gives it back.
pub proof fn lemma_u16_roundtrip(x: u16)
    ensures
        from_le_u16(le_u16(x)) == x,
{
    let b0 = (x & 0xff) as u8;
    let b1 = ((x >> 8u16) & 0xff) as u8;
    assert(((b0 as u16) | ((b1 as u16) << 8u16)) == x) by (bit_vector)
        requires
            b0 == (x & 0xff) as u8,
            b1 == ((x >> 8u16) & 0xff) as u8,
    ;
}

/// Decoding the encoding of a `u32` gives it back.
pub proof fn lemma_u32_roundtrip(x: u32)
    ensures
        from_le_u32(le_u32(x)) == x,
{
    let b0 = (x & 0xff) as u8;
    let b1 = ((x >> 8u32) & 0xff) as u8;
    let b2 = ((x >> 16u32) & 0xff) as u8;
    let b3 = ((x >> 24u32) & 0xff) as u8;
    assert(((b0 as u32) | ((b1 as u32) << 8u32) | ((b2 as u32) << 16u32) | ((b3 as u32)
        << 24u32)) == x) by (bit_vector)
        requires
            b0 == (x & 0xff) as u8,
            b1 == ((x >> 8u32) & 0xff) as u8,
            b2 == ((x >> 16u32) & 0xff) as u8,
            b3 == ((x >> 24u32) & 0xff) as u8,
    ;
}

/// Decoding the encoding of a `u64` gives it back.
pub proof fn lemma_u64_roundtrip(x: u64)
    ensures
        from_le_u64(le_u64(x)) == x,
{
    let lo = (x & 0xffff_ffff) as u32;
    let hi = (x >> 32u64) as u32;
    lemma_u32_roundtrip(lo);
    lemma_u32_roundtrip(hi);
    let s = le_u64(x);
    assert(s.subrange(0, 4) =~= le_u32(lo));
    assert(s.subrange(4, 8) =~= le_u32(hi));
    assert(from_le_u32(s) == from_le_u32(s.subrange(0, 4)));
    assert(((lo as u64) | ((hi as u64) << 32u64)) == x) by (bit_vector)
        requires
            lo == (x & 0xffff_ffff) as u32,
            hi == (x >> 32u64) as u32,
    ;
}

/// Encoding the value of four bytes gives the same four bytes.
pub proof fn lemma_bytes_u32_roundtrip(s: Seq<u8>)
    requires
        s.len() == 4,
    ensures
        le_u32(from_le_u32(s)) =~= s,
{
    let (b0, b1, b2, b3) = (s[0], s[1], s[2], s[3]);
    let x = from_le_u32(s);
    assert({
        &&& (x & 0xff) as u8 == b0
        &&& ((x >> 8u32) & 0xff) as u8 == b1
        &&& ((x >> 16u32) & 0xff) as u8 == b2
        &&& ((x >> 24u32) & 0xff) as u8 == b3
    }) by (bit_vector)
        requires
            x == ((b0 as u32) | ((b1 as u32) << 8u32) | ((b2 as u32) << 16u32) | ((b3 as u32)
                << 24u32)) as u32,
    ;
}

/// Appends the little-endian bytes of `x` to `out`.
pub fn push_u16_le(out: &mut Vec<u8>, x: u16)
    ensures
        final(out)@ == old(out)@ + le_u16(x),
{
    out.push((x & 0xff) as u8);
    out.push(((x >> 8) & 0xff) as u8);
    assert(final(out)@ =~= old(out)@ + le_u16(x));
}

/// Appends the little-endian bytes of `x` to `out`.
pub fn push_u32_le(out: &mut Vec<u8>, x: u32)
    ensures
        final(out)@ == old(out)@ + le_u32(x),
{
    out.push((x & 0xff) as u8);
    out.push(((x >> 8) & 0xff) as u8);
    out.push(((x >> 16) & 0xff) as u8);
    out.push(((x >> 24) & 0xff) as u8);
    assert(final(out)@ =~= old(out)@ + le_u32(x));
}

/// Appends the little-endian bytes of `x` to `out`.
pub fn push_u64_le(out: &mut Vec<u8>, x: u64)
    ensures
        final(out)@ == old(out)@ + le_u64(x),
{
    push_u32_le(out, (x & 0xffff_ffff) as u32);
    push_u32_le(out, (x >> 32) as u32);
    assert(final(out)@ =~= old(out)@ + le_u64(x));
}

/// Appends `n` zero bytes to `out`.
pub fn push_zeros(out: &mut Vec<u8>, n: usize)
    ensures
        final(out)@ == old(out)@ + Seq::new(n as nat, |i: int| 0u8),
{
    let ghost start = out@;
    let mut i: usize = 0;
    while i < n
        invariant
            i <= n,
            out@ == start + Seq::new(i as nat, |j: int| 0u8),
        decreases n - i,
    {
        out.push(0u8);
        i = i + 1;
        assert(out@ =~= start + Seq::new(i as nat, |j: int| 0u8));
    }
}

/// The `u16` stored little-endian at `s[off..off + 2]`.
pub fn read_u16_le(s: &[u8], off: usize) -> (r: u16)
    requires
        off + 2 <= s@.len(),
    ensures
        r == from_le_u16(s@.subrange(off as int, off + 2)),
{
    (s[off] as u16) | ((s[off + 1] as u16) << 8)
}

/// The `u32` stored little-endian at `s[off..off + 4]`.
pub fn read_u32_le(s: &[u8], off: usize) -> (r: u32)
    requires
        off + 4 <= s@.len(),
    ensures
        r == from_le_u32(s@.subrange(off as int, off + 4)),
{
    (s[off] as u32) | ((s[off + 1] as u32) << 8) | ((s[off + 2] as u32) << 16) | ((s[off
        + 3] as u32) << 24)
}

/// The `u64` stored little-endian at `s[off..off + 8]`.
pub fn read_u64_le(s: &[u8], off: usize) -> (r: u64)
    requires
        off + 8 <= s@.len(),
    ensures
        r == from_le_u64(s@.subrange(off as int, off + 8)),
{
    let _len = s.len();
    let lo = read_u32_le(s, off);
    let hi = read_u32_le(s, off + 4);
    let ghost w = s@.subrange(off as int, off + 8);
    assert(w.subrange(0, 4) =~= s@.subrange(off as int, off + 4));
    assert(w.subrange(4, 8) =~= s@.subrange(off + 4, off + 8));
    assert(from_le_u32(w) == from_le_u32(w.subrange(0, 4)));
    (lo as u64) | ((hi as u64) << 32)
}

/// Writes the little-endian bytes of `x` over `buf[off..off + 4]`.
pub fn write_u32_le(buf: &mut [u8], off: usize, x: u32)
    requires
        off + 4 <= old(buf)@.len(),
    ensures
        final(buf)@ == splice(old(buf)@, off as int, le_u32(x)),
{
    buf[off] = (x & 0xff) as u8;
    buf[off + 1] = ((x >> 8) & 0xff) as u8;
    buf[off + 2] = ((x >> 16) & 0xff) as u8;
    buf[off + 3] = ((x >> 24) & 0xff) as u8;
    assert(buf@ =~= splice(old(buf)@, off as int, le_u32(x)));
}

/// Writes the little-endian bytes of `x` over `buf[off..off + 8]`.
pub fn write_u64_le(buf: &mut [u8], off: usize, x: u64)
    requires
        off + 8 <= old(buf)@.len(),
    ensures
        final(buf)@ == splice(old(buf)@, off as int, le_u64(x)),
{
    let _len = buf.len();
    write_u32_le(buf, off, (x & 0xffff_ffff) as u32);
    write_u32_le(buf, off + 4, (x >> 32) as u32);
    assert(buf@ =~= splice(old(buf)@, off as int, le_u64(x)));
}

} // verus!
