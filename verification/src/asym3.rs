//! The asym3 packing of KV-cache codebook indices: 3-bit indices, eight
//! per thread, each thread's eight indices in one 24-bit little-endian
//! word (index i in bits 3i..3i+3).

use vstd::prelude::*;

verus! {

/// Values per head.
pub const HEAD_DIM: usize = 256;

/// Packed bytes per head: 3 bits per value.
pub const PACKED_BYTES: usize = 96;

/// The 24-bit word of thread `tid`.
pub open spec fn thread_word(packed: Seq<u8>, tid: int) -> u32 {
    ((packed[3 * tid] as u32) | ((packed[3 * tid + 1] as u32) << 8u32) | ((packed[3 * tid + 2] as u32)
        << 16u32)) as u32
}

/// Whether thread `t`'s three bytes hold the low 24 bits of `w`.
pub open spec fn holds_word(s: Seq<u8>, t: int, w: u32) -> bool {
    &&& s[3 * t] == (w & 0xff) as u8
    &&& s[3 * t + 1] == ((w >> 8u32) & 0xff) as u8
    &&& s[3 * t + 2] == ((w >> 16u32) & 0xff) as u8
}

/// The index stored for value `dim`.
pub open spec fn index_at(packed: Seq<u8>, dim: int) -> u32 {
    (thread_word(packed, dim / 8) >> (3 * (dim % 8)) as u32) & 7
}

/// The index of value `dim` in `packed`.
pub fn unpack_idx(packed: &[u8], dim: usize) -> (r: usize)
    requires
        3 * (dim / 8) + 3 <= packed@.len(),
    ensures
        r == index_at(packed@, dim as int),
        r < 8,
        r == ((((packed@[3 * (dim / 8) as int] as u32) | ((packed@[3 * (dim / 8) + 1] as u32) << 8u32)
            | ((packed@[3 * (dim / 8) + 2] as u32) << 16u32)) as u32) >> (3 * (dim % 8)) as u32)
            & 7,
{
    let tid = dim / 8;
    let i = dim % 8;
    let base = tid * 3;
    let word = (packed[base] as u32) | ((packed[base + 1] as u32) << 8) | ((packed[base + 2] as u32)
        << 16);
    let r = (word >> ((i * 3) as u32)) & 7;
    assert(r < 8) by (bit_vector)
        requires
            r == (word >> ((i * 3) as u32)) & 7,
    ;
    r as usize
}

/// The indices of all `HEAD_DIM` values of a head, in value order.
pub fn unpack_all(packed: &[u8]) -> (r: Vec<usize>)
    requires
        packed@.len() >= PACKED_BYTES,
    ensures
        r@.len() == HEAD_DIM,
        forall|d: int| 0 <= d < HEAD_DIM ==> #[trigger] r@[d] == index_at(packed@, d),
{
    let mut out: Vec<usize> = Vec::new();
    let mut d: usize = 0;
    while d < HEAD_DIM
        invariant
            packed@.len() >= PACKED_BYTES,
            d <= HEAD_DIM,
            out@.len() == d,
            forall|j: int| 0 <= j < d ==> #[trigger] out@[j] == index_at(packed@, j),
        decreases HEAD_DIM - d,
    {
        out.push(unpack_idx(packed, d));
        d = d + 1;
    }
    out
}

/// The 24-bit word holding the 3-bit index `v` eight times.
pub open spec fn repeated_word(v: u32) -> u32 {
    (v * 0x249249) as u32
}

/// Each 3-bit field of `repeated_word(v)` holds `v`, and the word fits
/// in 24 bits.
pub proof fn lemma_repeated_word(v: u32, i: u32)
    requires
        v < 8,
        i < 8,
    ensures
        (repeated_word(v) >> (3 * i)) & 7 == v,
        repeated_word(v) < 0x100_0000,
{
    let w = repeated_word(v);
    assert((w >> (3 * i)) & 7 == v && w < 0x100_0000) by (bit_vector)
        requires
            v < 8,
            i < 8,
            w == (v * 0x249249) as u32,
    ;
}

/// 32 threads' worth of packed bytes (256 values) that all hold the
/// index `idx_value`.
pub fn pack_all_same(idx_value: u8) -> (r: Vec<u8>)
    requires
        idx_value < 8,
    ensures
        r@.len() == PACKED_BYTES,
        forall|t: int| 0 <= t < 32 ==> #[trigger] holds_word(r@, t, repeated_word(idx_value as u32)),
        forall|d: int| 0 <= d < HEAD_DIM ==> #[trigger] index_at(r@, d) == idx_value as u32,
{
    let v = idx_value as u32;
    let mut word: u32 = 0;
    let mut i: u32 = 0;
    while i < 8
        invariant
            i <= 8,
            v < 8,
            word == (v * (if i == 0 {
                0u32
            } else if i == 1 {
                1u32
            } else if i == 2 {
                0x9
            } else if i == 3 {
                0x49
            } else if i == 4 {
                0x249
            } else if i == 5 {
                0x1249
            } else if i == 6 {
                0x9249
            } else if i == 7 {
                0x49249
            } else {
                0x249249
            })) as u32,
        decreases 8 - i,
    {
        let ghost old_word = word;
        word = word | (v << (i * 3));
        proof {
            assert(word == (v * (if i == 0 {
                1u32
            } else if i == 1 {
                0x9u32
            } else if i == 2 {
                0x49u32
            } else if i == 3 {
                0x249u32
            } else if i == 4 {
                0x1249u32
            } else if i == 5 {
                0x9249u32
            } else if i == 6 {
                0x49249u32
            } else {
                0x249249u32
            })) as u32) by (bit_vector)
                requires
                    v < 8,
                    i < 8,
                    word == old_word | (v << (i * 3)),
                    old_word == (v * (if i == 0 {
                        0u32
                    } else if i == 1 {
                        1u32
                    } else if i == 2 {
                        0x9u32
                    } else if i == 3 {
                        0x49u32
                    } else if i == 4 {
                        0x249u32
                    } else if i == 5 {
                        0x1249u32
                    } else if i == 6 {
                        0x9249u32
                    } else {
                        0x49249u32
                    })) as u32,
            ;
        }
        i = i + 1;
    }
    let mut out: Vec<u8> = Vec::new();
    let mut k: usize = 0;
    while k < PACKED_BYTES
        invariant
            k <= PACKED_BYTES,
            out@.len() == k,
            forall|j: int| 0 <= j < k ==> out@[j] == 0u8,
        decreases PACKED_BYTES - k,
    {
        out.push(0u8);
        k = k + 1;
    }
    let mut tid: usize = 0;
    while tid < 32
        invariant
            tid <= 32,
            out@.len() == PACKED_BYTES,
            word == repeated_word(v),
            forall|t: int| 0 <= t < tid ==> #[trigger] holds_word(out@, t, word),
        decreases 32 - tid,
    {
        let base = tid * 3;
        let ghost before = out@;
        out.set(base, (word & 0xff) as u8);
        out.set(base + 1, ((word >> 8) & 0xff) as u8);
        out.set(base + 2, ((word >> 16) & 0xff) as u8);
        assert(holds_word(out@, tid as int, word));
        assert forall|t: int| 0 <= t < tid implies #[trigger] holds_word(out@, t, word) by {
            assert(holds_word(before, t, word));
        }
        tid = tid + 1;
    }
    assert forall|d: int| 0 <= d < HEAD_DIM implies #[trigger] index_at(out@, d) == idx_value as u32 by {
        lemma_unpack_all_same(out@, idx_value, d);
    }
    out
}

/// Every value of a head packed by `pack_all_same(v)` unpacks to `v`.
pub proof fn lemma_unpack_all_same(packed: Seq<u8>, v: u8, dim: int)
    requires
        v < 8,
        0 <= dim < HEAD_DIM,
        packed.len() == PACKED_BYTES,
        forall|t: int| 0 <= t < 32 ==> #[trigger] holds_word(packed, t, repeated_word(v as u32)),
    ensures
        index_at(packed, dim) == v as u32,
{
    let t = dim / 8;
    let i = (dim % 8) as u32;
    let w = repeated_word(v as u32);
    lemma_repeated_word(v as u32, i);
    assert(holds_word(packed, t, w));
    let b0 = packed[3 * t];
    let b1 = packed[3 * t + 1];
    let b2 = packed[3 * t + 2];
    assert(((b0 as u32) | ((b1 as u32) << 8u32) | ((b2 as u32) << 16u32)) == w) by (bit_vector)
        requires
            w < 0x100_0000,
            b0 == (w & 0xff) as u8,
            b1 == ((w >> 8u32) & 0xff) as u8,
            b2 == ((w >> 16u32) & 0xff) as u8,
    ;
    assert(thread_word(packed, t) == w);
}

/// The index of value `dim` is read from its own thread's three bytes
/// only (thread `dim / 8`): two packings that agree on those bytes give
/// it the same index, whatever the other bytes hold.
pub proof fn lemma_index_reads_own_thread(p: Seq<u8>, q: Seq<u8>, dim: int)
    requires
        0 <= dim,
        3 * (dim / 8) + 3 <= p.len(),
        3 * (dim / 8) + 3 <= q.len(),
        p[3 * (dim / 8)] == q[3 * (dim / 8)],
        p[3 * (dim / 8) + 1] == q[3 * (dim / 8) + 1],
        p[3 * (dim / 8) + 2] == q[3 * (dim / 8) + 2],
    ensures
        index_at(p, dim) == index_at(q, dim),
{
}

/// Reading back what was packed: when thread `t`'s three bytes hold the
/// 24-bit word `w` (low byte first), value `8 t + i` unpacks to field `i`
/// of `w`, bits `3 i .. 3 i + 3`.
pub proof fn lemma_unpack_reads_packed_word(packed: Seq<u8>, t: int, i: int, w: u32)
    requires
        0 <= t,
        0 <= i < 8,
        3 * t + 3 <= packed.len(),
        w < 0x100_0000,
        packed[3 * t] == (w & 0xff) as u8,
        packed[3 * t + 1] == ((w >> 8u32) & 0xff) as u8,
        packed[3 * t + 2] == ((w >> 16u32) & 0xff) as u8,
    ensures
        index_at(packed, 8 * t + i) == (w >> (3 * i) as u32) & 7,
{
    let dim = 8 * t + i;
    assert(dim / 8 == t && dim % 8 == i) by (nonlinear_arith)
        requires
            dim == 8 * t + i,
            0 <= i < 8,
            0 <= t,
    ;
    let b0 = packed[3 * t];
    let b1 = packed[3 * t + 1];
    let b2 = packed[3 * t + 2];
    assert(((b0 as u32) | ((b1 as u32) << 8u32) | ((b2 as u32) << 16u32)) == w) by (bit_vector)
        requires
            w < 0x100_0000,
            b0 == (w & 0xff) as u8,
            b1 == ((w >> 8u32) & 0xff) as u8,
            b2 == ((w >> 16u32) & 0xff) as u8,
    ;
    assert(thread_word(packed, t) == w);
}

} // verus!
