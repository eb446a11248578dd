//! bfloat16 conversions on raw bit patterns, as the AIE-2P datapath
//! does them, and distances between bf16 values in units of last place.
//!
//! A bf16 value is the top 16 bits of an f32. The conversions below take
//! the f32's bits: round toward zero (drop the low 16 bits), round away
//! from zero (any nonzero dropped bit bumps the magnitude) and round to
//! nearest even. NaN inputs become quiet NaNs.

use vstd::prelude::*;

verus! {

/// Whether the f32 bits `xb` are a NaN.
pub open spec fn is_nan_f32(xb: u32) -> bool {
    (xb & 0x7fff_ffff) > 0x7f80_0000
}

/// The quiet bf16 NaN made from the NaN bits `xb`.
pub open spec fn quiet_nan(xb: u32) -> u16 {
    ((xb >> 16u32) | 0x0040) as u16
}

/// Round toward zero: the high 16 bits; NaNs made quiet.
pub open spec fn rtz_spec(xb: u32) -> u16 {
    if is_nan_f32(xb) {
        quiet_nan(xb)
    } else {
        (xb >> 16u32) as u16
    }
}

/// Round away from zero: the magnitude plus 0xffff, cut to its high
/// bits, with the sign kept; NaNs made quiet.
pub open spec fn raz_spec(xb: u32) -> u16 {
    if is_nan_f32(xb) {
        quiet_nan(xb)
    } else {
        (((xb & 0x8000_0000) | (((xb & 0x7fff_ffff) + 0xffff) as u32 & 0x7fff_ffff)) >> 16u32) as u16
    }
}

/// Round to nearest, ties to even: add 0x7fff plus the lowest kept bit,
/// then cut; NaNs made quiet.
pub open spec fn rne_spec(xb: u32) -> u16 {
    if is_nan_f32(xb) {
        quiet_nan(xb)
    } else {
        (((xb + 0x7fff + ((xb >> 16u32) & 1)) as u32) >> 16u32) as u16
    }
}

/// What the three roundings do with the 16 dropped bits of a non-NaN
/// f32, stated on those bits: toward zero keeps the high half; away from
/// zero bumps the magnitude by one whenever a dropped bit is set; to
/// nearest bumps it when the dropped bits are above half, or exactly half
/// with the kept low bit odd (ties to even). The sign bit is never
/// touched; a bump out of the largest finite magnitude gives infinity.
pub proof fn lemma_roundings_by_dropped_bits(xb: u32)
    requires
        (xb & 0x7fff_ffff) <= 0x7f80_0000,
    ensures
        rtz_spec(xb) as int == (xb >> 16u32) as int,
        raz_spec(xb) as int == (xb >> 16u32) as int + (if xb & 0xffff != 0 {
            1int
        } else {
            0int
        }),
        rne_spec(xb) as int == (xb >> 16u32) as int + (if (xb & 0xffff) > 0x8000 || ((xb
            & 0xffff) == 0x8000 && (xb >> 16u32) & 1 == 1) {
            1int
        } else {
            0int
        }),
{
    let t = (xb >> 16u32) as u16;
    let a = (((xb & 0x8000_0000) | (((xb & 0x7fff_ffff) + 0xffff) as u32 & 0x7fff_ffff)) >> 16u32)
        as u16;
    let n = (((xb + 0x7fff + ((xb >> 16u32) & 1)) as u32) >> 16u32) as u16;
    assert({
        &&& (xb >> 16u32) == t as u32
        &&& t <= 0xff80
        &&& a == (if xb & 0xffff != 0 {
            (t + 1) as u16
        } else {
            t
        })
        &&& n == (if (xb & 0xffff) > 0x8000 || ((xb & 0xffff) == 0x8000 && (xb >> 16u32) & 1 == 1) {
            (t + 1) as u16
        } else {
            t
        })
    }) by (bit_vector)
        requires
            (xb & 0x7fff_ffff) <= 0x7f80_0000,
            t == (xb >> 16u32) as u16,
            a == (((xb & 0x8000_0000) | (((xb & 0x7fff_ffff) + 0xffff) as u32 & 0x7fff_ffff))
                >> 16u32) as u16,
            n == (((xb + 0x7fff + ((xb >> 16u32) & 1)) as u32) >> 16u32) as u16,
    ;
}

/// f32 bits to bf16 bits, rounding toward zero.
pub fn f32_bits_to_bf16_rtz(xb: u32) -> (r: u16)
    ensures
        r == rtz_spec(xb),
        (xb & 0x7fff_ffff) > 0x7f80_0000 ==> r == ((xb >> 16u32) | 0x0040) as u16,
        (xb & 0x7fff_ffff) <= 0x7f80_0000 ==> r as int == (xb >> 16u32) as int,
{
    proof {
        if (xb & 0x7fff_ffff) <= 0x7f80_0000 {
            lemma_roundings_by_dropped_bits(xb);
        }
    }
    if (xb & 0x7fff_ffff) > 0x7f80_0000 {
        return ((xb >> 16) | 0x0040) as u16;
    }
    (xb >> 16) as u16
}

/// f32 bits to bf16 bits, dropping the low 16 bits with no NaN check.
pub fn f32_bits_to_bf16_truncate(xb: u32) -> (r: u16)
    ensures
        r == (xb >> 16u32) as u16,
        r as int == xb as int / 0x1_0000,
{
    assert((xb >> 16u32) as u16 as int == xb as int / 0x1_0000) by (bit_vector);
    (xb >> 16) as u16
}

/// f32 bits to bf16 bits, rounding away from zero.
pub fn f32_bits_to_bf16_raz(xb: u32) -> (r: u16)
    ensures
        r == raz_spec(xb),
        (xb & 0x7fff_ffff) > 0x7f80_0000 ==> r == ((xb >> 16u32) | 0x0040) as u16,
        (xb & 0x7fff_ffff) <= 0x7f80_0000 ==> r as int == (xb >> 16u32) as int + (if xb & 0xffff
            != 0 {
            1int
        } else {
            0int
        }),
{
    proof {
        if (xb & 0x7fff_ffff) <= 0x7f80_0000 {
            lemma_roundings_by_dropped_bits(xb);
        }
    }
    if (xb & 0x7fff_ffff) > 0x7f80_0000 {
        return ((xb >> 16) | 0x0040) as u16;
    }
    let abs = xb & 0x7fff_ffff;
    let sign = xb & 0x8000_0000;
    assert(abs <= 0x7fff_ffff) by (bit_vector)
        requires
            abs == xb & 0x7fff_ffff,
    ;
    let biased = abs.wrapping_add(0xffff);
    ((sign | (biased & 0x7fff_ffff)) >> 16) as u16
}

/// f32 bits to bf16 bits, rounding away from zero with no NaN check.
pub fn f32_bits_to_bf16_raz_unchecked(xb: u32) -> (r: u16)
    ensures
        r == ((((xb & 0x8000_0000) | (((xb & 0x7fff_ffff) + 0xffff) as u32 & 0x7fff_ffff))
            >> 16u32) as u16),
        (xb & 0x7fff_ffff) <= 0x7f80_0000 ==> r as int == (xb >> 16u32) as int + (if xb & 0xffff
            != 0 {
            1int
        } else {
            0int
        }),
{
    proof {
        if (xb & 0x7fff_ffff) <= 0x7f80_0000 {
            lemma_roundings_by_dropped_bits(xb);
        }
    }
    let abs = xb & 0x7fff_ffff;
    let sign = xb & 0x8000_0000;
    assert(abs <= 0x7fff_ffff) by (bit_vector)
        requires
            abs == xb & 0x7fff_ffff,
    ;
    let biased = abs + 0xffff;
    ((sign | (biased & 0x7fff_ffff)) >> 16) as u16
}

/// f32 bits to bf16 bits, rounding to nearest even.
pub fn f32_bits_to_bf16_rne(xb: u32) -> (r: u16)
    ensures
        r == rne_spec(xb),
        (xb & 0x7fff_ffff) > 0x7f80_0000 ==> r == ((xb >> 16u32) | 0x0040) as u16,
        (xb & 0x7fff_ffff) <= 0x7f80_0000 ==> r as int == (xb >> 16u32) as int + (if (xb
            & 0xffff) > 0x8000 || ((xb & 0xffff) == 0x8000 && (xb >> 16u32) & 1 == 1) {
            1int
        } else {
            0int
        }),
{
    proof {
        if (xb & 0x7fff_ffff) <= 0x7f80_0000 {
            lemma_roundings_by_dropped_bits(xb);
        }
    }
    if (xb & 0x7fff_ffff) > 0x7f80_0000 {
        return ((xb >> 16) | 0x0040) as u16;
    }
    let lsb = (xb >> 16) & 1;
    assert(lsb <= 1 && xb + 0x7fff + lsb <= u32::MAX) by (bit_vector)
        requires
            lsb == (xb >> 16u32) & 1,
            (xb & 0x7fff_ffff) <= 0x7f80_0000,
    ;
    let bias = 0x7fff + lsb;
    let sum = xb.wrapping_add(bias);
    assert(sum == xb + bias);
    (sum >> 16) as u16
}

/// The f32 bits of a bf16 value: its bits in the high half.
pub fn bf16_bits_to_f32_bits(b: u16) -> (r: u32)
    ensures
        r == (b as u32) << 16u32,
{
    (b as u32) << 16
}

/// A bf16 value that is not a NaN comes back unchanged from widening and
/// any of the three roundings.
pub proof fn lemma_roundings_exact_on_bf16(b: u16)
    requires
        (b & 0x7fff) <= 0x7f80,
    ensures
        rtz_spec((b as u32) << 16u32) == b,
        raz_spec((b as u32) << 16u32) == b,
        rne_spec((b as u32) << 16u32) == b,
{
    let x = (b as u32) << 16u32;
    assert(!((x & 0x7fff_ffff) > 0x7f80_0000)) by (bit_vector)
        requires
            (b & 0x7fff) <= 0x7f80,
            x == (b as u32) << 16u32,
    ;
    assert((x >> 16u32) as u16 == b) by (bit_vector)
        requires
            x == (b as u32) << 16u32,
    ;
    assert((((x & 0x8000_0000) | (((x & 0x7fff_ffff) + 0xffff) as u32 & 0x7fff_ffff)) >> 16u32)
        as u16 == b) by (bit_vector)
        requires
            x == (b as u32) << 16u32,
    ;
    assert((((x + 0x7fff + ((x >> 16u32) & 1)) as u32) >> 16u32) as u16 == b) by (bit_vector)
        requires
            (b & 0x7fff) <= 0x7f80,
            x == (b as u32) << 16u32,
    ;
}

/// Rounding away from zero gives the truncation when the dropped bits are
/// zero, and the next magnitude up, with the same sign, otherwise.
pub proof fn lemma_raz_is_rtz_or_next(xb: u32)
    requires
        !is_nan_f32(xb),
    ensures
        xb & 0xffff == 0 ==> raz_spec(xb) == rtz_spec(xb),
        xb & 0xffff != 0 ==> raz_spec(xb) == rtz_spec(xb) + 1,
{
    let t = (xb >> 16u32) as u16;
    let a = (((xb & 0x8000_0000) | (((xb & 0x7fff_ffff) + 0xffff) as u32 & 0x7fff_ffff)) >> 16u32)
        as u16;
    assert(xb & 0xffff == 0 ==> a == t) by (bit_vector)
        requires
            t == (xb >> 16u32) as u16,
            a == (((xb & 0x8000_0000) | (((xb & 0x7fff_ffff) + 0xffff) as u32 & 0x7fff_ffff))
                >> 16u32) as u16,
    ;
    assert(xb & 0xffff != 0 ==> a == t + 1) by (bit_vector)
        requires
            (xb & 0x7fff_ffff) <= 0x7f80_0000,
            t == (xb >> 16u32) as u16,
            a == (((xb & 0x8000_0000) | (((xb & 0x7fff_ffff) + 0xffff) as u32 & 0x7fff_ffff))
                >> 16u32) as u16,
    ;
}

/// Rounding to nearest gives the truncation or the next bit pattern up.
pub proof fn lemma_rne_between(xb: u32)
    requires
        !is_nan_f32(xb),
    ensures
        rne_spec(xb) == rtz_spec(xb) || rne_spec(xb) == rtz_spec(xb) + 1,
{
    let t = (xb >> 16u32) as u16;
    let n = (((xb + 0x7fff + ((xb >> 16u32) & 1)) as u32) >> 16u32) as u16;
    assert(n == t || n == t + 1) by (bit_vector)
        requires
            (xb & 0x7fff_ffff) <= 0x7f80_0000,
            t == (xb >> 16u32) as u16,
            n == (((xb + 0x7fff + ((xb >> 16u32) & 1)) as u32) >> 16u32) as u16,
    ;
}

/// The first guess of the inverse-square-root trick on f32 bits `u`:
/// `0x5f3759df - (u >> 1)`, wrapping.
pub fn rsqrt_seed_bits(u: u32) -> (r: u32)
    ensures
        r == (if (u >> 1u32) <= 0x5f3759df {
            (0x5f3759df - (u >> 1u32)) as u32
        } else {
            (0x5f3759df + 0x1_0000_0000 - (u >> 1u32)) as u32
        }),
{
    0x5f3759df_u32.wrapping_sub(u >> 1)
}

/// The distance in ULPs between two bf16 values, on their sign and
/// magnitude bits: the magnitudes' difference when the signs agree, their
/// sum when they differ.
pub open spec fn ulp_distance_spec(a: u16, b: u16) -> int {
    let ma = (a & 0x7fff) as int;
    let mb = (b & 0x7fff) as int;
    if (a & 0x8000) == (b & 0x8000) {
        if ma >= mb {
            ma - mb
        } else {
            mb - ma
        }
    } else {
        ma + mb
    }
}

/// The signed distance from `cpu` to `npu` in ULPs: positive when `npu`
/// is larger in magnitude (same sign), the magnitudes' sum across signs.
pub open spec fn signed_ulp_delta_spec(cpu: u16, npu: u16) -> int {
    let mc = (cpu & 0x7fff) as int;
    let mn = (npu & 0x7fff) as int;
    if (cpu & 0x8000) == (npu & 0x8000) {
        mn - mc
    } else {
        mn + mc
    }
}

/// Between two bf16 values of the same sign, the magnitudes differ by as
/// much as the bit patterns do.
proof fn lemma_same_sign_magnitudes(a: u16, b: u16)
    ensures
        (a & 0x8000) == (b & 0x8000) ==> (a & 0x7fff) as int - (b & 0x7fff) as int == a as int
            - b as int,
{
    assert((a & 0x8000) == (b & 0x8000) ==> (a & 0x7fff) as int - (b & 0x7fff) as int == a as int
        - b as int) by (bit_vector);
}

/// The ULP distance between two bf16 values.
pub fn ulp_distance(a: u16, b: u16) -> (r: u32)
    ensures
        r == ulp_distance_spec(a, b),
        (a & 0x8000) == (b & 0x8000) ==> r == (if a >= b {
            a - b
        } else {
            b - a
        }),
        (a & 0x8000) != (b & 0x8000) ==> r == (a & 0x7fff) + (b & 0x7fff),
{
    proof {
        lemma_same_sign_magnitudes(a, b);
    }
    let sa = a & 0x8000;
    let sb = b & 0x8000;
    if sa == sb {
        let mag_a = (a & 0x7fff) as i32;
        let mag_b = (b & 0x7fff) as i32;
        assert((a & 0x7fff) <= 0x7fff && (b & 0x7fff) <= 0x7fff) by (bit_vector);
        if mag_a >= mag_b {
            (mag_a - mag_b) as u32
        } else {
            (mag_b - mag_a) as u32
        }
    } else {
        let mag_a = (a & 0x7fff) as u32;
        let mag_b = (b & 0x7fff) as u32;
        assert((a & 0x7fff) <= 0x7fff && (b & 0x7fff) <= 0x7fff) by (bit_vector);
        mag_a + mag_b
    }
}

/// The signed ULP distance from `cpu` to `npu`.
pub fn signed_ulp_delta(cpu: u16, npu: u16) -> (r: i32)
    ensures
        r == signed_ulp_delta_spec(cpu, npu),
        (cpu & 0x8000) == (npu & 0x8000) ==> r == npu - cpu,
        (cpu & 0x8000) != (npu & 0x8000) ==> r == (npu & 0x7fff) + (cpu & 0x7fff),
{
    proof {
        lemma_same_sign_magnitudes(cpu, npu);
    }
    let sc = cpu & 0x8000;
    let sn = npu & 0x8000;
    let mag_c = (cpu & 0x7fff) as i32;
    let mag_n = (npu & 0x7fff) as i32;
    assert((cpu & 0x7fff) <= 0x7fff && (npu & 0x7fff) <= 0x7fff) by (bit_vector);
    if sc == sn {
        mag_n - mag_c
    } else {
        mag_n + mag_c
    }
}

/// The ULP distance is symmetric, zero from a value to itself, and the
/// absolute value of the signed distance.
pub proof fn lemma_ulp_distance_laws(a: u16, b: u16)
    ensures
        ulp_distance_spec(a, b) == ulp_distance_spec(b, a),
        ulp_distance_spec(a, a) == 0,
        ulp_distance_spec(a, b) == (if signed_ulp_delta_spec(a, b) >= 0 {
            signed_ulp_delta_spec(a, b)
        } else {
            -signed_ulp_delta_spec(a, b)
        }),
{
}

} // verus!
