use hipx::bf16::{
    bf16_bits_to_f32_bits, f32_bits_to_bf16_raz, f32_bits_to_bf16_rne, f32_bits_to_bf16_rtz,
    signed_ulp_delta, ulp_distance,
};
use hipx::fence::deadline_ns;
use hipx::xorshift::XorShift64;

#[test]
fn xorshift_state_never_zero() {
    for seed in [0u64, 1, 2, u64::MAX, 0x8000_0000_0000_0000] {
        let mut r = XorShift64::new(seed);
        for _ in 0..1000 {
            assert_ne!(r.next_u64(), 0);
        }
    }
}

#[test]
fn same_seed_same_sequence() {
    let mut a = XorShift64::new(99);
    let mut b = XorShift64::new(99);
    for _ in 0..100 {
        assert_eq!(a.next_u64(), b.next_u64());
    }
}

#[test]
fn roundings_exact_on_bf16_values() {
    for b in [0u16, 1, 0x3f80, 0x7f80, 0x8000, 0xbf80, 0xff80, 0x7f7f, 0x0080] {
        let x = bf16_bits_to_f32_bits(b);
        assert_eq!(f32_bits_to_bf16_rtz(x), b);
        assert_eq!(f32_bits_to_bf16_raz(x), b);
        assert_eq!(f32_bits_to_bf16_rne(x), b);
    }
}

#[test]
fn raz_is_truncation_or_next_and_rne_between() {
    for x in [0x3f81_2345u32, 0xbf81_0001, 0x0000_0001, 0x7f7f_ffff, 0x3f80_0000, 0x8000_ffff] {
        let t = f32_bits_to_bf16_rtz(x);
        let a = f32_bits_to_bf16_raz(x);
        let n = f32_bits_to_bf16_rne(x);
        if x & 0xffff == 0 {
            assert_eq!(a, t);
        } else {
            assert_eq!(a, t + 1);
        }
        assert!(n == t || n == t + 1);
    }
}

#[test]
fn ulp_distance_is_absolute_signed_delta() {
    for (a, b) in [(0x3f80u16, 0x3f85u16), (0x3f85, 0x3f80), (0x0003, 0x8004), (0x8010, 0x8001)] {
        assert_eq!(ulp_distance(a, b), ulp_distance(b, a));
        assert_eq!(ulp_distance(a, a), 0);
        assert_eq!(ulp_distance(a, b) as i64, (signed_ulp_delta(a, b) as i64).abs());
    }
}

#[test]
fn deadline_not_before_now_and_monotone() {
    let now = 5i64 * 1_000_000_000 + 7;
    let mut last = now;
    for t in [0u128, 1, 1_000, 5_000_000_000, i64::MAX as u128, u128::MAX] {
        let d = deadline_ns(5, 7, t);
        assert!(d >= now);
        assert!(d >= last);
        last = d;
    }
}
