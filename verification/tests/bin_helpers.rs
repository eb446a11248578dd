use hipx::asym3::{pack_all_same, unpack_idx, HEAD_DIM, PACKED_BYTES};
use hipx::bf16::{
    bf16_bits_to_f32_bits, f32_bits_to_bf16_raz, f32_bits_to_bf16_raz_unchecked,
    f32_bits_to_bf16_rne, f32_bits_to_bf16_rtz, f32_bits_to_bf16_truncate, signed_ulp_delta,
    ulp_distance,
};
use hipx::device::{clock_name_bytes, power_mode_name, NpuInfo};
use hipx::hsa::export_result;
use hipx::ioctl::{GetPowerMode, GetResourceInfo, QueryAieMetadata, QueryAieVersion, QueryClockMetadata, QueryFirmwareVersion};
use hipx::xorshift::XorShift64;

#[test]
fn xorshift_sequence() {
    let mut r = XorShift64::new(1);
    assert_eq!(r.next_u64(), 1_082_269_761);
    assert_eq!(r.next_u64(), 1_152_992_998_833_853_505);
    let mut z = XorShift64::new(0);
    assert_eq!(z.next_byte(), 0x4b);
}

#[test]
fn pack_then_unpack_gives_same_index() {
    for v in 0u8..8 {
        let packed = pack_all_same(v);
        assert_eq!(packed.len(), PACKED_BYTES);
        for d in 0..HEAD_DIM {
            assert_eq!(unpack_idx(&packed, d), v as usize);
        }
    }
}

#[test]
fn unpack_reads_three_bit_fields() {
    // thread 0 word 0b...: indices 0..7 = 7,6,5,4,3,2,1,0
    let mut word = 0u32;
    for i in 0..8u32 {
        word |= (7 - i) << (3 * i);
    }
    let mut packed = vec![0u8; PACKED_BYTES];
    packed[0] = (word & 0xff) as u8;
    packed[1] = ((word >> 8) & 0xff) as u8;
    packed[2] = ((word >> 16) & 0xff) as u8;
    for d in 0..8 {
        assert_eq!(unpack_idx(&packed, d), 7 - d);
    }
    assert_eq!(unpack_idx(&packed, 8), 0);
}

#[test]
fn bf16_roundings() {
    let one = 1.0f32.to_bits();
    assert_eq!(f32_bits_to_bf16_rtz(one), 0x3f80);
    assert_eq!(f32_bits_to_bf16_raz(one), 0x3f80);
    assert_eq!(f32_bits_to_bf16_rne(one), 0x3f80);
    assert_eq!(f32_bits_to_bf16_rtz(0x3f81_2345), 0x3f81);
    assert_eq!(f32_bits_to_bf16_truncate(0x3f81_2345), 0x3f81);
    assert_eq!(f32_bits_to_bf16_raz(0x3f81_2345), 0x3f82);
    assert_eq!(f32_bits_to_bf16_raz(0xbf81_2345), 0xbf82);
    assert_eq!(f32_bits_to_bf16_raz_unchecked(0x3f81_2345), 0x3f82);
    assert_eq!(f32_bits_to_bf16_rne(0x3f81_8000), 0x3f82);
    assert_eq!(f32_bits_to_bf16_rne(0x3f80_8000), 0x3f80);
    assert_eq!(f32_bits_to_bf16_rne(0x3f80_8001), 0x3f81);
    assert_eq!(f32_bits_to_bf16_rtz(0x7fc0_0001), 0x7fc0);
    assert_eq!(f32_bits_to_bf16_rtz(0x7f80_0001), 0x7fc0);
    assert_eq!(f32_bits_to_bf16_raz(0xff80_0001), 0xffc0);
    assert_eq!(f32_bits_to_bf16_rne(0x7f80_0001), 0x7fc0);
    assert_eq!(bf16_bits_to_f32_bits(0x3f80), one);
    assert_eq!(f32::from_bits(bf16_bits_to_f32_bits(0xc000)), -2.0);
}

#[test]
fn ulp_distances() {
    assert_eq!(ulp_distance(0x3f80, 0x3f82), 2);
    assert_eq!(ulp_distance(0x3f82, 0x3f80), 2);
    assert_eq!(ulp_distance(0x0001, 0x8001), 2);
    assert_eq!(ulp_distance(0x8000, 0x0000), 0);
    assert_eq!(signed_ulp_delta(0x3f80, 0x3f82), 2);
    assert_eq!(signed_ulp_delta(0x3f82, 0x3f80), -2);
    assert_eq!(signed_ulp_delta(0x0001, 0x8003), 4);
}

#[test]
fn probe_text_helpers() {
    let mut name = [0u8; 16];
    name[..6].copy_from_slice(b"MP-NPU");
    assert_eq!(clock_name_bytes(&name), b"MP-NPU".to_vec());
    assert_eq!(clock_name_bytes(&[b'x'; 16]), vec![b'x'; 16]);
    assert_eq!(clock_name_bytes(&[0u8; 16]), Vec::<u8>::new());
    assert_eq!(power_mode_name(0), "DEFAULT");
    assert_eq!(power_mode_name(3), "HIGH");
    assert_eq!(power_mode_name(4), "TURBO");
    assert_eq!(power_mode_name(9), "?");
}

#[test]
fn npu_info_from_query_replies() {
    let v = QueryAieVersion { major: 1, minor: 2 };
    let mut m = QueryAieMetadata::default();
    m.cols = 8;
    m.rows = 6;
    m.col_size = 0x1000;
    m.core.row_start = 2;
    m.core.row_count = 4;
    m.mem.row_start = 1;
    m.mem.row_count = 1;
    m.shim.row_count = 1;
    let mut c = QueryClockMetadata::default();
    c.mp_npu_clock.freq_mhz = 1267;
    c.h_clock.freq_mhz = 1800;
    let f = QueryFirmwareVersion { major: 1, minor: 1, patch: 0, build: 33 };
    let r = GetResourceInfo { npu_clk_max: 1, npu_tops_max: 58, npu_task_max: 64, npu_tops_curr: 50, npu_task_curr: 2 };
    let pm = GetPowerMode { power_mode: 1, pad: [0; 7] };
    let i = NpuInfo::from_queries(&v, &m, &c, &f, &r, &pm);
    assert_eq!(i.aie_version, (1, 2));
    assert_eq!((i.aie_cols, i.aie_rows, i.aie_col_size), (8, 6, 0x1000));
    assert_eq!(i.core_tiles, (2, 4));
    assert_eq!(i.mem_tiles, (1, 1));
    assert_eq!(i.shim_tiles, (0, 1));
    assert_eq!((i.mp_npu_clock_mhz, i.h_clock_mhz), (1267, 1800));
    assert_eq!(i.firmware_version, (1, 1, 0, 33));
    assert_eq!(i.power_mode, 1);
    assert_eq!((i.npu_tops_max, i.npu_task_max, i.npu_tops_curr, i.npu_task_curr), (58, 64, 50, 2));
}

#[test]
fn hsa_export_outcomes() {
    assert_eq!(export_result(0x1000, 4096, 0, 7, 128), Ok((7, 128)));
    assert_eq!(
        export_result(0x7f00_dead_0000, 4096, 1, 7, 0),
        Err("hsa_amd_portable_export_dmabuf(0x7f00dead0000, 4096) failed: status=1".to_string())
    );
    assert_eq!(
        export_result(0x1000, 4096, 0, -1, 0),
        Err("hsa_amd_portable_export_dmabuf returned status=0 but fd=-1".to_string())
    );
}

#[test]
fn unpack_all_matches_unpack_idx() {
    let mut packed = vec![0u8; PACKED_BYTES];
    let mut rng = XorShift64::new(7);
    for b in packed.iter_mut() {
        *b = rng.next_byte();
    }
    let all = hipx::asym3::unpack_all(&packed);
    assert_eq!(all.len(), HEAD_DIM);
    for d in 0..HEAD_DIM {
        assert_eq!(all[d], unpack_idx(&packed, d));
    }
}

#[test]
fn rsqrt_seed() {
    assert_eq!(hipx::bf16::rsqrt_seed_bits(0), 0x5f3759df);
    assert_eq!(hipx::bf16::rsqrt_seed_bits(1.0f32.to_bits()), 0x5f3759df - (0x3f80_0000 >> 1));
    assert_eq!(hipx::bf16::rsqrt_seed_bits(u32::MAX), 0x5f3759dfu32.wrapping_sub(u32::MAX >> 1));
}
