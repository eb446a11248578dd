use hipx::agpu::{
    gem_close_request, gem_create_gtt_request, gem_mmap_request, on_gem_close, on_gem_create,
    on_gem_mmap, open_render_node_error, render_node_path,
};
use hipx::bf16::ulp_distance;
use hipx::bo::Bo;
use hipx::cmd::CuBinding;
use hipx::device::{Device, NpuInfo};
use hipx::dispatch::{compute_target, ComputeTarget, OpClass};
use hipx::ert::{dpu_cmd_packet, header_state, reset_state, ERT_CMD_STATE_COMPLETED, ERT_CMD_STATE_NEW};
use hipx::hwctx::{Hwctx, HwctxBuilder};
use hipx::ioctl::{
    drm_ioctl_amdgpu_gem_create, drm_ioctl_amdgpu_gem_mmap, DrmAmdgpuGemCreateOut,
    DrmAmdgpuGemMmapOut, AMDGPU_GEM_CREATE_CPU_ACCESS_REQUIRED, AMDGPU_GEM_DOMAIN_GTT,
    QOS_NORMAL_PRIORITY,
};
use hipx::npu::{
    i16_to_le_bytes, matvec_cmd_packet, matvec_hwctx_builder, passthrough_cmd_packet, route,
    unpack_i16_le, MatvecKernel, MatvecStep, NpuRuntime,
};
use hipx::reference::{
    bf16_ulp_tally, byte_ramp_i16, byte_ramp_u8, count_mismatches_i16, count_mismatches_i32,
    count_mismatches_u8, gemm_i16_reference, gemm_i8_col_major_reference, gemm_i8_reference,
    gemv_i16_reference, pseudo_i8, scale_reference_i16, sum_mod8_matrix_i16, sum_mod8_matrix_i8,
};
use hipx::reference::{check_samples, compare_bits_u16, fill_pattern, pattern_byte, RoundtripPattern};
use hipx::runtime::{Hipx, DEFAULT_HEAP_SIZE};

fn info() -> NpuInfo {
    NpuInfo {
        aie_version: (1, 0),
        aie_cols: 8,
        aie_rows: 6,
        aie_col_size: 0x0200_0000,
        core_tiles: (2, 4),
        mem_tiles: (1, 1),
        shim_tiles: (0, 1),
        mp_npu_clock_mhz: 1267,
        h_clock_mhz: 1800,
        firmware_version: (1, 1, 0, 33),
        power_mode: 0,
        npu_tops_max: 58,
        npu_task_max: 64,
        npu_tops_curr: 58,
        npu_task_curr: 0,
    }
}

fn bo(handle: u32, xdna_addr: u64, mapping: Option<(usize, usize)>) -> Bo {
    Bo { fd: 3, handle, size: 4096, xdna_addr, map_offset: 0, mapping, is_dev_heap: false }
}

fn runtime() -> NpuRuntime {
    let hipx = Hipx {
        device: Device { fd: 3 },
        info: info(),
        heap: bo(1, 0x4000_0000, Some((0x7000_0000, DEFAULT_HEAP_SIZE))),
    };
    NpuRuntime::from_hipx(hipx).ok().unwrap()
}

fn kernel() -> MatvecKernel {
    MatvecKernel {
        ctx: Hwctx { fd: 3, handle: 5, syncobj_handle: 6, umq_doorbell: 0 },
        cu: CuBinding { cu_bos: vec![bo(10, 0x4000_1000, None)], cu_count: 1 },
        instr_bo: bo(11, 0x4000_2000, None),
        ninstr: 75,
        a_bo: bo(12, 0, Some((0x1000_0000, 4096))),
        b_bo: bo(13, 0, Some((0x2000_0000, 4096))),
        c_bo: bo(14, 0, Some((0x3000_0000, 4096))),
        bo3_bo: bo(15, 0, Some((0x4000_0000, 4096))),
        bo4_bo: bo(16, 0, Some((0x5000_0000, 4096))),
        cmd_bo: bo(17, 0, Some((0x6000_0000, 4096))),
    }
}

fn u32_at(p: &[u8], off: usize) -> u32 {
    u32::from_le_bytes([p[off], p[off + 1], p[off + 2], p[off + 3]])
}

fn u64_at(p: &[u8], off: usize) -> u64 {
    u32_at(p, off) as u64 | (u32_at(p, off + 4) as u64) << 32
}

#[test]
fn matvec_kernel_is_set_up_once_then_reused() {
    let mut rt = runtime();
    let a = vec![1i16; 288 * 288];
    let b = vec![2i16; 288];
    assert!(!rt.available_ops().int8_gemm);
    assert!(!rt.matvec_ready());
    assert!(matches!(rt.matvec_begin(&a, &b, 288, true), Ok(MatvecStep::NeedKernel)));
    let held = Some(rt);
    assert_eq!(route(&held, OpClass::Int8Gemm {}), ComputeTarget::Igpu);
    let mut rt = held.unwrap();
    assert!(rt.install_matvec_kernel(kernel()).is_none());
    let held = Some(rt);
    assert_eq!(route(&held, OpClass::Int8Gemm {}), compute_target(OpClass::Int8Gemm {}, &info(), true));
    let mut rt = held.unwrap();
    assert!(rt.available_ops().int8_gemm);
    assert!(rt.available_ops().passthrough_4k);
    assert!(!rt.available_ops().kv_dequant);
    assert!(rt.matvec_ready());
    for _ in 0..2 {
        match rt.matvec_begin(&a, &b, 288, true) {
            Ok(MatvecStep::Submit { a_bytes, b_bytes, c_bytes, submit }) => {
                assert_eq!(a_bytes.len(), 288 * 288 * 2);
                assert_eq!(&a_bytes[..4], &[1, 0, 1, 0]);
                assert_eq!(&b_bytes[..4], &[2, 0, 2, 0]);
                assert_eq!(c_bytes, 288 * 4);
                assert_eq!(submit.hwctx, 5);
                assert_eq!(submit.cmd_handles, vec![17]);
                assert_eq!(submit.arg_handles, vec![11, 12, 13, 14, 15, 16]);
            }
            _ => panic!("expected a submission"),
        }
    }
    let old = rt.install_matvec_kernel(kernel());
    assert_eq!(old.unwrap().cmd_bo.handle, 17);
    assert!(rt.available_ops().int8_gemm);
    let (_, k) = rt.into_parts();
    assert_eq!(k.unwrap().ctx.handle, 5);
}

#[test]
fn matvec_lengths_are_checked_first() {
    let rt = runtime();
    let e = rt.matvec_begin(&[0i16; 3], &[0i16; 288], 288, true).err().unwrap();
    assert_eq!((e.code, e.message.as_str()), (0, "matvec a.len=3 != 82944"));
    let e = rt.matvec_begin(&vec![0i16; 82944], &[0i16; 287], 288, true).err().unwrap();
    assert_eq!(e.message, "matvec b.len=287 != 288");
    let e = rt.matvec_begin(&vec![0i16; 82944], &[0i16; 288], 0, true).err().unwrap();
    assert_eq!(e.message, "matvec c.len=0 != 288");
    assert!(matches!(rt.matvec_begin(&vec![0i16; 82944], &[0i16; 288], 0, false), Ok(MatvecStep::NeedKernel)));
}

#[test]
fn matvec_wait_needs_a_kernel() {
    let mut rt = runtime();
    let e = rt.matvec_kernel_for_wait().err().unwrap();
    assert_eq!((e.code, e.message.as_str()), (0, "matvec kernel not initialized"));
    rt.install_matvec_kernel(kernel());
    assert_eq!(rt.matvec_kernel_for_wait().ok().unwrap().ctx.syncobj_handle, 6);
}

#[test]
fn kernel_context_requests() {
    let rt = runtime();
    let hb = rt.passthrough_4k_begin().ok().unwrap();
    assert_eq!((hb.num_columns, hb.max_opc, hb.priority), (8, 2048, QOS_NORMAL_PRIORITY));
    let mb = matvec_hwctx_builder();
    assert_eq!((mb.num_columns, mb.max_opc, mb.mem_size), (8, 2048, 0));
    let fb = HwctxBuilder::for_kernel(1, 7);
    assert_eq!((fb.num_columns, fb.max_opc, fb.gops), (1, 7, 0));
}

#[test]
fn dpu_packets_have_the_start_cu_layout() {
    let p = dpu_cmd_packet(1, 0xAABB_CCDD_0011_2233, 75, [1, 2, 3, 4, 5]);
    assert_eq!(p.len(), 256);
    let h = u32_at(&p, 0);
    assert_eq!(h & 0xF, ERT_CMD_STATE_NEW);
    assert_eq!((h >> 12) & 0x7FF, 16);
    assert_eq!((h >> 23) & 0x1F, 0);
    assert_eq!(h >> 28, 3);
    assert_eq!(h, 0x3001_0001);
    assert_eq!(u32_at(&p, 4), 1);
    assert_eq!(u64_at(&p, 8), 3);
    assert_eq!(u64_at(&p, 16), 0xAABB_CCDD_0011_2233);
    assert_eq!(u32_at(&p, 24), 75);
    for (i, want) in [1u64, 2, 3, 4, 5].iter().enumerate() {
        assert_eq!(u64_at(&p, 28 + 8 * i), *want);
    }
    assert!(p[68..].iter().all(|b| *b == 0));

    let t = passthrough_cmd_packet(0x4000_2000, 75, 0x1111, 0x2222);
    assert_eq!(u64_at(&t, 28), 0x1111);
    assert_eq!(u64_at(&t, 36), 0x2222);
    assert_eq!(u64_at(&t, 44), 0);
    assert_eq!(t, dpu_cmd_packet(1, 0x4000_2000, 75, [0x1111, 0x2222, 0, 0, 0]));

    let m = matvec_cmd_packet(&kernel());
    assert_eq!(u64_at(&m, 16), 0x4000_2000);
    assert_eq!(u64_at(&m, 28), 0x1000_0000);
    assert_eq!(u64_at(&m, 44), 0x3000_0000);
    assert_eq!(u64_at(&m, 60), 0x5000_0000);
}

#[test]
fn reset_state_marks_a_completed_packet_new() {
    let mut p = dpu_cmd_packet(1, 0x10, 2, [0; 5]);
    let done = (u32_at(&p, 0) & 0xFFFF_FFF0) | ERT_CMD_STATE_COMPLETED;
    p[..4].copy_from_slice(&done.to_le_bytes());
    assert_eq!(header_state(u32_at(&p, 0)), ERT_CMD_STATE_COMPLETED);
    let rest = p[4..].to_vec();
    reset_state(&mut p[..4]);
    assert_eq!(header_state(u32_at(&p, 0)), ERT_CMD_STATE_NEW);
    assert_eq!(u32_at(&p, 0), 0x3001_0001);
    assert_eq!(p[4..].to_vec(), rest);
}

#[test]
fn i16_bytes_are_little_endian() {
    assert_eq!(i16_to_le_bytes(&[1, -1, 0x1234]), vec![1, 0, 0xFF, 0xFF, 0x34, 0x12]);
    assert!(i16_to_le_bytes(&[]).is_empty());
}

#[test]
fn gemv_reference_matches_the_sum_of_products() {
    // The 288x288 pattern of the matvec program: a[r][k] = (r + k) & 7, b[k] = k & 7.
    let a = sum_mod8_matrix_i16(288, 288);
    let b: Vec<i16> = (0..288).map(|k| (k & 7) as i16).collect();
    let c = gemv_i16_reference(&a, &b, 288, 288).unwrap();
    assert_eq!(c.len(), 288);
    let want0: i32 = (0..288).map(|k| ((k & 7) * (k & 7)) as i32).sum();
    assert_eq!(c[0], want0);
    assert_eq!(c[0], 5040);
    let want1: i32 = (0..288).map(|k| (((1 + k) & 7) * (k & 7)) as i32).sum();
    assert_eq!(c[1], want1);
    let small = gemv_i16_reference(&[1, 2, 3, 4, 5, 6], &[1, 0, -1], 2, 3).unwrap();
    assert_eq!(small, vec![-2, -2]);
}

#[test]
fn reference_refuses_an_overflowing_accumulator() {
    assert!(gemv_i16_reference(&[i16::MAX, i16::MAX, i16::MAX], &[i16::MAX, i16::MAX, i16::MAX], 1, 3).is_none());
    assert!(gemv_i16_reference(&[i16::MIN, i16::MIN], &[i16::MIN, i16::MIN], 1, 2).is_none());
    assert_eq!(gemv_i16_reference(&[i16::MIN], &[i16::MIN], 1, 1), Some(vec![1 << 30]));
    assert_eq!(gemm_i16_reference(&[i16::MAX; 4], &[i16::MAX; 4], 2, 2, 2), Some(vec![2_147_352_578; 4]));
    assert!(gemm_i16_reference(&[i16::MAX; 6], &[i16::MAX; 6], 2, 3, 2).is_none());
}

#[test]
fn gemm_references() {
    // [[1, 2], [3, 4]] x [[5, 6], [7, 8]] = [[19, 22], [43, 50]]
    assert_eq!(gemm_i16_reference(&[1, 2, 3, 4], &[5, 6, 7, 8], 2, 2, 2), Some(vec![19, 22, 43, 50]));
    assert_eq!(gemm_i8_reference(&[1, 2, 3, 4], &[5, 6, 7, 8], 2, 2, 2), Some(vec![19, 22, 43, 50]));
    // The same B stored column-major.
    assert_eq!(gemm_i8_col_major_reference(&[1, 2, 3, 4], &[5, 7, 6, 8], 2, 2, 2), Some(vec![19, 22, 43, 50]));
    // 1x3 times 3x2.
    assert_eq!(gemm_i8_reference(&[-1, 2, 3], &[1, 2, 3, 4, 5, 6], 1, 3, 2), Some(vec![20, 24]));
    assert_eq!(gemm_i8_reference(&[i8::MIN; 2], &[i8::MIN; 2], 1, 2, 1), Some(vec![32768]));
    assert_eq!(gemm_i16_reference(&[], &[], 2, 0, 2), Some(vec![0, 0, 0, 0]));
}

#[test]
fn gemm_reference_on_the_program_pattern() {
    let a = sum_mod8_matrix_i8(4, 8);
    let b = sum_mod8_matrix_i8(8, 3);
    let c = gemm_i8_reference(&a, &b, 4, 8, 3).unwrap();
    for r in 0..4 {
        for col in 0..3 {
            let want: i32 = (0..8).map(|kk| (((r + kk) & 7) * ((kk + col) & 7)) as i32).sum();
            assert_eq!(c[r * 3 + col], want);
        }
    }
    let a16 = sum_mod8_matrix_i16(3, 9);
    assert_eq!(a16[9 + 8], 1);
    assert_eq!(a16[2 * 9 + 6], 0);
}

#[test]
fn pseudo_random_pattern() {
    let h = |idx: u64| ((idx.wrapping_mul(0x9E37_79B9_7F4A_7C15) >> 61) as i8) - 4;
    for idx in [0u64, 1, 2, 3, 1023, 1024, 1 << 20, u64::MAX] {
        assert_eq!(pseudo_i8(idx), h(idx));
    }
    assert_eq!(pseudo_i8(0), -4);
    assert_eq!(pseudo_i8(1), 0);
}

#[test]
fn mismatch_counts() {
    assert_eq!(count_mismatches_i32(&[1, 2, 3], &[1, 0, 3]), 1);
    assert_eq!(count_mismatches_i16(&[1, 2], &[2, 1]), 2);
    let inp: Vec<u8> = (0..4096).map(|i| (i & 0xff) as u8).collect();
    let mut out = inp.clone();
    assert_eq!(count_mismatches_u8(&out, &inp), 0);
    out[7] = 0;
    out[4095] ^= 1;
    assert_eq!(count_mismatches_u8(&out, &inp), 2);
}

#[test]
fn bf16_tally() {
    let cpu = [0x3F80u16, 0x3F80, 0xBF80, 0x0000];
    let npu = [0x3F80u16, 0x3F82, 0xBF7F, 0x8001];
    let t = bf16_ulp_tally(&cpu, &npu, 1);
    assert_eq!(t.max_ulp, 2);
    assert_eq!(t.n_diff, 3);
    assert_eq!(t.sum_signed, 2 - 1 + 1);
    assert_eq!(t.first_over_bound, Some(1));
    assert_eq!(ulp_distance(0x3F80, 0x3F82), 2);
    let t = bf16_ulp_tally(&cpu, &cpu, 0);
    assert_eq!((t.max_ulp, t.n_diff, t.sum_signed, t.first_over_bound), (0, 0, 0, None));
}

#[test]
fn amdgpu_requests_and_replies() {
    assert_eq!(drm_ioctl_amdgpu_gem_create(), 0xC020_6440);
    assert_eq!(drm_ioctl_amdgpu_gem_mmap(), 0xC008_6441);
    let r = gem_create_gtt_request(1 << 20);
    assert_eq!((r.bo_size, r.alignment, r.domains, r.domain_flags), (1 << 20, 4096, AMDGPU_GEM_DOMAIN_GTT, AMDGPU_GEM_CREATE_CPU_ACCESS_REQUIRED));
    let bytes = r.to_bytes();
    assert_eq!(bytes.len(), 32);
    assert_eq!(&bytes[..8], &[0, 0, 0x10, 0, 0, 0, 0, 0]);
    assert_eq!(bytes[16], 2);
    assert_eq!(bytes[24], 1);
    let out = DrmAmdgpuGemCreateOut::from_bytes(&[7, 1, 0, 0, 0, 0, 0, 0]);
    assert_eq!(on_gem_create(1 << 20, 0, 0, &out).unwrap(), 0x107);
    let e = on_gem_create(4096, -1, 12, &out).unwrap_err();
    assert_eq!((e.code, e.message.as_str()), (12, "AMDGPU_GEM_CREATE(GTT, 4096) failed (errno=12)"));
    assert_eq!(gem_mmap_request(9).to_bytes(), vec![9, 0, 0, 0, 0, 0, 0, 0]);
    let m = DrmAmdgpuGemMmapOut::from_bytes(&[0, 0, 0, 0, 1, 0, 0, 0]);
    assert_eq!(on_gem_mmap(9, 0, 0, &m).unwrap(), 1 << 32);
    assert_eq!(on_gem_mmap(9, -1, 22, &m).unwrap_err().message, "AMDGPU_GEM_MMAP(handle=9) failed (errno=22)");
    assert_eq!(gem_close_request(4).handle, 4);
    assert!(on_gem_close(4, 0, 0).is_ok());
    assert_eq!(on_gem_close(4, -1, 9).unwrap_err().message, "GEM_CLOSE(handle=4) on amdgpu fd failed (errno=9)");
    assert_eq!(render_node_path(0), "/dev/dri/renderD128");
    assert_eq!(render_node_path(1), "/dev/dri/renderD129");
    let e = open_render_node_error("/dev/dri/renderD128", 2);
    assert_eq!((e.code, e.message.as_str()), (2, "open(/dev/dri/renderD128, O_RDWR) failed (errno=2)"));
}

#[test]
fn create_hwctx_uses_the_core_row_count() {
    let hipx = Hipx {
        device: Device { fd: 3 },
        info: info(),
        heap: bo(1, 0x4000_0000, Some((0x7000_0000, DEFAULT_HEAP_SIZE))),
    };
    let mut b = HwctxBuilder::default();
    b.num_columns = 8;
    let through_runtime = hipx.create_hwctx(&b);
    let direct = Hwctx::create(3, 4, &b);
    assert_eq!(through_runtime.req.num_tiles, 32);
    assert_eq!(through_runtime.req.num_tiles, direct.req.num_tiles);
    assert_eq!(through_runtime.fd, direct.fd);
    assert_eq!(through_runtime.req.max_opc, direct.req.max_opc);
}

#[test]
fn start_cu_builder_writes_the_dpu_packet() {
    let mut buf = vec![0xEEu8; 256];
    {
        let mut b = hipx::ert::ErtBuilder::new_start_cu(&mut buf);
        assert_eq!(b.arg_offset, 8);
        b.set_cu_mask(0x1);
        b.set_arg_u64(hipx::kernels::ARG_OPCODE, 3);
        b.set_arg_u64(hipx::kernels::ARG_INSTR_PTR, 0x4000_2000);
        b.set_arg_u32(hipx::kernels::ARG_NINSTR, 75);
        b.set_arg_u64(hipx::kernels::ARG_BO0, 0x1111);
        b.set_arg_u64(hipx::kernels::ARG_BO1, 0x2222);
        assert_eq!(b.finalize(hipx::kernels::ARG_SPACE_BYTES), 68);
    }
    assert_eq!(buf, passthrough_cmd_packet(0x4000_2000, 75, 0x1111, 0x2222));
}

#[test]
fn scalar_multiply_reference() {
    let ramp = byte_ramp_i16(600);
    assert_eq!((ramp[0], ramp[255], ramp[256], ramp[599]), (0, 255, 0, 87));
    let want = scale_reference_i16(600, 7);
    for i in 0..600 {
        assert_eq!(want[i], ((i & 0xFF) as i16).wrapping_mul(7));
    }
    assert_eq!(want[255], 1785);
    let big = scale_reference_i16(256, 300);
    assert_eq!(big[255], (255i32 * 300 - 65536) as i16);
    let bytes = byte_ramp_u8(300);
    assert_eq!((bytes[0], bytes[255], bytes[256], bytes[299]), (0, 255, 0, 43));
    let mut got = vec![0i16; 600];
    unpack_i16_le(&i16_to_le_bytes(&want), &mut got);
    assert_eq!(count_mismatches_i16(&got, &want), 0);
    assert_eq!(got, want);
}

#[test]
fn no_mismatch_means_equal() {
    let a = vec![1i32, -2, 3];
    assert_eq!(count_mismatches_i32(&a, &a.clone()), 0);
    assert_ne!(count_mismatches_i32(&a, &[1, -2, 4]), 0);
}

#[test]
fn pseudo_matrices_and_column_major_storage() {
    let a = hipx::reference::pseudo_i8_matrix(2, 3, 0);
    let b = hipx::reference::pseudo_i8_matrix(3, 4, 6);
    for i in 0..6 {
        assert_eq!(a[i], pseudo_i8(i as u64));
    }
    for i in 0..12 {
        assert_eq!(b[i], pseudo_i8(6 + i as u64));
    }
    let b_cm = hipx::reference::to_col_major_i8(&b, 3, 4);
    for kk in 0..3 {
        for c in 0..4 {
            assert_eq!(b_cm[c * 3 + kk], b[kk * 4 + c]);
        }
    }
    assert_eq!(
        gemm_i8_col_major_reference(&a, &b_cm, 2, 3, 4),
        gemm_i8_reference(&a, &b, 2, 3, 4)
    );
}

#[test]
fn bit_exact_comparison_reports_the_first_difference() {
    assert_eq!(compare_bits_u16(&[1, 2, 3, 4], &[1, 2, 3, 4]), (0, None));
    assert_eq!(compare_bits_u16(&[1, 2, 3, 4], &[1, 9, 3, 7]), (2, Some((1, 2, 9))));
    assert_eq!(compare_bits_u16(&[], &[]), (0, None));
}

#[test]
fn roundtrip_patterns_and_samples() {
    for i in [0usize, 1, 7, 255, 256, 1000, 65535, usize::MAX] {
        assert_eq!(pattern_byte(RoundtripPattern::Forward, i), ((i.wrapping_mul(31).wrapping_add(7)) & 0xff) as u8);
        assert_eq!(pattern_byte(RoundtripPattern::Reverse, i), ((i.wrapping_mul(17) ^ 0xa5) & 0xff) as u8);
    }
    assert_eq!(pattern_byte(RoundtripPattern::Forward, 1), 38);
    assert_eq!(pattern_byte(RoundtripPattern::Reverse, 0), 0xa5);
    let mut view = fill_pattern(RoundtripPattern::Forward, 8192);
    assert_eq!(check_samples(&view, RoundtripPattern::Forward), None);
    assert_eq!(check_samples(&view, RoundtripPattern::Reverse), Some((0, 0xa5, 7)));
    view[4096] ^= 0xff;
    let want = pattern_byte(RoundtripPattern::Forward, 4096);
    assert_eq!(check_samples(&view, RoundtripPattern::Forward), Some((4096, want, want ^ 0xff)));
    view[5] = 0;
    assert_eq!(check_samples(&view, RoundtripPattern::Forward), Some((4096, want, want ^ 0xff)));
}

#[test]
fn bo_mapping_is_recorded_once() {
    let mut b = bo(20, 0, None);
    assert!(b.needs_map());
    assert_eq!(b.host_ptr(), None);
    b.record_mapping(0x1000, 4096);
    assert_eq!(b.host_ptr(), Some(0x1000));
    assert!(!b.needs_map());
    b.record_mapping(0x9000, 8192);
    assert_eq!(b.host_ptr(), Some(0x1000));
    assert_eq!(b.mapping, Some((0x1000, 4096)));
}

#[test]
fn runtime_ops_invariant() {
    let mut rt = runtime();
    let ops = *rt.available_ops();
    assert!(ops.passthrough_4k && !ops.kv_dequant && !ops.int8_gemm);
    rt.install_matvec_kernel(kernel());
    let ops = *rt.available_ops();
    assert!(ops.passthrough_4k && !ops.kv_dequant && ops.int8_gemm);
}

#[test]
fn get_info_request_and_error() {
    let dev = Device { fd: 3 };
    let r = dev.get_info_request(2, 40, 0x1234);
    assert_eq!((r.param, r.buffer_size, r.buffer), (2, 40, 0x1234));
    assert!(dev.on_get_info(2, 0, 0).is_ok());
    let e = dev.on_get_info(2, -1, 25).unwrap_err();
    assert_eq!((e.code, e.message.as_str()), (25, "GET_INFO param=2 ioctl failed (errno=25)"));
}
