use hipx::bo::{close_error, close_request, Bo, BoAlloc};
use hipx::cmd::{config_cus, submit_exec_cmd};
use hipx::device::{Device, NpuInfo};
use hipx::dispatch::{
    classify, cols_available, compute_target, core_rows, has_npu, npu_beats_igpu_int8,
    npu_int8_tops, npu_uma_with_igpu, ComputeTarget, NpuFamily, OpClass,
};
use hipx::fence::{
    deadline_ns, on_timeline_wait, on_wait_many, timeline_deadline_ns, timeline_wait_request,
    wait_flags, wait_many_request, wait_needed,
};
use hipx::hwctx::{Hwctx, HwctxBuilder};
use hipx::ioctl::{
    DrmCreateBo, DrmCreateHwctx, DrmExecCmd, DrmGetBoInfo, BO_CMD, BO_DEV, BO_DEV_HEAP, BO_SHMEM,
    HWCTX_CONFIG_CU, QOS_NORMAL_PRIORITY, SYNC_TO_DEVICE,
};
use hipx::npu::{
    matvec_check_lengths, pack_i16_le, route, unpack_i32_le, AvailableOps, NpuRuntime,
};
use hipx::runtime::{Hipx, DEFAULT_HEAP_SIZE};
use hipx::XdnaError;

fn info(major: u32, tops: u64) -> NpuInfo {
    NpuInfo {
        aie_version: (major, 0),
        aie_cols: 8,
        aie_rows: 6,
        aie_col_size: 0x0200_0000,
        core_tiles: (2, 4),
        mem_tiles: (1, 1),
        shim_tiles: (0, 1),
        mp_npu_clock_mhz: 1267,
        h_clock_mhz: 1800,
        firmware_version: (1, 1, 0, 33),
        power_mode: 0,
        npu_tops_max: tops,
        npu_task_max: 64,
        npu_tops_curr: tops,
        npu_task_curr: 0,
    }
}

fn bo(fd: i32, handle: u32, size: usize, xdna_addr: u64, mapping: Option<(usize, usize)>) -> Bo {
    Bo { fd, handle, size, xdna_addr, map_offset: 0, mapping, is_dev_heap: false }
}

fn hipx_for(i: NpuInfo) -> Hipx {
    Hipx {
        device: Device { fd: 3 },
        info: i,
        heap: bo(3, 1, DEFAULT_HEAP_SIZE, 0x4000_0000, Some((0x7000_0000, DEFAULT_HEAP_SIZE))),
    }
}

#[test]
fn classification_and_predicates() {
    let aie2p = info(1, 58);
    let other = info(2, 58);
    assert_eq!(classify(&aie2p), NpuFamily::Aie2p);
    assert_eq!(classify(&other), NpuFamily::Unknown);
    assert!(has_npu(&aie2p));
    assert!(!has_npu(&other));
    assert!(npu_uma_with_igpu(&aie2p));
    assert!(!npu_uma_with_igpu(&other));
    assert_eq!(npu_int8_tops(&aie2p), 58);
    assert_eq!(cols_available(&aie2p), 8);
    assert_eq!(core_rows(&aie2p), 4);
    assert!(npu_beats_igpu_int8(&aie2p, 57));
    assert!(!npu_beats_igpu_int8(&aie2p, 58));
}

#[test]
fn compute_target_needs_kernel_and_npu() {
    assert_eq!(compute_target(OpClass::KvCodec, &info(1, 58), true), ComputeTarget::Npu);
    assert_eq!(compute_target(OpClass::KvCodec, &info(1, 58), false), ComputeTarget::Igpu);
    assert_eq!(compute_target(OpClass::Other, &info(0, 58), true), ComputeTarget::Igpu);
}

#[test]
fn runtime_from_hipx_and_routing() {
    assert!(NpuRuntime::from_hipx(hipx_for(info(2, 58))).is_err());
    let rt = match NpuRuntime::from_hipx(hipx_for(info(1, 58))) {
        Ok(rt) => rt,
        Err(_) => panic!("an AIE-2P runtime must be accepted"),
    };
    assert_eq!(rt.family(), NpuFamily::Aie2p);
    assert_eq!(rt.tops_int8(), 58);
    assert_eq!(rt.cols(), 8);
    let ops = *rt.available_ops();
    assert!(ops.passthrough_4k && !ops.kv_dequant && !ops.int8_gemm);
    let npu = Some(rt);
    assert_eq!(route(&npu, OpClass::KvCodec), ComputeTarget::Igpu);
    assert_eq!(route(&npu, OpClass::Int8Gemm {}), ComputeTarget::Igpu);
    assert_eq!(route(&npu, OpClass::VisionEncoder), ComputeTarget::Igpu);
    assert_eq!(route(&None, OpClass::KvCodec), ComputeTarget::Igpu);
    let _: AvailableOps = AvailableOps::default();
}

#[test]
fn bo_sizes_are_page_aligned() {
    let a = Bo::alloc_shmem(3, 1, 4096);
    assert_eq!((a.fd, a.ty, a.size), (3, BO_SHMEM, 4096));
    assert_eq!(Bo::alloc_shmem(3, 4096, 4096).size, 4096);
    assert_eq!(Bo::alloc_shmem(3, 4097, 4096).size, 8192);
    assert_eq!(Bo::alloc_shmem(3, 0, 4096).size, 0);
    assert_eq!(Bo::alloc_shmem_exact(3, 8).size, 8);
    assert_eq!(Bo::alloc_shmem_exact(3, 1).ty, BO_SHMEM);
    assert_eq!(Bo::alloc_dev(3, 2048, 4096).ty, BO_DEV);
    assert_eq!(Bo::alloc_cmd(3, 4096, 4096).ty, BO_CMD);
    assert_eq!(Bo::alloc_dev_heap(3, DEFAULT_HEAP_SIZE, 4096).ty, BO_DEV_HEAP);
    let h = hipx_for(info(1, 58));
    assert_eq!(h.alloc_shmem(100, 4096).size, 4096);
    assert_eq!(h.alloc_dev(5000, 4096).size, 8192);
    assert_eq!(h.alloc_cmd(4096, 4096).ty, BO_CMD);
}

#[test]
fn bo_allocation_protocol() {
    let a = BoAlloc { fd: 3, ty: BO_DEV_HEAP, size: 8192 };
    let req = a.create_request();
    assert_eq!((req.size, req.ty, req.handle, req.flags), (8192, BO_DEV_HEAP, 0, 0));
    let err = a.on_create(-1, 12, &req).err().unwrap();
    assert_eq!(err.code, 12);
    let reply = DrmCreateBo { handle: 77, ..req };
    let info_req = a.on_create(0, 0, &reply).unwrap();
    assert_eq!(info_req.handle, 77);
    let info = DrmGetBoInfo { handle: 77, map_offset: 0x1000, xdna_addr: 0x4000_0000, ..Default::default() };
    let b = a.on_bo_info(77, 0, 0, &info).ok().unwrap();
    assert_eq!((b.fd, b.handle, b.size, b.xdna_addr, b.map_offset), (3, 77, 8192, 0x4000_0000, 0x1000));
    assert!(b.mapping.is_none());
    assert!(b.is_dev_heap);
    let (e, close) = a.on_bo_info(77, -1, 5, &info).err().unwrap();
    assert_eq!(e.code, 5);
    assert_eq!((close.handle, close.pad), (77, 0));
    assert_eq!(close_request(9).handle, 9);
    assert_eq!(close_error(9, 22).code, 22);
}

#[test]
fn host_ptr_and_dev_region() {
    let heap = bo(3, 1, 0x10000, 0x4000_0000, Some((0x7000_0000, 0x10000)));
    assert_eq!(heap.host_ptr(), Some(0x7000_0000));
    let inside = bo(3, 2, 0x1000, 0x4000_2000, None);
    assert_eq!(inside.host_ptr(), None);
    assert_eq!(inside.dev_region_in_heap(&heap).unwrap(), (0x7000_2000, 0x1000));
    let below = bo(3, 2, 0x1000, 0x3fff_f000, None);
    assert_eq!(below.dev_region_in_heap(&heap).unwrap_err().code, 0);
    let past_end = bo(3, 2, 0x1000, 0x4000_f800, None);
    assert_eq!(past_end.dev_region_in_heap(&heap).unwrap_err().code, 0);
    let unmapped = bo(3, 1, 0x10000, 0x4000_0000, None);
    assert_eq!(inside.dev_region_in_heap(&unmapped).unwrap_err().code, 0);
    let h = hipx_for(info(1, 58));
    let dev = bo(3, 9, 0x2000, 0x4000_1000, None);
    assert_eq!(h.dev_region(&dev).unwrap(), (0x7000_1000, 0x2000));
}

#[test]
fn sync_request_and_outcome() {
    let b = bo(3, 4, 4096, 0, None);
    let r = b.sync_request(SYNC_TO_DEVICE);
    assert_eq!((r.handle, r.direction, r.offset, r.size), (4, SYNC_TO_DEVICE, 0, 4096));
    assert!(b.on_sync(SYNC_TO_DEVICE, 0, 0).is_ok());
    assert_eq!(b.on_sync(SYNC_TO_DEVICE, -1, 9).unwrap_err().code, 9);
}

#[test]
fn heap_placement_inside_reservation() {
    let heap = bo(3, 1, 0x400_0000, 0, None);
    let p = heap.heap_placement(0x7f12_3456_7000);
    assert_eq!(p.aligned, 0x7f12_3800_0000);
    assert_eq!(p.aligned % 0x400_0000, 0);
    assert_eq!(p.head, (0x7f12_3456_7000, 0x7f12_3800_0000 - 0x7f12_3456_7000));
    let end = 0x7f12_3456_7000usize + 2 * 0x400_0000;
    assert_eq!(p.tail, (p.aligned + 0x400_0000, end - (p.aligned + 0x400_0000)));
    let exact = heap.heap_placement(0x8000_0000);
    assert_eq!(exact.aligned, 0x8000_0000);
    assert_eq!(exact.head.1, 0);
    assert_eq!(exact.tail, (0x8400_0000, 0x400_0000));
}

#[test]
fn hwctx_creation_protocol() {
    let b = HwctxBuilder::default();
    assert_eq!((b.num_columns, b.max_opc, b.mem_size, b.priority, b.gops, b.fps, b.log_buf_bo), (1, 0, 0, QOS_NORMAL_PRIORITY, 0, 0, 0));
    let mut b = HwctxBuilder::default();
    b.num_columns = 8;
    b.max_opc = 2048;
    let c = Hwctx::create(3, 4, &b);
    assert_eq!(c.req.num_tiles, 32);
    assert_eq!(c.req.max_opc, 2048);
    assert_eq!(c.qos.priority, QOS_NORMAL_PRIORITY);
    let req = c.request(0xdead_0000);
    assert_eq!(req.qos_p, 0xdead_0000);
    assert_eq!(req.num_tiles, 32);
    let reply = DrmCreateHwctx { handle: 5, syncobj_handle: 6, umq_doorbell: 7, ..req };
    let ctx = c.on_reply(0, 0, &reply).ok().unwrap();
    assert_eq!((ctx.fd, ctx.handle, ctx.syncobj_handle, ctx.umq_doorbell), (3, 5, 6, 7));
    assert_eq!(c.on_reply(-1, 16, &reply).err().unwrap().code, 16);
    assert_eq!(ctx.destroy_request().handle, 5);
    let h = hipx_for(info(1, 58));
    assert_eq!(h.create_hwctx(&b).req.num_tiles, 32);
}

#[test]
fn config_cus_checks_and_payload() {
    let ctx = Hwctx { fd: 3, handle: 11, syncobj_handle: 12, umq_doorbell: 0 };
    assert_eq!(config_cus(3, &ctx, vec![], &[]).err().unwrap().0.code, 0);
    let (e, back) = config_cus(3, &ctx, vec![bo(3, 5, 4096, 0, None)], &[0, 1]).err().unwrap();
    assert_eq!(e.code, 0);
    assert_eq!(back.len(), 1);
    assert_eq!(back[0].handle, 5);
    let many: Vec<Bo> = (0..512).map(|i| bo(3, i, 4096, 0, None)).collect();
    let funcs = vec![0u8; 512];
    let (e, back) = config_cus(3, &ctx, many, &funcs).err().unwrap();
    assert_eq!(e.code, 0);
    assert_eq!(back.len(), 512);
    let wrapping: Vec<Bo> = (0..65536).map(|i| bo(3, i, 4096, 0, None)).collect();
    let (e, back) = config_cus(3, &ctx, wrapping, &vec![0u8; 65536]).err().unwrap();
    assert_eq!(e.code, 0);
    assert_eq!(e.message, "config_cus: payload 524296 > 4096 byte limit");
    assert_eq!(back.len(), 65536);
    let most: Vec<Bo> = (0..511).map(|i| bo(3, i, 4096, 0, None)).collect();
    let p = config_cus(3, &ctx, most, &vec![0u8; 511]).ok().unwrap();
    assert_eq!(p.payload.len(), 4096);
    let p = config_cus(3, &ctx, vec![bo(3, 0x0102, 4096, 0, None), bo(3, 0x0304, 4096, 0, None)], &[0, 1])
        .ok()
        .unwrap();
    assert_eq!(p.num_cus, 2);
    assert_eq!(p.hwctx, 11);
    assert_eq!(
        p.payload,
        vec![2, 0, 0, 0, 0, 0, 0, 0, 0x02, 0x01, 0, 0, 0, 0, 0, 0, 0x04, 0x03, 0, 0, 1, 0, 0, 0]
    );
    let req = p.request(0x1000);
    assert_eq!((req.handle, req.param_type, req.param_val, req.param_val_size), (11, HWCTX_CONFIG_CU, 0x1000, 24));
    let failed = config_cus(3, &ctx, vec![bo(3, 9, 4096, 0, None)], &[0]).ok().unwrap();
    let (e, back) = failed.on_reply(-1, 22).err().unwrap();
    assert_eq!(e.code, 22);
    assert_eq!(back[0].handle, 9);
    let binding = p.on_reply(0, 0).ok().unwrap();
    assert_eq!(binding.cu_count, 2);
    assert_eq!(binding.cu_bos.len(), 2);
}

#[test]
fn exec_submission_protocol() {
    let ctx = Hwctx { fd: 3, handle: 11, syncobj_handle: 12, umq_doorbell: 0 };
    let cmd = bo(3, 100, 4096, 0, None);
    let a = bo(3, 101, 4096, 0, None);
    let b = bo(3, 102, 4096, 0, None);
    let s = submit_exec_cmd(3, &ctx, &[&cmd], &[&a, &b]);
    assert_eq!(s.cmd_handles, vec![100]);
    assert_eq!(s.arg_handles, vec![101, 102]);
    let req = s.request(0x10, 0x20);
    assert_eq!((req.hwctx, req.cmd_handles, req.args, req.cmd_count, req.arg_count, req.seq), (11, 0x10, 0x20, 1, 2, 0));
    let reply = DrmExecCmd { seq: 42, ..req };
    assert_eq!(s.on_reply(0, 0, &reply).ok(), Some(42));
    assert_eq!(s.on_reply(-1, 62, &reply).err().unwrap().code, 62);
}

#[test]
fn wait_deadlines_and_requests() {
    assert_eq!(deadline_ns(10, 5, 1_000), 10_000_001_005);
    assert_eq!(deadline_ns(10, 0, u128::MAX), i64::MAX);
    assert_eq!(deadline_ns(9_000_000_000, 0, i64::MAX as u128), i64::MAX);
    assert_eq!(timeline_deadline_ns(1, 0, 0), i64::MAX);
    assert_eq!(timeline_deadline_ns(1, 0, 5_000_000_000), 6_000_000_000);
    assert_eq!(wait_flags(true), 3);
    assert_eq!(wait_flags(false), 2);
    assert!(!wait_needed(0));
    assert!(wait_needed(1));
    let w = wait_many_request(0x100, 2, 77, true);
    assert_eq!((w.handles, w.count_handles, w.timeout_nsec, w.flags), (0x100, 2, 77, 3));
    let t = timeline_wait_request(0x100, 0x200, 88);
    assert_eq!((t.handles, t.points, t.timeout_nsec, t.count_handles, t.flags), (0x100, 0x200, 88, 1, 2));
    assert!(on_timeline_wait(1, 2, 0, 0).is_ok());
    assert_eq!(on_timeline_wait(1, 2, -1, 62).unwrap_err().code, 62);
    assert!(on_wait_many(1, 2, 0, 0).is_ok());
    assert_eq!(on_wait_many(1, 2, -1, 4).unwrap_err().code, 4);
}

#[test]
fn matvec_operands() {
    assert!(matvec_check_lengths(288 * 288, 288, 288, true).is_ok());
    assert!(matvec_check_lengths(288 * 288, 288, 0, false).is_ok());
    assert_eq!(matvec_check_lengths(10, 288, 288, true).unwrap_err().code, 0);
    assert_eq!(matvec_check_lengths(288 * 288, 287, 288, true).unwrap_err().code, 0);
    assert_eq!(matvec_check_lengths(288 * 288, 288, 287, true).unwrap_err().code, 0);
    let mut out = [0xEEu8; 6];
    pack_i16_le(&[1, -2], &mut out);
    assert_eq!(out, [1, 0, 0xFE, 0xFF, 0xEE, 0xEE]);
    let bytes = [1u8, 0, 0, 0, 0xFF, 0xFF, 0xFF, 0xFF, 9];
    let mut c = [0i32; 2];
    unpack_i32_le(&bytes, &mut c);
    assert_eq!(c, [1, -1]);
}

#[test]
fn error_description() {
    let e = XdnaError { code: 13, message: "open failed".to_string() };
    assert_eq!(e.describe(), "hipx error 13: open failed");
}

#[test]
fn prefault_touches_page_starts_only() {
    let mut buf = vec![7u8; 10_000];
    hipx::bo::prefault_pages(&mut buf, 4096);
    for (i, &b) in buf.iter().enumerate() {
        if i % 4096 == 0 {
            assert_eq!(b, 0);
        } else {
            assert_eq!(b, 7);
        }
    }
    let mut small = vec![1u8; 3];
    hipx::bo::prefault_pages(&mut small, 4096);
    assert_eq!(small, vec![0, 1, 1]);
}

#[test]
fn page_size_bound_check() {
    assert!(hipx::bo::page_size_ok(4097, 4096));
    assert!(!hipx::bo::page_size_ok(1, 0));
    assert!(!hipx::bo::page_size_ok(usize::MAX, 4096));
    assert!(hipx::bo::page_size_ok(usize::MAX, 1));
}
