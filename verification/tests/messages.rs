use hipx::bo::{close_error, Bo, BoAlloc};
use hipx::cmd::{config_cus, submit_exec_cmd};
use hipx::fence::{on_timeline_wait, on_wait_many};
use hipx::fmt::{dec_i64, dec_u64, hex_u64};
use hipx::hwctx::Hwctx;
use hipx::ioctl::{DrmCreateBo, DrmCreateHwctx, DrmExecCmd, DrmGetBoInfo, BO_SHMEM};
use hipx::npu::matvec_check_lengths;

fn bo(handle: u32, size: usize, xdna_addr: u64, mapping: Option<(usize, usize)>) -> Bo {
    Bo { fd: 3, handle, size, xdna_addr, map_offset: 0, mapping, is_dev_heap: false }
}

#[test]
fn integer_text() {
    for x in [0u64, 7, 10, 99, 100, 4096, u64::MAX] {
        assert_eq!(dec_u64(x), x.to_string());
        assert_eq!(hex_u64(x), format!("{x:#x}"));
    }
    for x in [0i64, -1, 42, i64::MIN, i64::MAX] {
        assert_eq!(dec_i64(x), x.to_string());
    }
}

#[test]
fn bo_messages() {
    let a = BoAlloc { fd: 3, ty: BO_SHMEM, size: 8192 };
    let e = a.on_create(-1, 12, &DrmCreateBo::default()).err().unwrap();
    assert_eq!(e.message, "CREATE_BO(type=1, 8192) failed");
    let (e, _) = a.on_bo_info(5, -1, 2, &DrmGetBoInfo::default()).err().unwrap();
    assert_eq!(e.message, "GET_BO_INFO(handle=5) failed");
    assert_eq!(close_error(9, 1).message, "GEM_CLOSE(handle=9) failed");
    assert_eq!(bo(4, 10, 0, None).on_sync(1, -1, 5).unwrap_err().message, "SYNC_BO(handle=4, dir=1) failed");
    let heap = bo(1, 0x1000, 0x4000_0000, Some((0x7000_0000, 0x1000)));
    let e = bo(2, 0x2000, 0x4000_0000, None).dev_region_in_heap(&heap).unwrap_err();
    assert_eq!(e.message, "DEV BO xdna_addr=0x40000000+8192 not within heap xdna_addr=0x40000000+4096");
    let e = bo(2, 0x10, 0x4000_0000, None).dev_region_in_heap(&bo(1, 0x1000, 0x4000_0000, None)).unwrap_err();
    assert_eq!(e.message, "DEV_HEAP not mapped");
}

#[test]
fn hwctx_and_cmd_messages() {
    let c = Hwctx::create(3, 4, &hipx::hwctx::HwctxBuilder::default());
    let e = c.on_reply(-1, 22, &DrmCreateHwctx::default()).err().unwrap();
    assert_eq!(e.message, "CREATE_HWCTX(num_tiles=4, max_opc=0, mem_size=0) failed");
    let ctx = Hwctx { fd: 3, handle: 11, syncobj_handle: 12, umq_doorbell: 0 };
    assert_eq!(config_cus(3, &ctx, vec![], &[]).err().unwrap().0.message, "config_cus: empty cu_bos");
    assert_eq!(
        config_cus(3, &ctx, vec![bo(1, 1, 0, None)], &[0, 0]).err().unwrap().0.message,
        "config_cus: cu_funcs len 2 != cu_bos len 1"
    );
    let many: Vec<Bo> = (0..600).map(|i| bo(i, 1, 0, None)).collect();
    assert_eq!(
        config_cus(3, &ctx, many, &vec![0u8; 600]).err().unwrap().0.message,
        "config_cus: payload 4808 > 4096 byte limit"
    );
    let p = config_cus(3, &ctx, vec![bo(1, 1, 0, None)], &[0]).ok().unwrap();
    assert_eq!(p.on_reply(-1, 22).err().unwrap().0.message, "CONFIG_HWCTX(CU, hwctx=11, num_cus=1) failed (errno=22)");
    let cmd = bo(100, 1, 0, None);
    let s = submit_exec_cmd(3, &ctx, &[&cmd], &[]);
    assert_eq!(
        s.on_reply(-1, 16, &DrmExecCmd::default()).err().unwrap().message,
        "EXEC_CMD(hwctx=11, cmds=1, args=0) failed (errno=16)"
    );
}

#[test]
fn wait_and_matvec_messages() {
    assert_eq!(
        on_timeline_wait(7, 3, -1, 62).unwrap_err().message,
        "SYNCOBJ_TIMELINE_WAIT(handle=7, point=3) failed (errno=62)"
    );
    assert_eq!(
        on_wait_many(2, -5, -1, 4).unwrap_err().message,
        "SYNCOBJ_WAIT(handles=2, abs_ns=-5) failed (errno=4)"
    );
    assert_eq!(matvec_check_lengths(1, 288, 288, true).unwrap_err().message, "matvec a.len=1 != 82944");
    assert_eq!(matvec_check_lengths(82944, 2, 288, true).unwrap_err().message, "matvec b.len=2 != 288");
    assert_eq!(matvec_check_lengths(82944, 288, 3, true).unwrap_err().message, "matvec c.len=3 != 288");
}
