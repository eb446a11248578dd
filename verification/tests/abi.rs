use hipx::ioctl::{
    BO_SHMEM,
    CuConfig,
    DRM_CONFIG_HWCTX_SIZE,
    DRM_CREATE_BO_SIZE,
    DRM_CREATE_HWCTX_SIZE,
    DRM_EXEC_CMD_SIZE,
    DRM_GET_BO_INFO_SIZE,
    DRM_IOCTL_BASE,
    DRM_SYNCOBJ_TIMELINE_WAIT_SIZE,
    DRM_SYNCOBJ_WAIT_SIZE,
    DRM_SYNC_BO_SIZE,
    DrmConfigHwctx,
    DrmCreateBo,
    DrmCreateHwctx,
    DrmDestroyHwctx,
    DrmExecCmd,
    DrmGemClose,
    DrmGetBoInfo,
    DrmGetInfo,
    DrmPrimeHandle,
    DrmSyncBo,
    DrmSyncobjTimelineWait,
    DrmSyncobjWait,
    GET_RESOURCE_INFO_SIZE,
    GetPowerMode,
    GetResourceInfo,
    HWCTX_CONFIG_CU,
    HwctxParamConfigCuHeader,
    IOC_READ,
    IOC_WRITE,
    POWER_MODE_HIGH,
    QOS_INFO_SIZE,
    QOS_NORMAL_PRIORITY,
    QUERY_AIE_METADATA_SIZE,
    QUERY_AIE_VERSION,
    QUERY_CLOCK_METADATA_SIZE,
    QUERY_FIRMWARE_VERSION_SIZE,
    QosInfo,
    QueryAieMetadata,
    QueryAieVersion,
    QueryClockMetadata,
    QueryFirmwareVersion,
    SYNCOBJ_WAIT_FLAGS_WAIT_ALL,
    SYNCOBJ_WAIT_FLAGS_WAIT_FOR_SUBMIT,
    SYNC_FROM_DEVICE,
    drm_ioctl_amdxdna_config_hwctx,
    drm_ioctl_amdxdna_create_bo,
    drm_ioctl_amdxdna_create_hwctx,
    drm_ioctl_amdxdna_destroy_hwctx,
    drm_ioctl_amdxdna_exec_cmd,
    drm_ioctl_amdxdna_get_array,
    drm_ioctl_amdxdna_get_bo_info,
    drm_ioctl_amdxdna_get_info,
    drm_ioctl_amdxdna_set_state,
    drm_ioctl_amdxdna_sync_bo,
    drm_ioctl_gem_close,
    drm_ioctl_prime_fd_to_handle,
    drm_ioctl_prime_handle_to_fd,
    drm_ioctl_syncobj_timeline_wait,
    drm_ioctl_syncobj_wait,
    drm_iow,
    drm_iowr,
    drm_iowr_generic,
    ioc,
};

#[test]
fn amdxdna_request_numbers() {
    assert_eq!(drm_ioctl_amdxdna_get_info(), 0xC010_6447);
    assert_eq!(drm_ioctl_amdxdna_create_bo(), 0xC020_6443);
    assert_eq!(drm_ioctl_amdxdna_get_bo_info(), 0xC030_6444);
    assert_eq!(drm_ioctl_amdxdna_sync_bo(), 0xC018_6445);
    assert_eq!(drm_ioctl_amdxdna_create_hwctx(), 0xC038_6440);
    assert_eq!(drm_ioctl_amdxdna_destroy_hwctx(), 0xC008_6441);
    assert_eq!(drm_ioctl_amdxdna_config_hwctx(), 0xC018_6442);
    assert_eq!(drm_ioctl_amdxdna_exec_cmd(), 0xC038_6446);
    assert_eq!(drm_ioctl_amdxdna_set_state(), 0xC010_6448);
    assert_eq!(drm_ioctl_amdxdna_get_array(), 0xC018_644A);
}

#[test]
fn generic_drm_request_numbers() {
    assert_eq!(drm_ioctl_gem_close(), 0x4008_6409);
    assert_eq!(drm_ioctl_syncobj_wait(), 0xC020_64C3);
    assert_eq!(drm_ioctl_syncobj_timeline_wait(), 0xC028_64CA);
    assert_eq!(drm_ioctl_prime_handle_to_fd(), 0xC00C_642D);
    assert_eq!(drm_ioctl_prime_fd_to_handle(), 0xC00C_642E);
}

#[test]
fn ioc_fields_read_back() {
    let r = ioc(IOC_READ | IOC_WRITE, DRM_IOCTL_BASE, 0x47, 16);
    assert_eq!(r >> 30, 3);
    assert_eq!((r >> 16) & 0x3fff, 16);
    assert_eq!((r >> 8) & 0xff, 0x64);
    assert_eq!(r & 0xff, 0x47);
    assert_eq!(drm_iowr(7, 16), r);
    assert_eq!(drm_iow(9, 8), 0x4008_6409);
    assert_eq!(drm_iowr_generic(0xC3, 32), 0xC020_64C3);
}

#[test]
fn get_info_encoding() {
    let req = DrmGetInfo { param: QUERY_AIE_VERSION, buffer_size: 8, buffer: 0x0102_0304_0506_0708 };
    assert_eq!(
        req.to_bytes(),
        vec![2, 0, 0, 0, 8, 0, 0, 0, 8, 7, 6, 5, 4, 3, 2, 1]
    );
}

#[test]
fn create_bo_round_trip() {
    let req = DrmCreateBo { flags: 0, vaddr: 0, size: 4096, ty: BO_SHMEM, handle: 0x1234 };
    let bytes = req.to_bytes();
    assert_eq!(bytes.len(), DRM_CREATE_BO_SIZE);
    assert_eq!(&bytes[16..24], &4096u64.to_le_bytes());
    let back = DrmCreateBo::from_bytes(&bytes);
    assert_eq!(back.size, 4096);
    assert_eq!(back.ty, BO_SHMEM);
    assert_eq!(back.handle, 0x1234);
}

#[test]
fn get_bo_info_round_trip() {
    let info = DrmGetBoInfo {
        ext: 1,
        ext_flags: 2,
        handle: 3,
        pad: 4,
        map_offset: 0x1_0000_0000,
        vaddr: 6,
        xdna_addr: 0x4000_0000,
    };
    let bytes = info.to_bytes();
    assert_eq!(bytes.len(), DRM_GET_BO_INFO_SIZE);
    let back = DrmGetBoInfo::from_bytes(&bytes);
    assert_eq!(back.handle, 3);
    assert_eq!(back.pad, 4);
    assert_eq!(back.map_offset, 0x1_0000_0000);
    assert_eq!(back.xdna_addr, 0x4000_0000);
    assert_eq!(back.ext, 1);
    assert_eq!(back.vaddr, 6);
}

#[test]
fn create_hwctx_round_trip() {
    let req = DrmCreateHwctx {
        qos_p: 0xAABB,
        num_tiles: 32,
        max_opc: 2048,
        handle: 7,
        syncobj_handle: 9,
        umq_doorbell: 11,
        ..Default::default()
    };
    let bytes = req.to_bytes();
    assert_eq!(bytes.len(), DRM_CREATE_HWCTX_SIZE);
    assert_eq!(&bytes[36..40], &32u32.to_le_bytes());
    let back = DrmCreateHwctx::from_bytes(&bytes);
    assert_eq!(back.qos_p, 0xAABB);
    assert_eq!(back.handle, 7);
    assert_eq!(back.syncobj_handle, 9);
    assert_eq!(back.umq_doorbell, 11);
    assert_eq!(back.max_opc, 2048);
}

#[test]
fn exec_cmd_round_trip() {
    let req = DrmExecCmd { hwctx: 5, cmd_count: 1, arg_count: 3, seq: 0x99, ..Default::default() };
    let bytes = req.to_bytes();
    assert_eq!(bytes.len(), DRM_EXEC_CMD_SIZE);
    let back = DrmExecCmd::from_bytes(&bytes);
    assert_eq!(back.hwctx, 5);
    assert_eq!(back.cmd_count, 1);
    assert_eq!(back.arg_count, 3);
    assert_eq!(back.seq, 0x99);
}

#[test]
fn prime_handle_round_trip_keeps_negative_fd() {
    let req = DrmPrimeHandle { handle: 42, flags: 0x80002, fd: -1 };
    let bytes = req.to_bytes();
    assert_eq!(bytes, vec![42, 0, 0, 0, 2, 0, 8, 0, 0xff, 0xff, 0xff, 0xff]);
    let back = DrmPrimeHandle::from_bytes(&bytes);
    assert_eq!(back.fd, -1);
    assert_eq!(back.handle, 42);
    assert_eq!(back.flags, 0x80002);
}

#[test]
fn syncobj_wait_encoding() {
    let req = DrmSyncobjWait {
        handles: 0x10,
        timeout_nsec: -2,
        count_handles: 1,
        flags: SYNCOBJ_WAIT_FLAGS_WAIT_ALL | SYNCOBJ_WAIT_FLAGS_WAIT_FOR_SUBMIT,
        first_signaled: 0,
        pad: 0,
    };
    let bytes = req.to_bytes();
    assert_eq!(bytes.len(), DRM_SYNCOBJ_WAIT_SIZE);
    assert_eq!(&bytes[8..16], &(-2i64).to_le_bytes());
    assert_eq!(&bytes[20..24], &3u32.to_le_bytes());
}

#[test]
fn timeline_wait_encoding() {
    let req = DrmSyncobjTimelineWait {
        handles: 1,
        points: 2,
        timeout_nsec: i64::MAX,
        count_handles: 1,
        flags: SYNCOBJ_WAIT_FLAGS_WAIT_FOR_SUBMIT,
        first_signaled: 0,
        pad: 0,
    };
    let bytes = req.to_bytes();
    assert_eq!(bytes.len(), DRM_SYNCOBJ_TIMELINE_WAIT_SIZE);
    assert_eq!(&bytes[16..24], &i64::MAX.to_le_bytes());
    assert_eq!(&bytes[28..32], &2u32.to_le_bytes());
}

#[test]
fn small_request_encodings() {
    assert_eq!(DrmGemClose { handle: 7, pad: 0 }.to_bytes(), vec![7, 0, 0, 0, 0, 0, 0, 0]);
    assert_eq!(DrmDestroyHwctx { handle: 1, pad: 0 }.to_bytes(), vec![1, 0, 0, 0, 0, 0, 0, 0]);
    let sync = DrmSyncBo { handle: 3, direction: SYNC_FROM_DEVICE, offset: 0, size: 4096 };
    let b = sync.to_bytes();
    assert_eq!(b.len(), DRM_SYNC_BO_SIZE);
    assert_eq!(&b[4..8], &1u32.to_le_bytes());
    assert_eq!(&b[16..24], &4096u64.to_le_bytes());
    let qos = QosInfo { priority: QOS_NORMAL_PRIORITY, gops: 1, ..Default::default() };
    let q = qos.to_bytes();
    assert_eq!(q.len(), QOS_INFO_SIZE);
    assert_eq!(&q[20..24], &0x200u32.to_le_bytes());
    let cfg = DrmConfigHwctx { handle: 2, param_type: HWCTX_CONFIG_CU, param_val: 0x55, param_val_size: 16, pad: 0 };
    let c = cfg.to_bytes();
    assert_eq!(c.len(), DRM_CONFIG_HWCTX_SIZE);
    assert_eq!(&c[16..20], &16u32.to_le_bytes());
}

#[test]
fn aie_metadata_decoding() {
    let mut b = vec![0u8; QUERY_AIE_METADATA_SIZE];
    b[0..4].copy_from_slice(&0x1000u32.to_le_bytes());
    b[4..6].copy_from_slice(&8u16.to_le_bytes());
    b[6..8].copy_from_slice(&6u16.to_le_bytes());
    b[8..12].copy_from_slice(&1u32.to_le_bytes());
    b[12..16].copy_from_slice(&2u32.to_le_bytes());
    // core tiles: row_count 4, row_start 2
    b[16..18].copy_from_slice(&4u16.to_le_bytes());
    b[18..20].copy_from_slice(&2u16.to_le_bytes());
    b[20..22].copy_from_slice(&6u16.to_le_bytes());
    // mem tiles: row_count 1, row_start 1
    b[32..34].copy_from_slice(&1u16.to_le_bytes());
    b[34..36].copy_from_slice(&1u16.to_le_bytes());
    // shim tiles: row_count 1, row_start 0, pad[2] = 9
    b[48..50].copy_from_slice(&1u16.to_le_bytes());
    b[62..64].copy_from_slice(&9u16.to_le_bytes());
    let m = QueryAieMetadata::from_bytes(&b);
    assert_eq!(m.col_size, 0x1000);
    assert_eq!(m.cols, 8);
    assert_eq!(m.rows, 6);
    assert_eq!((m.version.major, m.version.minor), (1, 2));
    assert_eq!((m.core.row_count, m.core.row_start, m.core.dma_channel_count), (4, 2, 6));
    assert_eq!((m.mem.row_count, m.mem.row_start), (1, 1));
    assert_eq!((m.shim.row_count, m.shim.row_start), (1, 0));
    assert_eq!(m.shim.pad, [0, 0, 9]);
}

#[test]
fn clock_and_other_replies_decoding() {
    let mut b = vec![0u8; QUERY_CLOCK_METADATA_SIZE];
    b[0..6].copy_from_slice(b"MP-NPU");
    b[16..20].copy_from_slice(&1267u32.to_le_bytes());
    b[24..29].copy_from_slice(b"H CLK");
    b[40..44].copy_from_slice(&1800u32.to_le_bytes());
    let c = QueryClockMetadata::from_bytes(&b);
    assert_eq!(&c.mp_npu_clock.name[..6], b"MP-NPU");
    assert_eq!(c.mp_npu_clock.freq_mhz, 1267);
    assert_eq!(&c.h_clock.name[..5], b"H CLK");
    assert_eq!(c.h_clock.freq_mhz, 1800);

    let mut v = vec![0u8; 8];
    v[0..4].copy_from_slice(&1u32.to_le_bytes());
    v[4..8].copy_from_slice(&7u32.to_le_bytes());
    let qv = QueryAieVersion::from_bytes(&v);
    assert_eq!((qv.major, qv.minor), (1, 7));

    let mut f = vec![0u8; QUERY_FIRMWARE_VERSION_SIZE];
    for (i, x) in [1u32, 2, 3, 4].iter().enumerate() {
        f[i * 4..i * 4 + 4].copy_from_slice(&x.to_le_bytes());
    }
    let fv = QueryFirmwareVersion::from_bytes(&f);
    assert_eq!((fv.major, fv.minor, fv.patch, fv.build), (1, 2, 3, 4));

    let mut r = vec![0u8; GET_RESOURCE_INFO_SIZE];
    for (i, x) in [1270u64, 58, 64, 50, 3].iter().enumerate() {
        r[i * 8..i * 8 + 8].copy_from_slice(&x.to_le_bytes());
    }
    let ri = GetResourceInfo::from_bytes(&r);
    assert_eq!(ri.npu_clk_max, 1270);
    assert_eq!(ri.npu_tops_max, 58);
    assert_eq!(ri.npu_task_max, 64);
    assert_eq!(ri.npu_tops_curr, 50);
    assert_eq!(ri.npu_task_curr, 3);

    let p = GetPowerMode::from_bytes(&[3, 0, 0, 0, 0, 0, 0, 5]);
    assert_eq!(p.power_mode, POWER_MODE_HIGH);
    assert_eq!(p.pad[6], 5);
}

#[test]
fn cu_config_entry_encoding() {
    let mut out = Vec::new();
    HwctxParamConfigCuHeader { num_cus: 2, pad: [0; 3] }.push_bytes(&mut out);
    CuConfig { cu_bo: 0x0102_0304, cu_func: 9, pad: [0; 3] }.push_bytes(&mut out);
    assert_eq!(out, vec![2, 0, 0, 0, 0, 0, 0, 0, 4, 3, 2, 1, 9, 0, 0, 0]);
}
