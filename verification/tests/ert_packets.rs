use hipx::ert::{
    build_header, header_state, ErtBuilder, ERT_CMD_STATE_COMPLETED, ERT_CMD_STATE_NEW, ERT_CU_TYPE,
    ERT_START_NPU,
};

#[test]
fn header_for_start_npu_with_zero_count() {
    assert_eq!(build_header(ERT_START_NPU, ERT_CU_TYPE, 0), 0x3A00_0001);
}

#[test]
fn header_fields_are_cut_to_width() {
    let h = build_header(0xFF, 0xFF, 0xFFFF);
    assert_eq!(h & 0xF, ERT_CMD_STATE_NEW);
    assert_eq!((h >> 4) & 0xFF, 0);
    assert_eq!((h >> 12) & 0x7FF, 0x7FF);
    assert_eq!((h >> 23) & 0x1F, 0x1F);
    assert_eq!(h >> 28, 0xF);
}

#[test]
fn header_count_field_position() {
    assert_eq!(build_header(0, 0, 5), 1 | (5 << 12));
}

#[test]
fn built_header_state_is_new() {
    for count in [0u32, 1, 14, 2047, 4096] {
        assert_eq!(header_state(build_header(ERT_START_NPU, ERT_CU_TYPE, count)), ERT_CMD_STATE_NEW);
    }
}

#[test]
fn header_state_reads_completed() {
    let h = (build_header(ERT_START_NPU, ERT_CU_TYPE, 3) & !0xF) | ERT_CMD_STATE_COMPLETED;
    assert_eq!(header_state(h), ERT_CMD_STATE_COMPLETED);
}

#[test]
fn new_start_npu_zeroes_and_writes_header() {
    let mut buf = [0xAAu8; 64];
    {
        let b = ErtBuilder::new_start_npu(&mut buf);
        assert_eq!(b.cursor, 1);
        assert!(!b.cu_mask_set);
        assert!(!b.npu_data_set);
        assert_eq!(b.arg_offset, 0);
    }
    assert_eq!(&buf[0..4], &0x3A00_0001u32.to_le_bytes());
    assert!(buf[4..].iter().all(|&x| x == 0));
}

#[test]
fn full_packet_layout() {
    let mut buf = [0u8; 256];
    let total;
    {
        let mut b = ErtBuilder::new_start_npu(&mut buf);
        b.set_cu_mask(0x1).set_npu_data(0x1122_3344_5566_7788, 300);
        assert_eq!(b.cursor, 6);
        assert_eq!(b.arg_offset, 24);
        b.set_arg_u64(0x00, 3).set_arg_u32(0x10, 75);
        total = b.finalize(0x3C);
    }
    assert_eq!(total, 24 + 0x3C);
    let count = ((24 + 0x3C) / 4 - 1) as u32;
    let header = u32::from_le_bytes(buf[0..4].try_into().unwrap());
    assert_eq!(header, build_header(ERT_START_NPU, ERT_CU_TYPE, count));
    assert_eq!((header >> 12) & 0x7FF, 20);
    assert_eq!(u32::from_le_bytes(buf[4..8].try_into().unwrap()), 1);
    assert_eq!(u64::from_le_bytes(buf[8..16].try_into().unwrap()), 0x1122_3344_5566_7788);
    assert_eq!(u32::from_le_bytes(buf[16..20].try_into().unwrap()), 300);
    assert_eq!(u32::from_le_bytes(buf[20..24].try_into().unwrap()), 0);
    assert_eq!(u64::from_le_bytes(buf[24..32].try_into().unwrap()), 3);
    assert_eq!(u32::from_le_bytes(buf[40..44].try_into().unwrap()), 75);
    assert!(buf[44..].iter().all(|&x| x == 0));
}

#[test]
fn cu_mask_moves_cursor_once() {
    let mut buf = [0u8; 32];
    let mut b = ErtBuilder::new_start_npu(&mut buf);
    b.set_cu_mask(0x1);
    b.set_cu_mask(0x3);
    assert_eq!(b.cursor, 2);
    assert!(b.cu_mask_set);
    drop(b);
    assert_eq!(u32::from_le_bytes(buf[4..8].try_into().unwrap()), 3);
}

#[test]
fn args_before_npu_data_start_at_offset_zero() {
    let mut buf = [0u8; 32];
    let mut b = ErtBuilder::new_start_npu(&mut buf);
    b.set_arg_u32(8, 0xDEAD_BEEF);
    drop(b);
    assert_eq!(u32::from_le_bytes(buf[8..12].try_into().unwrap()), 0xDEAD_BEEF);
}

#[test]
fn finalize_of_minimal_packet() {
    let mut buf = [0u8; 16];
    let mut b = ErtBuilder::new_start_npu(&mut buf);
    b.set_cu_mask(2);
    assert_eq!(b.finalize(4), 4);
    drop(b);
    let header = u32::from_le_bytes(buf[0..4].try_into().unwrap());
    assert_eq!((header >> 12) & 0x7FF, 0);
}
