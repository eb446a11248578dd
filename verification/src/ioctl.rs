//! The `amdxdna` ioctl ABI: request numbers and the byte layout of every
//! structure passed to the driver (field order and padding of the C
//! structs in `<drm/amdxdna_accel.h>` and `<drm/drm.h>`, little-endian).

use vstd::prelude::*;
use crate::bytes::{
    le_u16, le_u32, le_u64, from_le_u16, from_le_u32, from_le_u64, push_u16_le, push_u32_le,
    push_u64_le, read_u16_le, read_u32_le, read_u64_le, lemma_u16_roundtrip, lemma_u32_roundtrip,
    lemma_u64_roundtrip,
};

verus! {

// DRM uapi constants
pub const DRM_IOCTL_BASE: u8 = 0x64;

pub const DRM_COMMAND_BASE: u8 = 0x40;

// Ioctl direction bits and field layout of a request number
pub const IOC_NONE: u32 = 0;

pub const IOC_WRITE: u32 = 1;

pub const IOC_READ: u32 = 2;

pub const IOC_NRBITS: u32 = 8;

pub const IOC_TYPEBITS: u32 = 8;

pub const IOC_SIZEBITS: u32 = 14;

pub const IOC_NRSHIFT: u32 = 0;

pub const IOC_TYPESHIFT: u32 = 8;

pub const IOC_SIZESHIFT: u32 = 16;

pub const IOC_DIRSHIFT: u32 = 30;

/// The request number `_IOC(dir, ty, nr, size)`: `nr` in bits 0-7, `ty`
/// in bits 8-15, `size` in bits 16-29 and `dir` in bits 30-31 of a
/// 32-bit word (bits of `dir` or `size` beyond their field spill over
/// or are cut, as in the C macro).
pub open spec fn ioc_spec(dir: u32, ty: u8, nr: u8, size: usize) -> u64 {
    ((dir << 30u32) | ((ty as u32) << 8u32) | (nr as u32) | ((size as u32) << 16u32)) as u64
}

/// Reading the four fields back out of a request number built from
/// in-range fields gives them back.
pub proof fn lemma_ioc_fields(dir: u32, ty: u8, nr: u8, size: usize)
    requires
        dir < 4,
        size < 0x4000,
    ensures
        ioc_spec(dir, ty, nr, size) >> 30u64 == dir as u64,
        (ioc_spec(dir, ty, nr, size) >> 16u64) & 0x3fff == size as u64,
        (ioc_spec(dir, ty, nr, size) >> 8u64) & 0xff == ty as u64,
        ioc_spec(dir, ty, nr, size) & 0xff == nr as u64,
{
    let s = size as u32;
    let t = ty as u32;
    let n = nr as u32;
    let w = (dir << 30u32) | (t << 8u32) | n | (s << 16u32);
    assert({
        &&& w >> 30u32 == dir
        &&& (w >> 16u32) & 0x3fff == s
        &&& (w >> 8u32) & 0xff == t
        &&& w & 0xff == n
    }) by (bit_vector)
        requires
            dir < 4,
            s < 0x4000,
            t < 0x100,
            n < 0x100,
            w == (dir << 30u32) | (t << 8u32) | n | (s << 16u32),
    ;
    let x = w as u64;
    assert({
        &&& x >> 30u64 == (w >> 30u32) as u64
        &&& (x >> 16u64) & 0x3fff == ((w >> 16u32) & 0x3fff) as u64
        &&& (x >> 8u64) & 0xff == ((w >> 8u32) & 0xff) as u64
        &&& x & 0xff == (w & 0xff) as u64
    }) by (bit_vector)
        requires
            x == w as u64,
    ;
}

/// `_IOC(dir, ty, nr, size)`.
pub fn ioc(dir: u32, ty: u8, nr: u8, size: usize) -> (r: libc::c_ulong)
    ensures
        r == ioc_spec(dir, ty, nr, size),
{
    let t = ty as u32;
    let n = nr as u32;
    let s = size as u32;
    let w = (dir << IOC_DIRSHIFT) | (t << IOC_TYPESHIFT) | (n << IOC_NRSHIFT) | (s << IOC_SIZESHIFT);
    assert(w == (dir << 30u32) | (t << 8u32) | n | (s << 16u32)) by (bit_vector)
        requires
            w == (dir << 30u32) | (t << 8u32) | (n << 0u32) | (s << 16u32),
    ;
    w as libc::c_ulong
}

/// `DRM_IOWR(DRM_COMMAND_BASE + nr, size)`: a read-write request of
/// the amdxdna driver.
pub fn drm_iowr(nr: u8, size: usize) -> (r: libc::c_ulong)
    requires
        nr + DRM_COMMAND_BASE <= u8::MAX,
    ensures
        r == ioc_spec(IOC_READ | IOC_WRITE, DRM_IOCTL_BASE, (DRM_COMMAND_BASE + nr) as u8, size),
{
    ioc(IOC_READ | IOC_WRITE, DRM_IOCTL_BASE, DRM_COMMAND_BASE + nr, size)
}

/// `DRM_IOW(nr, size)`: a write-only generic DRM request.
pub fn drm_iow(nr: u8, size: usize) -> (r: libc::c_ulong)
    ensures
        r == ioc_spec(IOC_WRITE, DRM_IOCTL_BASE, nr, size),
{
    ioc(IOC_WRITE, DRM_IOCTL_BASE, nr, size)
}

/// `DRM_IOWR(nr, size)` for generic DRM requests (PRIME, SYNCOBJ), whose
/// numbers lie below DRM_COMMAND_BASE and get no offset.
pub fn drm_iowr_generic(nr: u8, size: usize) -> (r: libc::c_ulong)
    ensures
        r == ioc_spec(IOC_READ | IOC_WRITE, DRM_IOCTL_BASE, nr, size),
{
    ioc(IOC_READ | IOC_WRITE, DRM_IOCTL_BASE, nr, size)
}

// amdxdna ioctl numbers (enum amdxdna_drm_ioctl_id)
pub const NR_CREATE_HWCTX: u8 = 0;

pub const NR_DESTROY_HWCTX: u8 = 1;

pub const NR_CONFIG_HWCTX: u8 = 2;

pub const NR_CREATE_BO: u8 = 3;

pub const NR_GET_BO_INFO: u8 = 4;

pub const NR_SYNC_BO: u8 = 5;

pub const NR_EXEC_CMD: u8 = 6;

pub const NR_GET_INFO: u8 = 7;

pub const NR_SET_STATE: u8 = 8;

pub const NR_GET_ARRAY: u8 = 10;

// GET_INFO parameters (enum amdxdna_drm_get_param)
pub const QUERY_AIE_STATUS: u32 = 0;

pub const QUERY_AIE_METADATA: u32 = 1;

pub const QUERY_AIE_VERSION: u32 = 2;

pub const QUERY_CLOCK_METADATA: u32 = 3;

pub const QUERY_SENSORS: u32 = 4;

pub const QUERY_HW_CONTEXTS: u32 = 5;

pub const QUERY_FIRMWARE_VERSION: u32 = 8;

pub const GET_POWER_MODE: u32 = 9;

pub const QUERY_TELEMETRY: u32 = 10;

pub const GET_FORCE_PREEMPT_STATE: u32 = 11;

pub const QUERY_RESOURCE_INFO: u32 = 12;

pub const GET_FRAME_BOUNDARY_PREEMPT_STATE: u32 = 13;

// Sizes in bytes of the C structures below.
pub const DRM_GET_INFO_SIZE: usize = 16;

pub const QUERY_AIE_VERSION_SIZE: usize = 8;

pub const QUERY_AIE_TILE_METADATA_SIZE: usize = 16;

pub const QUERY_AIE_METADATA_SIZE: usize = 64;

pub const QUERY_CLOCK_SIZE: usize = 24;

pub const QUERY_CLOCK_METADATA_SIZE: usize = 48;

pub const QUERY_FIRMWARE_VERSION_SIZE: usize = 16;

pub const GET_RESOURCE_INFO_SIZE: usize = 40;

pub const GET_POWER_MODE_SIZE: usize = 8;

pub const DRM_CREATE_BO_SIZE: usize = 32;

pub const DRM_GET_BO_INFO_SIZE: usize = 48;

pub const DRM_SYNC_BO_SIZE: usize = 24;

pub const DRM_GEM_CLOSE_SIZE: usize = 8;

pub const QOS_INFO_SIZE: usize = 24;

pub const DRM_CREATE_HWCTX_SIZE: usize = 56;

pub const DRM_DESTROY_HWCTX_SIZE: usize = 8;

pub const DRM_CONFIG_HWCTX_SIZE: usize = 24;

pub const CU_CONFIG_SIZE: usize = 8;

pub const HWCTX_PARAM_CONFIG_CU_HEADER_SIZE: usize = 8;

pub const DRM_EXEC_CMD_SIZE: usize = 56;

pub const DRM_SET_STATE_SIZE: usize = 16;

pub const SET_POWER_MODE_SIZE: usize = 8;

pub const DRM_GET_ARRAY_SIZE: usize = 24;

pub const DRM_SYNCOBJ_WAIT_SIZE: usize = 32;

pub const DRM_SYNCOBJ_TIMELINE_WAIT_SIZE: usize = 40;

pub const DRM_PRIME_HANDLE_SIZE: usize = 12;

/// `u8` values as their own one-byte encodings.
pub open spec fn le_u8s(s: Seq<u8>) -> Seq<u8> {
    s
}

/// The eight bytes of a signed 64-bit value (two's complement).
pub open spec fn le_i64(x: i64) -> Seq<u8> {
    le_u64(x as u64)
}

/// `s[off..off + n]`.
pub open spec fn at(s: Seq<u8>, off: int, n: int) -> Seq<u8> {
    s.subrange(off, off + n)
}

/// struct amdxdna_drm_get_info
#[derive(Default, Debug, Clone, Copy)]
pub struct DrmGetInfo {
    pub param: u32,
    pub buffer_size: u32,
    pub buffer: u64,
}

impl DrmGetInfo {
    pub open spec fn encoding(&self) -> Seq<u8> {
        le_u32(self.param) + le_u32(self.buffer_size) + le_u64(self.buffer)
    }

    /// The structure's bytes, as the driver reads them.
    pub fn to_bytes(&self) -> (r: Vec<u8>)
        ensures
            r@ == self.encoding(),
            r@.len() == DRM_GET_INFO_SIZE,
            r@.subrange(0, 4) == le_u32(self.param),
            r@.subrange(4, 8) == le_u32(self.buffer_size),
            r@.subrange(8, 16) == le_u64(self.buffer),
    {
        let mut v: Vec<u8> = Vec::new();
        push_u32_le(&mut v, self.param);
        push_u32_le(&mut v, self.buffer_size);
        push_u64_le(&mut v, self.buffer);
        assert(v@ =~= self.encoding());
        assert(v@.subrange(0, 4) =~= le_u32(self.param));
        assert(v@.subrange(4, 8) =~= le_u32(self.buffer_size));
        assert(v@.subrange(8, 16) =~= le_u64(self.buffer));
        v
    }
}

/// `DRM_IOCTL_AMDXDNA_GET_INFO`
pub fn drm_ioctl_amdxdna_get_info() -> (r: libc::c_ulong)
    ensures
        r == ioc_spec(IOC_READ | IOC_WRITE, DRM_IOCTL_BASE, 0x47, DRM_GET_INFO_SIZE),
{
    drm_iowr(NR_GET_INFO, DRM_GET_INFO_SIZE)
}

/// struct amdxdna_drm_query_aie_version
#[derive(Default, Debug, Clone, Copy)]
pub struct QueryAieVersion {
    pub major: u32,
    pub minor: u32,
}

impl QueryAieVersion {
    /// The structure stored in `b` (first `QUERY_AIE_VERSION_SIZE` bytes).
    pub open spec fn decode(b: Seq<u8>) -> Self {
        QueryAieVersion { major: from_le_u32(at(b, 0, 4)), minor: from_le_u32(at(b, 4, 4)) }
    }

    pub fn from_bytes(b: &[u8]) -> (r: Self)
        requires
            b@.len() >= QUERY_AIE_VERSION_SIZE,
        ensures
            r == Self::decode(b@),
            r.major == from_le_u32(b@.subrange(0, 4)),
            r.minor == from_le_u32(b@.subrange(4, 8)),
    {
        QueryAieVersion { major: read_u32_le(b, 0), minor: read_u32_le(b, 4) }
    }
}

/// struct amdxdna_drm_query_aie_tile_metadata
#[derive(Default, Debug, Clone, Copy)]
pub struct QueryAieTileMetadata {
    pub row_count: u16,
    pub row_start: u16,
    pub dma_channel_count: u16,
    pub lock_count: u16,
    pub event_reg_count: u16,
    pub pad: [u16; 3],
}

impl QueryAieTileMetadata {
    pub open spec fn decode(b: Seq<u8>) -> Self {
        QueryAieTileMetadata {
            row_count: from_le_u16(at(b, 0, 2)),
            row_start: from_le_u16(at(b, 2, 2)),
            dma_channel_count: from_le_u16(at(b, 4, 2)),
            lock_count: from_le_u16(at(b, 6, 2)),
            event_reg_count: from_le_u16(at(b, 8, 2)),
            pad: [from_le_u16(at(b, 10, 2)), from_le_u16(at(b, 12, 2)), from_le_u16(at(b, 14, 2))],
        }
    }

    /// The structure stored at `b[off..off + QUERY_AIE_TILE_METADATA_SIZE]`.
    pub fn from_bytes_at(b: &[u8], off: usize) -> (r: Self)
        requires
            off + QUERY_AIE_TILE_METADATA_SIZE <= b@.len(),
        ensures
            r == Self::decode(b@.subrange(off as int, b@.len() as int)),
    {
        let _len = b.len();
        let ghost t = b@.subrange(off as int, b@.len() as int);
        let r = QueryAieTileMetadata {
            row_count: read_u16_le(b, off),
            row_start: read_u16_le(b, off + 2),
            dma_channel_count: read_u16_le(b, off + 4),
            lock_count: read_u16_le(b, off + 6),
            event_reg_count: read_u16_le(b, off + 8),
            pad: [read_u16_le(b, off + 10), read_u16_le(b, off + 12), read_u16_le(b, off + 14)],
        };
        assert(at(t, 0, 2) =~= b@.subrange(off as int, off + 2));
        assert(at(t, 2, 2) =~= b@.subrange(off + 2, off + 4));
        assert(at(t, 4, 2) =~= b@.subrange(off + 4, off + 6));
        assert(at(t, 6, 2) =~= b@.subrange(off + 6, off + 8));
        assert(at(t, 8, 2) =~= b@.subrange(off + 8, off + 10));
        assert(at(t, 10, 2) =~= b@.subrange(off + 10, off + 12));
        assert(at(t, 12, 2) =~= b@.subrange(off + 12, off + 14));
        assert(at(t, 14, 2) =~= b@.subrange(off + 14, off + 16));
        r
    }
}

/// struct amdxdna_drm_query_aie_metadata
#[derive(Default, Debug, Clone, Copy)]
pub struct QueryAieMetadata {
    pub col_size: u32,
    pub cols: u16,
    pub rows: u16,
    pub version: QueryAieVersion,
    pub core: QueryAieTileMetadata,
    pub mem: QueryAieTileMetadata,
    pub shim: QueryAieTileMetadata,
}

impl QueryAieMetadata {
    pub open spec fn decode(b: Seq<u8>) -> Self {
        QueryAieMetadata {
            col_size: from_le_u32(at(b, 0, 4)),
            cols: from_le_u16(at(b, 4, 2)),
            rows: from_le_u16(at(b, 6, 2)),
            version: QueryAieVersion::decode(b.subrange(8, b.len() as int)),
            core: QueryAieTileMetadata::decode(b.subrange(16, b.len() as int)),
            mem: QueryAieTileMetadata::decode(b.subrange(32, b.len() as int)),
            shim: QueryAieTileMetadata::decode(b.subrange(48, b.len() as int)),
        }
    }

    pub fn from_bytes(b: &[u8]) -> (r: Self)
        requires
            b@.len() >= QUERY_AIE_METADATA_SIZE,
        ensures
            r == Self::decode(b@),
            r.col_size == from_le_u32(b@.subrange(0, 4)),
            r.cols == from_le_u16(b@.subrange(4, 6)),
            r.rows == from_le_u16(b@.subrange(6, 8)),
            r.version.major == from_le_u32(b@.subrange(8, 12)),
            r.version.minor == from_le_u32(b@.subrange(12, 16)),
            r.core.row_count == from_le_u16(b@.subrange(16, 18)),
            r.core.row_start == from_le_u16(b@.subrange(18, 20)),
            r.mem.row_count == from_le_u16(b@.subrange(32, 34)),
            r.mem.row_start == from_le_u16(b@.subrange(34, 36)),
            r.shim.row_count == from_le_u16(b@.subrange(48, 50)),
            r.shim.row_start == from_le_u16(b@.subrange(50, 52)),
    {
        let ghost v = b@.subrange(8, b@.len() as int);
        let major = read_u32_le(b, 8);
        let minor = read_u32_le(b, 12);
        assert(at(v, 0, 4) =~= b@.subrange(8, 12));
        assert(at(v, 4, 4) =~= b@.subrange(12, 16));
        let core = QueryAieTileMetadata::from_bytes_at(b, 16);
        let mem = QueryAieTileMetadata::from_bytes_at(b, 32);
        let shim = QueryAieTileMetadata::from_bytes_at(b, 48);
        QueryAieMetadata {
            col_size: read_u32_le(b, 0),
            cols: read_u16_le(b, 4),
            rows: read_u16_le(b, 6),
            version: QueryAieVersion { major, minor },
            core,
            mem,
            shim,
        }
    }
}

/// struct amdxdna_drm_query_clock
#[derive(Default, Debug, Clone, Copy)]
pub struct QueryClock {
    pub name: [u8; 16],
    pub freq_mhz: u32,
    pub pad: u32,
}

impl QueryClock {
    pub open spec fn decode(b: Seq<u8>) -> Self {
        QueryClock {
            name: [
                b[0],
                b[1],
                b[2],
                b[3],
                b[4],
                b[5],
                b[6],
                b[7],
                b[8],
                b[9],
                b[10],
                b[11],
                b[12],
                b[13],
                b[14],
                b[15],
            ],
            freq_mhz: from_le_u32(at(b, 16, 4)),
            pad: from_le_u32(at(b, 20, 4)),
        }
    }

    /// The structure stored at `b[off..off + QUERY_CLOCK_SIZE]`.
    pub fn from_bytes_at(b: &[u8], off: usize) -> (r: Self)
        requires
            off + QUERY_CLOCK_SIZE <= b@.len(),
        ensures
            r == Self::decode(b@.subrange(off as int, b@.len() as int)),
    {
        let _len = b.len();
        let ghost t = b@.subrange(off as int, b@.len() as int);
        let name = [
            b[off],
            b[off + 1],
            b[off + 2],
            b[off + 3],
            b[off + 4],
            b[off + 5],
            b[off + 6],
            b[off + 7],
            b[off + 8],
            b[off + 9],
            b[off + 10],
            b[off + 11],
            b[off + 12],
            b[off + 13],
            b[off + 14],
            b[off + 15],
        ];
        let freq_mhz = read_u32_le(b, off + 16);
        let pad = read_u32_le(b, off + 20);
        assert(at(t, 16, 4) =~= b@.subrange(off + 16, off + 20));
        assert(at(t, 20, 4) =~= b@.subrange(off + 20, off + 24));
        QueryClock { name, freq_mhz, pad }
    }
}

/// struct amdxdna_drm_query_clock_metadata
#[derive(Default, Debug, Clone, Copy)]
pub struct QueryClockMetadata {
    pub mp_npu_clock: QueryClock,
    pub h_clock: QueryClock,
}

impl QueryClockMetadata {
    pub open spec fn decode(b: Seq<u8>) -> Self {
        QueryClockMetadata {
            mp_npu_clock: QueryClock::decode(b),
            h_clock: QueryClock::decode(b.subrange(24, b.len() as int)),
        }
    }

    pub fn from_bytes(b: &[u8]) -> (r: Self)
        requires
            b@.len() >= QUERY_CLOCK_METADATA_SIZE,
        ensures
            r == Self::decode(b@),
            r.mp_npu_clock.freq_mhz == from_le_u32(b@.subrange(16, 20)),
            r.h_clock.freq_mhz == from_le_u32(b@.subrange(40, 44)),
            forall|i: int| 0 <= i < 16 ==> r.mp_npu_clock.name@[i] == b@[i],
            forall|i: int| 0 <= i < 16 ==> r.h_clock.name@[i] == b@[24 + i],
    {
        let mp_npu_clock = QueryClock::from_bytes_at(b, 0);
        let h_clock = QueryClock::from_bytes_at(b, 24);
        assert(b@.subrange(0, b@.len() as int) =~= b@);
        QueryClockMetadata { mp_npu_clock, h_clock }
    }
}

/// struct amdxdna_drm_query_firmware_version
#[derive(Default, Debug, Clone, Copy)]
pub struct QueryFirmwareVersion {
    pub major: u32,
    pub minor: u32,
    pub patch: u32,
    pub build: u32,
}

impl QueryFirmwareVersion {
    pub open spec fn decode(b: Seq<u8>) -> Self {
        QueryFirmwareVersion {
            major: from_le_u32(at(b, 0, 4)),
            minor: from_le_u32(at(b, 4, 4)),
            patch: from_le_u32(at(b, 8, 4)),
            build: from_le_u32(at(b, 12, 4)),
        }
    }

    pub fn from_bytes(b: &[u8]) -> (r: Self)
        requires
            b@.len() >= QUERY_FIRMWARE_VERSION_SIZE,
        ensures
            r == Self::decode(b@),
            r.major == from_le_u32(b@.subrange(0, 4)),
            r.minor == from_le_u32(b@.subrange(4, 8)),
            r.patch == from_le_u32(b@.subrange(8, 12)),
            r.build == from_le_u32(b@.subrange(12, 16)),
    {
        QueryFirmwareVersion {
            major: read_u32_le(b, 0),
            minor: read_u32_le(b, 4),
            patch: read_u32_le(b, 8),
            build: read_u32_le(b, 12),
        }
    }
}

/// struct amdxdna_drm_get_resource_info
#[derive(Default, Debug, Clone, Copy)]
pub struct GetResourceInfo {
    pub npu_clk_max: u64,
    pub npu_tops_max: u64,
    pub npu_task_max: u64,
    pub npu_tops_curr: u64,
    pub npu_task_curr: u64,
}

impl GetResourceInfo {
    pub open spec fn decode(b: Seq<u8>) -> Self {
        GetResourceInfo {
            npu_clk_max: from_le_u64(at(b, 0, 8)),
            npu_tops_max: from_le_u64(at(b, 8, 8)),
            npu_task_max: from_le_u64(at(b, 16, 8)),
            npu_tops_curr: from_le_u64(at(b, 24, 8)),
            npu_task_curr: from_le_u64(at(b, 32, 8)),
        }
    }

    pub fn from_bytes(b: &[u8]) -> (r: Self)
        requires
            b@.len() >= GET_RESOURCE_INFO_SIZE,
        ensures
            r == Self::decode(b@),
            r.npu_clk_max == from_le_u64(b@.subrange(0, 8)),
            r.npu_tops_max == from_le_u64(b@.subrange(8, 16)),
            r.npu_task_max == from_le_u64(b@.subrange(16, 24)),
            r.npu_tops_curr == from_le_u64(b@.subrange(24, 32)),
            r.npu_task_curr == from_le_u64(b@.subrange(32, 40)),
    {
        GetResourceInfo {
            npu_clk_max: read_u64_le(b, 0),
            npu_tops_max: read_u64_le(b, 8),
            npu_task_max: read_u64_le(b, 16),
            npu_tops_curr: read_u64_le(b, 24),
            npu_task_curr: read_u64_le(b, 32),
        }
    }
}

/// struct amdxdna_drm_get_power_mode
#[derive(Default, Debug, Clone, Copy)]
pub struct GetPowerMode {
    pub power_mode: u8,
    pub pad: [u8; 7],
}

impl GetPowerMode {
    pub open spec fn decode(b: Seq<u8>) -> Self {
        GetPowerMode { power_mode: b[0], pad: [b[1], b[2], b[3], b[4], b[5], b[6], b[7]] }
    }

    pub fn from_bytes(b: &[u8]) -> (r: Self)
        requires
            b@.len() >= GET_POWER_MODE_SIZE,
        ensures
            r == Self::decode(b@),
            r.power_mode == b@[0],
    {
        GetPowerMode { power_mode: b[0], pad: [b[1], b[2], b[3], b[4], b[5], b[6], b[7]] }
    }
}

// amdxdna_bo_type
pub const BO_INVALID: u32 = 0;

pub const BO_SHMEM: u32 = 1;

pub const BO_DEV_HEAP: u32 = 2;

pub const BO_DEV: u32 = 3;

pub const BO_CMD: u32 = 4;

/// struct amdxdna_drm_create_bo
#[derive(Default, Debug, Clone, Copy)]
pub struct DrmCreateBo {
    pub flags: u64,
    pub vaddr: u64,
    pub size: u64,
    pub ty: u32,
    pub handle: u32,
}

impl DrmCreateBo {
    pub open spec fn encoding(&self) -> Seq<u8> {
        le_u64(self.flags) + le_u64(self.vaddr) + le_u64(self.size) + le_u32(self.ty) + le_u32(
            self.handle,
        )
    }

    pub open spec fn decode(b: Seq<u8>) -> Self {
        DrmCreateBo {
            flags: from_le_u64(at(b, 0, 8)),
            vaddr: from_le_u64(at(b, 8, 8)),
            size: from_le_u64(at(b, 16, 8)),
            ty: from_le_u32(at(b, 24, 4)),
            handle: from_le_u32(at(b, 28, 4)),
        }
    }

    pub fn to_bytes(&self) -> (r: Vec<u8>)
        ensures
            r@ == self.encoding(),
            r@.len() == DRM_CREATE_BO_SIZE,
            r@.subrange(0, 8) == le_u64(self.flags),
            r@.subrange(8, 16) == le_u64(self.vaddr),
            r@.subrange(16, 24) == le_u64(self.size),
            r@.subrange(24, 28) == le_u32(self.ty),
            r@.subrange(28, 32) == le_u32(self.handle),
    {
        let mut v: Vec<u8> = Vec::new();
        push_u64_le(&mut v, self.flags);
        push_u64_le(&mut v, self.vaddr);
        push_u64_le(&mut v, self.size);
        push_u32_le(&mut v, self.ty);
        push_u32_le(&mut v, self.handle);
        assert(v@ =~= self.encoding());
        assert(v@.subrange(0, 8) =~= le_u64(self.flags));
        assert(v@.subrange(8, 16) =~= le_u64(self.vaddr));
        assert(v@.subrange(16, 24) =~= le_u64(self.size));
        assert(v@.subrange(24, 28) =~= le_u32(self.ty));
        assert(v@.subrange(28, 32) =~= le_u32(self.handle));
        v
    }

    pub fn from_bytes(b: &[u8]) -> (r: Self)
        requires
            b@.len() >= DRM_CREATE_BO_SIZE,
        ensures
            r == Self::decode(b@),
            r.flags == from_le_u64(b@.subrange(0, 8)),
            r.vaddr == from_le_u64(b@.subrange(8, 16)),
            r.size == from_le_u64(b@.subrange(16, 24)),
            r.ty == from_le_u32(b@.subrange(24, 28)),
            r.handle == from_le_u32(b@.subrange(28, 32)),
    {
        DrmCreateBo {
            flags: read_u64_le(b, 0),
            vaddr: read_u64_le(b, 8),
            size: read_u64_le(b, 16),
            ty: read_u32_le(b, 24),
            handle: read_u32_le(b, 28),
        }
    }

    /// Decoding the encoding gives the structure back.
    pub proof fn lemma_roundtrip(self)
        ensures
            Self::decode(self.encoding()) == self,
    {
        let e = self.encoding();
        assert(at(e, 0, 8) =~= le_u64(self.flags));
        assert(at(e, 8, 8) =~= le_u64(self.vaddr));
        assert(at(e, 16, 8) =~= le_u64(self.size));
        assert(at(e, 24, 4) =~= le_u32(self.ty));
        assert(at(e, 28, 4) =~= le_u32(self.handle));
        lemma_u64_roundtrip(self.flags);
        lemma_u64_roundtrip(self.vaddr);
        lemma_u64_roundtrip(self.size);
        lemma_u32_roundtrip(self.ty);
        lemma_u32_roundtrip(self.handle);
    }
}

/// struct amdxdna_drm_get_bo_info
#[derive(Default, Debug, Clone, Copy)]
pub struct DrmGetBoInfo {
    pub ext: u64,
    pub ext_flags: u64,
    pub handle: u32,
    pub pad: u32,
    pub map_offset: u64,
    pub vaddr: u64,
    pub xdna_addr: u64,
}

impl DrmGetBoInfo {
    pub open spec fn encoding(&self) -> Seq<u8> {
        le_u64(self.ext) + le_u64(self.ext_flags) + le_u32(self.handle) + le_u32(self.pad) + le_u64(
            self.map_offset,
        ) + le_u64(self.vaddr) + le_u64(self.xdna_addr)
    }

    pub open spec fn decode(b: Seq<u8>) -> Self {
        DrmGetBoInfo {
            ext: from_le_u64(at(b, 0, 8)),
            ext_flags: from_le_u64(at(b, 8, 8)),
            handle: from_le_u32(at(b, 16, 4)),
            pad: from_le_u32(at(b, 20, 4)),
            map_offset: from_le_u64(at(b, 24, 8)),
            vaddr: from_le_u64(at(b, 32, 8)),
            xdna_addr: from_le_u64(at(b, 40, 8)),
        }
    }

    pub fn to_bytes(&self) -> (r: Vec<u8>)
        ensures
            r@ == self.encoding(),
            r@.len() == DRM_GET_BO_INFO_SIZE,
            r@.subrange(0, 8) == le_u64(self.ext),
            r@.subrange(8, 16) == le_u64(self.ext_flags),
            r@.subrange(16, 20) == le_u32(self.handle),
            r@.subrange(20, 24) == le_u32(self.pad),
            r@.subrange(24, 32) == le_u64(self.map_offset),
            r@.subrange(32, 40) == le_u64(self.vaddr),
            r@.subrange(40, 48) == le_u64(self.xdna_addr),
    {
        let mut v: Vec<u8> = Vec::new();
        push_u64_le(&mut v, self.ext);
        push_u64_le(&mut v, self.ext_flags);
        push_u32_le(&mut v, self.handle);
        push_u32_le(&mut v, self.pad);
        push_u64_le(&mut v, self.map_offset);
        push_u64_le(&mut v, self.vaddr);
        push_u64_le(&mut v, self.xdna_addr);
        assert(v@ =~= self.encoding());
        assert(v@.subrange(0, 8) =~= le_u64(self.ext));
        assert(v@.subrange(8, 16) =~= le_u64(self.ext_flags));
        assert(v@.subrange(16, 20) =~= le_u32(self.handle));
        assert(v@.subrange(20, 24) =~= le_u32(self.pad));
        assert(v@.subrange(24, 32) =~= le_u64(self.map_offset));
        assert(v@.subrange(32, 40) =~= le_u64(self.vaddr));
        assert(v@.subrange(40, 48) =~= le_u64(self.xdna_addr));
        v
    }

    pub fn from_bytes(b: &[u8]) -> (r: Self)
        requires
            b@.len() >= DRM_GET_BO_INFO_SIZE,
        ensures
            r == Self::decode(b@),
            r.ext == from_le_u64(b@.subrange(0, 8)),
            r.ext_flags == from_le_u64(b@.subrange(8, 16)),
            r.handle == from_le_u32(b@.subrange(16, 20)),
            r.pad == from_le_u32(b@.subrange(20, 24)),
            r.map_offset == from_le_u64(b@.subrange(24, 32)),
            r.vaddr == from_le_u64(b@.subrange(32, 40)),
            r.xdna_addr == from_le_u64(b@.subrange(40, 48)),
    {
        DrmGetBoInfo {
            ext: read_u64_le(b, 0),
            ext_flags: read_u64_le(b, 8),
            handle: read_u32_le(b, 16),
            pad: read_u32_le(b, 20),
            map_offset: read_u64_le(b, 24),
            vaddr: read_u64_le(b, 32),
            xdna_addr: read_u64_le(b, 40),
        }
    }

    /// Decoding the encoding gives the structure back.
    pub proof fn lemma_roundtrip(self)
        ensures
            Self::decode(self.encoding()) == self,
    {
        let e = self.encoding();
        assert(at(e, 0, 8) =~= le_u64(self.ext));
        assert(at(e, 8, 8) =~= le_u64(self.ext_flags));
        assert(at(e, 16, 4) =~= le_u32(self.handle));
        assert(at(e, 20, 4) =~= le_u32(self.pad));
        assert(at(e, 24, 8) =~= le_u64(self.map_offset));
        assert(at(e, 32, 8) =~= le_u64(self.vaddr));
        assert(at(e, 40, 8) =~= le_u64(self.xdna_addr));
        lemma_u64_roundtrip(self.ext);
        lemma_u64_roundtrip(self.ext_flags);
        lemma_u32_roundtrip(self.handle);
        lemma_u32_roundtrip(self.pad);
        lemma_u64_roundtrip(self.map_offset);
        lemma_u64_roundtrip(self.vaddr);
        lemma_u64_roundtrip(self.xdna_addr);
    }
}

pub const SYNC_TO_DEVICE: u32 = 0;

pub const SYNC_FROM_DEVICE: u32 = 1;

/// struct amdxdna_drm_sync_bo
#[derive(Default, Debug, Clone, Copy)]
pub struct DrmSyncBo {
    pub handle: u32,
    pub direction: u32,
    pub offset: u64,
    pub size: u64,
}

impl DrmSyncBo {
    pub open spec fn encoding(&self) -> Seq<u8> {
        le_u32(self.handle) + le_u32(self.direction) + le_u64(self.offset) + le_u64(self.size)
    }

    pub fn to_bytes(&self) -> (r: Vec<u8>)
        ensures
            r@ == self.encoding(),
            r@.len() == DRM_SYNC_BO_SIZE,
            r@.subrange(0, 4) == le_u32(self.handle),
            r@.subrange(4, 8) == le_u32(self.direction),
            r@.subrange(8, 16) == le_u64(self.offset),
            r@.subrange(16, 24) == le_u64(self.size),
    {
        let mut v: Vec<u8> = Vec::new();
        push_u32_le(&mut v, self.handle);
        push_u32_le(&mut v, self.direction);
        push_u64_le(&mut v, self.offset);
        push_u64_le(&mut v, self.size);
        assert(v@ =~= self.encoding());
        assert(v@.subrange(0, 4) =~= le_u32(self.handle));
        assert(v@.subrange(4, 8) =~= le_u32(self.direction));
        assert(v@.subrange(8, 16) =~= le_u64(self.offset));
        assert(v@.subrange(16, 24) =~= le_u64(self.size));
        v
    }
}

/// Generic DRM GEM_CLOSE request number, used to release any BO handle.
pub const DRM_IOCTL_GEM_CLOSE_NR: u8 = 0x09;

/// struct drm_gem_close
#[derive(Default, Debug, Clone, Copy)]
pub struct DrmGemClose {
    pub handle: u32,
    pub pad: u32,
}

impl DrmGemClose {
    pub open spec fn encoding(&self) -> Seq<u8> {
        le_u32(self.handle) + le_u32(self.pad)
    }

    pub fn to_bytes(&self) -> (r: Vec<u8>)
        ensures
            r@ == self.encoding(),
            r@.len() == DRM_GEM_CLOSE_SIZE,
            r@.subrange(0, 4) == le_u32(self.handle),
            r@.subrange(4, 8) == le_u32(self.pad),
    {
        let mut v: Vec<u8> = Vec::new();
        push_u32_le(&mut v, self.handle);
        push_u32_le(&mut v, self.pad);
        assert(v@ =~= self.encoding());
        assert(v@.subrange(0, 4) =~= le_u32(self.handle));
        assert(v@.subrange(4, 8) =~= le_u32(self.pad));
        v
    }
}

/// `DRM_IOCTL_AMDXDNA_CREATE_BO`
pub fn drm_ioctl_amdxdna_create_bo() -> (r: libc::c_ulong)
    ensures
        r == ioc_spec(IOC_READ | IOC_WRITE, DRM_IOCTL_BASE, 0x43, DRM_CREATE_BO_SIZE),
{
    drm_iowr(NR_CREATE_BO, DRM_CREATE_BO_SIZE)
}

/// `DRM_IOCTL_AMDXDNA_GET_BO_INFO`
pub fn drm_ioctl_amdxdna_get_bo_info() -> (r: libc::c_ulong)
    ensures
        r == ioc_spec(IOC_READ | IOC_WRITE, DRM_IOCTL_BASE, 0x44, DRM_GET_BO_INFO_SIZE),
{
    drm_iowr(NR_GET_BO_INFO, DRM_GET_BO_INFO_SIZE)
}

/// `DRM_IOCTL_AMDXDNA_SYNC_BO`
pub fn drm_ioctl_amdxdna_sync_bo() -> (r: libc::c_ulong)
    ensures
        r == ioc_spec(IOC_READ | IOC_WRITE, DRM_IOCTL_BASE, 0x45, DRM_SYNC_BO_SIZE),
{
    drm_iowr(NR_SYNC_BO, DRM_SYNC_BO_SIZE)
}

/// `DRM_IOCTL_GEM_CLOSE`
pub fn drm_ioctl_gem_close() -> (r: libc::c_ulong)
    ensures
        r == ioc_spec(IOC_WRITE, DRM_IOCTL_BASE, DRM_IOCTL_GEM_CLOSE_NR, DRM_GEM_CLOSE_SIZE),
{
    drm_iow(DRM_IOCTL_GEM_CLOSE_NR, DRM_GEM_CLOSE_SIZE)
}

// QoS priority levels
pub const QOS_REALTIME_PRIORITY: u32 = 0x100;

pub const QOS_HIGH_PRIORITY: u32 = 0x180;

pub const QOS_NORMAL_PRIORITY: u32 = 0x200;

pub const QOS_LOW_PRIORITY: u32 = 0x280;

pub const INVALID_BO_HANDLE: u32 = 0;

pub const INVALID_CTX_HANDLE: u32 = 0;

/// struct amdxdna_qos_info
#[derive(Default, Debug, Clone, Copy)]
pub struct QosInfo {
    pub gops: u32,
    pub fps: u32,
    pub dma_bandwidth: u32,
    pub latency: u32,
    pub frame_exec_time: u32,
    pub priority: u32,
}

impl QosInfo {
    pub open spec fn encoding(&self) -> Seq<u8> {
        le_u32(self.gops) + le_u32(self.fps) + le_u32(self.dma_bandwidth) + le_u32(self.latency)
            + le_u32(self.frame_exec_time) + le_u32(self.priority)
    }

    pub fn to_bytes(&self) -> (r: Vec<u8>)
        ensures
            r@ == self.encoding(),
            r@.len() == QOS_INFO_SIZE,
            r@.subrange(0, 4) == le_u32(self.gops),
            r@.subrange(4, 8) == le_u32(self.fps),
            r@.subrange(8, 12) == le_u32(self.dma_bandwidth),
            r@.subrange(12, 16) == le_u32(self.latency),
            r@.subrange(16, 20) == le_u32(self.frame_exec_time),
            r@.subrange(20, 24) == le_u32(self.priority),
    {
        let mut v: Vec<u8> = Vec::new();
        push_u32_le(&mut v, self.gops);
        push_u32_le(&mut v, self.fps);
        push_u32_le(&mut v, self.dma_bandwidth);
        push_u32_le(&mut v, self.latency);
        push_u32_le(&mut v, self.frame_exec_time);
        push_u32_le(&mut v, self.priority);
        assert(v@ =~= self.encoding());
        assert(v@.subrange(0, 4) =~= le_u32(self.gops));
        assert(v@.subrange(4, 8) =~= le_u32(self.fps));
        assert(v@.subrange(8, 12) =~= le_u32(self.dma_bandwidth));
        assert(v@.subrange(12, 16) =~= le_u32(self.latency));
        assert(v@.subrange(16, 20) =~= le_u32(self.frame_exec_time));
        assert(v@.subrange(20, 24) =~= le_u32(self.priority));
        v
    }
}

/// struct amdxdna_drm_create_hwctx
#[derive(Default, Debug, Clone, Copy)]
pub struct DrmCreateHwctx {
    pub ext: u64,
    pub ext_flags: u64,
    pub qos_p: u64,
    pub umq_bo: u32,
    pub log_buf_bo: u32,
    pub max_opc: u32,
    pub num_tiles: u32,
    pub mem_size: u32,
    pub umq_doorbell: u32,
    pub handle: u32,
    pub syncobj_handle: u32,
}

impl DrmCreateHwctx {
    pub open spec fn encoding(&self) -> Seq<u8> {
        le_u64(self.ext) + le_u64(self.ext_flags) + le_u64(self.qos_p) + le_u32(self.umq_bo)
            + le_u32(self.log_buf_bo) + le_u32(self.max_opc) + le_u32(self.num_tiles) + le_u32(
            self.mem_size,
        ) + le_u32(self.umq_doorbell) + le_u32(self.handle) + le_u32(self.syncobj_handle)
    }

    pub open spec fn decode(b: Seq<u8>) -> Self {
        DrmCreateHwctx {
            ext: from_le_u64(at(b, 0, 8)),
            ext_flags: from_le_u64(at(b, 8, 8)),
            qos_p: from_le_u64(at(b, 16, 8)),
            umq_bo: from_le_u32(at(b, 24, 4)),
            log_buf_bo: from_le_u32(at(b, 28, 4)),
            max_opc: from_le_u32(at(b, 32, 4)),
            num_tiles: from_le_u32(at(b, 36, 4)),
            mem_size: from_le_u32(at(b, 40, 4)),
            umq_doorbell: from_le_u32(at(b, 44, 4)),
            handle: from_le_u32(at(b, 48, 4)),
            syncobj_handle: from_le_u32(at(b, 52, 4)),
        }
    }

    pub fn to_bytes(&self) -> (r: Vec<u8>)
        ensures
            r@ == self.encoding(),
            r@.len() == DRM_CREATE_HWCTX_SIZE,
            r@.subrange(0, 8) == le_u64(self.ext),
            r@.subrange(8, 16) == le_u64(self.ext_flags),
            r@.subrange(16, 24) == le_u64(self.qos_p),
            r@.subrange(24, 28) == le_u32(self.umq_bo),
            r@.subrange(28, 32) == le_u32(self.log_buf_bo),
            r@.subrange(32, 36) == le_u32(self.max_opc),
            r@.subrange(36, 40) == le_u32(self.num_tiles),
            r@.subrange(40, 44) == le_u32(self.mem_size),
            r@.subrange(44, 48) == le_u32(self.umq_doorbell),
            r@.subrange(48, 52) == le_u32(self.handle),
            r@.subrange(52, 56) == le_u32(self.syncobj_handle),
    {
        let mut v: Vec<u8> = Vec::new();
        push_u64_le(&mut v, self.ext);
        push_u64_le(&mut v, self.ext_flags);
        push_u64_le(&mut v, self.qos_p);
        push_u32_le(&mut v, self.umq_bo);
        push_u32_le(&mut v, self.log_buf_bo);
        push_u32_le(&mut v, self.max_opc);
        push_u32_le(&mut v, self.num_tiles);
        push_u32_le(&mut v, self.mem_size);
        push_u32_le(&mut v, self.umq_doorbell);
        push_u32_le(&mut v, self.handle);
        push_u32_le(&mut v, self.syncobj_handle);
        assert(v@ =~= self.encoding());
        assert(v@.subrange(0, 8) =~= le_u64(self.ext));
        assert(v@.subrange(8, 16) =~= le_u64(self.ext_flags));
        assert(v@.subrange(16, 24) =~= le_u64(self.qos_p));
        assert(v@.subrange(24, 28) =~= le_u32(self.umq_bo));
        assert(v@.subrange(28, 32) =~= le_u32(self.log_buf_bo));
        assert(v@.subrange(32, 36) =~= le_u32(self.max_opc));
        assert(v@.subrange(36, 40) =~= le_u32(self.num_tiles));
        assert(v@.subrange(40, 44) =~= le_u32(self.mem_size));
        assert(v@.subrange(44, 48) =~= le_u32(self.umq_doorbell));
        assert(v@.subrange(48, 52) =~= le_u32(self.handle));
        assert(v@.subrange(52, 56) =~= le_u32(self.syncobj_handle));
        v
    }

    pub fn from_bytes(b: &[u8]) -> (r: Self)
        requires
            b@.len() >= DRM_CREATE_HWCTX_SIZE,
        ensures
            r == Self::decode(b@),
            r.ext == from_le_u64(b@.subrange(0, 8)),
            r.ext_flags == from_le_u64(b@.subrange(8, 16)),
            r.qos_p == from_le_u64(b@.subrange(16, 24)),
            r.umq_bo == from_le_u32(b@.subrange(24, 28)),
            r.log_buf_bo == from_le_u32(b@.subrange(28, 32)),
            r.max_opc == from_le_u32(b@.subrange(32, 36)),
            r.num_tiles == from_le_u32(b@.subrange(36, 40)),
            r.mem_size == from_le_u32(b@.subrange(40, 44)),
            r.umq_doorbell == from_le_u32(b@.subrange(44, 48)),
            r.handle == from_le_u32(b@.subrange(48, 52)),
            r.syncobj_handle == from_le_u32(b@.subrange(52, 56)),
    {
        DrmCreateHwctx {
            ext: read_u64_le(b, 0),
            ext_flags: read_u64_le(b, 8),
            qos_p: read_u64_le(b, 16),
            umq_bo: read_u32_le(b, 24),
            log_buf_bo: read_u32_le(b, 28),
            max_opc: read_u32_le(b, 32),
            num_tiles: read_u32_le(b, 36),
            mem_size: read_u32_le(b, 40),
            umq_doorbell: read_u32_le(b, 44),
            handle: read_u32_le(b, 48),
            syncobj_handle: read_u32_le(b, 52),
        }
    }

    /// Decoding the encoding gives the structure back.
    pub proof fn lemma_roundtrip(self)
        ensures
            Self::decode(self.encoding()) == self,
    {
        let e = self.encoding();
        assert(at(e, 0, 8) =~= le_u64(self.ext));
        assert(at(e, 8, 8) =~= le_u64(self.ext_flags));
        assert(at(e, 16, 8) =~= le_u64(self.qos_p));
        assert(at(e, 24, 4) =~= le_u32(self.umq_bo));
        assert(at(e, 28, 4) =~= le_u32(self.log_buf_bo));
        assert(at(e, 32, 4) =~= le_u32(self.max_opc));
        assert(at(e, 36, 4) =~= le_u32(self.num_tiles));
        assert(at(e, 40, 4) =~= le_u32(self.mem_size));
        assert(at(e, 44, 4) =~= le_u32(self.umq_doorbell));
        assert(at(e, 48, 4) =~= le_u32(self.handle));
        assert(at(e, 52, 4) =~= le_u32(self.syncobj_handle));
        lemma_u64_roundtrip(self.ext);
        lemma_u64_roundtrip(self.ext_flags);
        lemma_u64_roundtrip(self.qos_p);
        lemma_u32_roundtrip(self.umq_bo);
        lemma_u32_roundtrip(self.log_buf_bo);
        lemma_u32_roundtrip(self.max_opc);
        lemma_u32_roundtrip(self.num_tiles);
        lemma_u32_roundtrip(self.mem_size);
        lemma_u32_roundtrip(self.umq_doorbell);
        lemma_u32_roundtrip(self.handle);
        lemma_u32_roundtrip(self.syncobj_handle);
    }
}

/// struct amdxdna_drm_destroy_hwctx
#[derive(Default, Debug, Clone, Copy)]
pub struct DrmDestroyHwctx {
    pub handle: u32,
    pub pad: u32,
}

impl DrmDestroyHwctx {
    pub open spec fn encoding(&self) -> Seq<u8> {
        le_u32(self.handle) + le_u32(self.pad)
    }

    pub fn to_bytes(&self) -> (r: Vec<u8>)
        ensures
            r@ == self.encoding(),
            r@.len() == DRM_DESTROY_HWCTX_SIZE,
            r@.subrange(0, 4) == le_u32(self.handle),
            r@.subrange(4, 8) == le_u32(self.pad),
    {
        let mut v: Vec<u8> = Vec::new();
        push_u32_le(&mut v, self.handle);
        push_u32_le(&mut v, self.pad);
        assert(v@ =~= self.encoding());
        assert(v@.subrange(0, 4) =~= le_u32(self.handle));
        assert(v@.subrange(4, 8) =~= le_u32(self.pad));
        v
    }
}

/// `DRM_IOCTL_AMDXDNA_CREATE_HWCTX`
pub fn drm_ioctl_amdxdna_create_hwctx() -> (r: libc::c_ulong)
    ensures
        r == ioc_spec(IOC_READ | IOC_WRITE, DRM_IOCTL_BASE, 0x40, DRM_CREATE_HWCTX_SIZE),
{
    drm_iowr(NR_CREATE_HWCTX, DRM_CREATE_HWCTX_SIZE)
}

/// `DRM_IOCTL_AMDXDNA_DESTROY_HWCTX`
pub fn drm_ioctl_amdxdna_destroy_hwctx() -> (r: libc::c_ulong)
    ensures
        r == ioc_spec(IOC_READ | IOC_WRITE, DRM_IOCTL_BASE, 0x41, DRM_DESTROY_HWCTX_SIZE),
{
    drm_iowr(NR_DESTROY_HWCTX, DRM_DESTROY_HWCTX_SIZE)
}

/// Parameter types of amdxdna_drm_config_hwctx.
pub const HWCTX_CONFIG_CU: u32 = 0;

pub const HWCTX_ASSIGN_DBG_BUF: u32 = 1;

pub const HWCTX_REMOVE_DBG_BUF: u32 = 2;

/// struct amdxdna_drm_config_hwctx
#[derive(Default, Debug, Clone, Copy)]
pub struct DrmConfigHwctx {
    pub handle: u32,
    pub param_type: u32,
    pub param_val: u64,
    pub param_val_size: u32,
    pub pad: u32,
}

impl DrmConfigHwctx {
    pub open spec fn encoding(&self) -> Seq<u8> {
        le_u32(self.handle) + le_u32(self.param_type) + le_u64(self.param_val) + le_u32(
            self.param_val_size,
        ) + le_u32(self.pad)
    }

    pub fn to_bytes(&self) -> (r: Vec<u8>)
        ensures
            r@ == self.encoding(),
            r@.len() == DRM_CONFIG_HWCTX_SIZE,
            r@.subrange(0, 4) == le_u32(self.handle),
            r@.subrange(4, 8) == le_u32(self.param_type),
            r@.subrange(8, 16) == le_u64(self.param_val),
            r@.subrange(16, 20) == le_u32(self.param_val_size),
            r@.subrange(20, 24) == le_u32(self.pad),
    {
        let mut v: Vec<u8> = Vec::new();
        push_u32_le(&mut v, self.handle);
        push_u32_le(&mut v, self.param_type);
        push_u64_le(&mut v, self.param_val);
        push_u32_le(&mut v, self.param_val_size);
        push_u32_le(&mut v, self.pad);
        assert(v@ =~= self.encoding());
        assert(v@.subrange(0, 4) =~= le_u32(self.handle));
        assert(v@.subrange(4, 8) =~= le_u32(self.param_type));
        assert(v@.subrange(8, 16) =~= le_u64(self.param_val));
        assert(v@.subrange(16, 20) =~= le_u32(self.param_val_size));
        assert(v@.subrange(20, 24) =~= le_u32(self.pad));
        v
    }
}

/// struct amdxdna_cu_config
#[derive(Default, Debug, Clone, Copy)]
pub struct CuConfig {
    pub cu_bo: u32,
    pub cu_func: u8,
    pub pad: [u8; 3],
}

impl CuConfig {
    pub open spec fn encoding(&self) -> Seq<u8> {
        le_u32(self.cu_bo) + seq![self.cu_func, self.pad[0], self.pad[1], self.pad[2]]
    }

    /// Appends the structure's bytes to `out`.
    pub fn push_bytes(&self, out: &mut Vec<u8>)
        ensures
            final(out)@ == old(out)@ + self.encoding(),
            final(out)@.len() == old(out)@.len() as int + 8,
            final(out)@.subrange(old(out)@.len() as int, old(out)@.len() as int + 4) == le_u32(self.cu_bo),
            final(out)@[old(out)@.len() as int + 4] == self.cu_func,
            final(out)@[old(out)@.len() as int + 5] == self.pad[0],
            final(out)@[old(out)@.len() as int + 6] == self.pad[1],
            final(out)@[old(out)@.len() as int + 7] == self.pad[2],
    {
        push_u32_le(out, self.cu_bo);
        out.push(self.cu_func);
        out.push(self.pad[0]);
        out.push(self.pad[1]);
        out.push(self.pad[2]);
        assert(out@ =~= old(out)@ + self.encoding());
    }
}

/// Header of amdxdna_hwctx_param_config_cu, followed in the same buffer
/// by `num_cus` CuConfig entries (at most 4 KiB in all).
#[derive(Default, Debug, Clone, Copy)]
pub struct HwctxParamConfigCuHeader {
    pub num_cus: u16,
    pub pad: [u16; 3],
}

impl HwctxParamConfigCuHeader {
    pub open spec fn encoding(&self) -> Seq<u8> {
        le_u16(self.num_cus) + le_u16(self.pad[0]) + le_u16(self.pad[1]) + le_u16(self.pad[2])
    }

    /// Appends the structure's bytes to `out`.
    pub fn push_bytes(&self, out: &mut Vec<u8>)
        ensures
            final(out)@ == old(out)@ + self.encoding(),
            final(out)@.len() == old(out)@.len() as int + 8,
            final(out)@.subrange(old(out)@.len() as int, old(out)@.len() as int + 2) == le_u16(self.num_cus),
            final(out)@.subrange(old(out)@.len() as int + 2, old(out)@.len() as int + 4) == le_u16(self.pad[0]),
            final(out)@.subrange(old(out)@.len() as int + 4, old(out)@.len() as int + 6) == le_u16(self.pad[1]),
            final(out)@.subrange(old(out)@.len() as int + 6, old(out)@.len() as int + 8) == le_u16(self.pad[2]),
    {
        push_u16_le(out, self.num_cus);
        push_u16_le(out, self.pad[0]);
        push_u16_le(out, self.pad[1]);
        push_u16_le(out, self.pad[2]);
        assert(out@ =~= old(out)@ + self.encoding());
    }
}

/// `DRM_IOCTL_AMDXDNA_CONFIG_HWCTX`
pub fn drm_ioctl_amdxdna_config_hwctx() -> (r: libc::c_ulong)
    ensures
        r == ioc_spec(IOC_READ | IOC_WRITE, DRM_IOCTL_BASE, 0x42, DRM_CONFIG_HWCTX_SIZE),
{
    drm_iowr(NR_CONFIG_HWCTX, DRM_CONFIG_HWCTX_SIZE)
}

pub const CMD_SUBMIT_EXEC_BUF: u32 = 0;

pub const CMD_SUBMIT_DEPENDENCY: u32 = 1;

pub const CMD_SUBMIT_SIGNAL: u32 = 2;

pub const INVALID_CMD_HANDLE: u64 = 0xffff_ffff_ffff_ffff;

pub const INVALID_FENCE_HANDLE: u32 = 0;

/// struct amdxdna_drm_exec_cmd
#[derive(Default, Debug, Clone, Copy)]
pub struct DrmExecCmd {
    pub ext: u64,
    pub ext_flags: u64,
    pub hwctx: u32,
    pub ty: u32,
    pub cmd_handles: u64,
    pub args: u64,
    pub cmd_count: u32,
    pub arg_count: u32,
    pub seq: u64,
}

impl DrmExecCmd {
    pub open spec fn encoding(&self) -> Seq<u8> {
        le_u64(self.ext) + le_u64(self.ext_flags) + le_u32(self.hwctx) + le_u32(self.ty) + le_u64(
            self.cmd_handles,
        ) + le_u64(self.args) + le_u32(self.cmd_count) + le_u32(self.arg_count) + le_u64(self.seq)
    }

    pub open spec fn decode(b: Seq<u8>) -> Self {
        DrmExecCmd {
            ext: from_le_u64(at(b, 0, 8)),
            ext_flags: from_le_u64(at(b, 8, 8)),
            hwctx: from_le_u32(at(b, 16, 4)),
            ty: from_le_u32(at(b, 20, 4)),
            cmd_handles: from_le_u64(at(b, 24, 8)),
            args: from_le_u64(at(b, 32, 8)),
            cmd_count: from_le_u32(at(b, 40, 4)),
            arg_count: from_le_u32(at(b, 44, 4)),
            seq: from_le_u64(at(b, 48, 8)),
        }
    }

    pub fn to_bytes(&self) -> (r: Vec<u8>)
        ensures
            r@ == self.encoding(),
            r@.len() == DRM_EXEC_CMD_SIZE,
            r@.subrange(0, 8) == le_u64(self.ext),
            r@.subrange(8, 16) == le_u64(self.ext_flags),
            r@.subrange(16, 20) == le_u32(self.hwctx),
            r@.subrange(20, 24) == le_u32(self.ty),
            r@.subrange(24, 32) == le_u64(self.cmd_handles),
            r@.subrange(32, 40) == le_u64(self.args),
            r@.subrange(40, 44) == le_u32(self.cmd_count),
            r@.subrange(44, 48) == le_u32(self.arg_count),
            r@.subrange(48, 56) == le_u64(self.seq),
    {
        let mut v: Vec<u8> = Vec::new();
        push_u64_le(&mut v, self.ext);
        push_u64_le(&mut v, self.ext_flags);
        push_u32_le(&mut v, self.hwctx);
        push_u32_le(&mut v, self.ty);
        push_u64_le(&mut v, self.cmd_handles);
        push_u64_le(&mut v, self.args);
        push_u32_le(&mut v, self.cmd_count);
        push_u32_le(&mut v, self.arg_count);
        push_u64_le(&mut v, self.seq);
        assert(v@ =~= self.encoding());
        assert(v@.subrange(0, 8) =~= le_u64(self.ext));
        assert(v@.subrange(8, 16) =~= le_u64(self.ext_flags));
        assert(v@.subrange(16, 20) =~= le_u32(self.hwctx));
        assert(v@.subrange(20, 24) =~= le_u32(self.ty));
        assert(v@.subrange(24, 32) =~= le_u64(self.cmd_handles));
        assert(v@.subrange(32, 40) =~= le_u64(self.args));
        assert(v@.subrange(40, 44) =~= le_u32(self.cmd_count));
        assert(v@.subrange(44, 48) =~= le_u32(self.arg_count));
        assert(v@.subrange(48, 56) =~= le_u64(self.seq));
        v
    }

    pub fn from_bytes(b: &[u8]) -> (r: Self)
        requires
            b@.len() >= DRM_EXEC_CMD_SIZE,
        ensures
            r == Self::decode(b@),
            r.ext == from_le_u64(b@.subrange(0, 8)),
            r.ext_flags == from_le_u64(b@.subrange(8, 16)),
            r.hwctx == from_le_u32(b@.subrange(16, 20)),
            r.ty == from_le_u32(b@.subrange(20, 24)),
            r.cmd_handles == from_le_u64(b@.subrange(24, 32)),
            r.args == from_le_u64(b@.subrange(32, 40)),
            r.cmd_count == from_le_u32(b@.subrange(40, 44)),
            r.arg_count == from_le_u32(b@.subrange(44, 48)),
            r.seq == from_le_u64(b@.subrange(48, 56)),
    {
        DrmExecCmd {
            ext: read_u64_le(b, 0),
            ext_flags: read_u64_le(b, 8),
            hwctx: read_u32_le(b, 16),
            ty: read_u32_le(b, 20),
            cmd_handles: read_u64_le(b, 24),
            args: read_u64_le(b, 32),
            cmd_count: read_u32_le(b, 40),
            arg_count: read_u32_le(b, 44),
            seq: read_u64_le(b, 48),
        }
    }

    /// Decoding the encoding gives the structure back.
    pub proof fn lemma_roundtrip(self)
        ensures
            Self::decode(self.encoding()) == self,
    {
        let e = self.encoding();
        assert(at(e, 0, 8) =~= le_u64(self.ext));
        assert(at(e, 8, 8) =~= le_u64(self.ext_flags));
        assert(at(e, 16, 4) =~= le_u32(self.hwctx));
        assert(at(e, 20, 4) =~= le_u32(self.ty));
        assert(at(e, 24, 8) =~= le_u64(self.cmd_handles));
        assert(at(e, 32, 8) =~= le_u64(self.args));
        assert(at(e, 40, 4) =~= le_u32(self.cmd_count));
        assert(at(e, 44, 4) =~= le_u32(self.arg_count));
        assert(at(e, 48, 8) =~= le_u64(self.seq));
        lemma_u64_roundtrip(self.ext);
        lemma_u64_roundtrip(self.ext_flags);
        lemma_u32_roundtrip(self.hwctx);
        lemma_u32_roundtrip(self.ty);
        lemma_u64_roundtrip(self.cmd_handles);
        lemma_u64_roundtrip(self.args);
        lemma_u32_roundtrip(self.cmd_count);
        lemma_u32_roundtrip(self.arg_count);
        lemma_u64_roundtrip(self.seq);
    }
}

/// `DRM_IOCTL_AMDXDNA_EXEC_CMD`
pub fn drm_ioctl_amdxdna_exec_cmd() -> (r: libc::c_ulong)
    ensures
        r == ioc_spec(IOC_READ | IOC_WRITE, DRM_IOCTL_BASE, 0x46, DRM_EXEC_CMD_SIZE),
{
    drm_iowr(NR_EXEC_CMD, DRM_EXEC_CMD_SIZE)
}

// SET_STATE parameters and power modes
pub const SET_POWER_MODE: u32 = 0;

pub const WRITE_AIE_MEM: u32 = 1;

pub const WRITE_AIE_REG: u32 = 2;

pub const SET_FORCE_PREEMPT: u32 = 3;

pub const SET_FRAME_BOUNDARY_PREEMPT: u32 = 4;

pub const POWER_MODE_DEFAULT: u8 = 0;

pub const POWER_MODE_LOW: u8 = 1;

pub const POWER_MODE_MEDIUM: u8 = 2;

pub const POWER_MODE_HIGH: u8 = 3;

pub const POWER_MODE_TURBO: u8 = 4;

/// struct amdxdna_drm_set_state
#[derive(Default, Debug, Clone, Copy)]
pub struct DrmSetState {
    pub param: u32,
    pub buffer_size: u32,
    pub buffer: u64,
}

/// struct amdxdna_drm_set_power_mode
#[derive(Default, Debug, Clone, Copy)]
pub struct SetPowerMode {
    pub power_mode: u8,
    pub pad: [u8; 7],
}

/// `DRM_IOCTL_AMDXDNA_SET_STATE`
pub fn drm_ioctl_amdxdna_set_state() -> (r: libc::c_ulong)
    ensures
        r == ioc_spec(IOC_READ | IOC_WRITE, DRM_IOCTL_BASE, 0x48, DRM_SET_STATE_SIZE),
{
    drm_iowr(NR_SET_STATE, DRM_SET_STATE_SIZE)
}

// GET_ARRAY parameters
pub const HW_CONTEXT_ALL: u32 = 0;

pub const HW_LAST_ASYNC_ERR: u32 = 2;

/// struct amdxdna_drm_get_array
#[derive(Default, Debug, Clone, Copy)]
pub struct DrmGetArray {
    pub param: u32,
    pub element_size: u32,
    pub num_element: u32,
    pub pad: u32,
    pub buffer: u64,
}

/// `DRM_IOCTL_AMDXDNA_GET_ARRAY`
pub fn drm_ioctl_amdxdna_get_array() -> (r: libc::c_ulong)
    ensures
        r == ioc_spec(IOC_READ | IOC_WRITE, DRM_IOCTL_BASE, 0x4A, DRM_GET_ARRAY_SIZE),
{
    drm_iowr(NR_GET_ARRAY, DRM_GET_ARRAY_SIZE)
}

// Generic DRM syncobj waits (<drm/drm.h>): SYNCOBJ_WAIT is 0xC3 and
// SYNCOBJ_TIMELINE_WAIT is 0xCA.
pub const DRM_IOCTL_SYNCOBJ_WAIT_NR: u8 = 0xC3;

pub const DRM_IOCTL_SYNCOBJ_TIMELINE_WAIT_NR: u8 = 0xCA;

pub const SYNCOBJ_WAIT_FLAGS_WAIT_ALL: u32 = 1;

pub const SYNCOBJ_WAIT_FLAGS_WAIT_FOR_SUBMIT: u32 = 2;

pub const SYNCOBJ_WAIT_FLAGS_WAIT_AVAILABLE: u32 = 4;

/// struct drm_syncobj_wait
#[derive(Default, Debug, Clone, Copy)]
pub struct DrmSyncobjWait {
    pub handles: u64,
    /// Absolute CLOCK_MONOTONIC deadline in ns.
    pub timeout_nsec: i64,
    pub count_handles: u32,
    pub flags: u32,
    pub first_signaled: u32,
    pub pad: u32,
}

impl DrmSyncobjWait {
    pub open spec fn encoding(&self) -> Seq<u8> {
        le_u64(self.handles) + le_i64(self.timeout_nsec) + le_u32(self.count_handles) + le_u32(
            self.flags,
        ) + le_u32(self.first_signaled) + le_u32(self.pad)
    }

    pub fn to_bytes(&self) -> (r: Vec<u8>)
        ensures
            r@ == self.encoding(),
            r@.len() == DRM_SYNCOBJ_WAIT_SIZE,
            r@.subrange(0, 8) == le_u64(self.handles),
            r@.subrange(8, 16) == le_i64(self.timeout_nsec),
            r@.subrange(16, 20) == le_u32(self.count_handles),
            r@.subrange(20, 24) == le_u32(self.flags),
            r@.subrange(24, 28) == le_u32(self.first_signaled),
            r@.subrange(28, 32) == le_u32(self.pad),
    {
        let mut v: Vec<u8> = Vec::new();
        push_u64_le(&mut v, self.handles);
        push_u64_le(&mut v, self.timeout_nsec as u64);
        push_u32_le(&mut v, self.count_handles);
        push_u32_le(&mut v, self.flags);
        push_u32_le(&mut v, self.first_signaled);
        push_u32_le(&mut v, self.pad);
        assert(v@ =~= self.encoding());
        assert(v@.subrange(0, 8) =~= le_u64(self.handles));
        assert(v@.subrange(8, 16) =~= le_i64(self.timeout_nsec));
        assert(v@.subrange(16, 20) =~= le_u32(self.count_handles));
        assert(v@.subrange(20, 24) =~= le_u32(self.flags));
        assert(v@.subrange(24, 28) =~= le_u32(self.first_signaled));
        assert(v@.subrange(28, 32) =~= le_u32(self.pad));
        v
    }
}

/// `DRM_IOCTL_SYNCOBJ_WAIT`
pub fn drm_ioctl_syncobj_wait() -> (r: libc::c_ulong)
    ensures
        r == ioc_spec(
            IOC_READ | IOC_WRITE,
            DRM_IOCTL_BASE,
            DRM_IOCTL_SYNCOBJ_WAIT_NR,
            DRM_SYNCOBJ_WAIT_SIZE,
        ),
{
    drm_iowr_generic(DRM_IOCTL_SYNCOBJ_WAIT_NR, DRM_SYNCOBJ_WAIT_SIZE)
}

/// struct drm_syncobj_timeline_wait
#[derive(Default, Debug, Clone, Copy)]
pub struct DrmSyncobjTimelineWait {
    pub handles: u64,
    pub points: u64,
    pub timeout_nsec: i64,
    pub count_handles: u32,
    pub flags: u32,
    pub first_signaled: u32,
    pub pad: u32,
}

impl DrmSyncobjTimelineWait {
    pub open spec fn encoding(&self) -> Seq<u8> {
        le_u64(self.handles) + le_u64(self.points) + le_i64(self.timeout_nsec) + le_u32(
            self.count_handles,
        ) + le_u32(self.flags) + le_u32(self.first_signaled) + le_u32(self.pad)
    }

    pub fn to_bytes(&self) -> (r: Vec<u8>)
        ensures
            r@ == self.encoding(),
            r@.len() == DRM_SYNCOBJ_TIMELINE_WAIT_SIZE,
            r@.subrange(0, 8) == le_u64(self.handles),
            r@.subrange(8, 16) == le_u64(self.points),
            r@.subrange(16, 24) == le_i64(self.timeout_nsec),
            r@.subrange(24, 28) == le_u32(self.count_handles),
            r@.subrange(28, 32) == le_u32(self.flags),
            r@.subrange(32, 36) == le_u32(self.first_signaled),
            r@.subrange(36, 40) == le_u32(self.pad),
    {
        let mut v: Vec<u8> = Vec::new();
        push_u64_le(&mut v, self.handles);
        push_u64_le(&mut v, self.points);
        push_u64_le(&mut v, self.timeout_nsec as u64);
        push_u32_le(&mut v, self.count_handles);
        push_u32_le(&mut v, self.flags);
        push_u32_le(&mut v, self.first_signaled);
        push_u32_le(&mut v, self.pad);
        assert(v@ =~= self.encoding());
        assert(v@.subrange(0, 8) =~= le_u64(self.handles));
        assert(v@.subrange(8, 16) =~= le_u64(self.points));
        assert(v@.subrange(16, 24) =~= le_i64(self.timeout_nsec));
        assert(v@.subrange(24, 28) =~= le_u32(self.count_handles));
        assert(v@.subrange(28, 32) =~= le_u32(self.flags));
        assert(v@.subrange(32, 36) =~= le_u32(self.first_signaled));
        assert(v@.subrange(36, 40) =~= le_u32(self.pad));
        v
    }
}

/// `DRM_IOCTL_SYNCOBJ_TIMELINE_WAIT`
pub fn drm_ioctl_syncobj_timeline_wait() -> (r: libc::c_ulong)
    ensures
        r == ioc_spec(
            IOC_READ | IOC_WRITE,
            DRM_IOCTL_BASE,
            DRM_IOCTL_SYNCOBJ_TIMELINE_WAIT_NR,
            DRM_SYNCOBJ_TIMELINE_WAIT_SIZE,
        ),
{
    drm_iowr_generic(DRM_IOCTL_SYNCOBJ_TIMELINE_WAIT_NR, DRM_SYNCOBJ_TIMELINE_WAIT_SIZE)
}

// Generic DRM PRIME (dmabuf export / import) request numbers.
pub const DRM_IOCTL_PRIME_HANDLE_TO_FD_NR: u8 = 0x2D;

pub const DRM_IOCTL_PRIME_FD_TO_HANDLE_NR: u8 = 0x2E;

/// struct drm_prime_handle
#[derive(Default, Debug, Clone, Copy)]
pub struct DrmPrimeHandle {
    pub handle: u32,
    pub flags: u32,
    pub fd: i32,
}

impl DrmPrimeHandle {
    pub open spec fn encoding(&self) -> Seq<u8> {
        le_u32(self.handle) + le_u32(self.flags) + le_u32(self.fd as u32)
    }

    pub open spec fn decode(b: Seq<u8>) -> Self {
        DrmPrimeHandle {
            handle: from_le_u32(at(b, 0, 4)),
            flags: from_le_u32(at(b, 4, 4)),
            fd: from_le_u32(at(b, 8, 4)) as i32,
        }
    }

    pub fn to_bytes(&self) -> (r: Vec<u8>)
        ensures
            r@ == self.encoding(),
            r@.len() == DRM_PRIME_HANDLE_SIZE,
            r@.subrange(0, 4) == le_u32(self.handle),
            r@.subrange(4, 8) == le_u32(self.flags),
            r@.subrange(8, 12) == le_u32(self.fd as u32),
    {
        let mut v: Vec<u8> = Vec::new();
        push_u32_le(&mut v, self.handle);
        push_u32_le(&mut v, self.flags);
        push_u32_le(&mut v, self.fd as u32);
        assert(v@ =~= self.encoding());
        assert(v@.subrange(0, 4) =~= le_u32(self.handle));
        assert(v@.subrange(4, 8) =~= le_u32(self.flags));
        assert(v@.subrange(8, 12) =~= le_u32(self.fd as u32));
        v
    }

    pub fn from_bytes(b: &[u8]) -> (r: Self)
        requires
            b@.len() >= DRM_PRIME_HANDLE_SIZE,
        ensures
            r == Self::decode(b@),
            r.handle == from_le_u32(b@.subrange(0, 4)),
            r.flags == from_le_u32(b@.subrange(4, 8)),
            r.fd == from_le_u32(b@.subrange(8, 12)) as i32,
    {
        DrmPrimeHandle {
            handle: read_u32_le(b, 0),
            flags: read_u32_le(b, 4),
            fd: read_u32_le(b, 8) as i32,
        }
    }

    /// Decoding the encoding gives the structure back.
    pub proof fn lemma_roundtrip(self)
        ensures
            Self::decode(self.encoding()) == self,
    {
        let e = self.encoding();
        assert(at(e, 0, 4) =~= le_u32(self.handle));
        assert(at(e, 4, 4) =~= le_u32(self.flags));
        assert(at(e, 8, 4) =~= le_u32(self.fd as u32));
        lemma_u32_roundtrip(self.handle);
        lemma_u32_roundtrip(self.flags);
        lemma_u32_roundtrip(self.fd as u32);
        let f = self.fd;
        assert(((f as u32) as i32) == f) by (bit_vector);
    }
}

/// `DRM_IOCTL_PRIME_HANDLE_TO_FD`
pub fn drm_ioctl_prime_handle_to_fd() -> (r: libc::c_ulong)
    ensures
        r == ioc_spec(
            IOC_READ | IOC_WRITE,
            DRM_IOCTL_BASE,
            DRM_IOCTL_PRIME_HANDLE_TO_FD_NR,
            DRM_PRIME_HANDLE_SIZE,
        ),
{
    drm_iowr_generic(DRM_IOCTL_PRIME_HANDLE_TO_FD_NR, DRM_PRIME_HANDLE_SIZE)
}

/// `DRM_IOCTL_PRIME_FD_TO_HANDLE`
pub fn drm_ioctl_prime_fd_to_handle() -> (r: libc::c_ulong)
    ensures
        r == ioc_spec(
            IOC_READ | IOC_WRITE,
            DRM_IOCTL_BASE,
            DRM_IOCTL_PRIME_FD_TO_HANDLE_NR,
            DRM_PRIME_HANDLE_SIZE,
        ),
{
    drm_iowr_generic(DRM_IOCTL_PRIME_FD_TO_HANDLE_NR, DRM_PRIME_HANDLE_SIZE)
}

// amdgpu (iGPU) GEM requests, used to allocate GTT memory that the NPU
// can import through a dmabuf on a UMA SoC (uapi `drm/amdgpu_drm.h`).
pub const NR_AMDGPU_GEM_CREATE: u8 = 0x00;

pub const NR_AMDGPU_GEM_MMAP: u8 = 0x01;

/// amdgpu memory domain bits.
pub const AMDGPU_GEM_DOMAIN_GTT: u64 = 0x2;

pub const AMDGPU_GEM_DOMAIN_VRAM: u64 = 0x4;

/// amdgpu GEM_CREATE flag: the host maps the BO.
pub const AMDGPU_GEM_CREATE_CPU_ACCESS_REQUIRED: u64 = 1;

/// amdgpu GEM_CREATE flag (kernel 6.7 and later): a GTT allocation that
/// is neither migrated nor evicted, as dmabuf sharing wants.
pub const AMDGPU_GEM_CREATE_PREEMPTIBLE: u64 = 0x800;

/// Size of `union drm_amdgpu_gem_create` (the larger, input, member).
pub const DRM_AMDGPU_GEM_CREATE_SIZE: usize = 32;

/// Size of `union drm_amdgpu_gem_mmap`.
pub const DRM_AMDGPU_GEM_MMAP_SIZE: usize = 8;

/// The input member of `union drm_amdgpu_gem_create`.
#[derive(Default, Debug, Clone, Copy)]
pub struct DrmAmdgpuGemCreateIn {
    pub bo_size: u64,
    pub alignment: u64,
    pub domains: u64,
    pub domain_flags: u64,
}

impl DrmAmdgpuGemCreateIn {
    pub open spec fn encoding(&self) -> Seq<u8> {
        le_u64(self.bo_size) + le_u64(self.alignment) + le_u64(self.domains) + le_u64(
            self.domain_flags,
        )
    }

    pub fn to_bytes(&self) -> (r: Vec<u8>)
        ensures
            r@ == self.encoding(),
            r@.len() == DRM_AMDGPU_GEM_CREATE_SIZE,
            r@.subrange(0, 8) == le_u64(self.bo_size),
            r@.subrange(8, 16) == le_u64(self.alignment),
            r@.subrange(16, 24) == le_u64(self.domains),
            r@.subrange(24, 32) == le_u64(self.domain_flags),
    {
        let mut v: Vec<u8> = Vec::new();
        push_u64_le(&mut v, self.bo_size);
        push_u64_le(&mut v, self.alignment);
        push_u64_le(&mut v, self.domains);
        push_u64_le(&mut v, self.domain_flags);
        assert(v@ =~= self.encoding());
        assert(v@.subrange(0, 8) =~= le_u64(self.bo_size));
        assert(v@.subrange(8, 16) =~= le_u64(self.alignment));
        assert(v@.subrange(16, 24) =~= le_u64(self.domains));
        assert(v@.subrange(24, 32) =~= le_u64(self.domain_flags));
        v
    }
}

/// The output member of `union drm_amdgpu_gem_create`, which the driver
/// writes over the start of the input.
#[derive(Default, Debug, Clone, Copy)]
pub struct DrmAmdgpuGemCreateOut {
    pub handle: u32,
    pub pad: u32,
}

impl DrmAmdgpuGemCreateOut {
    pub open spec fn decode(b: Seq<u8>) -> Self {
        DrmAmdgpuGemCreateOut { handle: from_le_u32(at(b, 0, 4)), pad: from_le_u32(at(b, 4, 4)) }
    }

    pub fn from_bytes(b: &[u8]) -> (r: Self)
        requires
            b@.len() >= 8,
        ensures
            r == Self::decode(b@),
            r.handle == from_le_u32(b@.subrange(0, 4)),
            r.pad == from_le_u32(b@.subrange(4, 8)),
    {
        DrmAmdgpuGemCreateOut { handle: read_u32_le(b, 0), pad: read_u32_le(b, 4) }
    }
}

/// The input member of `union drm_amdgpu_gem_mmap`.
#[derive(Default, Debug, Clone, Copy)]
pub struct DrmAmdgpuGemMmapIn {
    pub handle: u32,
    pub pad: u32,
}

impl DrmAmdgpuGemMmapIn {
    pub open spec fn encoding(&self) -> Seq<u8> {
        le_u32(self.handle) + le_u32(self.pad)
    }

    pub fn to_bytes(&self) -> (r: Vec<u8>)
        ensures
            r@ == self.encoding(),
            r@.len() == DRM_AMDGPU_GEM_MMAP_SIZE,
            r@.subrange(0, 4) == le_u32(self.handle),
            r@.subrange(4, 8) == le_u32(self.pad),
    {
        let mut v: Vec<u8> = Vec::new();
        push_u32_le(&mut v, self.handle);
        push_u32_le(&mut v, self.pad);
        assert(v@ =~= self.encoding());
        assert(v@.subrange(0, 4) =~= le_u32(self.handle));
        assert(v@.subrange(4, 8) =~= le_u32(self.pad));
        v
    }
}

/// The output member of `union drm_amdgpu_gem_mmap`: the fake offset to
/// pass to mmap on the render node.
#[derive(Default, Debug, Clone, Copy)]
pub struct DrmAmdgpuGemMmapOut {
    pub addr_ptr: u64,
}

impl DrmAmdgpuGemMmapOut {
    pub open spec fn decode(b: Seq<u8>) -> Self {
        DrmAmdgpuGemMmapOut { addr_ptr: from_le_u64(at(b, 0, 8)) }
    }

    pub fn from_bytes(b: &[u8]) -> (r: Self)
        requires
            b@.len() >= 8,
        ensures
            r == Self::decode(b@),
            r.addr_ptr == from_le_u64(b@.subrange(0, 8)),
    {
        DrmAmdgpuGemMmapOut { addr_ptr: read_u64_le(b, 0) }
    }
}

/// `DRM_IOCTL_AMDGPU_GEM_CREATE`
pub fn drm_ioctl_amdgpu_gem_create() -> (r: libc::c_ulong)
    ensures
        r == ioc_spec(IOC_READ | IOC_WRITE, DRM_IOCTL_BASE, 0x40, DRM_AMDGPU_GEM_CREATE_SIZE),
{
    drm_iowr(NR_AMDGPU_GEM_CREATE, DRM_AMDGPU_GEM_CREATE_SIZE)
}

/// `DRM_IOCTL_AMDGPU_GEM_MMAP`
pub fn drm_ioctl_amdgpu_gem_mmap() -> (r: libc::c_ulong)
    ensures
        r == ioc_spec(IOC_READ | IOC_WRITE, DRM_IOCTL_BASE, 0x41, DRM_AMDGPU_GEM_MMAP_SIZE),
{
    drm_iowr(NR_AMDGPU_GEM_MMAP, DRM_AMDGPU_GEM_MMAP_SIZE)
}

} // verus!
