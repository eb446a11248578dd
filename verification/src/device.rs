//! The device and the metadata that the GET_INFO probes return.

use vstd::prelude::*;
use crate::{XdnaError, text};
use crate::fmt::{dec, dec_int, dec_i64, dec_u64};
use crate::ioctl::{
    QueryAieVersion, QueryAieMetadata, QueryClockMetadata, QueryFirmwareVersion, GetResourceInfo,
    GetPowerMode, DrmGetInfo,
};

verus! {

/// An open amdxdna device, by its file descriptor.
pub struct Device {
    pub fd: i32,
}

impl Device {
    /// The GET_INFO request for query `param`, whose reply of `size`
    /// bytes the driver writes at `buffer_addr`.
    pub fn get_info_request(&self, param: u32, size: u32, buffer_addr: u64) -> (r: DrmGetInfo)
        ensures
            r == (DrmGetInfo { param, buffer_size: size, buffer: buffer_addr }),
    {
        DrmGetInfo { param, buffer_size: size, buffer: buffer_addr }
    }

    /// The outcome of the GET_INFO call for `param`: the error, with
    /// `errno` as its code, when `ret != 0`; else the reply buffer holds
    /// the answer.
    pub fn on_get_info(&self, param: u32, ret: i32, errno: i32) -> (r: Result<(), XdnaError>)
        ensures
            ret == 0 <==> r is Ok,
            ret != 0 ==> (r matches Err(e) && e.code == errno && e.message@ == "GET_INFO param="@
                + dec(param as nat) + " ioctl failed (errno="@ + dec_int(errno as int) + ")"@),
    {
        if ret != 0 {
            let m = text::cat(String::from_str("GET_INFO param="), dec_u64(param as u64).as_str());
            let m = text::cat(m, " ioctl failed (errno=");
            let m = text::cat(m, dec_i64(errno as i64).as_str());
            let m = text::cat(m, ")");
            return Err(XdnaError { code: errno, message: m });
        }
        Ok(())
    }
}

/// Device metadata, assembled from the GET_INFO probes.
#[derive(Debug, Clone, Copy)]
pub struct NpuInfo {
    pub aie_version: (u32, u32),
    pub aie_cols: u16,
    pub aie_rows: u16,
    pub aie_col_size: u32,
    /// (start_row, row_count)
    pub core_tiles: (u16, u16),
    pub mem_tiles: (u16, u16),
    pub shim_tiles: (u16, u16),
    pub mp_npu_clock_mhz: u32,
    pub h_clock_mhz: u32,
    /// major.minor.patch.build
    pub firmware_version: (u32, u32, u32, u32),
    pub power_mode: u8,
    pub npu_tops_max: u64,
    pub npu_task_max: u64,
    pub npu_tops_curr: u64,
    pub npu_task_curr: u64,
}

impl NpuInfo {
    /// The metadata that the probe reports from the replies to the AIE
    /// version, AIE metadata, clock metadata, firmware version, resource
    /// info and power mode queries.
    pub fn from_queries(
        v: &QueryAieVersion,
        m: &QueryAieMetadata,
        c: &QueryClockMetadata,
        f: &QueryFirmwareVersion,
        r: &GetResourceInfo,
        pm: &GetPowerMode,
    ) -> (info: NpuInfo)
        ensures
            info.aie_version == (v.major, v.minor),
            info.aie_cols == m.cols,
            info.aie_rows == m.rows,
            info.aie_col_size == m.col_size,
            info.core_tiles == (m.core.row_start, m.core.row_count),
            info.mem_tiles == (m.mem.row_start, m.mem.row_count),
            info.shim_tiles == (m.shim.row_start, m.shim.row_count),
            info.mp_npu_clock_mhz == c.mp_npu_clock.freq_mhz,
            info.h_clock_mhz == c.h_clock.freq_mhz,
            info.firmware_version == (f.major, f.minor, f.patch, f.build),
            info.power_mode == pm.power_mode,
            info.npu_tops_max == r.npu_tops_max,
            info.npu_task_max == r.npu_task_max,
            info.npu_tops_curr == r.npu_tops_curr,
            info.npu_task_curr == r.npu_task_curr,
    {
        NpuInfo {
            aie_version: (v.major, v.minor),
            aie_cols: m.cols,
            aie_rows: m.rows,
            aie_col_size: m.col_size,
            core_tiles: (m.core.row_start, m.core.row_count),
            mem_tiles: (m.mem.row_start, m.mem.row_count),
            shim_tiles: (m.shim.row_start, m.shim.row_count),
            mp_npu_clock_mhz: c.mp_npu_clock.freq_mhz,
            h_clock_mhz: c.h_clock.freq_mhz,
            firmware_version: (f.major, f.minor, f.patch, f.build),
            power_mode: pm.power_mode,
            npu_tops_max: r.npu_tops_max,
            npu_task_max: r.npu_task_max,
            npu_tops_curr: r.npu_tops_curr,
            npu_task_curr: r.npu_task_curr,
        }
    }
}

} // verus!

verus! {

/// The index of the first zero byte of `s`, or its length if none.
pub open spec fn first_nul(s: Seq<u8>) -> int
    decreases s.len(),
{
    if s.len() == 0 {
        0
    } else if s[0] == 0 {
        0
    } else {
        1 + first_nul(s.drop_first())
    }
}

/// A clock's name: the bytes of its name field up to the first zero byte
/// (all sixteen if there is none).
pub fn clock_name_bytes(name: &[u8; 16]) -> (r: Vec<u8>)
    ensures
        r@ == name@.take(first_nul(name@)),
{
    let mut out: Vec<u8> = Vec::new();
    let mut i: usize = 0;
    let ghost s = name@;
    while i < 16
        invariant
            s == name@,
            s.len() == 16,
            i <= 16,
            out@ == s.take(i as int),
            forall|j: int| 0 <= j < i ==> s[j] != 0,
        ensures
            i <= 16,
            out@ == s.take(i as int),
            forall|j: int| 0 <= j < i ==> s[j] != 0,
            i < 16 ==> s[i as int] == 0,
        decreases 16 - i,
    {
        if name[i] == 0 {
            break;
        }
        out.push(name[i]);
        i = i + 1;
        assert(out@ =~= s.take(i as int));
    }
    proof {
        lemma_first_nul(s, i as int);
    }
    out
}

/// `first_nul(s)` is `k` when `s[k]` is the first zero byte, or when
/// there is none and `k` is the length.
pub proof fn lemma_first_nul(s: Seq<u8>, k: int)
    requires
        0 <= k <= s.len(),
        forall|j: int| 0 <= j < k ==> s[j] != 0,
        k < s.len() ==> s[k] == 0,
    ensures
        first_nul(s) == k,
    decreases s.len(),
{
    if s.len() > 0 && k > 0 {
        let t = s.drop_first();
        assert forall|j: int| 0 <= j < k - 1 implies t[j] != 0 by {
            assert(t[j] == s[j + 1]);
        }
        lemma_first_nul(t, k - 1);
    }
}

} // verus!

verus! {

/// The name of a power mode value, "?" for an unknown one.
pub fn power_mode_name(mode: u8) -> (r: &'static str)
    ensures
        mode == 0 ==> r@ == "DEFAULT"@,
        mode == 1 ==> r@ == "LOW"@,
        mode == 2 ==> r@ == "MEDIUM"@,
        mode == 3 ==> r@ == "HIGH"@,
        mode == 4 ==> r@ == "TURBO"@,
        mode > 4 ==> r@ == "?"@,
{
    match mode {
        0 => "DEFAULT",
        1 => "LOW",
        2 => "MEDIUM",
        3 => "HIGH",
        4 => "TURBO",
        _ => "?",
    }
}

} // verus!
