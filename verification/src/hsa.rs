//! Exporting HSA-allocated memory as a dmabuf: what the runtime's export
//! call's status, fd and offset mean.

use vstd::prelude::*;
use crate::text;
use crate::fmt::{dec, dec_int, dec_i64, dec_u64, hex_prefixed, hex_u64};

verus! {

/// HSA status code for success.
pub const HSA_STATUS_SUCCESS: u32 = 0;

/// The outcome of `hsa_amd_portable_export_dmabuf` for the buffer at
/// address `ptr` of `size` bytes: the (fd, offset) pair when the status is
/// success and the fd is valid; an error describing which failed
/// otherwise.
pub fn export_result(ptr: usize, size: usize, status: u32, fd: i32, offset: u64) -> (r: Result<
    (i32, u64),
    String,
>)
    ensures
        status == HSA_STATUS_SUCCESS && fd >= 0 <==> r is Ok,
        r matches Ok(p) ==> p == (fd, offset),
        status != HSA_STATUS_SUCCESS ==> (r matches Err(m) && m@
            == "hsa_amd_portable_export_dmabuf("@ + hex_prefixed(ptr as nat) + ", "@ + dec(
            size as nat,
        ) + ") failed: status="@ + dec(status as nat)),
        status == HSA_STATUS_SUCCESS && fd < 0 ==> (r matches Err(m) && m@
            == "hsa_amd_portable_export_dmabuf returned status=0 but fd="@ + dec_int(fd as int)),
{
    if status != HSA_STATUS_SUCCESS {
        let m = text::cat(String::from_str("hsa_amd_portable_export_dmabuf("), hex_u64(ptr as u64).as_str());
        let m = text::cat(m, ", ");
        let m = text::cat(m, dec_u64(size as u64).as_str());
        let m = text::cat(m, ") failed: status=");
        let m = text::cat(m, dec_u64(status as u64).as_str());
        return Err(m);
    }
    if fd < 0 {
        let m = text::cat(
            String::from_str("hsa_amd_portable_export_dmabuf returned status=0 but fd="),
            dec_i64(fd as i64).as_str(),
        );
        return Err(m);
    }
    Ok((fd, offset))
}

} // verus!
