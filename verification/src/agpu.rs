//! The amdgpu (iGPU) side of the UMA sharing path: GTT buffer objects on
//! a render node, which are mapped by the host and exported as a dmabuf
//! that the NPU imports without a copy.

use vstd::prelude::*;
use crate::{XdnaError, text};
use crate::fmt::{dec, dec_int, dec_i64, dec_u64};
use crate::bo::os_error;
use crate::ioctl::{
    DrmAmdgpuGemCreateIn, DrmAmdgpuGemCreateOut, DrmAmdgpuGemMmapIn, DrmAmdgpuGemMmapOut,
    DrmGemClose, AMDGPU_GEM_DOMAIN_GTT, AMDGPU_GEM_CREATE_CPU_ACCESS_REQUIRED,
};

verus! {

/// The first render node's minor number: node `n` is `/dev/dri/renderD{128 + n}`.
pub const RENDER_NODE_BASE: u64 = 128;

/// The path of render node `node`.
pub fn render_node_path(node: u64) -> (r: String)
    requires
        node + RENDER_NODE_BASE <= u64::MAX,
    ensures
        r@ == "/dev/dri/renderD"@ + dec((node + 128) as nat),
{
    text::cat(String::from_str("/dev/dri/renderD"), dec_u64(node + RENDER_NODE_BASE).as_str())
}

/// The error for a failed open of the render node at `path`.
pub fn open_render_node_error(path: &str, errno: i32) -> (r: XdnaError)
    ensures
        r.code == errno,
        r.message@ == "open("@ + path@ + ", O_RDWR) failed (errno="@ + dec_int(errno as int)
            + ")"@,
{
    let m = text::cat(String::from_str("open("), path);
    let m = text::cat(m, ", O_RDWR) failed (errno=");
    let m = text::cat(m, dec_i64(errno as i64).as_str());
    let m = text::cat(m, ")");
    os_error(errno, m)
}

/// The GEM_CREATE request for a host-mappable GTT BO of `size` bytes,
/// page aligned.
pub fn gem_create_gtt_request(size: u64) -> (r: DrmAmdgpuGemCreateIn)
    ensures
        r == (DrmAmdgpuGemCreateIn {
            bo_size: size,
            alignment: 4096,
            domains: AMDGPU_GEM_DOMAIN_GTT,
            domain_flags: AMDGPU_GEM_CREATE_CPU_ACCESS_REQUIRED,
        }),
{
    DrmAmdgpuGemCreateIn {
        bo_size: size,
        alignment: 4096,
        domains: AMDGPU_GEM_DOMAIN_GTT,
        domain_flags: AMDGPU_GEM_CREATE_CPU_ACCESS_REQUIRED,
    }
}

/// The outcome of GEM_CREATE for `size` bytes: the error, with `errno`
/// as its code, when `ret != 0`; else the GEM handle that the driver
/// wrote back.
pub fn on_gem_create(size: u64, ret: i32, errno: i32, reply: &DrmAmdgpuGemCreateOut) -> (r: Result<
    u32,
    XdnaError,
>)
    ensures
        ret != 0 ==> (r matches Err(e) && e.code == errno && e.message@
            == "AMDGPU_GEM_CREATE(GTT, "@ + dec(size as nat) + ") failed (errno="@ + dec_int(
            errno as int,
        ) + ")"@),
        ret == 0 ==> r == Ok::<u32, XdnaError>(reply.handle),
{
    if ret != 0 {
        let m = text::cat(String::from_str("AMDGPU_GEM_CREATE(GTT, "), dec_u64(size).as_str());
        let m = text::cat(m, ") failed (errno=");
        let m = text::cat(m, dec_i64(errno as i64).as_str());
        let m = text::cat(m, ")");
        return Err(os_error(errno, m));
    }
    Ok(reply.handle)
}

/// The GEM_MMAP request for `handle`.
pub fn gem_mmap_request(handle: u32) -> (r: DrmAmdgpuGemMmapIn)
    ensures
        r == (DrmAmdgpuGemMmapIn { handle, pad: 0 }),
{
    DrmAmdgpuGemMmapIn { handle, pad: 0 }
}

/// The outcome of GEM_MMAP for `handle`: the error, with `errno` as its
/// code, when `ret != 0`; else the offset to mmap the BO at.
pub fn on_gem_mmap(handle: u32, ret: i32, errno: i32, reply: &DrmAmdgpuGemMmapOut) -> (r: Result<
    u64,
    XdnaError,
>)
    ensures
        ret != 0 ==> (r matches Err(e) && e.code == errno && e.message@
            == "AMDGPU_GEM_MMAP(handle="@ + dec(handle as nat) + ") failed (errno="@ + dec_int(
            errno as int,
        ) + ")"@),
        ret == 0 ==> r == Ok::<u64, XdnaError>(reply.addr_ptr),
{
    if ret != 0 {
        let m = text::cat(String::from_str("AMDGPU_GEM_MMAP(handle="), dec_u64(handle as u64).as_str());
        let m = text::cat(m, ") failed (errno=");
        let m = text::cat(m, dec_i64(errno as i64).as_str());
        let m = text::cat(m, ")");
        return Err(os_error(errno, m));
    }
    Ok(reply.addr_ptr)
}

/// The GEM_CLOSE request for an amdgpu `handle`.
pub fn gem_close_request(handle: u32) -> (r: DrmGemClose)
    ensures
        r == (DrmGemClose { handle, pad: 0 }),
{
    DrmGemClose { handle, pad: 0 }
}

/// The outcome of GEM_CLOSE on the render node.
pub fn on_gem_close(handle: u32, ret: i32, errno: i32) -> (r: Result<(), XdnaError>)
    ensures
        ret != 0 ==> (r matches Err(e) && e.code == errno && e.message@ == "GEM_CLOSE(handle="@
            + dec(handle as nat) + ") on amdgpu fd failed (errno="@ + dec_int(errno as int)
            + ")"@),
        ret == 0 ==> r is Ok,
{
    if ret != 0 {
        let m = text::cat(String::from_str("GEM_CLOSE(handle="), dec_u64(handle as u64).as_str());
        let m = text::cat(m, ") on amdgpu fd failed (errno=");
        let m = text::cat(m, dec_i64(errno as i64).as_str());
        let m = text::cat(m, ")");
        return Err(os_error(errno, m));
    }
    Ok(())
}

} // verus!
