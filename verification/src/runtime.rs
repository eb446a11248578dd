//! The per-process NPU runtime: the device, its probed metadata and the
//! per-client device heap, with the allocations and contexts made
//! against them.

use vstd::prelude::*;
use crate::XdnaError;
use crate::bo::{Bo, BoAlloc, page_aligned};
use crate::device::{Device, NpuInfo};
use crate::hwctx::{Hwctx, HwctxBuilder, HwctxCreate, hwctx_create_spec};
use crate::ioctl::{BO_SHMEM, BO_DEV, BO_CMD};

verus! {

/// The device heap size that `Hipx::open` allocates: 64 MiB.
pub const DEFAULT_HEAP_SIZE: usize = 0x400_0000;

/// One NPU runtime per process: the device, its metadata, and the device
/// heap, which must exist before any hardware context is created.
pub struct Hipx {
    pub device: Device,
    pub info: NpuInfo,
    pub heap: Bo,
}

impl Hipx {
    /// Begins the allocation of a SHMEM BO on this runtime's device.
    pub fn alloc_shmem(&self, size: usize, page_size: usize) -> (r: BoAlloc)
        requires
            page_size > 0,
            page_aligned(size as int, page_size as int) <= usize::MAX,
        ensures
            r == (BoAlloc {
                fd: self.device.fd,
                ty: BO_SHMEM,
                size: page_aligned(size as int, page_size as int) as usize,
            }),
    {
        Bo::alloc_shmem(self.device.fd, size, page_size)
    }

    /// Begins the allocation of a DEV BO from this runtime's heap.
    pub fn alloc_dev(&self, size: usize, page_size: usize) -> (r: BoAlloc)
        requires
            page_size > 0,
            page_aligned(size as int, page_size as int) <= usize::MAX,
        ensures
            r == (BoAlloc {
                fd: self.device.fd,
                ty: BO_DEV,
                size: page_aligned(size as int, page_size as int) as usize,
            }),
    {
        Bo::alloc_dev(self.device.fd, size, page_size)
    }

    /// Begins the allocation of a CMD BO for EXEC_CMD packets.
    pub fn alloc_cmd(&self, size: usize, page_size: usize) -> (r: BoAlloc)
        requires
            page_size > 0,
            page_aligned(size as int, page_size as int) <= usize::MAX,
        ensures
            r == (BoAlloc {
                fd: self.device.fd,
                ty: BO_CMD,
                size: page_aligned(size as int, page_size as int) as usize,
            }),
    {
        Bo::alloc_cmd(self.device.fd, size, page_size)
    }

    /// The (address, length) of a DEV BO of this runtime's heap inside the
    /// heap's mapping.
    pub fn dev_region(&self, bo: &Bo) -> (r: Result<(usize, usize), XdnaError>)
        requires
            self.heap.mapping is Some && bo.xdna_addr >= self.heap.xdna_addr ==> bo.xdna_addr
                + bo.size <= u64::MAX && self.heap.xdna_addr + self.heap.size <= u64::MAX,
            self.heap.mapping matches Some((p, _)) ==> (bo.xdna_addr >= self.heap.xdna_addr
                && bo.xdna_addr + bo.size <= self.heap.xdna_addr + self.heap.size ==> p + (
            bo.xdna_addr - self.heap.xdna_addr) <= usize::MAX),
        ensures
            self.heap.mapping is None ==> (r matches Err(e) && e.code == 0),
            self.heap.mapping is Some && (bo.xdna_addr < self.heap.xdna_addr || bo.xdna_addr
                + bo.size > self.heap.xdna_addr + self.heap.size) ==> (r matches Err(e) && e.code
                == 0),
            self.heap.mapping matches Some((p, _)) ==> (bo.xdna_addr >= self.heap.xdna_addr
                && bo.xdna_addr + bo.size <= self.heap.xdna_addr + self.heap.size ==> r == Ok::<
                (usize, usize),
                XdnaError,
            >(((p + (bo.xdna_addr - self.heap.xdna_addr)) as usize, bo.size))),
    {
        bo.dev_region_in_heap(&self.heap)
    }

    /// Begins the creation of a hardware context, with the core row
    /// count taken from the probed AIE metadata.
    pub fn create_hwctx(&self, b: &HwctxBuilder) -> (r: HwctxCreate)
        requires
            b.num_columns * self.info.core_tiles.1 <= u32::MAX,
        ensures
            r == hwctx_create_spec(self.device.fd, self.info.core_tiles.1 as int, *b),
    {
        Hwctx::create(self.device.fd, self.info.core_tiles.1 as u32, b)
    }
}

/// Creating a context through the runtime is creating it on the runtime's
/// device with the core-tile row count of its metadata as `core_rows`:
/// `num_tiles` is the column count times that row count (not the AIE row
/// count, nor the core-tile start row).
pub proof fn lemma_create_hwctx_is_create(h: Hipx, b: HwctxBuilder)
    requires
        b.num_columns * h.info.core_tiles.1 <= u32::MAX,
    ensures
        hwctx_create_spec(h.device.fd, h.info.core_tiles.1 as int, b) == hwctx_create_spec(
            h.device.fd,
            (h.info.core_tiles.1 as u32) as int,
            b,
        ),
        hwctx_create_spec(h.device.fd, h.info.core_tiles.1 as int, b).req.num_tiles
            == b.num_columns * h.info.core_tiles.1,
{
}

} // verus!
