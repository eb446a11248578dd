//! Buffer objects (BOs): sizes, the requests that create, query, sync
//! and close them, where a DEV BO sits inside the device heap, and how
//! the device heap is placed in the process address space.
//!
//! The driver calls themselves are made by the caller; the functions
//! here decide what to ask and what a reply means.

use vstd::prelude::*;
use crate::{XdnaError, text};
use crate::fmt::{dec, dec_u64, hex_prefixed, hex_u64};
use crate::ioctl::{DrmCreateBo, DrmGetBoInfo, DrmSyncBo, DrmGemClose, BO_SHMEM, BO_DEV, BO_CMD, BO_DEV_HEAP};

verus! {

/// `a / b` rounded up.
pub open spec fn div_ceil(a: int, b: int) -> int {
    if a % b == 0 {
        a / b
    } else {
        a / b + 1
    }
}

/// `size` rounded up to a whole number of pages.
pub open spec fn page_aligned(size: int, page_size: int) -> int {
    div_ceil(size, page_size) * page_size
}

/// A page-aligned size is a whole number of pages, at least `size` and
/// less than one page more.
pub proof fn lemma_page_aligned(size: nat, page_size: nat)
    requires
        page_size > 0,
    ensures
        page_aligned(size as int, page_size as int) % page_size as int == 0,
        size <= page_aligned(size as int, page_size as int),
        page_aligned(size as int, page_size as int) < size + page_size,
{
    let q = size as int / page_size as int;
    let r = size as int % page_size as int;
    assert(size as int == q * page_size + r && 0 <= r < page_size) by (nonlinear_arith)
        requires
            page_size > 0,
            q == size as int / page_size as int,
            r == size as int % page_size as int,
    ;
    let k = div_ceil(size as int, page_size as int);
    assert((k * page_size) % page_size as int == 0) by (nonlinear_arith)
        requires
            page_size > 0,
    ;
    if r == 0 {
        assert(k * page_size == q * page_size);
    } else {
        assert(k * page_size == q * page_size + page_size) by (nonlinear_arith)
            requires
                k == q + 1,
        ;
    }
}

/// Whether `size` can be rounded up to whole pages of `page_size` bytes
/// without leaving `usize`: what the page-aligned allocations require.
pub fn page_size_ok(size: usize, page_size: usize) -> (r: bool)
    ensures
        r == (page_size > 0 && page_aligned(size as int, page_size as int) <= usize::MAX),
{
    if page_size == 0 {
        return false;
    }
    let q = size / page_size;
    let n = if size % page_size == 0 {
        q
    } else {
        proof {
            assert(q < size) by (nonlinear_arith)
                requires
                    q == size / page_size,
                    page_size > 0,
                    size % page_size != 0,
            ;
        }
        q + 1
    };
    assert(n == div_ceil(size as int, page_size as int));
    match n.checked_mul(page_size) {
        Some(_) => true,
        None => false,
    }
}

/// A buffer object owned by an amdxdna device: its GEM handle, size,
/// device-side address and mmap offset, and where it is mapped in the
/// process (address, length), if it is.
pub struct Bo {
    pub fd: i32,
    pub handle: u32,
    pub size: usize,
    pub xdna_addr: u64,
    pub map_offset: u64,
    pub mapping: Option<(usize, usize)>,
    /// Whether this BO is the DEV_HEAP (mapped at a heap-size-aligned
    /// address).
    pub is_dev_heap: bool,
}

/// A BO allocation under way: the driver is to be asked for a BO of
/// type `ty` and `size` bytes on `fd`.
pub struct BoAlloc {
    pub fd: i32,
    pub ty: u32,
    pub size: usize,
}

/// "CREATE_BO(type={ty}, {size}) failed"
pub open spec fn create_bo_message(ty: nat, size: nat) -> Seq<char> {
    "CREATE_BO(type="@ + dec(ty) + ", "@ + dec(size) + ") failed"@
}

/// "GET_BO_INFO(handle={handle}) failed"
pub open spec fn get_bo_info_message(handle: nat) -> Seq<char> {
    "GET_BO_INFO(handle="@ + dec(handle) + ") failed"@
}

/// "DEV BO xdna_addr={addr:#x}+{size} not within heap xdna_addr={heap_addr:#x}+{heap_size}"
pub open spec fn outside_heap_message(addr: u64, size: usize, heap_addr: u64, heap_size: usize) -> Seq<char> {
    "DEV BO xdna_addr="@ + hex_prefixed(addr as nat) + "+"@ + dec(size as nat)
        + " not within heap xdna_addr="@ + hex_prefixed(heap_addr as nat) + "+"@ + dec(
        heap_size as nat,
    )
}

/// The error for a failed driver call: `code` is its errno.
pub fn os_error(errno: i32, message: String) -> (r: XdnaError)
    ensures
        r.code == errno,
        r.message == message,
{
    XdnaError { code: errno, message }
}

/// The address of `bo`'s mapping, if it is mapped.
pub open spec fn host_ptr_of(bo: Bo) -> Option<usize> {
    match bo.mapping {
        Some((p, _)) => Some(p),
        None => None,
    }
}

/// `bo` after a mapping at `addr` of `len` bytes is recorded: the first
/// mapping recorded stays.
pub open spec fn with_mapping(bo: Bo, addr: usize, len: usize) -> Bo {
    if bo.mapping is None {
        Bo { mapping: Some((addr, len)), ..bo }
    } else {
        bo
    }
}

/// A BO has no host address until a mapping is recorded; the first
/// recorded mapping gives its address, and every later recording keeps
/// it, so the address is fixed from then on.
pub proof fn lemma_host_ptr_fixed_once_mapped(bo: Bo, addr: usize, len: usize, later: Seq<(usize, usize)>)
    requires
        bo.mapping is None,
    ensures
        host_ptr_of(bo) is None,
        host_ptr_of(with_mapping(bo, addr, len)) == Some(addr),
        host_ptr_of(remapped(with_mapping(bo, addr, len), later)) == Some(addr),
        remapped(with_mapping(bo, addr, len), later) == with_mapping(bo, addr, len),
    decreases later.len(),
{
    if later.len() > 0 {
        lemma_host_ptr_fixed_once_mapped(bo, addr, len, later.drop_last());
    }
}

/// `bo` after the mappings `ms` are recorded in turn.
pub open spec fn remapped(bo: Bo, ms: Seq<(usize, usize)>) -> Bo
    decreases ms.len(),
{
    if ms.len() == 0 {
        bo
    } else {
        with_mapping(remapped(bo, ms.drop_last()), ms.last().0, ms.last().1)
    }
}

impl BoAlloc {
    /// The CREATE_BO request: the size and type, everything else zero.
    pub fn create_request(&self) -> (r: DrmCreateBo)
        ensures
            r == (DrmCreateBo { flags: 0, vaddr: 0, size: self.size as u64, ty: self.ty, handle: 0 }),
    {
        DrmCreateBo { flags: 0, vaddr: 0, size: self.size as u64, ty: self.ty, handle: 0 }
    }

    /// What follows the CREATE_BO call: on failure (`ret != 0`) the
    /// error, with `errno` as its code; else the GET_BO_INFO request for
    /// the handle that the driver returned.
    pub fn on_create(&self, ret: i32, errno: i32, reply: &DrmCreateBo) -> (r: Result<
        DrmGetBoInfo,
        XdnaError,
    >)
        ensures
            ret != 0 ==> (r matches Err(e) && e.code == errno && e.message@ == create_bo_message(
                self.ty as nat,
                self.size as nat,
            )),
            ret == 0 ==> r == Ok::<DrmGetBoInfo, XdnaError>(
                DrmGetBoInfo {
                    ext: 0,
                    ext_flags: 0,
                    handle: reply.handle,
                    pad: 0,
                    map_offset: 0,
                    vaddr: 0,
                    xdna_addr: 0,
                },
            ),
    {
        if ret != 0 {
            let m = text::cat(String::from_str("CREATE_BO(type="), dec_u64(self.ty as u64).as_str());
            let m = text::cat(m, ", ");
            let m = text::cat(m, dec_u64(self.size as u64).as_str());
            let m = text::cat(m, ") failed");
            return Err(os_error(errno, m));
        }
        Ok(
            DrmGetBoInfo {
                ext: 0,
                ext_flags: 0,
                handle: reply.handle,
                pad: 0,
                map_offset: 0,
                vaddr: 0,
                xdna_addr: 0,
            },
        )
    }

    /// What follows the GET_BO_INFO call for `handle`: on failure the
    /// error, together with the GEM_CLOSE request that releases the
    /// handle; else the BO, unmapped, with the address and mmap offset
    /// that the driver reported.
    pub fn on_bo_info(&self, handle: u32, ret: i32, errno: i32, info: &DrmGetBoInfo) -> (r: Result<
        Bo,
        (XdnaError, DrmGemClose),
    >)
        ensures
            ret != 0 ==> (r matches Err((e, c)) && e.code == errno && e.message@
                == get_bo_info_message(handle as nat) && c == (DrmGemClose {
                handle,
                pad: 0,
            })),
            ret == 0 ==> (r matches Ok(bo) && bo == (Bo {
                fd: self.fd,
                handle,
                size: self.size,
                xdna_addr: info.xdna_addr,
                map_offset: info.map_offset,
                mapping: None,
                is_dev_heap: self.ty == BO_DEV_HEAP,
            })),
    {
        if ret != 0 {
            let m = text::cat(String::from_str("GET_BO_INFO(handle="), dec_u64(handle as u64).as_str());
            let m = text::cat(m, ") failed");
            return Err((os_error(errno, m), close_request(handle)));
        }
        Ok(
            Bo {
                fd: self.fd,
                handle,
                size: self.size,
                xdna_addr: info.xdna_addr,
                map_offset: info.map_offset,
                mapping: None,
                is_dev_heap: self.ty == BO_DEV_HEAP,
            },
        )
    }
}

/// The GEM_CLOSE request that releases `handle`.
pub fn close_request(handle: u32) -> (r: DrmGemClose)
    ensures
        r == (DrmGemClose { handle, pad: 0 }),
{
    DrmGemClose { handle, pad: 0 }
}

/// The error for a failed GEM_CLOSE of `handle`.
pub fn close_error(handle: u32, errno: i32) -> (r: XdnaError)
    ensures
        r.code == errno,
        r.message@ == "GEM_CLOSE(handle="@ + dec(handle as nat) + ") failed"@,
{
    let m = text::cat(String::from_str("GEM_CLOSE(handle="), dec_u64(handle as u64).as_str());
    let m = text::cat(m, ") failed");
    os_error(errno, m)
}

/// Where the device heap goes inside a reservation of twice its size
/// starting at `base`: the heap-size-aligned block at `aligned`, and the
/// parts of the reservation before and after it, which are given back.
pub struct HeapPlacement {
    pub aligned: usize,
    /// (start, length) of the part before the block; length 0 if none.
    pub head: (usize, usize),
    /// (start, length) of the part after the block; length 0 if none.
    pub tail: (usize, usize),
}

impl Bo {
    /// Begins the allocation of a SHMEM BO (host-pinned pages visible to
    /// the NPU), its size rounded up to whole pages of `page_size` bytes.
    pub fn alloc_shmem(fd: i32, size: usize, page_size: usize) -> (r: BoAlloc)
        requires
            page_size > 0,
            page_aligned(size as int, page_size as int) <= usize::MAX,
        ensures
            r == (BoAlloc { fd, ty: BO_SHMEM, size: page_aligned(size as int, page_size as int) as usize }),
    {
        Self::alloc_typed(fd, size, BO_SHMEM, page_size)
    }

    /// Begins the allocation of a SHMEM BO with exactly the requested
    /// size in the request (the driver still page-aligns the memory).
    pub fn alloc_shmem_exact(fd: i32, size: usize) -> (r: BoAlloc)
        ensures
            r == (BoAlloc { fd, ty: BO_SHMEM, size }),
    {
        Self::alloc_typed_unaligned(fd, size, BO_SHMEM)
    }

    /// Begins the allocation of a DEV BO, sub-allocated from the
    /// per-client device heap, its size rounded up to whole pages.
    pub fn alloc_dev(fd: i32, size: usize, page_size: usize) -> (r: BoAlloc)
        requires
            page_size > 0,
            page_aligned(size as int, page_size as int) <= usize::MAX,
        ensures
            r == (BoAlloc { fd, ty: BO_DEV, size: page_aligned(size as int, page_size as int) as usize }),
    {
        Self::alloc_typed(fd, size, BO_DEV, page_size)
    }

    /// Begins the allocation of a CMD BO (the packets EXEC_CMD passes to
    /// the firmware), its size rounded up to whole pages.
    pub fn alloc_cmd(fd: i32, size: usize, page_size: usize) -> (r: BoAlloc)
        requires
            page_size > 0,
            page_aligned(size as int, page_size as int) <= usize::MAX,
        ensures
            r == (BoAlloc { fd, ty: BO_CMD, size: page_aligned(size as int, page_size as int) as usize }),
    {
        Self::alloc_typed(fd, size, BO_CMD, page_size)
    }

    /// Begins the allocation of the per-client DEV_HEAP BO, its size
    /// rounded up to whole pages.
    pub fn alloc_dev_heap(fd: i32, size: usize, page_size: usize) -> (r: BoAlloc)
        requires
            page_size > 0,
            page_aligned(size as int, page_size as int) <= usize::MAX,
        ensures
            r == (BoAlloc {
                fd,
                ty: BO_DEV_HEAP,
                size: page_aligned(size as int, page_size as int) as usize,
            }),
    {
        Self::alloc_typed(fd, size, BO_DEV_HEAP, page_size)
    }

    fn alloc_typed_unaligned(fd: i32, size: usize, ty: u32) -> (r: BoAlloc)
        ensures
            r == (BoAlloc { fd, ty, size }),
    {
        Self::alloc_typed_inner(fd, size, ty, false, 1)
    }

    fn alloc_typed(fd: i32, size: usize, ty: u32, page_size: usize) -> (r: BoAlloc)
        requires
            page_size > 0,
            page_aligned(size as int, page_size as int) <= usize::MAX,
        ensures
            r == (BoAlloc { fd, ty, size: page_aligned(size as int, page_size as int) as usize }),
    {
        Self::alloc_typed_inner(fd, size, ty, true, page_size)
    }

    fn alloc_typed_inner(fd: i32, size: usize, ty: u32, page_align: bool, page_size: usize) -> (r:
        BoAlloc)
        requires
            page_size > 0,
            page_align ==> page_aligned(size as int, page_size as int) <= usize::MAX,
        ensures
            r.fd == fd,
            r.ty == ty,
            r.size == (if page_align {
                page_aligned(size as int, page_size as int) as usize
            } else {
                size
            }),
    {
        let aligned = if page_align {
            let q = size / page_size;
            proof {
                let k = q as int + 1;
                assert(k <= k * page_size) by (nonlinear_arith)
                    requires
                        page_size >= 1,
                        k >= 1,
                ;
            }
            let n = if size % page_size == 0 {
                q
            } else {
                q + 1
            };
            proof {
                lemma_page_aligned(size as nat, page_size as nat);
                assert(n == div_ceil(size as int, page_size as int));
            }
            n * page_size
        } else {
            size
        };
        BoAlloc { fd, ty, size: aligned }
    }

    /// Whether the BO still has to be mapped into the process.
    pub fn needs_map(&self) -> (r: bool)
        ensures
            r == (self.mapping is None),
    {
        self.mapping.is_none()
    }

    /// Records that the BO was mapped at `addr` for `len` bytes. A BO
    /// maps once: when a mapping is already recorded, it is kept.
    pub fn record_mapping(&mut self, addr: usize, len: usize)
        ensures
            *final(self) == with_mapping(*old(self), addr, len),
    {
        if self.mapping.is_none() {
            self.mapping = Some((addr, len));
        }
    }

    /// The address of the BO's mapping in the process, if it is mapped:
    /// `None` until a mapping is recorded, then the recorded address.
    pub fn host_ptr(&self) -> (r: Option<usize>)
        ensures
            r == host_ptr_of(*self),
    {
        match self.mapping {
            Some((p, _)) => Some(p),
            None => None,
        }
    }

    /// For a DEV BO sub-allocated from `heap`: the (address, length) of
    /// its data inside the heap's mapping. Errors, with code 0, when the
    /// heap is not mapped or the BO's device range is not inside the
    /// heap's.
    pub fn dev_region_in_heap(&self, heap: &Bo) -> (r: Result<(usize, usize), XdnaError>)
        requires
            heap.mapping is Some && self.xdna_addr >= heap.xdna_addr ==> self.xdna_addr + self.size
                <= u64::MAX && heap.xdna_addr + heap.size <= u64::MAX,
            heap.mapping matches Some((p, _)) ==> (self.xdna_addr >= heap.xdna_addr
                && self.xdna_addr + self.size <= heap.xdna_addr + heap.size ==> p + (self.xdna_addr
                - heap.xdna_addr) <= usize::MAX),
        ensures
            heap.mapping is None ==> (r matches Err(e) && e.code == 0 && e.message@
                == "DEV_HEAP not mapped"@),
            heap.mapping is Some && (self.xdna_addr < heap.xdna_addr || self.xdna_addr + self.size
                > heap.xdna_addr + heap.size) ==> (r matches Err(e) && e.code == 0 && e.message@
                == outside_heap_message(self.xdna_addr, self.size, heap.xdna_addr, heap.size)),
            heap.mapping matches Some((p, _)) ==> (self.xdna_addr >= heap.xdna_addr
                && self.xdna_addr + self.size <= heap.xdna_addr + heap.size ==> r == Ok::<
                (usize, usize),
                XdnaError,
            >(((p + (self.xdna_addr - heap.xdna_addr)) as usize, self.size))),
    {
        let heap_ptr = match heap.host_ptr() {
            Some(p) => p,
            None => {
                return Err(XdnaError { code: 0, message: String::from_str("DEV_HEAP not mapped") });
            },
        };
        if self.xdna_addr < heap.xdna_addr || self.xdna_addr + self.size as u64 > heap.xdna_addr
            + heap.size as u64 {
            let m = text::cat(
                String::from_str("DEV BO xdna_addr="),
                hex_u64(self.xdna_addr).as_str(),
            );
            let m = text::cat(m, "+");
            let m = text::cat(m, dec_u64(self.size as u64).as_str());
            let m = text::cat(m, " not within heap xdna_addr=");
            let m = text::cat(m, hex_u64(heap.xdna_addr).as_str());
            let m = text::cat(m, "+");
            let m = text::cat(m, dec_u64(heap.size as u64).as_str());
            return Err(XdnaError { code: 0, message: m });
        }
        let offset = (self.xdna_addr - heap.xdna_addr) as usize;
        Ok((heap_ptr + offset, self.size))
    }

    /// The SYNC_BO request for the whole BO in `direction`.
    pub fn sync_request(&self, direction: u32) -> (r: DrmSyncBo)
        ensures
            r == (DrmSyncBo { handle: self.handle, direction, offset: 0, size: self.size as u64 }),
    {
        DrmSyncBo { handle: self.handle, direction, offset: 0, size: self.size as u64 }
    }

    /// The outcome of the SYNC_BO call: the error, with `errno` as its
    /// code, when `ret != 0`.
    pub fn on_sync(&self, direction: u32, ret: i32, errno: i32) -> (r: Result<(), XdnaError>)
        ensures
            ret == 0 <==> r is Ok,
            ret != 0 ==> (r matches Err(e) && e.code == errno && e.message@ == "SYNC_BO(handle="@
                + dec(self.handle as nat) + ", dir="@ + dec(direction as nat) + ") failed"@),
    {
        if ret != 0 {
            let m = text::cat(String::from_str("SYNC_BO(handle="), dec_u64(self.handle as u64).as_str());
            let m = text::cat(m, ", dir=");
            let m = text::cat(m, dec_u64(direction as u64).as_str());
            let m = text::cat(m, ") failed");
            return Err(os_error(errno, m));
        }
        Ok(())
    }

    /// Places the device heap of this BO's size inside an anonymous
    /// reservation of twice that size at `base`: the block starts at the
    /// first multiple of the size at or above `base` (the size is a power
    /// of two), and the head and tail of the reservation around it are
    /// the parts to give back.
    pub fn heap_placement(&self, base: usize) -> (r: HeapPlacement)
        requires
            self.size > 0,
            base + 2 * self.size <= usize::MAX,
        ensures
            r.aligned == (((base + self.size - 1) as usize) & !((self.size - 1) as usize)),
            r.aligned > base ==> r.head == (base, (r.aligned - base) as usize),
            r.aligned <= base ==> r.head.1 == 0,
            base + 2 * self.size > r.aligned + self.size ==> r.tail == (
                (r.aligned + self.size) as usize,
                (base + 2 * self.size - (r.aligned + self.size)) as usize,
            ),
            base + 2 * self.size <= r.aligned + self.size ==> r.tail.1 == 0,
            self.size & ((self.size - 1) as usize) == 0 ==> {
                &&& r.aligned & ((self.size - 1) as usize) == 0
                &&& base <= r.aligned
                &&& r.aligned + self.size <= base + 2 * self.size
            },
    {
        let alignment = self.size;
        let reserve = self.size * 2;
        let mask = alignment - 1;
        let x = base + mask;
        let aligned = x & !mask;
        assert(aligned <= x) by (bit_vector)
            requires
                aligned == x & !mask,
        ;
        proof {
            if alignment & mask == 0 {
                assert(aligned & mask == 0 && x - aligned <= mask) by (bit_vector)
                    requires
                        aligned == x & !mask,
                        alignment & mask == 0,
                        mask == alignment - 1,
                        alignment > 0,
                ;
            }
        }
        let head = if aligned > base {
            (base, aligned - base)
        } else {
            (base, 0)
        };
        let tail_start = aligned + self.size;
        let tail_end = base + reserve;
        let tail = if tail_end > tail_start {
            (tail_start, tail_end - tail_start)
        } else {
            (tail_start, 0)
        };
        HeapPlacement { aligned, head, tail }
    }
}

/// Touches the first byte of every page of the mapped device heap
/// `buf` (writes 0 at every multiple of `page_size`), so that all its
/// pages are faulted in before the firmware maps them; the other bytes
/// stay as they were.
pub fn prefault_pages(buf: &mut [u8], page_size: usize)
    requires
        page_size > 0,
    ensures
        final(buf)@.len() == old(buf)@.len(),
        forall|j: int|
            0 <= j < old(buf)@.len() ==> #[trigger] final(buf)@[j] == (if j % page_size as int
                == 0 {
                0u8
            } else {
                old(buf)@[j]
            }),
{
    let len = buf.len();
    let mut i: usize = 0;
    while i < len
        invariant
            len == buf@.len(),
            len == old(buf)@.len(),
            page_size > 0,
            i <= len,
            i < len ==> (i as int) % (page_size as int) == 0,
            forall|j: int|
                0 <= j < len ==> #[trigger] buf@[j] == (if j < i && j % page_size as int == 0 {
                    0u8
                } else {
                    old(buf)@[j]
                }),
        decreases len - i,
    {
        buf[i] = 0;
        let next = if len - i <= page_size {
            len
        } else {
            i + page_size
        };
        proof {
            assert forall|j: int| 0 <= j < len implies #[trigger] buf@[j] == (if j < next && j
                % page_size as int == 0 {
                0u8
            } else {
                old(buf)@[j]
            }) by {
                if i < j && j < next {
                    assert(j % (page_size as int) != 0) by (nonlinear_arith)
                        requires
                            (i as int) % (page_size as int) == 0,
                            i < j < i + page_size,
                            page_size > 0,
                    ;
                }
            }
            if next < len {
                assert((i + page_size) % (page_size as int) == 0) by (nonlinear_arith)
                    requires
                        (i as int) % (page_size as int) == 0,
                        page_size > 0,
                ;
            }
        }
        i = next;
    }
}

} // verus!
