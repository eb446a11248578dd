//! Hardware contexts: a slice of the AIE column array reserved for one
//! process. CUs are bound to it before commands run, and the driver
//! returns a syncobj to wait on for command completion.
//!
//! On AIE-2P the driver manages the queue itself, so no queue BO is
//! passed (`umq_bo` is the invalid handle).

use vstd::prelude::*;
use crate::{XdnaError, text};
use crate::fmt::{dec, dec_u64};
use crate::bo::os_error;
use crate::ioctl::{QosInfo, DrmCreateHwctx, DrmDestroyHwctx, QOS_NORMAL_PRIORITY, INVALID_BO_HANDLE};

verus! {

/// A hardware context request.
pub struct HwctxBuilder {
    pub num_columns: u32,
    pub max_opc: u32,
    pub mem_size: u32,
    pub priority: u32,
    pub gops: u32,
    pub fps: u32,
    pub log_buf_bo: u32,
}

impl Default for HwctxBuilder {
    /// One column, normal priority, everything else zero.
    fn default() -> (r: Self)
        ensures
            r.num_columns == 1,
            r.max_opc == 0,
            r.mem_size == 0,
            r.priority == QOS_NORMAL_PRIORITY,
            r.gops == 0,
            r.fps == 0,
            r.log_buf_bo == INVALID_BO_HANDLE,
    {
        HwctxBuilder {
            num_columns: 1,
            max_opc: 0,
            mem_size: 0,
            priority: QOS_NORMAL_PRIORITY,
            gops: 0,
            fps: 0,
            log_buf_bo: INVALID_BO_HANDLE,
        }
    }
}

/// The context request for a kernel that spans `num_columns` columns
/// with `max_opc` ops per cycle: the default request otherwise.
pub open spec fn kernel_hwctx_builder(num_columns: u32, max_opc: u32) -> HwctxBuilder {
    HwctxBuilder {
        num_columns,
        max_opc,
        mem_size: 0,
        priority: QOS_NORMAL_PRIORITY,
        gops: 0,
        fps: 0,
        log_buf_bo: INVALID_BO_HANDLE,
    }
}

impl HwctxBuilder {
    /// The context request for a kernel that spans `num_columns` columns
    /// with `max_opc` ops per cycle.
    pub fn for_kernel(num_columns: u32, max_opc: u32) -> (r: HwctxBuilder)
        ensures
            r == kernel_hwctx_builder(num_columns, max_opc),
    {
        let mut b = HwctxBuilder::default();
        b.num_columns = num_columns;
        b.max_opc = max_opc;
        b
    }
}

/// A hardware context on the device `fd`.
pub struct Hwctx {
    pub fd: i32,
    pub handle: u32,
    pub syncobj_handle: u32,
    pub umq_doorbell: u32,
}

/// A hardware context creation under way: the QoS block and the
/// CREATE_HWCTX request to send (the request points at the QoS block).
pub struct HwctxCreate {
    pub fd: i32,
    pub qos: QosInfo,
    pub req: DrmCreateHwctx,
}

/// What beginning a context creation on `fd` for `b` yields, with
/// `core_rows` AIE core rows per column: the QoS block of `b`, and a
/// CREATE_HWCTX request for `num_columns * core_rows` tiles.
pub open spec fn hwctx_create_spec(fd: i32, core_rows: int, b: HwctxBuilder) -> HwctxCreate {
    HwctxCreate {
        fd,
        qos: QosInfo {
            gops: b.gops,
            fps: b.fps,
            dma_bandwidth: 0,
            latency: 0,
            frame_exec_time: 0,
            priority: b.priority,
        },
        req: DrmCreateHwctx {
            ext: 0,
            ext_flags: 0,
            qos_p: 0,
            umq_bo: INVALID_BO_HANDLE,
            log_buf_bo: b.log_buf_bo,
            max_opc: b.max_opc,
            num_tiles: (b.num_columns * core_rows) as u32,
            mem_size: b.mem_size,
            umq_doorbell: 0,
            handle: 0,
            syncobj_handle: 0,
        },
    }
}

impl Hwctx {
    /// Begins the creation of a hardware context on `fd` for `b`. The
    /// driver expects `num_tiles` = `num_columns` times `core_rows` (the
    /// core row count from QUERY_AIE_METADATA).
    pub fn create(fd: i32, core_rows: u32, b: &HwctxBuilder) -> (r: HwctxCreate)
        requires
            b.num_columns * core_rows <= u32::MAX,
        ensures
            r == hwctx_create_spec(fd, core_rows as int, *b),
            r.req.num_tiles == b.num_columns * core_rows,
    {
        let qos = QosInfo {
            gops: b.gops,
            fps: b.fps,
            dma_bandwidth: 0,
            latency: 0,
            frame_exec_time: 0,
            priority: b.priority,
        };
        let req = DrmCreateHwctx {
            ext: 0,
            ext_flags: 0,
            qos_p: 0,
            umq_bo: INVALID_BO_HANDLE,
            log_buf_bo: b.log_buf_bo,
            max_opc: b.max_opc,
            num_tiles: b.num_columns * core_rows,
            mem_size: b.mem_size,
            umq_doorbell: 0,
            handle: 0,
            syncobj_handle: 0,
        };
        HwctxCreate { fd, qos, req }
    }

    /// The DESTROY_HWCTX request for this context.
    pub fn destroy_request(&self) -> (r: DrmDestroyHwctx)
        ensures
            r == (DrmDestroyHwctx { handle: self.handle, pad: 0 }),
    {
        DrmDestroyHwctx { handle: self.handle, pad: 0 }
    }
}

impl HwctxCreate {
    /// The CREATE_HWCTX request, pointing at the QoS block placed at
    /// address `qos_addr`.
    pub fn request(&self, qos_addr: u64) -> (r: DrmCreateHwctx)
        ensures
            r == (DrmCreateHwctx { qos_p: qos_addr, ..self.req }),
    {
        DrmCreateHwctx { qos_p: qos_addr, ..self.req }
    }

    /// The outcome of the CREATE_HWCTX call: the error, with `errno` as
    /// its code, when `ret != 0`; else the context with the handle,
    /// syncobj and doorbell that the driver returned.
    pub fn on_reply(&self, ret: i32, errno: i32, reply: &DrmCreateHwctx) -> (r: Result<
        Hwctx,
        XdnaError,
    >)
        ensures
            ret != 0 ==> (r matches Err(e) && e.code == errno && e.message@
                == "CREATE_HWCTX(num_tiles="@ + dec(self.req.num_tiles as nat) + ", max_opc="@
                + dec(self.req.max_opc as nat) + ", mem_size="@ + dec(self.req.mem_size as nat)
                + ") failed"@),
            ret == 0 ==> r == Ok::<Hwctx, XdnaError>(
                Hwctx {
                    fd: self.fd,
                    handle: reply.handle,
                    syncobj_handle: reply.syncobj_handle,
                    umq_doorbell: reply.umq_doorbell,
                },
            ),
    {
        if ret != 0 {
            let m = text::cat(
                String::from_str("CREATE_HWCTX(num_tiles="),
                dec_u64(self.req.num_tiles as u64).as_str(),
            );
            let m = text::cat(m, ", max_opc=");
            let m = text::cat(m, dec_u64(self.req.max_opc as u64).as_str());
            let m = text::cat(m, ", mem_size=");
            let m = text::cat(m, dec_u64(self.req.mem_size as u64).as_str());
            let m = text::cat(m, ") failed");
            return Err(os_error(errno, m));
        }
        Ok(
            Hwctx {
                fd: self.fd,
                handle: reply.handle,
                syncobj_handle: reply.syncobj_handle,
                umq_doorbell: reply.umq_doorbell,
            },
        )
    }
}

} // verus!
