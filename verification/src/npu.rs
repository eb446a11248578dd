//! The engine-side view of the NPU: whether one is available, which
//! operations it has kernels for, and where each operation is routed.
//! NPU offload is opportunistic; the iGPU path stays authoritative.

use vstd::prelude::*;
use crate::{XdnaError, text};
use crate::fmt::{dec, dec_u64};
use crate::bytes::{from_le_u16, from_le_u32, le_u16, push_u16_le, lemma_u16_roundtrip};
use crate::bo::Bo;
use crate::cmd::{CuBinding, ExecSubmit, submit_exec_cmd, ref_handles_of};
use crate::ert::{dpu_cmd_packet, dpu_args, start_cu_packet};
use crate::hwctx::{Hwctx, HwctxBuilder, kernel_hwctx_builder};
use crate::ioctl::{INVALID_BO_HANDLE, QOS_NORMAL_PRIORITY};
use crate::kernels::{
    MATVEC_288X288_COLUMNS, MATVEC_288X288_OPS_PER_CYCLE, PASSTHROUGH_4K_COLUMNS,
    PASSTHROUGH_4K_OPS_PER_CYCLE,
};
use crate::device::NpuInfo;
use crate::dispatch::{
    classify, compute_target, family_of, has_npu, npu_int8_tops, ComputeTarget, NpuFamily, OpClass,
};
use crate::runtime::Hipx;

verus! {

/// The operation classes for which a working NPU kernel is loaded.
#[derive(Default, Debug, Clone, Copy)]
pub struct AvailableOps {
    /// 4 KiB byte passthrough (a smoke test, not an engine op).
    pub passthrough_4k: bool,
    /// KV-codec asym dequant.
    pub kv_dequant: bool,
    /// INT8 GEMV / GEMM.
    pub int8_gemm: bool,
}

/// The persistent state of the i16 288x288 matrix-vector kernel: its
/// context, the bound CU, and the instruction, operand, placeholder and
/// command BOs, set up once and reused by every dispatch. The operand
/// and placeholder BOs are host mapped; the command BO holds the packet
/// that names them.
pub struct MatvecKernel {
    pub ctx: Hwctx,
    pub cu: CuBinding,
    pub instr_bo: Bo,
    /// Length of the instruction stream, in dwords.
    pub ninstr: u32,
    pub a_bo: Bo,
    pub b_bo: Bo,
    pub c_bo: Bo,
    pub bo3_bo: Bo,
    pub bo4_bo: Bo,
    pub cmd_bo: Bo,
}

/// The host address of a mapped BO.
pub open spec fn host_addr(bo: Bo) -> u64 {
    bo.mapping.unwrap().0 as u64
}

impl MatvecKernel {
    /// The five buffer BOs are mapped into the process.
    pub open spec fn mapped(&self) -> bool {
        &&& self.a_bo.mapping is Some
        &&& self.b_bo.mapping is Some
        &&& self.c_bo.mapping is Some
        &&& self.bo3_bo.mapping is Some
        &&& self.bo4_bo.mapping is Some
    }

    /// The buffer arguments of the kernel: A, B, C and the two
    /// placeholders, by host address.
    pub open spec fn buffer_addrs(&self) -> Seq<u64> {
        seq![
            host_addr(self.a_bo),
            host_addr(self.b_bo),
            host_addr(self.c_bo),
            host_addr(self.bo3_bo),
            host_addr(self.bo4_bo),
        ]
    }

    /// The BOs an EXEC_CMD of the kernel hands the driver as arguments,
    /// by handle.
    pub open spec fn arg_handles(&self) -> Seq<u32> {
        seq![
            self.instr_bo.handle,
            self.a_bo.handle,
            self.b_bo.handle,
            self.c_bo.handle,
            self.bo3_bo.handle,
            self.bo4_bo.handle,
        ]
    }
}

/// The NPU runtime that engine code holds when an NPU is present.
pub struct NpuRuntime {
    hipx: Hipx,
    family: NpuFamily,
    available_ops: AvailableOps,
    /// The matrix-vector kernel, set up on first use and then reused.
    matvec_288: Option<MatvecKernel>,
}

/// The next step of a matrix-vector product on the NPU.
pub enum MatvecStep {
    /// The kernel is not set up yet: set it up and install it.
    NeedKernel,
    /// Write `a_bytes` and `b_bytes` into the A and B BOs, zero the first
    /// `c_bytes` bytes of C, mark the command packet NEW, and submit.
    Submit { a_bytes: Vec<u8>, b_bytes: Vec<u8>, c_bytes: usize, submit: ExecSubmit },
}

impl NpuRuntime {
    /// A runtime only exists for an SoC with a usable NPU, and its family
    /// is the one its metadata classifies as. In every state the
    /// passthrough is available and the KV dequant is not; once the
    /// matrix-vector kernel is installed, INT8 GEMM is available.
    #[verifier::type_invariant]
    spec fn inv(self) -> bool {
        &&& self.hipx.info.aie_version.0 == 1
        &&& self.family == family_of(self.hipx.info)
        &&& self.available_ops.passthrough_4k
        &&& !self.available_ops.kv_dequant
        &&& self.matvec_288 is Some ==> self.available_ops.int8_gemm
    }

    /// The runtime's `Hipx`.
    pub closed spec fn hipx_of(&self) -> Hipx {
        self.hipx
    }

    /// The probed device metadata.
    pub open spec fn info(&self) -> NpuInfo {
        self.hipx_of().info
    }

    /// The operations with a kernel loaded.
    pub closed spec fn ops(&self) -> AvailableOps {
        self.available_ops
    }

    /// The matrix-vector kernel, once installed.
    pub closed spec fn matvec_kernel(&self) -> Option<MatvecKernel> {
        self.matvec_288
    }

    /// Whether the matrix-vector kernel is installed; a runtime with it
    /// installed reports INT8 GEMM as available.
    pub fn matvec_ready(&self) -> (r: bool)
        ensures
            r == self.matvec_kernel() is Some,
            r ==> self.ops().int8_gemm,
    {
        proof {
            use_type_invariant(self);
        }
        self.matvec_288.is_some()
    }

    /// Makes the runtime from an opened `Hipx`: refused (the `Hipx` handed
    /// back) when the SoC has no usable NPU; else with the family that the
    /// metadata classifies as and the passthrough kernel as the only
    /// operation available.
    pub fn from_hipx(hipx: Hipx) -> (r: Result<NpuRuntime, Hipx>)
        ensures
            hipx.info.aie_version.0 != 1 ==> r == Err::<NpuRuntime, Hipx>(hipx),
            hipx.info.aie_version.0 == 1 ==> (r matches Ok(rt) && rt.hipx_of() == hipx
                && rt.matvec_kernel() is None && rt.ops() == (AvailableOps {
                passthrough_4k: true,
                kv_dequant: false,
                int8_gemm: false,
            })),
    {
        let family = classify(&hipx.info);
        if !has_npu(&hipx.info) {
            return Err(hipx);
        }
        let available_ops = AvailableOps { passthrough_4k: true, kv_dequant: false, int8_gemm: false };
        Ok(NpuRuntime { hipx, family, available_ops, matvec_288: None })
    }

    /// The runtime's `Hipx`, for the driver calls made through it.
    pub fn hipx(&self) -> (r: &Hipx)
        ensures
            *r == self.hipx_of(),
    {
        &self.hipx
    }

    /// Gives the `Hipx` and the matrix-vector kernel back, to release them.
    pub fn into_parts(self) -> (r: (Hipx, Option<MatvecKernel>))
        ensures
            r.0 == self.hipx_of(),
            r.1 == self.matvec_kernel(),
    {
        (self.hipx, self.matvec_288)
    }

    /// The SoC family; always AIE-2P for a runtime that exists.
    pub fn family(&self) -> (r: NpuFamily)
        ensures
            r == family_of(self.info()),
            r == NpuFamily::Aie2p,
    {
        proof {
            use_type_invariant(self);
        }
        self.family
    }

    /// Peak INT8 TOPS reported by the firmware.
    pub fn tops_int8(&self) -> (r: u64)
        ensures
            r == self.info().npu_tops_max,
    {
        npu_int8_tops(&self.hipx.info)
    }

    /// Number of AIE columns.
    pub fn cols(&self) -> (r: u16)
        ensures
            r == self.info().aie_cols,
    {
        self.hipx.info.aie_cols
    }

    /// The operations with a kernel loaded.
    pub fn available_ops(&self) -> (r: &AvailableOps)
        ensures
            *r == self.ops(),
            r.passthrough_4k,
            !r.kv_dequant,
            self.matvec_kernel() is Some ==> r.int8_gemm,
    {
        proof {
            use_type_invariant(self);
        }
        &self.available_ops
    }

    /// Installs the matrix-vector kernel set up for this runtime, which
    /// makes INT8 GEMM available from then on; hands back the kernel it
    /// replaces, if any, to release.
    pub fn install_matvec_kernel(&mut self, k: MatvecKernel) -> (prev: Option<MatvecKernel>)
        ensures
            prev == old(self).matvec_kernel(),
            final(self).matvec_kernel() == Some(k),
            final(self).ops() == (AvailableOps { int8_gemm: true, ..old(self).ops() }),
            final(self).hipx_of() == old(self).hipx_of(),
    {
        proof {
            use_type_invariant(&*self);
        }
        self.available_ops.int8_gemm = true;
        let mut slot = Some(k);
        std::mem::swap(&mut self.matvec_288, &mut slot);
        slot
    }

    /// Begins an i16 288x288 matrix-vector product of `a` (M*K values,
    /// row-major) and `b` (K values); `c_len` is the length of the result
    /// buffer, checked when `wait`. Errors, with code 0, on a length
    /// mismatch. Otherwise asks for the kernel while none is installed,
    /// and once one is, reuses its context and BOs: the operands as
    /// little-endian bytes for its A and B BOs, the size of C, and the
    /// submission of its command BO with its instruction and buffer BOs.
    pub fn matvec_begin(&self, a: &[i16], b: &[i16], c_len: usize, wait: bool) -> (r: Result<
        MatvecStep,
        XdnaError,
    >)
        ensures
            matvec_length_message(a@.len(), b@.len(), c_len as nat, wait) matches Some(m) ==> (
            r matches Err(e) && e.code == 0 && e.message@ == m),
            matvec_length_message(a@.len(), b@.len(), c_len as nat, wait) is None
                && self.matvec_kernel() is None ==> r matches Ok(MatvecStep::NeedKernel),
            matvec_length_message(a@.len(), b@.len(), c_len as nat, wait) is None ==> (
            self.matvec_kernel() matches Some(k) ==> (r matches Ok(
                MatvecStep::Submit { a_bytes, b_bytes, c_bytes, submit },
            ) && a_bytes@ == i16_le_bytes(a@) && b_bytes@ == i16_le_bytes(b@) && c_bytes
                == MATVEC_288X288_M * 4 && submit.fd == self.hipx_of().device.fd && submit.hwctx
                == k.ctx.handle && submit.cmd_handles@ == seq![k.cmd_bo.handle]
                && submit.arg_handles@ == k.arg_handles())),
    {
        match matvec_check_lengths(a.len(), b.len(), c_len, wait) {
            Err(e) => {
                return Err(e);
            },
            Ok(()) => {},
        }
        let k = match &self.matvec_288 {
            None => {
                return Ok(MatvecStep::NeedKernel);
            },
            Some(k) => k,
        };
        let a_bytes = i16_to_le_bytes(a);
        let b_bytes = i16_to_le_bytes(b);
        let submit = submit_exec_cmd(
            self.hipx.device.fd,
            &k.ctx,
            &[&k.cmd_bo],
            &[&k.instr_bo, &k.a_bo, &k.b_bo, &k.c_bo, &k.bo3_bo, &k.bo4_bo],
        );
        proof {
            assert(ref_handles_of(seq![&k.cmd_bo]) =~= seq![k.cmd_bo.handle]);
            assert(ref_handles_of(seq![&k.instr_bo, &k.a_bo, &k.b_bo, &k.c_bo, &k.bo3_bo, &k.bo4_bo])
                =~= k.arg_handles());
        }
        Ok(MatvecStep::Submit { a_bytes, b_bytes, c_bytes: MATVEC_288X288_M * 4, submit })
    }

    /// The installed matrix-vector kernel, to wait on a submitted product
    /// and read its result; errors, with code 0, when none is installed.
    pub fn matvec_kernel_for_wait(&self) -> (r: Result<&MatvecKernel, XdnaError>)
        ensures
            self.matvec_kernel() is None ==> (r matches Err(e) && e.code == 0 && e.message@
                == "matvec kernel not initialized"@),
            self.matvec_kernel() matches Some(k) ==> (r matches Ok(kr) && *kr == k),
    {
        match &self.matvec_288 {
            Some(k) => Ok(k),
            None => Err(
                XdnaError { code: 0, message: String::from_str("matvec kernel not initialized") },
            ),
        }
    }

    /// Begins the 4 KiB passthrough: the context request for its kernel,
    /// or an error, with code 0, when the passthrough kernel is not
    /// available.
    pub fn passthrough_4k_begin(&self) -> (r: Result<HwctxBuilder, XdnaError>)
        ensures
            !self.ops().passthrough_4k ==> (r matches Err(e) && e.code == 0 && e.message@
                == "passthrough_4k kernel not available"@),
            self.ops().passthrough_4k ==> (r matches Ok(hb) && hb == kernel_hwctx_builder(
                PASSTHROUGH_4K_COLUMNS,
                PASSTHROUGH_4K_OPS_PER_CYCLE,
            )),
    {
        if !self.available_ops.passthrough_4k {
            return Err(
                XdnaError {
                    code: 0,
                    message: String::from_str("passthrough_4k kernel not available"),
                },
            );
        }
        Ok(HwctxBuilder::for_kernel(PASSTHROUGH_4K_COLUMNS, PASSTHROUGH_4K_OPS_PER_CYCLE))
    }
}

/// Whether a kernel for `op` is loaded, by the available operations.
pub open spec fn kernel_loaded(ops: AvailableOps, op: OpClass) -> bool {
    match op {
        OpClass::KvCodec => ops.kv_dequant,
        OpClass::Int8Gemm {  } => ops.int8_gemm,
        _ => false,
    }
}

/// Where `op` runs: the iGPU without an NPU runtime; else the NPU when a
/// kernel for `op` is loaded (and the SoC has an NPU, which a runtime's
/// existence implies).
pub fn route(npu: &Option<NpuRuntime>, op: OpClass) -> (r: ComputeTarget)
    ensures
        npu is None ==> r == ComputeTarget::Igpu,
        npu matches Some(rt) ==> r == (if kernel_loaded(rt.ops(), op) {
            ComputeTarget::Npu
        } else {
            ComputeTarget::Igpu
        }),
{
    let rt = match npu {
        Some(rt) => rt,
        None => {
            return ComputeTarget::Igpu;
        },
    };
    proof {
        use_type_invariant(rt);
    }
    let pdi_available = match op {
        OpClass::KvCodec => rt.available_ops.kv_dequant,
        OpClass::Int8Gemm {  } => rt.available_ops.int8_gemm,
        OpClass::EmbeddingSidecar | OpClass::VisionEncoder | OpClass::Sampler {  } => false,
        OpClass::Other => false,
    };
    compute_target(op, &rt.hipx.info, pdi_available)
}

/// Rows of the i16 288x288 matrix-vector kernel.
pub const MATVEC_288X288_M: usize = 288;

/// Columns of the i16 288x288 matrix-vector kernel.
pub const MATVEC_288X288_K: usize = 288;

/// The error message for the operand lengths of a 288x288
/// matrix-vector product, if they are wrong: `a` must hold M*K values,
/// `b` K, and, when the result is waited for, `c` M; the first mismatch
/// is reported.
pub open spec fn matvec_length_message(a_len: nat, b_len: nat, c_len: nat, wait: bool) -> Option<
    Seq<char>,
> {
    if a_len != MATVEC_288X288_M * MATVEC_288X288_K {
        Some(
            "matvec a.len="@ + dec(a_len) + " != "@ + dec(
                (MATVEC_288X288_M * MATVEC_288X288_K) as nat,
            ),
        )
    } else if b_len != MATVEC_288X288_K {
        Some("matvec b.len="@ + dec(b_len) + " != "@ + dec(MATVEC_288X288_K as nat))
    } else if wait && c_len != MATVEC_288X288_M {
        Some("matvec c.len="@ + dec(c_len) + " != "@ + dec(MATVEC_288X288_M as nat))
    } else {
        None
    }
}

/// Checks the operand lengths of a 288x288 matrix-vector product: `a`
/// holds M*K values, `b` holds K, and, when the result is waited for,
/// `c` holds M. Errors, with code 0, on the first mismatch.
pub fn matvec_check_lengths(a_len: usize, b_len: usize, c_len: usize, wait: bool) -> (r: Result<
    (),
    XdnaError,
>)
    ensures
        r is Ok <==> matvec_length_message(a_len as nat, b_len as nat, c_len as nat, wait) is None,
        matvec_length_message(a_len as nat, b_len as nat, c_len as nat, wait) matches Some(m) ==> (
        r matches Err(e) && e.code == 0 && e.message@ == m),
{
    let m = MATVEC_288X288_M;
    let k = MATVEC_288X288_K;
    if a_len != m * k {
        let s = text::cat(String::from_str("matvec a.len="), dec_u64(a_len as u64).as_str());
        let s = text::cat(s, " != ");
        let s = text::cat(s, dec_u64((m * k) as u64).as_str());
        return Err(XdnaError { code: 0, message: s });
    }
    if b_len != k {
        let s = text::cat(String::from_str("matvec b.len="), dec_u64(b_len as u64).as_str());
        let s = text::cat(s, " != ");
        let s = text::cat(s, dec_u64(k as u64).as_str());
        return Err(XdnaError { code: 0, message: s });
    }
    if wait && c_len != m {
        let s = text::cat(String::from_str("matvec c.len="), dec_u64(c_len as u64).as_str());
        let s = text::cat(s, " != ");
        let s = text::cat(s, dec_u64(m as u64).as_str());
        return Err(XdnaError { code: 0, message: s });
    }
    Ok(())
}

/// Writes `vals` into `out` as consecutive little-endian 16-bit values,
/// leaving the rest of `out` as it was.
pub fn pack_i16_le(vals: &[i16], out: &mut [u8])
    requires
        2 * vals@.len() <= old(out)@.len(),
    ensures
        final(out)@.len() == old(out)@.len(),
        forall|i: int|
            0 <= i < vals@.len() ==> final(out)@[2 * i] == ((vals@[i] as u16) & 0xff) as u8
                && final(out)@[2 * i + 1] == (((vals@[i] as u16) >> 8u16) & 0xff) as u8,
        forall|j: int| 2 * vals@.len() <= j < old(out)@.len() ==> final(out)@[j] == old(out)@[j],
{
    let n = vals.len();
    let olen = out.len();
    let mut i: usize = 0;
    while i < n
        invariant
            olen == out@.len(),
            n == vals@.len(),
            2 * n <= out@.len(),
            out@.len() == old(out)@.len(),
            i <= n,
            forall|p: int|
                0 <= p < i ==> out@[2 * p] == ((vals@[p] as u16) & 0xff) as u8 && out@[2 * p + 1]
                    == (((vals@[p] as u16) >> 8u16) & 0xff) as u8,
            forall|j: int| 2 * n <= j < old(out)@.len() ==> out@[j] == old(out)@[j],
        decreases n - i,
    {
        let v = vals[i] as u16;
        out[2 * i] = (v & 0xff) as u8;
        out[2 * i + 1] = ((v >> 8) & 0xff) as u8;
        i = i + 1;
    }
}

/// Reads `c.len()` consecutive little-endian 32-bit values from `bytes`
/// into `c`.
pub fn unpack_i32_le(bytes: &[u8], c: &mut [i32])
    requires
        4 * old(c)@.len() <= bytes@.len(),
    ensures
        final(c)@.len() == old(c)@.len(),
        forall|i: int|
            0 <= i < old(c)@.len() ==> final(c)@[i] == from_le_u32(
                bytes@.subrange(4 * i, 4 * i + 4),
            ) as i32,
{
    let n = c.len();
    let blen = bytes.len();
    let mut i: usize = 0;
    while i < n
        invariant
            blen == bytes@.len(),
            n == c@.len(),
            n == old(c)@.len(),
            4 * n <= bytes@.len(),
            i <= n,
            forall|p: int|
                0 <= p < i ==> c@[p] == from_le_u32(bytes@.subrange(4 * p, 4 * p + 4)) as i32,
        decreases n - i,
    {
        let v = crate::bytes::read_u32_le(bytes, 4 * i);
        c[i] = v as i32;
        i = i + 1;
    }
}

/// The values of `vals`, each as two little-endian bytes.
pub open spec fn i16_le_bytes(vals: Seq<i16>) -> Seq<u8>
    decreases vals.len(),
{
    if vals.len() == 0 {
        Seq::empty()
    } else {
        i16_le_bytes(vals.drop_last()) + le_u16(vals.last() as u16)
    }
}

/// The bytes of `vals` hold value `i` at bytes `2i, 2i+1`: reading them
/// back as a little-endian `i16` gives `vals[i]`.
pub proof fn lemma_i16_le_bytes_roundtrip(vals: Seq<i16>, i: int)
    requires
        0 <= i < vals.len(),
    ensures
        i16_le_bytes(vals).len() == 2 * vals.len(),
        from_le_u16(i16_le_bytes(vals).subrange(2 * i, 2 * i + 2)) as i16 == vals[i],
    decreases vals.len(),
{
    lemma_i16_le_bytes_len(vals);
    let n = vals.len() as int;
    let front = i16_le_bytes(vals.drop_last());
    lemma_i16_le_bytes_len(vals.drop_last());
    if i < n - 1 {
        lemma_i16_le_bytes_roundtrip(vals.drop_last(), i);
        assert(i16_le_bytes(vals).subrange(2 * i, 2 * i + 2) =~= front.subrange(2 * i, 2 * i + 2));
    } else {
        let x = vals.last();
        assert(i16_le_bytes(vals).subrange(2 * i, 2 * i + 2) =~= le_u16(x as u16));
        lemma_u16_roundtrip(x as u16);
        assert(((x as u16) as i16) == x) by (bit_vector);
    }
}

/// Two bytes per value.
proof fn lemma_i16_le_bytes_len(vals: Seq<i16>)
    ensures
        i16_le_bytes(vals).len() == 2 * vals.len(),
    decreases vals.len(),
{
    if vals.len() > 0 {
        lemma_i16_le_bytes_len(vals.drop_last());
    }
}

/// The values of `vals`, each as two little-endian bytes.
pub fn i16_to_le_bytes(vals: &[i16]) -> (r: Vec<u8>)
    ensures
        r@ == i16_le_bytes(vals@),
{
    let mut v: Vec<u8> = Vec::new();
    let mut i: usize = 0;
    while i < vals.len()
        invariant
            i <= vals@.len(),
            v@ == i16_le_bytes(vals@.take(i as int)),
        decreases vals@.len() - i,
    {
        push_u16_le(&mut v, vals[i] as u16);
        proof {
            assert(vals@.take(i + 1).drop_last() =~= vals@.take(i as int));
        }
        i = i + 1;
    }
    assert(vals@.take(vals@.len() as int) =~= vals@);
    v
}

/// The context request for the matrix-vector kernel.
pub fn matvec_hwctx_builder() -> (r: HwctxBuilder)
    ensures
        r == kernel_hwctx_builder(MATVEC_288X288_COLUMNS, MATVEC_288X288_OPS_PER_CYCLE),
{
    HwctxBuilder::for_kernel(MATVEC_288X288_COLUMNS, MATVEC_288X288_OPS_PER_CYCLE)
}

/// The command packet of the matrix-vector kernel `k`: CU 0 runs its
/// instruction stream with A, B, C and the two placeholders as buffers.
pub fn matvec_cmd_packet(k: &MatvecKernel) -> (p: Vec<u8>)
    requires
        k.mapped(),
    ensures
        p@ == start_cu_packet(1, dpu_args(k.instr_bo.xdna_addr, k.ninstr, k.buffer_addrs()), 256),
{
    let bos: [u64; 5] = [
        k.a_bo.mapping.unwrap().0 as u64,
        k.b_bo.mapping.unwrap().0 as u64,
        k.c_bo.mapping.unwrap().0 as u64,
        k.bo3_bo.mapping.unwrap().0 as u64,
        k.bo4_bo.mapping.unwrap().0 as u64,
    ];
    assert(bos@ =~= k.buffer_addrs());
    dpu_cmd_packet(1, k.instr_bo.xdna_addr, k.ninstr, bos)
}

/// The command packet of the 4 KiB passthrough: CU 0 runs the
/// instruction stream at `instr_addr` (`ninstr` dwords) copying the
/// buffer at `input_addr` to the one at `output_addr`.
pub fn passthrough_cmd_packet(instr_addr: u64, ninstr: u32, input_addr: u64, output_addr: u64) -> (p:
    Vec<u8>)
    ensures
        p@ == start_cu_packet(
            1,
            dpu_args(instr_addr, ninstr, seq![input_addr, output_addr, 0u64, 0u64, 0u64]),
            256,
        ),
{
    let bos: [u64; 5] = [input_addr, output_addr, 0, 0, 0];
    assert(bos@ =~= seq![input_addr, output_addr, 0u64, 0u64, 0u64]);
    dpu_cmd_packet(1, instr_addr, ninstr, bos)
}

/// Reads `c.len()` consecutive little-endian 16-bit values from `bytes`
/// into `c`.
pub fn unpack_i16_le(bytes: &[u8], c: &mut [i16])
    requires
        2 * old(c)@.len() <= bytes@.len(),
    ensures
        final(c)@.len() == old(c)@.len(),
        forall|i: int|
            0 <= i < old(c)@.len() ==> final(c)@[i] == from_le_u16(
                bytes@.subrange(2 * i, 2 * i + 2),
            ) as i16,
{
    let n = c.len();
    let blen = bytes.len();
    let mut i: usize = 0;
    while i < n
        invariant
            blen == bytes@.len(),
            n == c@.len(),
            n == old(c)@.len(),
            2 * n <= bytes@.len(),
            i <= n,
            forall|p: int|
                0 <= p < i ==> c@[p] == from_le_u16(bytes@.subrange(2 * p, 2 * p + 2)) as i16,
        decreases n - i,
    {
        let v = crate::bytes::read_u16_le(bytes, 2 * i);
        c[i] = v as i16;
        i = i + 1;
    }
}

} // verus!
