//! NPU dispatch predicates: what engine code asks to pick kernels,
//! tile shapes and column counts for the SoC at hand.

use vstd::prelude::*;
use crate::device::NpuInfo;

verus! {

/// Coarse SoC family classification.
#[derive(Debug, Clone, Copy, PartialEq, Eq, Structural)]
pub enum NpuFamily {
    /// AIE-2P / NPU5 (Strix Halo): 8 columns of 4 core rows.
    Aie2p,
    /// Anything not classified yet; no NPU dispatch then.
    Unknown,
}

/// The family an AIE version reports: AIE major version 1 is AIE-2P.
pub open spec fn family_of(info: NpuInfo) -> NpuFamily {
    if info.aie_version.0 == 1 {
        NpuFamily::Aie2p
    } else {
        NpuFamily::Unknown
    }
}

/// Classifies by the AIE version from QUERY_AIE_VERSION (the AIE
/// architecture, not the firmware build).
pub fn classify(info: &NpuInfo) -> (r: NpuFamily)
    ensures
        r == family_of(*info),
{
    match info.aie_version {
        (1, _) => NpuFamily::Aie2p,
        _ => NpuFamily::Unknown,
    }
}

/// Whether the SoC has a usable NPU at all.
pub fn has_npu(info: &NpuInfo) -> (r: bool)
    ensures
        r == (family_of(*info) != NpuFamily::Unknown),
        r == (info.aie_version.0 == 1),
{
    !matches!(classify(info), NpuFamily::Unknown)
}

/// Peak INT8 TOPS reported by the firmware.
pub fn npu_int8_tops(info: &NpuInfo) -> (r: u64)
    ensures
        r == info.npu_tops_max,
{
    info.npu_tops_max
}

/// Total number of columns in the AIE array.
pub fn cols_available(info: &NpuInfo) -> (r: u16)
    ensures
        r == info.aie_cols,
{
    info.aie_cols
}

/// Core tile rows per column (the rows that run kernels).
pub fn core_rows(info: &NpuInfo) -> (r: u16)
    ensures
        r == info.core_tiles.1,
{
    info.core_tiles.1
}

/// Whether the NPU sits on a UMA SoC, where a dmabuf from the iGPU can be
/// used without a copy. Every NPU targeted today is, so this is `has_npu`.
pub fn npu_uma_with_igpu(info: &NpuInfo) -> (r: bool)
    ensures
        r == (info.aie_version.0 == 1),
{
    has_npu(info)
}

/// Whether the NPU's peak INT8 throughput beats an estimate for the iGPU.
pub fn npu_beats_igpu_int8(info: &NpuInfo, igpu_int8_tops_estimate: u64) -> (r: bool)
    ensures
        r == (info.npu_tops_max > igpu_int8_tops_estimate),
{
    npu_int8_tops(info) > igpu_int8_tops_estimate
}

/// The classes of engine operations that routing decides for.
#[derive(Debug, Clone, Copy, PartialEq, Eq, Structural)]
pub enum OpClass {
    KvCodec,
    Int8Gemm {},
    EmbeddingSidecar,
    VisionEncoder,
    Sampler {},
    Other,
}

/// Where an operation runs.
#[derive(Debug, Clone, Copy, PartialEq, Eq, Structural)]
pub enum ComputeTarget {
    Igpu,
    Npu,
}

/// The target for `op`: the NPU when a kernel for it is loaded and the
/// SoC has a usable NPU, else the iGPU.
pub fn compute_target(op: OpClass, info: &NpuInfo, pdi_available: bool) -> (r: ComputeTarget)
    ensures
        r == (if pdi_available && info.aie_version.0 == 1 {
            ComputeTarget::Npu
        } else {
            ComputeTarget::Igpu
        }),
{
    if pdi_available && has_npu(info) {
        ComputeTarget::Npu
    } else {
        ComputeTarget::Igpu
    }
}

/// UMA sharing with the iGPU is available exactly when an NPU is.
pub proof fn lemma_uma_iff_npu(info: NpuInfo)
    ensures
        (family_of(info) != NpuFamily::Unknown) == (info.aie_version.0 == 1),
{
}

} // verus!
