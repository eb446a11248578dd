//! The NPU kernels this library drives: their hardware-context shape
//! and the layout of their kernel-argument space. (The kernel binaries
//! themselves are loaded by the program that dispatches them.)

use vstd::prelude::*;

verus! {

/// Byte offsets in the argument space of a DPU-instruction kernel: the
/// opcode (u64), the instruction buffer address (u64), its length in
/// dwords (u32), then five buffer addresses (u64 each, 4-byte packed).
pub const ARG_OPCODE: usize = 0x00;

pub const ARG_INSTR_PTR: usize = 0x08;

pub const ARG_NINSTR: usize = 0x10;

pub const ARG_BO0: usize = 0x14;

pub const ARG_BO1: usize = 0x1C;

pub const ARG_BO2: usize = 0x24;

pub const ARG_BO3: usize = 0x2C;

pub const ARG_BO4: usize = 0x34;

/// The size of that argument space: `ARG_BO4` and its eight bytes.
pub const ARG_SPACE_BYTES: usize = 0x3C;

/// The opcode that runs a DPU instruction stream.
pub const DPU_OPCODE: u64 = 3;

/// The kernel id that the passthrough and matrix kernels are bound under.
pub const KERNEL_ID: u32 = 0x901;

/// 4 KiB byte passthrough: columns, ops per cycle and buffer size.
pub const PASSTHROUGH_4K_COLUMNS: u32 = 8;

pub const PASSTHROUGH_4K_OPS_PER_CYCLE: u32 = 2048;

pub const PASSTHROUGH_4K_BYTES: usize = 4096;

/// i16 288x288 matrix-vector product: columns and ops per cycle.
pub const MATVEC_288X288_COLUMNS: u32 = 8;

pub const MATVEC_288X288_OPS_PER_CYCLE: u32 = 2048;

/// 4-core i16 512x512x512 matrix product.
pub const MATMUL_512_4C_COLUMNS: u32 = 8;

pub const MATMUL_512_4C_OPS_PER_CYCLE: u32 = 2048;

pub const MATMUL_512_4C_M: usize = 512;

pub const MATMUL_512_4C_K: usize = 512;

pub const MATMUL_512_4C_N: usize = 512;

/// 4-core i8 512x512x512 matrix product.
pub const MATMUL_I8_512_4C_COLUMNS: u32 = 8;

pub const MATMUL_I8_512_4C_OPS_PER_CYCLE: u32 = 2048;

pub const MATMUL_I8_512_4C_M: usize = 512;

pub const MATMUL_I8_512_4C_K: usize = 512;

pub const MATMUL_I8_512_4C_N: usize = 512;

} // verus!
