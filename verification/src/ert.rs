//! ERT (Embedded Runtime Toolkit) command packets, the format the NPU
//! firmware reads out of a CMD buffer object on EXEC_CMD.
//!
//! For ERT_START_NPU the layout is, in little-endian dwords:
//!   header      [1 dword] state(4):stat(1):unused(5):ext_masks(2):count(11):opcode(5):type(4)
//!   cu_mask     [1 dword] mandatory CU mask (bit N selects CU index N)
//!   npu_data    [4 dwords] instruction buffer address (u64), its size (u32),
//!                          instruction property count (u32)
//!   kernel args [N dwords] per-kernel argument space
//!
//! `count` is the number of dwords after the header.

use vstd::prelude::*;
use crate::bytes::{
    le_u32, le_u64, splice, write_u32_le, write_u64_le, from_le_u32, lemma_u32_roundtrip,
    push_u32_le, push_u64_le, push_zeros, read_u32_le,
};
use crate::kernels::{ARG_SPACE_BYTES, DPU_OPCODE};

verus! {

/// ert_cmd_state: set to NEW before submission; the firmware writes
/// COMPLETED (or an error state) when done.
pub const ERT_CMD_STATE_NEW: u32 = 1;

pub const ERT_CMD_STATE_COMPLETED: u32 = 4;

pub const ERT_CMD_STATE_ERROR: u32 = 5;

pub const ERT_CMD_STATE_ABORT: u32 = 6;

pub const ERT_CMD_STATE_TIMEOUT: u32 = 7;

/// ert_cmd_opcode values used for the NPU.
pub const ERT_START_CU: u32 = 0;

pub const ERT_START_DPU: u32 = 18;

pub const ERT_START_NPU: u32 = 20;

/// ert_cmd_type for CU-targeted commands.
pub const ERT_CU_TYPE: u32 = 3;

/// The header word: state NEW in bits 0-3, stat/unused/extra-CU-mask
/// bits 4-11 zero, `count` in bits 12-22, `opcode` in bits 23-27 and
/// `cmd_type` in bits 28-31, each field cut to its width.
pub open spec fn header_spec(opcode: u32, cmd_type: u32, count: u32) -> u32 {
    (ERT_CMD_STATE_NEW & 0xF) | ((count & 0x7FF) << 12u32) | ((opcode & 0x1F) << 23u32) | ((
    cmd_type & 0xF) << 28u32)
}

/// The state nibble of a header word.
pub open spec fn state_of(header: u32) -> u32 {
    header & 0xF
}

/// The stat-enabled bit, the unused bits and the extra-CU-mask bits
/// (bits 4-11) of a header word.
pub open spec fn reserved_bits_of(header: u32) -> u32 {
    (header >> 4u32) & 0xFF
}

/// The `count` field of a header word.
pub open spec fn count_of(header: u32) -> u32 {
    (header >> 12u32) & 0x7FF
}

/// The `opcode` field of a header word.
pub open spec fn opcode_of(header: u32) -> u32 {
    (header >> 23u32) & 0x1F
}

/// The `type` field of a header word.
pub open spec fn type_of(header: u32) -> u32 {
    header >> 28u32
}

/// The field-by-field reading of `header_spec`: every bit of the word
/// is fixed by one of these fields.
pub proof fn lemma_header_fields(opcode: u32, cmd_type: u32, count: u32)
    ensures
        state_of(header_spec(opcode, cmd_type, count)) == ERT_CMD_STATE_NEW,
        reserved_bits_of(header_spec(opcode, cmd_type, count)) == 0,
        count_of(header_spec(opcode, cmd_type, count)) == count & 0x7FF,
        opcode_of(header_spec(opcode, cmd_type, count)) == opcode & 0x1F,
        type_of(header_spec(opcode, cmd_type, count)) == cmd_type & 0xF,
{
    let h = header_spec(opcode, cmd_type, count);
    assert({
        &&& h & 0xF == 1
        &&& (h >> 4u32) & 0xFF == 0
        &&& (h >> 12u32) & 0x7FF == count & 0x7FF
        &&& (h >> 23u32) & 0x1F == opcode & 0x1F
        &&& h >> 28u32 == cmd_type & 0xF
    }) by (bit_vector)
        requires
            h == (1u32 & 0xF) | ((count & 0x7FF) << 12u32) | ((opcode & 0x1F) << 23u32) | ((
            cmd_type & 0xF) << 28u32),
    ;
}

/// A header word is determined by its fields: two words that agree on
/// state, reserved bits, count, opcode and type are equal.
pub proof fn lemma_header_determined_by_fields(a: u32, b: u32)
    requires
        state_of(a) == state_of(b),
        reserved_bits_of(a) == reserved_bits_of(b),
        count_of(a) == count_of(b),
        opcode_of(a) == opcode_of(b),
        type_of(a) == type_of(b),
    ensures
        a == b,
{
    assert(a == b) by (bit_vector)
        requires
            a & 0xF == b & 0xF,
            (a >> 4u32) & 0xFF == (b >> 4u32) & 0xFF,
            (a >> 12u32) & 0x7FF == (b >> 12u32) & 0x7FF,
            (a >> 23u32) & 0x1F == (b >> 23u32) & 0x1F,
            a >> 28u32 == b >> 28u32,
    ;
}

/// Builds the 32-bit ERT command header. `count` is the number of
/// payload dwords after the header; each field is cut to its width.
pub fn build_header(opcode: u32, cmd_type: u32, count: u32) -> (r: u32)
    ensures
        r == header_spec(opcode, cmd_type, count),
        state_of(r) == ERT_CMD_STATE_NEW,
        reserved_bits_of(r) == 0,
        count_of(r) == count & 0x7FF,
        opcode_of(r) == opcode & 0x1F,
        type_of(r) == cmd_type & 0xF,
{
    let state = ERT_CMD_STATE_NEW & 0xF;
    let stat_enabled = 0u32;
    let unused = 0u32;
    let extra_cu_masks = 0u32;
    let count_field = count & 0x7FF;
    let opcode_field = opcode & 0x1F;
    let type_field = cmd_type & 0xF;
    let r = state | (stat_enabled << 4) | (unused << 5) | (extra_cu_masks << 10) | (count_field
        << 12) | (opcode_field << 23) | (type_field << 28);
    assert(r == header_spec(opcode, cmd_type, count)) by (bit_vector)
        requires
            state == 1u32 & 0xF,
            stat_enabled == 0,
            unused == 0,
            extra_cu_masks == 0,
            count_field == count & 0x7FF,
            opcode_field == opcode & 0x1F,
            type_field == cmd_type & 0xF,
            r == state | (stat_enabled << 4u32) | (unused << 5u32) | (extra_cu_masks << 10u32)
                | (count_field << 12u32) | (opcode_field << 23u32) | (type_field << 28u32),
    ;
    proof {
        lemma_header_fields(opcode, cmd_type, count);
    }
    r
}

/// The `state` nibble of a header word; the firmware sets it to
/// COMPLETED (or an error state) when it is done with a packet.
pub fn header_state(header: u32) -> (r: u32)
    ensures
        r == state_of(header),
        r < 16,
{
    let r = header & 0xF;
    assert(header & 0xF < 16) by (bit_vector);
    r
}

/// A freshly built header reads back as NEW, whatever its fields.
pub proof fn lemma_new_header_state(opcode: u32, cmd_type: u32, count: u32)
    ensures
        state_of(header_spec(opcode, cmd_type, count)) == ERT_CMD_STATE_NEW,
{
    lemma_header_fields(opcode, cmd_type, count);
}

/// `ert_npu_data`: the four dwords after `cu_mask` that tell the
/// firmware where the NPU instruction stream lives.
#[derive(Default, Debug, Clone, Copy)]
pub struct NpuData {
    pub instruction_buffer: u64,
    pub instruction_buffer_size: u32,
    pub instruction_prop_count: u32,
}

/// `n` zero bytes.
pub open spec fn zeros(n: nat) -> Seq<u8> {
    Seq::new(n, |i: int| 0u8)
}

/// Builder for ert_start_kernel_cmd packets, writing into a
/// caller-supplied byte slice (typically the mapped CMD buffer object).
pub struct ErtBuilder<'b> {
    pub buf: &'b mut [u8],
    /// Dword cursor: the next dword that the builder fills.
    pub cursor: usize,
    pub cu_mask_set: bool,
    pub npu_data_set: bool,
    /// Byte offset where the kernel argument space starts.
    pub arg_offset: usize,
    /// The packet's opcode (ERT_START_NPU or ERT_START_CU).
    pub opcode: u32,
}

impl<'b> ErtBuilder<'b> {
    /// The builder's own bookkeeping: the header fits, the cursor and
    /// the argument offset stay inside the buffer, and the cursor has
    /// not moved past the header before the CU mask is set.
    pub open spec fn wf(&self) -> bool {
        &&& 4 <= self.buf@.len()
        &&& 4 * self.cursor <= self.buf@.len()
        &&& self.arg_offset <= self.buf@.len()
        &&& !self.cu_mask_set ==> self.cursor == 1
    }

    /// Begins a new ERT_START_NPU packet in `buf`: zeroes the whole
    /// slice and writes a header with `count` 0 (fixed by `finalize`).
    pub fn new_start_npu(buf: &'b mut [u8]) -> (r: Self)
        requires
            old(buf)@.len() >= 4,
        ensures
            r.wf(),
            r.buf@ == splice(
                zeros(old(buf)@.len()),
                0,
                le_u32(header_spec(ERT_START_NPU, ERT_CU_TYPE, 0)),
            ),
            r.cursor == 1,
            !r.cu_mask_set,
            !r.npu_data_set,
            r.arg_offset == 0,
            r.opcode == ERT_START_NPU,
            final(buf)@ == final(r.buf)@,
    {
        let n = buf.len();
        let mut i: usize = 0;
        while i < n
            invariant
                n == buf@.len(),
                i <= n,
                forall|j: int| 0 <= j < i ==> buf@[j] == 0u8,
            decreases n - i,
        {
            buf[i] = 0;
            i = i + 1;
        }
        assert(buf@ =~= zeros(n as nat));
        let placeholder_header = build_header(ERT_START_NPU, ERT_CU_TYPE, 0);
        write_u32_le(buf, 0, placeholder_header);
        ErtBuilder {
            buf,
            cursor: 1,
            cu_mask_set: false,
            npu_data_set: false,
            arg_offset: 0,
            opcode: ERT_START_NPU,
        }
    }

    /// Begins a new ERT_START_CU packet in `buf`: zeroes the whole slice
    /// and writes a header with `count` 0 (fixed by `finalize`). There is
    /// no npu_data block: the kernel arguments start right after the CU
    /// mask, at byte 8.
    pub fn new_start_cu(buf: &'b mut [u8]) -> (r: Self)
        requires
            old(buf)@.len() >= 8,
        ensures
            r.wf(),
            r.buf@ == splice(
                zeros(old(buf)@.len()),
                0,
                le_u32(header_spec(ERT_START_CU, ERT_CU_TYPE, 0)),
            ),
            r.cursor == 1,
            !r.cu_mask_set,
            !r.npu_data_set,
            r.arg_offset == 8,
            r.opcode == ERT_START_CU,
            final(buf)@ == final(r.buf)@,
    {
        let n = buf.len();
        let mut i: usize = 0;
        while i < n
            invariant
                n == buf@.len(),
                i <= n,
                forall|j: int| 0 <= j < i ==> buf@[j] == 0u8,
            decreases n - i,
        {
            buf[i] = 0;
            i = i + 1;
        }
        assert(buf@ =~= zeros(n as nat));
        let placeholder_header = build_header(ERT_START_CU, ERT_CU_TYPE, 0);
        write_u32_le(buf, 0, placeholder_header);
        ErtBuilder {
            buf,
            cursor: 1,
            cu_mask_set: false,
            npu_data_set: false,
            arg_offset: 8,
            opcode: ERT_START_CU,
        }
    }

    /// Sets the mandatory CU mask (dword 1). Bit N selects CU index N.
    /// The cursor moves past the mask the first time only.
    pub fn set_cu_mask(&mut self, mask: u32) -> (r: &mut Self)
        requires
            old(self).wf(),
            old(self).buf@.len() >= 8,
        ensures
            r.wf(),
            r.buf@ == splice(old(self).buf@, 4, le_u32(mask)),
            r.cursor == (if old(self).cu_mask_set {
                old(self).cursor
            } else {
                (old(self).cursor + 1) as usize
            }),
            r.cu_mask_set,
            r.npu_data_set == old(self).npu_data_set,
            r.arg_offset == old(self).arg_offset,
            r.opcode == old(self).opcode,
            final(r.buf)@ == final(old(self).buf)@,
            *final(self) == *final(r),
    {
        let off: usize = 4;
        write_u32_le(self.buf, off, mask);
        if !self.cu_mask_set {
            self.cursor = self.cursor + 1;
        }
        self.cu_mask_set = true;
        self
    }

    /// Writes the ert_npu_data block at the cursor: the instruction
    /// buffer address, its size in bytes and a zero property count.
    /// The kernel argument space starts right after it.
    pub fn set_npu_data(&mut self, instr_addr: u64, instr_bytes: u32) -> (r: &mut Self)
        requires
            old(self).wf(),
            old(self).cu_mask_set,
            4 * old(self).cursor + 16 <= old(self).buf@.len(),
        ensures
            r.wf(),
            r.buf@ == splice(
                old(self).buf@,
                4 * old(self).cursor,
                le_u64(instr_addr) + le_u32(instr_bytes) + le_u32(0),
            ),
            r.cursor == old(self).cursor + 4,
            r.arg_offset == 4 * r.cursor,
            r.cu_mask_set,
            r.npu_data_set,
            r.opcode == old(self).opcode,
            final(r.buf)@ == final(old(self).buf)@,
            *final(self) == *final(r),
    {
        let _len = self.buf.len();
        let off = self.cursor * 4;
        let ghost b0 = self.buf@;
        write_u64_le(self.buf, off, instr_addr);
        write_u32_le(self.buf, off + 8, instr_bytes);
        write_u32_le(self.buf, off + 12, 0u32);
        assert(self.buf@ =~= splice(b0, off as int, le_u64(instr_addr) + le_u32(instr_bytes)
            + le_u32(0)));
        self.cursor = self.cursor + 4;
        self.arg_offset = self.cursor * 4;
        self.npu_data_set = true;
        self
    }

    /// Writes a `u32` kernel argument at byte `arg_offset_in_argspace`
    /// of the kernel argument space.
    pub fn set_arg_u32(&mut self, arg_offset_in_argspace: usize, value: u32) -> (r: &mut Self)
        requires
            old(self).wf(),
            old(self).arg_offset + arg_offset_in_argspace + 4 <= old(self).buf@.len(),
        ensures
            r.wf(),
            r.buf@ == splice(
                old(self).buf@,
                old(self).arg_offset + arg_offset_in_argspace,
                le_u32(value),
            ),
            r.cursor == old(self).cursor,
            r.cu_mask_set == old(self).cu_mask_set,
            r.npu_data_set == old(self).npu_data_set,
            r.arg_offset == old(self).arg_offset,
            r.opcode == old(self).opcode,
            final(r.buf)@ == final(old(self).buf)@,
            *final(self) == *final(r),
    {
        let _len = self.buf.len();
        let off = self.arg_offset + arg_offset_in_argspace;
        write_u32_le(self.buf, off, value);
        self
    }

    /// Writes a `u64` kernel argument, little-endian and packed (4-byte
    /// aligned, not 8), at byte `arg_offset_in_argspace` of the kernel
    /// argument space.
    pub fn set_arg_u64(&mut self, arg_offset_in_argspace: usize, value: u64) -> (r: &mut Self)
        requires
            old(self).wf(),
            old(self).arg_offset + arg_offset_in_argspace + 8 <= old(self).buf@.len(),
        ensures
            r.wf(),
            r.buf@ == splice(
                old(self).buf@,
                old(self).arg_offset + arg_offset_in_argspace,
                le_u64(value),
            ),
            r.cursor == old(self).cursor,
            r.cu_mask_set == old(self).cu_mask_set,
            r.npu_data_set == old(self).npu_data_set,
            r.arg_offset == old(self).arg_offset,
            r.opcode == old(self).opcode,
            final(r.buf)@ == final(old(self).buf)@,
            *final(self) == *final(r),
    {
        let _len = self.buf.len();
        let off = self.arg_offset + arg_offset_in_argspace;
        write_u64_le(self.buf, off, value);
        self
    }

    /// Finalizes the packet: rewrites the header with `count` set to the
    /// number of dwords after the header, for an argument space of
    /// `arg_space_bytes` bytes. Returns the packet's total size in bytes.
    pub fn finalize(&mut self, arg_space_bytes: usize) -> (r: usize)
        requires
            old(self).wf(),
            old(self).arg_offset + arg_space_bytes <= usize::MAX,
            (old(self).arg_offset + arg_space_bytes) / 4 >= 1,
        ensures
            final(self).wf(),
            r == old(self).arg_offset + arg_space_bytes,
            final(self).buf@ == splice(
                old(self).buf@,
                0,
                le_u32(
                    header_spec(
                        old(self).opcode,
                        ERT_CU_TYPE,
                        (((old(self).arg_offset + arg_space_bytes) / 4 - 1) as usize) as u32,
                    ),
                ),
            ),
            final(self).cursor == old(self).cursor,
            final(self).cu_mask_set == old(self).cu_mask_set,
            final(self).npu_data_set == old(self).npu_data_set,
            final(self).arg_offset == old(self).arg_offset,
            final(self).opcode == old(self).opcode,
            final(final(self).buf)@ == final(old(self).buf)@,
    {
        let total_dwords_after_header = (self.arg_offset + arg_space_bytes) / 4 - 1;
        let count = total_dwords_after_header as u32;
        let header = build_header(self.opcode, ERT_CU_TYPE, count);
        write_u32_le(self.buf, 0, header);
        self.arg_offset + arg_space_bytes
    }
}

/// Reading the header back out of a packet whose first four bytes were
/// written with `header_spec(opcode, cmd_type, count)`: it is that word,
/// so its state is NEW and its fields are the ones written.
pub proof fn lemma_read_back_header(before: Seq<u8>, opcode: u32, cmd_type: u32, count: u32)
    requires
        before.len() >= 4,
    ensures
        from_le_u32(splice(before, 0, le_u32(header_spec(opcode, cmd_type, count))).subrange(0, 4))
            == header_spec(opcode, cmd_type, count),
        state_of(
            from_le_u32(
                splice(before, 0, le_u32(header_spec(opcode, cmd_type, count))).subrange(0, 4),
            ),
        ) == ERT_CMD_STATE_NEW,
        count_of(
            from_le_u32(
                splice(before, 0, le_u32(header_spec(opcode, cmd_type, count))).subrange(0, 4),
            ),
        ) == count & 0x7FF,
{
    let h = header_spec(opcode, cmd_type, count);
    let after = splice(before, 0, le_u32(h));
    assert(after.subrange(0, 4) =~= le_u32(h));
    lemma_u32_roundtrip(h);
    lemma_header_fields(opcode, cmd_type, count);
}

/// The ERT_START_NPU layout: a packet of `n` bytes started with
/// `new_start_npu`, given the CU mask `mask` and then the instruction
/// buffer `instr_addr` of `instr_bytes` bytes, and finalized with the
/// header `header`, holds the header in dword 0, the mask in dword 1,
/// the npu_data block in dwords 2-5, and zeros after it.
pub proof fn lemma_npu_packet_layout(
    n: nat,
    mask: u32,
    instr_addr: u64,
    instr_bytes: u32,
    header: u32,
)
    requires
        n >= 24,
    ensures
        ({
            let p0 = splice(zeros(n), 0, le_u32(header_spec(ERT_START_NPU, ERT_CU_TYPE, 0)));
            let p1 = splice(p0, 4, le_u32(mask));
            let p2 = splice(p1, 8, le_u64(instr_addr) + le_u32(instr_bytes) + le_u32(0));
            let p = splice(p2, 0, le_u32(header));
            &&& p.len() == n
            &&& p.subrange(0, 4) == le_u32(header)
            &&& p.subrange(4, 8) == le_u32(mask)
            &&& p.subrange(8, 16) == le_u64(instr_addr)
            &&& p.subrange(16, 20) == le_u32(instr_bytes)
            &&& p.subrange(20, 24) == le_u32(0)
            &&& forall|i: int| 24 <= i < n ==> #[trigger] p[i] == 0u8
        }),
{
    let p0 = splice(zeros(n), 0, le_u32(header_spec(ERT_START_NPU, ERT_CU_TYPE, 0)));
    let p1 = splice(p0, 4, le_u32(mask));
    let p2 = splice(p1, 8, le_u64(instr_addr) + le_u32(instr_bytes) + le_u32(0));
    let p = splice(p2, 0, le_u32(header));
    assert(p.subrange(0, 4) =~= le_u32(header));
    assert(p.subrange(4, 8) =~= le_u32(mask));
    assert(p.subrange(8, 16) =~= le_u64(instr_addr));
    assert(p.subrange(16, 20) =~= le_u32(instr_bytes));
    assert(p.subrange(20, 24) =~= le_u32(0));
    assert forall|i: int| 24 <= i < n implies #[trigger] p[i] == 0u8 by {
        assert(p[i] == p2[i]);
        assert(p2[i] == p1[i]);
        assert(p1[i] == p0[i]);
        assert(p0[i] == zeros(n)[i]);
    }
}

/// The header word `h` marked NEW again, its other fields kept: the
/// firmware skips a packet still marked COMPLETED by an earlier run.
pub open spec fn renewed_header(h: u32) -> u32 {
    (h & 0xFFFF_FFF0) | ERT_CMD_STATE_NEW
}

/// Marks the packet whose header word starts `hdr` NEW again, keeping
/// the header's other fields and every other byte.
pub fn reset_state(hdr: &mut [u8])
    requires
        old(hdr)@.len() >= 4,
    ensures
        final(hdr)@ == splice(
            old(hdr)@,
            0,
            le_u32(renewed_header(from_le_u32(old(hdr)@.subrange(0, 4)))),
        ),
{
    let h = read_u32_le(hdr, 0);
    write_u32_le(hdr, 0, (h & 0xFFFF_FFF0) | ERT_CMD_STATE_NEW);
}

/// Resetting leaves state NEW and every other header field as it was.
pub proof fn lemma_renewed_header(h: u32)
    ensures
        state_of(renewed_header(h)) == ERT_CMD_STATE_NEW,
        count_of(renewed_header(h)) == count_of(h),
        opcode_of(renewed_header(h)) == opcode_of(h),
        type_of(renewed_header(h)) == type_of(h),
        reserved_bits_of(renewed_header(h)) == reserved_bits_of(h),
{
    assert(state_of((h & 0xFFFF_FFF0) | 1u32) == 1u32 && count_of((h & 0xFFFF_FFF0) | 1u32)
        == count_of(h) && opcode_of((h & 0xFFFF_FFF0) | 1u32) == opcode_of(h) && type_of(
        (h & 0xFFFF_FFF0) | 1u32,
    ) == type_of(h) && reserved_bits_of((h & 0xFFFF_FFF0) | 1u32) == reserved_bits_of(h))
        by (bit_vector);
}

/// The argument space of a DPU-instruction kernel: the DPU opcode, the
/// instruction buffer address, its length in dwords, then the five
/// buffer addresses `bos[0..5]`.
pub open spec fn dpu_args(instr_addr: u64, ninstr: u32, bos: Seq<u64>) -> Seq<u8> {
    le_u64(3) + le_u64(instr_addr) + le_u32(ninstr) + le_u64(bos[0]) + le_u64(bos[1]) + le_u64(
        bos[2],
    ) + le_u64(bos[3]) + le_u64(bos[4])
}

/// The size of a DPU command packet as placed in its CMD BO.
pub const DPU_CMD_PACKET_BYTES: usize = 256;

/// An ERT_START_CU packet of `len` bytes: the header (state NEW, `count`
/// the dwords after it), the CU mask, the kernel arguments right after
/// the mask, and zeros to the end.
pub open spec fn start_cu_packet(cu_mask: u32, args: Seq<u8>, len: nat) -> Seq<u8> {
    le_u32(header_spec(ERT_START_CU, ERT_CU_TYPE, ((8 + args.len()) / 4 - 1) as u32)) + le_u32(
        cu_mask,
    ) + args + zeros((len - 8 - args.len()) as nat)
}

/// The 256-byte ERT_START_CU packet that runs the DPU instructions at
/// `instr_addr` (`ninstr` dwords) on the CUs of `cu_mask`, with the
/// buffers `bos` as the kernel's five buffer arguments.
pub fn dpu_cmd_packet(cu_mask: u32, instr_addr: u64, ninstr: u32, bos: [u64; 5]) -> (p: Vec<u8>)
    ensures
        p@ == start_cu_packet(cu_mask, dpu_args(instr_addr, ninstr, bos@), 256),
        p@.len() == DPU_CMD_PACKET_BYTES,
        state_of(from_le_u32(p@.subrange(0, 4))) == ERT_CMD_STATE_NEW,
        opcode_of(from_le_u32(p@.subrange(0, 4))) == ERT_START_CU,
        type_of(from_le_u32(p@.subrange(0, 4))) == ERT_CU_TYPE,
        count_of(from_le_u32(p@.subrange(0, 4))) == 16,
        p@.subrange(4, 8) == le_u32(cu_mask),
        p@.subrange(8, 16) == le_u64(3),
        p@.subrange(16, 24) == le_u64(instr_addr),
        p@.subrange(24, 28) == le_u32(ninstr),
        p@.subrange(28, 36) == le_u64(bos[0]),
        p@.subrange(36, 44) == le_u64(bos[1]),
        p@.subrange(44, 52) == le_u64(bos[2]),
        p@.subrange(52, 60) == le_u64(bos[3]),
        p@.subrange(60, 68) == le_u64(bos[4]),
        forall|j: int| 68 <= j < 256 ==> #[trigger] p@[j] == 0u8,
{
    let ghost args = dpu_args(instr_addr, ninstr, bos@);
    let count: u32 = ((8 + ARG_SPACE_BYTES) / 4 - 1) as u32;
    let mut p: Vec<u8> = Vec::new();
    push_u32_le(&mut p, build_header(ERT_START_CU, ERT_CU_TYPE, count));
    push_u32_le(&mut p, cu_mask);
    push_u64_le(&mut p, DPU_OPCODE);
    push_u64_le(&mut p, instr_addr);
    push_u32_le(&mut p, ninstr);
    push_u64_le(&mut p, bos[0]);
    push_u64_le(&mut p, bos[1]);
    push_u64_le(&mut p, bos[2]);
    push_u64_le(&mut p, bos[3]);
    push_u64_le(&mut p, bos[4]);
    push_zeros(&mut p, DPU_CMD_PACKET_BYTES - 8 - ARG_SPACE_BYTES);
    assert(args.len() == 60);
    assert(p@ =~= start_cu_packet(cu_mask, args, 256));
    proof {
        lemma_dpu_packet_header(cu_mask, instr_addr, ninstr, bos@);
        assert(p@.subrange(4, 8) =~= le_u32(cu_mask));
        assert(p@.subrange(8, 16) =~= le_u64(3));
        assert(p@.subrange(16, 24) =~= le_u64(instr_addr));
        assert(p@.subrange(24, 28) =~= le_u32(ninstr));
        assert(p@.subrange(28, 36) =~= le_u64(bos[0]));
        assert(p@.subrange(36, 44) =~= le_u64(bos[1]));
        assert(p@.subrange(44, 52) =~= le_u64(bos[2]));
        assert(p@.subrange(52, 60) =~= le_u64(bos[3]));
        assert(p@.subrange(60, 68) =~= le_u64(bos[4]));
    }
    p
}

/// The DPU packet's header reads back as NEW, ERT_START_CU on a CU, with
/// the 16 dwords of CU mask and arguments after it.
pub proof fn lemma_dpu_packet_header(cu_mask: u32, instr_addr: u64, ninstr: u32, bos: Seq<u64>)
    requires
        bos.len() == 5,
    ensures
        ({
            let p = start_cu_packet(cu_mask, dpu_args(instr_addr, ninstr, bos), 256);
            let h = from_le_u32(p.subrange(0, 4));
            &&& p.len() == 256
            &&& state_of(h) == ERT_CMD_STATE_NEW
            &&& opcode_of(h) == ERT_START_CU
            &&& type_of(h) == ERT_CU_TYPE
            &&& count_of(h) == 16
            &&& from_le_u32(p.subrange(4, 8)) == cu_mask
        }),
{
    let args = dpu_args(instr_addr, ninstr, bos);
    assert(args.len() == 60);
    let p = start_cu_packet(cu_mask, args, 256);
    assert(((8 + args.len()) / 4 - 1) as u32 == 16u32);
    let hw = header_spec(ERT_START_CU, ERT_CU_TYPE, 16);
    assert(p.subrange(0, 4) =~= le_u32(hw));
    assert(p.subrange(4, 8) =~= le_u32(cu_mask));
    lemma_u32_roundtrip(hw);
    lemma_u32_roundtrip(cu_mask);
    lemma_header_fields(ERT_START_CU, ERT_CU_TYPE, 16);
    assert(0u32 & 0x1F == 0u32 && 3u32 & 0xF == 3u32 && 16u32 & 0x7FF == 16u32) by (bit_vector);
}

} // verus!
