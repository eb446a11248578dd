//! Command submission: binding compute units (CUs) to a hardware
//! context with CONFIG_HWCTX, and submitting command BOs with EXEC_CMD.

use vstd::prelude::*;
use crate::{XdnaError, text};
use crate::fmt::{dec, dec_int, dec_i64, dec_u64, dec_u128};
use crate::bo::{Bo, os_error};
use crate::bytes::{le_u16, le_u32, push_u16_le};
use crate::hwctx::Hwctx;
use crate::ioctl::{CuConfig, DrmConfigHwctx, DrmExecCmd, HWCTX_CONFIG_CU, CMD_SUBMIT_EXEC_BUF};

verus! {

/// The largest CONFIG_HWCTX(CU) payload the driver accepts, in bytes.
pub const CONFIG_CU_PAYLOAD_LIMIT: usize = 4096;

/// The eight bytes of one CU entry: the CU BO handle, the function
/// selector and three zero pad bytes.
pub open spec fn cu_config_entry(handle: u32, func: u8) -> Seq<u8> {
    le_u32(handle) + seq![func, 0u8, 0u8, 0u8]
}

/// The CU entries for `handles`, the i-th with function `funcs[i]`.
pub open spec fn cu_config_entries(handles: Seq<u32>, funcs: Seq<u8>) -> Seq<u8>
    decreases handles.len(),
{
    if handles.len() == 0 {
        Seq::empty()
    } else {
        cu_config_entries(handles.drop_last(), funcs) + cu_config_entry(
            handles.last(),
            funcs[handles.len() - 1],
        )
    }
}

/// The CONFIG_HWCTX(CU) payload: a header holding the CU count (and
/// three zero pad halfwords), followed by one entry per CU.
pub open spec fn cu_config_payload(handles: Seq<u32>, funcs: Seq<u8>) -> Seq<u8> {
    le_u16(handles.len() as u16) + le_u16(0) + le_u16(0) + le_u16(0) + cu_config_entries(
        handles,
        funcs,
    )
}

/// The handles of `bos`, in order.
pub open spec fn handles_of(bos: Seq<Bo>) -> Seq<u32> {
    bos.map_values(|b: Bo| b.handle)
}

/// The entries take eight bytes each, and the i-th entry holds the i-th
/// handle and function.
pub proof fn lemma_cu_entries_layout(handles: Seq<u32>, funcs: Seq<u8>, i: int)
    requires
        0 <= i < handles.len(),
    ensures
        cu_config_entries(handles, funcs).len() == 8 * handles.len(),
        cu_config_entries(handles, funcs).subrange(8 * i, 8 * i + 8) == cu_config_entry(
            handles[i],
            funcs[i],
        ),
    decreases handles.len(),
{
    lemma_cu_entries_len(handles, funcs);
    let n = handles.len() as int;
    let prefix = cu_config_entries(handles.drop_last(), funcs);
    lemma_cu_entries_len(handles.drop_last(), funcs);
    if i < n - 1 {
        lemma_cu_entries_layout(handles.drop_last(), funcs, i);
        assert(cu_config_entries(handles, funcs).subrange(8 * i, 8 * i + 8) =~= prefix.subrange(
            8 * i,
            8 * i + 8,
        ));
    } else {
        assert(cu_config_entries(handles, funcs).subrange(8 * i, 8 * i + 8) =~= cu_config_entry(
            handles[i],
            funcs[i],
        ));
    }
}

/// The entries take eight bytes each.
pub proof fn lemma_cu_entries_len(handles: Seq<u32>, funcs: Seq<u8>)
    ensures
        cu_config_entries(handles, funcs).len() == 8 * handles.len(),
    decreases handles.len(),
{
    if handles.len() > 0 {
        lemma_cu_entries_len(handles.drop_last(), funcs);
    }
}

/// CUs bound to a hardware context. Holds the CU BOs, which must live as
/// long as the context because the firmware reads them lazily. The CUs
/// are indices `0..cu_count` for EXEC_CMD, in the order they were given.
pub struct CuBinding {
    pub cu_bos: Vec<Bo>,
    pub cu_count: u16,
}

/// A CU binding under way: the payload to pass with CONFIG_HWCTX(CU).
pub struct CuConfigPending {
    pub fd: i32,
    pub hwctx: u32,
    pub cu_bos: Vec<Bo>,
    pub num_cus: u16,
    pub payload: Vec<u8>,
}

/// Begins binding the CU BOs `cu_bos` to `ctx`, the i-th with function
/// selector `cu_funcs[i]`. Errors, with code 0, when there are no CUs,
/// when the two lists differ in length, or when the payload would
/// exceed 4096 bytes; an error hands the BOs back, for the caller to
/// close.
pub fn config_cus(fd: i32, ctx: &Hwctx, cu_bos: Vec<Bo>, cu_funcs: &[u8]) -> (r: Result<
    CuConfigPending,
    (XdnaError, Vec<Bo>),
>)
    ensures
        r matches Err((_, bos)) ==> bos@ == cu_bos@,
        cu_bos@.len() == 0 ==> (r matches Err((e, _)) && e.code == 0 && e.message@
            == "config_cus: empty cu_bos"@),
        cu_bos@.len() > 0 && cu_funcs@.len() != cu_bos@.len() ==> (r matches Err((e, _))
            && e.code == 0 && e.message@ == "config_cus: cu_funcs len "@ + dec(cu_funcs@.len())
            + " != cu_bos len "@ + dec(cu_bos@.len())),
        cu_bos@.len() > 0 && cu_funcs@.len() == cu_bos@.len() && 8 + 8 * cu_bos@.len() > 4096
            ==> (r matches Err((e, _)) && e.code == 0 && e.message@ == "config_cus: payload "@
            + dec((8 + 8 * cu_bos@.len()) as nat) + " > 4096 byte limit"@),
        cu_bos@.len() > 0 && cu_funcs@.len() == cu_bos@.len() && 8 + 8 * cu_bos@.len() <= 4096
            ==> (r matches Ok(p) && p.fd == fd && p.hwctx == ctx.handle && p.cu_bos@
            == cu_bos@ && p.num_cus == cu_bos@.len() && p.payload@ == cu_config_payload(
            handles_of(cu_bos@),
            cu_funcs@,
        )),
        r matches Ok(p) ==> p.payload@.len() == 8 + 8 * cu_bos@.len(),
        r matches Ok(p) ==> p.payload@.subrange(0, 2) == le_u16(cu_bos@.len() as u16),
        r matches Ok(p) ==> p.payload@.subrange(2, 8) == seq![0u8, 0u8, 0u8, 0u8, 0u8, 0u8],
        r matches Ok(p) ==> (forall|i: int|
            0 <= i < cu_bos@.len() ==> #[trigger] p.payload@.subrange(8 + 8 * i, 12 + 8 * i)
                == le_u32(cu_bos@[i].handle)),
        r matches Ok(p) ==> (forall|i: int|
            0 <= i < cu_bos@.len() ==> #[trigger] p.payload@[12 + 8 * i] == cu_funcs@[i]),
        r matches Ok(p) ==> (forall|i: int|
            0 <= i < cu_bos@.len() ==> #[trigger] p.payload@.subrange(13 + 8 * i, 16 + 8 * i)
                == seq![0u8, 0u8, 0u8]),
{
    if cu_bos.len() == 0 {
        return Err(
            (
                XdnaError { code: 0, message: String::from_str("config_cus: empty cu_bos") },
                cu_bos,
            ),
        );
    }
    if cu_funcs.len() != cu_bos.len() {
        let m = text::cat(
            String::from_str("config_cus: cu_funcs len "),
            dec_u64(cu_funcs.len() as u64).as_str(),
        );
        let m = text::cat(m, " != cu_bos len ");
        let m = text::cat(m, dec_u64(cu_bos.len() as u64).as_str());
        return Err((XdnaError { code: 0, message: m }, cu_bos));
    }
    let n = cu_bos.len();
    if n > (CONFIG_CU_PAYLOAD_LIMIT - 8) / 8 {
        let total: u128 = 8 + 8 * (n as u128);
        let m = text::cat(String::from_str("config_cus: payload "), dec_u128(total).as_str());
        let m = text::cat(m, " > 4096 byte limit");
        return Err((XdnaError { code: 0, message: m }, cu_bos));
    }
    let num_cus = n as u16;
    let ghost handles = handles_of(cu_bos@);
    let mut buf: Vec<u8> = Vec::new();
    push_u16_le(&mut buf, num_cus);
    push_u16_le(&mut buf, 0);
    push_u16_le(&mut buf, 0);
    push_u16_le(&mut buf, 0);
    let ghost header = buf@;
    let mut i: usize = 0;
    while i < n
        invariant
            n == cu_bos@.len(),
            n == cu_funcs@.len(),
            handles == handles_of(cu_bos@),
            i <= n,
            buf@ == header + cu_config_entries(handles.take(i as int), cu_funcs@),
        decreases n - i,
    {
        let entry = CuConfig { cu_bo: cu_bos[i].handle, cu_func: cu_funcs[i], pad: [0u8, 0u8, 0u8] };
        entry.push_bytes(&mut buf);
        proof {
            let t = handles.take(i + 1);
            assert(t.drop_last() =~= handles.take(i as int));
            assert(t.last() == cu_bos@[i as int].handle);
            assert(entry.encoding() =~= cu_config_entry(t.last(), cu_funcs@[t.len() - 1]));
        }
        i = i + 1;
    }
    assert(handles.take(n as int) =~= handles);
    proof {
        let pl = buf@;
        let entries = cu_config_entries(handles, cu_funcs@);
        lemma_cu_entries_len(handles, cu_funcs@);
        assert(pl.len() == 8 + 8 * n);
        assert(pl.subrange(0, 2) =~= le_u16(n as u16));
        assert(le_u16(0) =~= seq![0u8, 0u8]) by {
            assert((0u16 & 0xff) as u8 == 0u8 && ((0u16 >> 8u16) & 0xff) as u8 == 0u8) by (bit_vector);
        }
        assert(pl.subrange(2, 8) =~= seq![0u8, 0u8, 0u8, 0u8, 0u8, 0u8]);
        assert forall|i: int|
            #![trigger buf@.subrange(8 + 8 * i, 12 + 8 * i)]
            #![trigger buf@[12 + 8 * i]]
            #![trigger buf@.subrange(13 + 8 * i, 16 + 8 * i)]
            0 <= i < cu_bos@.len() implies buf@.subrange(8 + 8 * i, 12 + 8 * i)
            == le_u32(cu_bos@[i].handle) && buf@[12 + 8 * i] == cu_funcs@[i] && buf@.subrange(
            13 + 8 * i,
            16 + 8 * i,
        ) == seq![0u8, 0u8, 0u8] by {
            lemma_cu_entries_layout(handles, cu_funcs@, i);
            let e = entries.subrange(8 * i, 8 * i + 8);
            assert(pl.subrange(8 + 8 * i, 16 + 8 * i) =~= e);
            assert(pl.subrange(8 + 8 * i, 12 + 8 * i) =~= e.subrange(0, 4));
            assert(pl.subrange(13 + 8 * i, 16 + 8 * i) =~= e.subrange(5, 8));
            assert(pl[12 + 8 * i] == e[4]);
            assert(e.subrange(0, 4) =~= le_u32(handles[i]));
            assert(e.subrange(5, 8) =~= seq![0u8, 0u8, 0u8]);
        }
    }
    let pending = CuConfigPending { fd, hwctx: ctx.handle, cu_bos, num_cus, payload: buf };
    Ok(pending)
}

impl CuConfigPending {
    /// The CONFIG_HWCTX(CU) request, pointing at the payload placed at
    /// address `payload_addr`.
    pub fn request(&self, payload_addr: u64) -> (r: DrmConfigHwctx)
        ensures
            r == (DrmConfigHwctx {
                handle: self.hwctx,
                param_type: HWCTX_CONFIG_CU,
                param_val: payload_addr,
                param_val_size: self.payload@.len() as u32,
                pad: 0,
            }),
    {
        DrmConfigHwctx {
            handle: self.hwctx,
            param_type: HWCTX_CONFIG_CU,
            param_val: payload_addr,
            param_val_size: self.payload.len() as u32,
            pad: 0,
        }
    }

    /// The outcome of the CONFIG_HWCTX call: the error, with `errno` as
    /// its code, and the CU BOs to close, when `ret != 0`; else the
    /// binding, which keeps the CU BOs.
    pub fn on_reply(self, ret: i32, errno: i32) -> (r: Result<CuBinding, (XdnaError, Vec<Bo>)>)
        ensures
            ret != 0 ==> (r matches Err((e, bos)) && bos@ == self.cu_bos@ && e.code == errno && e.message@
                == "CONFIG_HWCTX(CU, hwctx="@ + dec(self.hwctx as nat) + ", num_cus="@ + dec(
                self.num_cus as nat,
            ) + ") failed (errno="@ + dec_int(errno as int) + ")"@),
            ret == 0 ==> (r matches Ok(b) && b.cu_bos@ == self.cu_bos@ && b.cu_count
                == self.num_cus),
    {
        if ret != 0 {
            let m = text::cat(String::from_str("CONFIG_HWCTX(CU, hwctx="), dec_u64(self.hwctx as u64).as_str());
            let m = text::cat(m, ", num_cus=");
            let m = text::cat(m, dec_u64(self.num_cus as u64).as_str());
            let m = text::cat(m, ") failed (errno=");
            let m = text::cat(m, dec_i64(errno as i64).as_str());
            let m = text::cat(m, ")");
            return Err((os_error(errno, m), self.cu_bos));
        }
        Ok(CuBinding { cu_bos: self.cu_bos, cu_count: self.num_cus })
    }
}

/// The handles of the BOs that `bos` refers to, in order.
pub open spec fn ref_handles_of(bos: Seq<&Bo>) -> Seq<u32> {
    bos.map_values(|b: &Bo| b.handle)
}

/// A submission under way: the command and argument BO handles to pass
/// with EXEC_CMD.
pub struct ExecSubmit {
    pub fd: i32,
    pub hwctx: u32,
    pub cmd_handles: Vec<u32>,
    pub arg_handles: Vec<u32>,
}

/// The handles of `bos`, in order.
fn collect_handles(bos: &[&Bo]) -> (r: Vec<u32>)
    ensures
        r@ == ref_handles_of(bos@),
{
    let mut v: Vec<u32> = Vec::new();
    let mut i: usize = 0;
    while i < bos.len()
        invariant
            i <= bos@.len(),
            v@ == ref_handles_of(bos@.take(i as int)),
        decreases bos@.len() - i,
    {
        v.push(bos[i].handle);
        i = i + 1;
        assert(v@ =~= ref_handles_of(bos@.take(i as int)));
    }
    assert(bos@.take(bos@.len() as int) =~= bos@);
    v
}

/// Begins the submission of the command BOs `cmd_bos` to `ctx`, with
/// the BOs `arg_bos` as arguments. The context's syncobj signals once
/// all submitted commands complete.
pub fn submit_exec_cmd(fd: i32, ctx: &Hwctx, cmd_bos: &[&Bo], arg_bos: &[&Bo]) -> (r: ExecSubmit)
    ensures
        r.fd == fd,
        r.hwctx == ctx.handle,
        r.cmd_handles@ == ref_handles_of(cmd_bos@),
        r.arg_handles@ == ref_handles_of(arg_bos@),
{
    let cmd_handles = collect_handles(cmd_bos);
    let arg_handles = collect_handles(arg_bos);
    ExecSubmit { fd, hwctx: ctx.handle, cmd_handles, arg_handles }
}

impl ExecSubmit {
    /// The EXEC_CMD request, pointing at the handle arrays placed at
    /// `cmd_handles_addr` and `args_addr`.
    pub fn request(&self, cmd_handles_addr: u64, args_addr: u64) -> (r: DrmExecCmd)
        ensures
            r == (DrmExecCmd {
                ext: 0,
                ext_flags: 0,
                hwctx: self.hwctx,
                ty: CMD_SUBMIT_EXEC_BUF,
                cmd_handles: cmd_handles_addr,
                args: args_addr,
                cmd_count: self.cmd_handles@.len() as u32,
                arg_count: self.arg_handles@.len() as u32,
                seq: 0,
            }),
    {
        DrmExecCmd {
            ext: 0,
            ext_flags: 0,
            hwctx: self.hwctx,
            ty: CMD_SUBMIT_EXEC_BUF,
            cmd_handles: cmd_handles_addr,
            args: args_addr,
            cmd_count: self.cmd_handles.len() as u32,
            arg_count: self.arg_handles.len() as u32,
            seq: 0,
        }
    }

    /// The outcome of the EXEC_CMD call: the error, with `errno` as its
    /// code, when `ret != 0`; else the firmware sequence number that the
    /// driver wrote back, to wait on.
    pub fn on_reply(&self, ret: i32, errno: i32, reply: &DrmExecCmd) -> (r: Result<u64, XdnaError>)
        ensures
            ret != 0 ==> (r matches Err(e) && e.code == errno && e.message@ == "EXEC_CMD(hwctx="@
                + dec(self.hwctx as nat) + ", cmds="@ + dec(self.cmd_handles@.len()) + ", args="@
                + dec(self.arg_handles@.len()) + ") failed (errno="@ + dec_int(errno as int)
                + ")"@),
            ret == 0 ==> r == Ok::<u64, XdnaError>(reply.seq),
    {
        if ret != 0 {
            let m = text::cat(String::from_str("EXEC_CMD(hwctx="), dec_u64(self.hwctx as u64).as_str());
            let m = text::cat(m, ", cmds=");
            let m = text::cat(m, dec_u64(self.cmd_handles.len() as u64).as_str());
            let m = text::cat(m, ", args=");
            let m = text::cat(m, dec_u64(self.arg_handles.len() as u64).as_str());
            let m = text::cat(m, ") failed (errno=");
            let m = text::cat(m, dec_i64(errno as i64).as_str());
            let m = text::cat(m, ")");
            return Err(os_error(errno, m));
        }
        Ok(reply.seq)
    }
}

} // verus!
