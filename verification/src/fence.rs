//! DRM syncobj waits, used to block until EXEC_CMD completes. The driver
//! takes an absolute CLOCK_MONOTONIC deadline in nanoseconds.

use vstd::prelude::*;
use crate::{XdnaError, text};
use crate::fmt::{dec, dec_int, dec_i64, dec_u64};
use crate::bo::os_error;
use crate::ioctl::{
    DrmSyncobjWait, DrmSyncobjTimelineWait, SYNCOBJ_WAIT_FLAGS_WAIT_ALL,
    SYNCOBJ_WAIT_FLAGS_WAIT_FOR_SUBMIT,
};

verus! {

/// `now + timeout` in nanoseconds, the timeout capped at `i64::MAX`
/// and the sum saturating at `i64::MAX`.
pub open spec fn deadline_spec(now_ns: int, timeout_nanos: int) -> int {
    let to = if timeout_nanos > i64::MAX { i64::MAX as int } else { timeout_nanos };
    if now_ns + to > i64::MAX {
        i64::MAX as int
    } else {
        now_ns + to
    }
}

/// A deadline is never before `now`, and a longer timeout never gives an
/// earlier deadline.
pub proof fn lemma_deadline_monotone(now_ns: int, t1: int, t2: int)
    requires
        i64::MIN <= now_ns <= i64::MAX,
        0 <= t1 <= t2,
    ensures
        now_ns <= deadline_spec(now_ns, t1),
        deadline_spec(now_ns, t1) <= deadline_spec(now_ns, t2),
        deadline_spec(now_ns, t2) <= i64::MAX,
{
}

/// The absolute deadline for a relative timeout of `timeout_nanos`,
/// given the clock reading `now_sec` seconds and `now_nsec` nanoseconds.
pub fn deadline_ns(now_sec: i64, now_nsec: i64, timeout_nanos: u128) -> (r: i64)
    requires
        i64::MIN <= now_sec * 1_000_000_000 <= i64::MAX,
        i64::MIN <= now_sec * 1_000_000_000 + now_nsec <= i64::MAX,
    ensures
        r == deadline_spec(now_sec * 1_000_000_000 + now_nsec, timeout_nanos as int),
{
    let now_ns = now_sec * 1_000_000_000 + now_nsec;
    let to_ns: i64 = if timeout_nanos > 0x7fff_ffff_ffff_ffffu128 {
        0x7fff_ffff_ffff_ffff
    } else {
        timeout_nanos as i64
    };
    if now_ns > 0x7fff_ffff_ffff_ffff - to_ns {
        0x7fff_ffff_ffff_ffff
    } else {
        now_ns + to_ns
    }
}

/// The deadline for a timeline wait: a zero timeout means wait forever
/// (`i64::MAX`); any other is `deadline_ns`.
pub fn timeline_deadline_ns(now_sec: i64, now_nsec: i64, timeout_nanos: u128) -> (r: i64)
    requires
        i64::MIN <= now_sec * 1_000_000_000 <= i64::MAX,
        i64::MIN <= now_sec * 1_000_000_000 + now_nsec <= i64::MAX,
    ensures
        timeout_nanos == 0 ==> r == i64::MAX,
        timeout_nanos != 0 ==> r == deadline_spec(
            now_sec * 1_000_000_000 + now_nsec,
            timeout_nanos as int,
        ),
{
    if timeout_nanos == 0 {
        0x7fff_ffff_ffff_ffff
    } else {
        deadline_ns(now_sec, now_nsec, timeout_nanos)
    }
}

/// The wait flags: WAIT_FOR_SUBMIT, and WAIT_ALL when all the syncobjs
/// are to signal.
pub fn wait_flags(wait_all: bool) -> (r: u32)
    ensures
        r == (if wait_all {
            SYNCOBJ_WAIT_FLAGS_WAIT_ALL | SYNCOBJ_WAIT_FLAGS_WAIT_FOR_SUBMIT
        } else {
            SYNCOBJ_WAIT_FLAGS_WAIT_FOR_SUBMIT
        }),
{
    if wait_all {
        SYNCOBJ_WAIT_FLAGS_WAIT_ALL | SYNCOBJ_WAIT_FLAGS_WAIT_FOR_SUBMIT
    } else {
        SYNCOBJ_WAIT_FLAGS_WAIT_FOR_SUBMIT
    }
}

/// Whether a wait on `count` syncobjs needs a driver call at all: waiting
/// on none succeeds at once.
pub fn wait_needed(count: usize) -> (r: bool)
    ensures
        r == (count > 0),
{
    count > 0
}

/// The SYNCOBJ_WAIT request for `count` handles stored at `handles_addr`.
pub fn wait_many_request(handles_addr: u64, count: usize, abs_ns: i64, wait_all: bool) -> (r:
    DrmSyncobjWait)
    ensures
        r == (DrmSyncobjWait {
            handles: handles_addr,
            timeout_nsec: abs_ns,
            count_handles: count as u32,
            flags: (if wait_all {
                SYNCOBJ_WAIT_FLAGS_WAIT_ALL | SYNCOBJ_WAIT_FLAGS_WAIT_FOR_SUBMIT
            } else {
                SYNCOBJ_WAIT_FLAGS_WAIT_FOR_SUBMIT
            }),
            first_signaled: 0,
            pad: 0,
        }),
{
    DrmSyncobjWait {
        handles: handles_addr,
        timeout_nsec: abs_ns,
        count_handles: count as u32,
        flags: wait_flags(wait_all),
        first_signaled: 0,
        pad: 0,
    }
}

/// The SYNCOBJ_TIMELINE_WAIT request for one handle and point (stored
/// at `handles_addr` and `points_addr`), with WAIT_FOR_SUBMIT only.
pub fn timeline_wait_request(handles_addr: u64, points_addr: u64, abs_ns: i64) -> (r:
    DrmSyncobjTimelineWait)
    ensures
        r == (DrmSyncobjTimelineWait {
            handles: handles_addr,
            points: points_addr,
            timeout_nsec: abs_ns,
            count_handles: 1,
            flags: SYNCOBJ_WAIT_FLAGS_WAIT_FOR_SUBMIT,
            first_signaled: 0,
            pad: 0,
        }),
{
    DrmSyncobjTimelineWait {
        handles: handles_addr,
        points: points_addr,
        timeout_nsec: abs_ns,
        count_handles: 1,
        flags: SYNCOBJ_WAIT_FLAGS_WAIT_FOR_SUBMIT,
        first_signaled: 0,
        pad: 0,
    }
}

/// The outcome of a SYNCOBJ_TIMELINE_WAIT call on `syncobj_handle` at
/// `point`: the error, with `errno` as its code, when `ret != 0`.
pub fn on_timeline_wait(syncobj_handle: u32, point: u64, ret: i32, errno: i32) -> (r: Result<
    (),
    XdnaError,
>)
    ensures
        ret == 0 <==> r is Ok,
        ret != 0 ==> (r matches Err(e) && e.code == errno && e.message@
            == "SYNCOBJ_TIMELINE_WAIT(handle="@ + dec(syncobj_handle as nat) + ", point="@ + dec(
            point as nat,
        ) + ") failed (errno="@ + dec_int(errno as int) + ")"@),
{
    if ret != 0 {
        let m = text::cat(
            String::from_str("SYNCOBJ_TIMELINE_WAIT(handle="),
            dec_u64(syncobj_handle as u64).as_str(),
        );
        let m = text::cat(m, ", point=");
        let m = text::cat(m, dec_u64(point).as_str());
        let m = text::cat(m, ") failed (errno=");
        let m = text::cat(m, dec_i64(errno as i64).as_str());
        let m = text::cat(m, ")");
        return Err(os_error(errno, m));
    }
    Ok(())
}

/// The outcome of a SYNCOBJ_WAIT call on `count` handles with deadline
/// `abs_ns`: the error, with `errno` as its code, when `ret != 0`.
pub fn on_wait_many(count: usize, abs_ns: i64, ret: i32, errno: i32) -> (r: Result<(), XdnaError>)
    ensures
        ret == 0 <==> r is Ok,
        ret != 0 ==> (r matches Err(e) && e.code == errno && e.message@ == "SYNCOBJ_WAIT(handles="@
            + dec(count as nat) + ", abs_ns="@ + dec_int(abs_ns as int) + ") failed (errno="@
            + dec_int(errno as int) + ")"@),
{
    if ret != 0 {
        let m = text::cat(String::from_str("SYNCOBJ_WAIT(handles="), dec_u64(count as u64).as_str());
        let m = text::cat(m, ", abs_ns=");
        let m = text::cat(m, dec_i64(abs_ns).as_str());
        let m = text::cat(m, ") failed (errno=");
        let m = text::cat(m, dec_i64(errno as i64).as_str());
        let m = text::cat(m, ")");
        return Err(os_error(errno, m));
    }
    Ok(())
}

} // verus!
