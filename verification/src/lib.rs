//! Verified command-packet, ABI and dispatch logic for the AMD XDNA
//! (AIE-2P) NPU driver interface.

use vstd::prelude::*;

pub mod bytes;
pub mod kernels;
pub mod ert;
pub mod ioctl;
pub mod text;
pub mod fmt;
pub mod device;
pub mod dispatch;
pub mod bo;
pub mod hwctx;
pub mod cmd;
pub mod fence;
pub mod runtime;
pub mod npu;
pub mod xorshift;
pub mod asym3;
pub mod bf16;
pub mod hsa;
pub mod agpu;
pub mod reference;

verus! {

/// An error from the driver (`code` is the errno, or 0 for a check made
/// on this side) with a human-readable description.
#[derive(Debug)]
pub struct XdnaError {
    pub code: i32,
    pub message: String,
}

impl XdnaError {
    /// "hipx error {code}: {message}".
    pub fn describe(&self) -> (r: String)
        ensures
            r@ == "hipx error "@ + fmt::dec_int(self.code as int) + ": "@ + self.message@,
    {
        let s = text::cat(String::from_str("hipx error "), fmt::dec_i64(self.code as i64).as_str());
        let s = text::cat(s, ": ");
        text::cat(s, self.message.as_str())
    }
}

pub type Result<T> = std::result::Result<T, XdnaError>;

} // verus!
