//! Building the text of error messages.

use vstd::prelude::*;

verus! {

/// `s` followed by `t`.
pub fn cat(s: String, t: &str) -> (r: String)
    ensures
        r@ == s@ + t@,
{
    let mut s = s;
    s.append(t);
    s
}

} // verus!
