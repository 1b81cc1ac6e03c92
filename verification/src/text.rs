//! Text helpers: comparison of string slices and building of messages.

use vstd::prelude::*;
use vstd::string::StringExecFns;

verus! {

/// Whether two string slices hold the same characters.
pub fn same_text(a: &str, b: &str) -> (same: bool)
    ensures
        same == (a@ == b@),
{
    let left = a.to_owned();
    let right = b.to_owned();
    left == right
}

/// `before` followed by `body`.
pub fn prefixed(before: &str, body: &str) -> (out: String)
    ensures
        out@ == before@ + body@,
{
    let mut out = before.to_owned();
    out.append(body);
    out
}

/// `before`, then `body`, then `after`.
pub fn framed(before: &str, body: &str, after: &str) -> (out: String)
    ensures
        out@ == before@ + body@ + after@,
{
    let mut out = before.to_owned();
    out.append(body);
    out.append(after);
    out
}

} // verus!
