//! The sample program that exercises the lint: a realtime function that
//! calls one function marked realtime and one left unmarked.
use vstd::prelude::*;
use crate::marker::realtime_tag;

verus! {

/// What the sample realtime function prints: it calls `A` (marked realtime)
/// and then `B` (unmarked), and each of them prints the realtime tag.
pub fn test_realtime_call_nonrealtime() -> (r: String)
    ensures
        r@ == realtime_tag() + realtime_tag(),
{
    let mut out = String::from_str("rt:realtime");
    out.append("rt:realtime");
    out
}

} // verus!
