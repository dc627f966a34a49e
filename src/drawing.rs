//! Text shown on the dashboard.
use vstd::prelude::*;
use crate::numeral::{decimal, push_decimal};

verus! {

/// The whole minutes until an arrival, or `<1` when it is less than a
/// minute away (or already past).
pub open spec fn countdown_text(now_ts: int, arrival_ts: int) -> Seq<char> {
    let wait = arrival_ts - now_ts;
    if wait < 60 {
        "<1"@
    } else {
        decimal((wait / 60) as nat)
    }
}

/// The countdown to an arrival at `arrival_ts`, seen at `now_ts` (seconds).
pub fn countdown_summary(now_ts: i64, arrival_ts: i64) -> (r: String)
    ensures
        r@ == countdown_text(now_ts as int, arrival_ts as int),
{
    let wait_seconds = arrival_ts as i128 - now_ts as i128;
    if wait_seconds < 60 {
        return String::from_str("<1");
    }
    let mut out = String::new();
    push_decimal(&mut out, (wait_seconds / 60) as u64);
    assert(out@ =~= decimal((wait_seconds / 60) as nat));
    out
}

} // verus!
