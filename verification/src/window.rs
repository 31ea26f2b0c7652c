//! Rolling time windows: a window reaches backward from the evaluation
//! instant, never aligned to calendar boundaries.

use vstd::prelude::*;

verus! {

pub const HOUR_SECS: u64 = 3600;

pub const DAY_SECS: u64 = 86400;

/// An event at `ts` lies in the trailing window of width `window` seconds
/// ending at `now`.
pub open spec fn spec_in_window(ts: u64, now: u64, window: u64) -> bool {
    ts <= now && ts + window > now
}

pub fn in_window(ts: u64, now: u64, window: u64) -> (r: bool)
    ensures
        r == spec_in_window(ts, now, window),
{
    ts <= now && (ts as u128) + (window as u128) > (now as u128)
}

} // verus!
