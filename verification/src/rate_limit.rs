//! The pace of calls to a price provider.
//!
//! The token bucket itself is the caller's: it checks the bucket before each paced call and
//! asks here how long to wait.

use vstd::prelude::*;

verus! {

/// The sustained rate of calls to a price provider, per second.
pub const CALLS_PER_SECOND: u32 = 8;

/// How many calls the bucket lets through at once.
pub const BURST: u32 = 1;

/// How long a call waits when the bucket has no token for it, in milliseconds.
pub const PAUSE_MS: u64 = 2000;

/// The wait before a paced call: none where the bucket admitted the call, the fixed pause
/// where it did not. A call is never refused, only delayed.
pub fn pause_before_call(admitted: bool) -> (wait_ms: u64)
    ensures
        wait_ms == (if admitted {
            0
        } else {
            PAUSE_MS
        }),
{
    if admitted {
        0
    } else {
        PAUSE_MS
    }
}

} // verus!
