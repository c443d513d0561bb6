//! Clock reading used to stamp trade records.
use vstd::prelude::*;
use std::time::SystemTime;
use crate::clock::{secs_or_zero, unix_epoch};

verus! {

/// Seconds since the Unix epoch by the system clock, or 0 when the clock
/// reads before the epoch (`secs_or_zero`). The reading itself depends on the
/// time, so no clause ties the result to a value.
pub fn now_s() -> u64 {
    secs_or_zero(SystemTime::now().duration_since(unix_epoch()))
}

} // verus!
