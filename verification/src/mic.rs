//! Accounting for microphone samples that could not be kept.
use vstd::prelude::*;

verus! {

/// How many whole milliseconds `samples` last at `rate` samples per second.
pub fn dropped_duration_ms(samples: u64, rate: u32) -> (r: u64)
    requires
        rate > 0,
        samples * 1000 <= u64::MAX,
    ensures
        r == samples * 1000 / (rate as int),
{
    samples * 1000 / (rate as u64)
}

} // verus!
