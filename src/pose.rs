//! Pacing of head-pose updates from the glasses' inertial sensor.

use vstd::prelude::*;

verus! {

/// Interval between two fused sensor samples, in microseconds.
pub const FUSION_PERIOD_US: u64 = 10000;

/// Whether a sample stamped `timestamp` is due for fusion after one stamped
/// `last`: a full period has passed, counting modulo 2^64 so that a sensor
/// clock that wrapped or restarted never stalls the updates.
pub fn fusion_due(timestamp: u64, last: u64) -> (r: bool)
    ensures
        r == ((if timestamp >= last {
            timestamp - last
        } else {
            timestamp - last + 0x1_0000_0000_0000_0000
        }) >= FUSION_PERIOD_US),
{
    timestamp.wrapping_sub(last) >= FUSION_PERIOD_US
}

} // verus!
