//! Moments and spans of time, as whole nanoseconds. A moment counts from the start of the process.

use vstd::prelude::*;

verus! {

/// The last moment that can be told.
pub const LAST_MOMENT: u128 = 9_223_372_036_854_775_807_999_999_999;

pub const NANOS_PER_SECOND: u128 = 1_000_000_000;

pub const NANOS_PER_MILLISECOND: u128 = 1_000_000;

/// The moment that comes some time later, if it can be told.
pub open spec fn moment_after(now: u128, span: u128) -> Option<u128> {
    if now + span <= LAST_MOMENT {
        Some((now + span) as u128)
    } else {
        None
    }
}

/// The moment that comes some time later, if it can be told.
pub fn later(now: u128, span: u128) -> (result: Option<u128>)
    ensures
        result == moment_after(now, span),
{
    if now <= LAST_MOMENT && span <= LAST_MOMENT - now {
        Some(now + span)
    } else {
        None
    }
}

} // verus!
