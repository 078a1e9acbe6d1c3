//! The monotonic clock: what the real time clock needs of [`std::time`].
//!
//! Nothing here is proved, and nothing is claimed: what a clock answers
//! depends on when it is asked.

use vstd::prelude::*;

verus! {

/// A point in time of the monotonic clock, carried through without looking
/// inside.
#[verifier::external_type_specification]
#[verifier::external_body]
pub struct ExInstant(std::time::Instant);

/// [`std::time::Instant::now`] returns the current point in time. Nothing
/// is claimed of it.
pub assume_specification[ std::time::Instant::now ]() -> (now: std::time::Instant)
;

/// [`std::time::Instant::elapsed`] returns the time that has passed since
/// `instant`. Nothing is claimed of it.
pub assume_specification[ std::time::Instant::elapsed ](instant: &std::time::Instant) -> (elapsed:
    std::time::Duration)
;

/// [`std::time::Duration::as_secs`] returns the whole seconds of `duration`.
/// Nothing is claimed of it.
pub assume_specification[ std::time::Duration::as_secs ](duration: &std::time::Duration) -> (secs:
    u64)
;

} // verus!
