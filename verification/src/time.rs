//! What the library needs of `std::time`.

use std::time::{Duration, Instant};
use vstd::prelude::*;

verus! {

/// `std::time::Instant`, a moment of a clock that only goes forward. It is carried as it is.
#[verifier::external_type_specification]
#[verifier::external_body]
pub struct ExInstant(std::time::Instant);

/// The duration of a number of whole seconds, as `Duration::from_secs` makes it.
pub uninterp spec fn duration_of_secs(secs: u64) -> Duration;

/// The whole milliseconds of a duration, as `Duration::as_millis` counts them.
pub uninterp spec fn duration_millis(d: Duration) -> u128;

/// `Duration::from_secs`: the duration of `secs` whole seconds, which has a thousand
/// milliseconds for each second.
pub assume_specification[ Duration::from_secs ](secs: u64) -> (d: Duration)
    ensures
        d == duration_of_secs(secs),
        duration_millis(d) == secs * 1000,
;

/// `Duration::as_millis`: the whole milliseconds of the duration.
pub assume_specification[ Duration::as_millis ](d: &Duration) -> (ms: u128)
    ensures
        ms == duration_millis(*d),
;

/// `Instant::now`: the present moment.
pub assume_specification[ Instant::now ]() -> Instant;

/// `Instant::elapsed`: the time that has passed since the moment.
pub assume_specification[ Instant::elapsed ](start: &Instant) -> Duration;

} // verus!
