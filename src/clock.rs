//! What the library takes from chrono and from the system clock.
use vstd::prelude::*;

use crate::humantime::EpochOffset;

verus! {

#[verifier::external_type_specification]
#[verifier::external_body]
pub struct ExTimeDelta(chrono::TimeDelta);

#[verifier::external_type_specification]
#[verifier::external_body]
pub struct ExSystemTime(std::time::SystemTime);

/// The whole seconds of a delta, as chrono's `TimeDelta::num_seconds` gives them.
pub uninterp spec fn delta_secs(d: chrono::TimeDelta) -> int;

/// The signed nanoseconds of a delta past its whole seconds, as chrono's
/// `TimeDelta::subsec_nanos` gives them.
pub uninterp spec fn delta_subsec(d: chrono::TimeDelta) -> int;

/// Relies on chrono's `TimeDelta::num_seconds`: the whole seconds of the
/// delta, truncated toward zero, so that the sub-second part of the same
/// delta (`subsec_nanos`) is under a second and never of the opposite sign;
/// the same delta gives the same count.
pub assume_specification[ chrono::TimeDelta::num_seconds ](d: &chrono::TimeDelta) -> (r: i64)
    ensures
        r as int == delta_secs(*d),
        r > 0 ==> 0 <= delta_subsec(*d) < 1_000_000_000,
        r < 0 ==> -1_000_000_000 < delta_subsec(*d) <= 0,
        r == 0 ==> -1_000_000_000 < delta_subsec(*d) < 1_000_000_000,
;

/// Relies on chrono's `TimeDelta::subsec_nanos`: the signed nanoseconds past
/// the whole seconds, less than one second either way and never of the
/// opposite sign to the whole seconds; the same delta gives the same count.
pub assume_specification[ chrono::TimeDelta::subsec_nanos ](d: &chrono::TimeDelta) -> (r: i32)
    ensures
        r as int == delta_subsec(*d),
        -1_000_000_000 < r < 1_000_000_000,
        delta_secs(*d) > 0 ==> r >= 0,
        delta_secs(*d) < 0 ==> r <= 0,
;

/// The signed nanoseconds from the Unix epoch to an instant of the system
/// clock, as std's `SystemTime::duration_since(UNIX_EPOCH)` measures them.
pub uninterp spec fn epoch_nanos_of(st: std::time::SystemTime) -> int;

/// Relies on std's `SystemTime::now`: the current reading of the system
/// clock. Nothing is promised of it.
#[verifier::external_body]
pub(crate) fn system_now() -> (r: std::time::SystemTime) {
    std::time::SystemTime::now()
}

/// Relies on std's `SystemTime::duration_since(UNIX_EPOCH)`: the distance
/// of `st` from the Unix epoch as whole seconds and the nanoseconds below
/// one second, and whether `st` lies before the epoch (the error then
/// carries the distance the other way). It does not panic; the same instant
/// gives the same distance.
#[verifier::external_body]
pub(crate) fn epoch_offset(st: &std::time::SystemTime) -> (r: EpochOffset)
    ensures
        r@ == epoch_nanos_of(*st),
        r.nanos < 1_000_000_000,
{
    match st.duration_since(std::time::UNIX_EPOCH) {
        Ok(d) => EpochOffset { before_epoch: false, secs: d.as_secs(), nanos: d.subsec_nanos() },
        Err(e) => EpochOffset {
            before_epoch: true,
            secs: e.duration().as_secs(),
            nanos: e.duration().subsec_nanos(),
        },
    }
}

} // verus!
