//! Wall-clock timestamps, through the `instant` crate.
//!
//! Timestamps are opaque: the simulation only ever asks for whole
//! milliseconds elapsed since its own start, and clamps what it gets, so
//! everything downstream is verified for every value the clock can return.

use vstd::prelude::*;

verus! {

#[verifier::external_type_specification]
#[verifier::external_body]
pub struct ExInstant(instant::Instant);

/// Relies on instant::Instant::now (std::time::Instant on native targets):
/// an opaque timestamp for "now". Time-dependent, so nothing is assumed of
/// its value.
#[verifier::external_body]
pub(crate) fn clock_now() -> (r: instant::Instant) {
    instant::Instant::now()
}

/// Relies on Instant::now, Instant::saturating_duration_since (zero if the
/// other instant is later) and Duration::as_millis: whole milliseconds from
/// `earlier` to now. Time-dependent, so nothing is assumed of the value.
#[verifier::external_body]
pub(crate) fn millis_since(earlier: &instant::Instant) -> (ms: u64) {
    instant::Instant::now().saturating_duration_since(*earlier).as_millis() as u64
}

} // verus!
