//! Time: the stopwatch that measures for how long the shader has been
//! playing, and spans between points in time.
//!
//! The stopwatch reads the clock of the machine by itself. Nothing can be
//! said here of what it shows, so what depends on its reading is written for
//! every reading.

use vstd::prelude::*;
use stopwatch::Stopwatch;

verus! {

/// The stopwatch of the crate `stopwatch`. What it holds cannot be seen from
/// here.
#[verifier::external_type_specification]
#[verifier::external_body]
pub struct ExStopwatch(stopwatch::Stopwatch);

/// `b - a`, or zero where `b` is before `a`.
pub open spec fn span(a: u64, b: u64) -> nat {
    if b >= a {
        (b - a) as nat
    } else {
        0
    }
}

/// Calls `stopwatch::Stopwatch::start_new`, which gives a stopwatch that
/// stands at zero and runs from the moment of the call. Nothing is claimed
/// of the result.
#[verifier::external_body]
pub(crate) fn start_new_stopwatch() -> (watch: Stopwatch) {
    Stopwatch::start_new()
}

/// Calls `stopwatch::Stopwatch::start`, which lets the stopwatch run from
/// the moment of the call and forgets since when it ran before. Nothing is
/// claimed of the stopwatch after the call.
#[verifier::external_body]
pub(crate) fn start_stopwatch(watch: &mut Stopwatch) {
    watch.start()
}

/// Calls `stopwatch::Stopwatch::stop`, which keeps the time that the
/// stopwatch shows at the moment of the call and lets it stand. Nothing is
/// claimed of the stopwatch after the call.
#[verifier::external_body]
pub(crate) fn stop_stopwatch(watch: &mut Stopwatch) {
    watch.stop()
}

/// Calls `stopwatch::Stopwatch::elapsed` and gives what it shows in
/// nanoseconds. The result depends on the clock; nothing is claimed of it.
#[verifier::external_body]
pub(crate) fn stopwatch_nanos(watch: &Stopwatch) -> (nanos: u128) {
    watch.elapsed().as_nanos()
}

/// What the stopwatch shows, in nanoseconds; the largest `u64` where it
/// shows more.
pub(crate) fn reading(watch: &Stopwatch) -> (nanos: u64) {
    let nanos = stopwatch_nanos(watch);
    if nanos > u64::MAX as u128 {
        u64::MAX
    } else {
        nanos as u64
    }
}

} // verus!
