//! A timer that reports how long a span of code took.

use std::time::{Duration, Instant};
use vstd::prelude::*;

verus! {

#[verifier::external_type_specification]
#[verifier::external_body]
pub struct ExInstant(Instant);

/// Calls `std::time::Instant::now`. Nothing is claimed of the instant: it
/// is the clock's.
#[verifier::external_body]
fn now() -> Instant {
    Instant::now()
}

/// Calls `std::time::Instant::elapsed`. Nothing is claimed of the
/// duration: it is the clock's.
#[verifier::external_body]
fn elapsed_since(start: &Instant) -> Duration {
    start.elapsed()
}

/// Calls `std::time::Duration::as_millis`. Nothing is claimed of the
/// number, since a duration has no model here.
#[verifier::external_body]
fn whole_millis(duration: &Duration) -> u128 {
    duration.as_millis()
}

/// Whether a span of this many whole milliseconds is reported: one that
/// took a millisecond or more.
pub fn is_reported(millis: u128) -> (b: bool)
    ensures
        b == (millis >= 1),
{
    millis >= 1
}

/// A timer that tracks the duration of a span of code until it is
/// dropped, and then hands the duration to its callback.
pub struct Timer<F: Fn(Duration)> {
    start: Instant,
    f: F,
}

impl<F: Fn(Duration)> Timer<F> {
    #[verifier::type_invariant]
    spec fn callback_takes_any_duration(&self) -> bool {
        forall|d: Duration| call_requires(self.f, (d,))
    }

    /// The callback.
    pub closed spec fn callback(&self) -> F {
        self.f
    }

    /// The instant at which the span began.
    pub closed spec fn start(&self) -> Instant {
        self.start
    }

    /// A timer of a span that began at `start`.
    pub fn starting_at(start: Instant, f: F) -> (timer: Self)
        requires
            forall|d: Duration| call_requires(f, (d,)),
        ensures
            timer.start() == start,
            timer.callback() == f,
    {
        Timer { start, f }
    }

    /// A timer that starts now: the span begins at the instant that the
    /// clock gives. The callback is handed the duration since then when
    /// the timer is stopped, and is not called before.
    pub fn new(f: F) -> (timer: Self)
        requires
            forall|d: Duration| call_requires(f, (d,)),
        ensures
            timer.callback() == f,
    {
        Self::starting_at(now(), f)
    }

    /// Ends the span: the callback is handed the duration since the timer
    /// was made, unless it is under a millisecond.
    pub fn stop(self) {
        proof {
            use_type_invariant(&self);
        }
        let elapsed = elapsed_since(&self.start);
        if is_reported(whole_millis(&elapsed)) {
            (self.f)(elapsed)
        }
    }
}

} // verus!
