//! Interval gates over the monotonic clock.

use std::time::Instant;
use vstd::prelude::*;

verus! {

/// `std::time::Instant`, carried through as an opaque value: nothing is
/// known of what an instant holds.
#[verifier::external_type_specification]
#[verifier::external_body]
pub struct ExInstant(Instant);

/// `Instant::now` reads the monotonic clock. Nothing is claimed of the
/// instant that comes back.
pub assume_specification[ Instant::now ]() -> (now: Instant);

/// `Instant::elapsed` measures the time since the instant was taken. The
/// reading depends on the clock, so nothing is claimed of it.
pub assume_specification[ Instant::elapsed ](start: &Instant) -> (elapsed: core::time::Duration);

/// `Duration::as_millis` gives the whole milliseconds in a duration. A
/// duration is opaque here, so nothing is claimed of the number.
pub assume_specification[ core::time::Duration::as_millis ](duration: &core::time::Duration) -> (millis: u128);

/// An armed interval: the instant it was started at and how long it runs.
pub struct Timer {
    start: Instant,
    len: u128,
}

impl View for Timer {
    type V = nat;

    /// A timer is modelled by its duration in milliseconds. The instant it
    /// was armed at belongs to the clock and has no model.
    closed spec fn view(&self) -> nat {
        self.len as nat
    }
}

/// What a clock reading says of a timer that runs for `duration`
/// milliseconds and was armed `elapsed` milliseconds ago.
pub open spec fn expired(duration: nat, elapsed: nat) -> bool {
    elapsed >= duration
}

impl Timer {
    /// Arms a timer of `len` milliseconds, starting now.
    pub fn new(len: u128) -> (timer: Timer)
        ensures
            timer@ == len,
    {
        Timer { start: Instant::now(), len }
    }

    /// Whether the timer has run out when `elapsed` milliseconds have passed
    /// since it was armed.
    pub fn is_done_after(&self, elapsed: u128) -> (done: bool)
        ensures
            done == expired(self@, elapsed as nat),
    {
        elapsed >= self.len
    }

    /// Whether the duration has passed since the timer was armed. The clock
    /// decides, except for a timer of no duration, which is always done.
    pub fn is_done(&self) -> (done: bool)
        ensures
            self@ == 0 ==> done,
    {
        let elapsed = self.start.elapsed().as_millis();
        self.is_done_after(elapsed)
    }

    /// Starts the interval again from now. The duration stays.
    pub fn reset(&mut self)
        ensures
            final(self)@ == old(self)@,
    {
        self.start = Instant::now();
    }

    /// Gives the timer a new duration and starts it from now.
    pub fn rearm(&mut self, len: u128)
        ensures
            final(self)@ == len,
    {
        self.len = len;
        self.start = Instant::now();
    }
}

} // verus!
