//! The frame clock.
//!
//! Instead of a process-wide lazily initialized timer, the clock is an
//! explicit context object constructed once at startup and passed down.
//! The caller reads the platform's monotonic time and hands it in as
//! microseconds since startup; the clock keeps the time of the last
//! update and the delta between the last two updates.

use vstd::prelude::*;

verus! {

/// The frame clock: time of the last update and the last frame delta,
/// both in microseconds.
#[derive(Clone, Copy, Debug, PartialEq, Eq, Structural)]
pub struct Clock {
    pub now: u64,
    pub delta: u64,
}

impl Clock {
    /// A clock that has not ticked yet.
    pub fn new() -> (c: Clock)
        ensures
            c == (Clock { now: 0u64, delta: 0u64 }),
    {
        Clock { now: 0, delta: 0 }
    }
}

/// Advances the clock to the given time.  The delta becomes the distance
/// to the previous update, or zero if time appeared to run backwards.
pub fn update(clock: &mut Clock, now: u64)
    ensures
        final(clock).now == now,
        final(clock).delta == if now >= old(clock).now {
            now - old(clock).now
        } else {
            0
        },
{
    if now >= clock.now {
        clock.delta = now - clock.now;
    } else {
        clock.delta = 0;
    }
    clock.now = now;
}

/// The distance between the last two updates, in microseconds.
pub fn get_delta(clock: &Clock) -> (r: u64)
    ensures
        r == clock.delta,
{
    clock.delta
}

/// The time of the last update, in microseconds.
pub fn get_now(clock: &Clock) -> (r: u64)
    ensures
        r == clock.now,
{
    clock.now
}

} // verus!
