//! The resources of a session: when it started and how many enemies fell.
//!
//! Every time is a count of nanoseconds since the program started.

use vstd::prelude::*;

verus! {

/// Nanoseconds in one second.
pub const NANOS_PER_SEC: u128 = 1_000_000_000;

/// The time at which the session started.
#[derive(Debug, Clone, Copy, PartialEq, Eq, Structural)]
pub struct GameTime(pub u128);

/// How many enemies were killed in the session.
#[derive(Debug, Clone, Copy, PartialEq, Eq, Structural)]
pub struct Killed(pub u32);

/// Whole seconds from `start` to `now`.
pub open spec fn session_seconds(start: GameTime, now: int) -> int {
    (now - start.0) / 1_000_000_000
}

/// Whether the whole second has changed between the tick at `previous` and
/// the tick at `now`.
pub open spec fn second_changed(previous: int, now: int) -> bool {
    previous / 1_000_000_000 != now / 1_000_000_000
}

/// Whether the whole second has changed since the tick at `previous`: the
/// tick on which the spawner and the displayed time act.
pub fn is_new_second(previous: u128, now: u128) -> (changed: bool)
    ensures
        changed == second_changed(previous as int, now as int),
{
    previous / NANOS_PER_SEC != now / NANOS_PER_SEC
}

/// A tick that lies exactly on a whole second is always the first of its
/// second, whatever the tick before it was.
pub proof fn lemma_boundary_is_a_change(previous: int, now: int)
    requires
        0 <= previous < now,
        now % 1_000_000_000 == 0,
    ensures
        second_changed(previous, now),
{
}

impl GameTime {
    /// Whole seconds of the session that have elapsed at `now`.
    pub fn elapsed_seconds(&self, now: u128) -> (seconds: u128)
        requires
            self.0 <= now,
        ensures
            seconds == session_seconds(*self, now as int),
    {
        (now - self.0) / NANOS_PER_SEC
    }
}

} // verus!
