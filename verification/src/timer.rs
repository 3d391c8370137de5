//! Non-repeating countdown timers, measured in whole nanoseconds.
//!
//! The game's timers are `bevy::time::Timer`s in `TimerMode::Once`. This module
//! keeps the two numbers that the game logic reads (duration and elapsed time)
//! and advances them with bevy's own `Timer::tick`.

use vstd::prelude::*;
use bevy::time::{Timer, TimerMode};
use std::time::Duration;

verus! {

/// Nanoseconds in one second.
pub const NANOS_PER_SEC: u64 = 1_000_000_000;

/// A non-repeating timer: it counts `elapsed_ns` up to `duration_ns` and then
/// stays finished until it is reset.
#[derive(Clone, Copy, Debug, PartialEq, Eq, Structural)]
pub struct OnceTimer {
    pub duration_ns: u64,
    pub elapsed_ns: u64,
}

/// Elapsed time after a tick: it grows by `delta` and stops at the duration.
pub open spec fn spec_ticked_elapsed(duration: nat, elapsed: nat, delta: nat) -> nat {
    if elapsed + delta < duration { elapsed + delta } else { duration }
}

/// Runs `bevy::time::Timer::tick` on a non-repeating timer of the given
/// duration that has already run for `elapsed_ns`, and reads back its elapsed
/// time and its `finished` flag. bevy's source adds `delta` to the elapsed time,
/// marks the timer finished once the elapsed time reaches the duration, and
/// then clamps the elapsed time to the duration; this contract says exactly that.
#[verifier::external_body]
fn bevy_once_timer_tick(duration_ns: u64, elapsed_ns: u64, delta_ns: u64) -> (r: (u64, bool))
    requires
        elapsed_ns <= duration_ns,
    ensures
        r.0 == spec_ticked_elapsed(duration_ns as nat, elapsed_ns as nat, delta_ns as nat),
        r.1 == (elapsed_ns + delta_ns >= duration_ns),
{
    let mut timer = Timer::new(Duration::from_nanos(duration_ns), TimerMode::Once);
    timer.set_elapsed(Duration::from_nanos(elapsed_ns));
    timer.tick(Duration::from_nanos(delta_ns));
    (timer.elapsed().as_nanos() as u64, timer.finished())
}

impl OnceTimer {
    /// A timer is well formed when it has a positive duration and has not run
    /// past it.
    pub open spec fn wf(self) -> bool {
        &&& self.duration_ns > 0
        &&& self.elapsed_ns <= self.duration_ns
    }

    pub open spec fn spec_finished(self) -> bool {
        self.elapsed_ns >= self.duration_ns
    }

    pub open spec fn spec_remaining(self) -> nat {
        (self.duration_ns - self.elapsed_ns) as nat
    }

    /// The timer after `delta` nanoseconds have passed.
    pub open spec fn spec_tick(self, delta: nat) -> OnceTimer {
        OnceTimer {
            duration_ns: self.duration_ns,
            elapsed_ns: spec_ticked_elapsed(self.duration_ns as nat, self.elapsed_ns as nat, delta) as u64,
        }
    }

    /// The timer after a reset: nothing has elapsed.
    pub open spec fn spec_reset(self) -> OnceTimer {
        OnceTimer { duration_ns: self.duration_ns, elapsed_ns: 0 }
    }

    /// A fresh, unfinished timer of the given duration.
    pub fn new(duration_ns: u64) -> (t: OnceTimer)
        requires
            duration_ns > 0,
        ensures
            t.wf(),
            t.duration_ns == duration_ns,
            t.elapsed_ns == 0,
            !t.spec_finished(),
    {
        OnceTimer { duration_ns, elapsed_ns: 0 }
    }

    /// Whether the timer has reached its duration.
    pub fn finished(&self) -> (b: bool)
        ensures
            b == self.spec_finished(),
    {
        self.elapsed_ns >= self.duration_ns
    }

    /// Time left until the timer finishes.
    pub fn remaining(&self) -> (r: u64)
        requires
            self.wf(),
        ensures
            r == self.spec_remaining(),
    {
        self.duration_ns - self.elapsed_ns
    }

    /// Advances the timer by `delta_ns` nanoseconds.
    pub fn tick(&mut self, delta_ns: u64)
        requires
            old(self).wf(),
        ensures
            final(self).wf(),
            *final(self) == old(self).spec_tick(delta_ns as nat),
            final(self).spec_finished() == (old(self).elapsed_ns + delta_ns >= old(self).duration_ns),
    {
        let (elapsed, _finished) = bevy_once_timer_tick(self.duration_ns, self.elapsed_ns, delta_ns);
        self.elapsed_ns = elapsed;
    }

    /// Starts the timer over from zero.
    pub fn reset(&mut self)
        requires
            old(self).wf(),
        ensures
            final(self).wf(),
            *final(self) == old(self).spec_reset(),
            !final(self).spec_finished(),
    {
        self.elapsed_ns = 0;
    }
}

/// Ticking a timer by `a` and then by `b` leaves it where a single tick by
/// `a + b` would.
pub proof fn lemma_tick_additive(t: OnceTimer, a: nat, b: nat)
    requires
        t.wf(),
    ensures
        t.spec_tick(a).spec_tick(b) == t.spec_tick(a + b),
{
}

/// A finished timer stays finished, and unchanged, however long it is ticked.
pub proof fn lemma_finished_is_absorbing(t: OnceTimer, delta: nat)
    requires
        t.wf(),
        t.spec_finished(),
    ensures
        t.spec_tick(delta) == t,
{
}

/// Ticking keeps a timer well formed, and a timer ticked by at least its
/// remaining time is finished.
pub proof fn lemma_tick_finishes(t: OnceTimer, delta: nat)
    requires
        t.wf(),
    ensures
        t.spec_tick(delta).wf(),
        t.spec_tick(delta).spec_finished() <==> delta >= t.spec_remaining(),
{
}

} // verus!
