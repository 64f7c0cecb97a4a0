//! Frame timing on top of the engine's repeating timer.

use bevy::time::{Stopwatch, Timer, TimerMode};
use std::time::Duration;
use vstd::prelude::*;

verus! {

/// Number of times a repeating timer of period `duration` wraps when `delta`
/// is added to an elapsed time of `elapsed`, as the engine counts it: the
/// quotient is kept in 32 bits, and a timer of period zero reports the
/// largest count.
pub open spec fn wraps(duration: u64, elapsed: u64, delta: u64) -> int {
    if duration == 0 {
        u32::MAX as int
    } else {
        ((elapsed + delta) / (duration as int)) % 0x1_0000_0000
    }
}

/// Time left on a repeating timer of period `duration` after `delta` is added
/// to an elapsed time of `elapsed`.
pub open spec fn carried(duration: u64, elapsed: u64, delta: u64) -> int {
    if duration == 0 {
        0
    } else {
        (elapsed + delta) % (duration as int)
    }
}

/// Runs `Timer::tick` of the engine on a repeating, unpaused timer with the
/// given period and elapsed time, all in nanoseconds, and reads back the new
/// elapsed time and `Timer::just_finished`.
///
/// Trusted: the engine adds `delta` to the elapsed time, reports the timer as
/// just finished when the 32-bit count of completed periods is not zero, and
/// keeps the remainder as the new elapsed time.
#[verifier::external_body]
pub(crate) fn tick_repeating(duration: u64, elapsed: u64, delta: u64) -> (r: (u64, bool))
    ensures
        r.0 == carried(duration, elapsed, delta),
        r.1 == (wraps(duration, elapsed, delta) > 0),
{
    let mut timer = Timer::new(Duration::from_nanos(duration), TimerMode::Repeating);
    timer.set_elapsed(Duration::from_nanos(elapsed));
    timer.tick(Duration::from_nanos(delta));
    (timer.elapsed().as_nanos() as u64, timer.just_finished())
}

/// A repeating timer that paces the frames of a sprite animation.
#[derive(Clone, Copy, Debug, PartialEq, Eq, Structural, Hash)]
pub struct AnimationTimer {
    duration: u64,
    elapsed: u64,
}

impl AnimationTimer {
    #[verifier::type_invariant]
    spec fn inv(self) -> bool {
        self.well_formed()
    }

    /// The elapsed time stays below the period; a timer of period zero holds
    /// no elapsed time at all.
    pub closed spec fn well_formed(self) -> bool {
        if self.duration == 0 {
            self.elapsed == 0
        } else {
            self.elapsed < self.duration
        }
    }

    pub closed spec fn spec_duration(self) -> u64 {
        self.duration
    }

    pub closed spec fn spec_elapsed(self) -> u64 {
        self.elapsed
    }

    /// What `well_formed` says, over the period and the elapsed time.
    pub proof fn lemma_well_formed(self)
        ensures
            self.well_formed() <==> (if self.spec_duration() == 0 {
                self.spec_elapsed() == 0
            } else {
                self.spec_elapsed() < self.spec_duration()
            }),
    {
    }

    /// The period, in nanoseconds.
    #[verifier::when_used_as_spec(spec_duration)]
    pub fn duration(self) -> (duration: u64)
        ensures
            duration == self.spec_duration(),
    {
        self.duration
    }

    /// The time elapsed in the current period, in nanoseconds.
    #[verifier::when_used_as_spec(spec_elapsed)]
    pub fn elapsed(self) -> (elapsed: u64)
        ensures
            elapsed == self.spec_elapsed(),
            self.well_formed(),
    {
        proof {
            use_type_invariant(&self);
        }
        self.elapsed
    }

    /// A timer of the given period, in nanoseconds, with no time elapsed.
    pub fn new(duration: u64) -> (timer: AnimationTimer)
        ensures
            timer.spec_duration() == duration,
            timer.spec_elapsed() == 0,
            timer.well_formed(),
    {
        AnimationTimer { duration, elapsed: 0 }
    }

    /// Advances the timer by `delta` nanoseconds and tells whether it
    /// completed a period during this step.
    pub fn tick(&mut self, delta: u64) -> (finished: bool)
        ensures
            final(self).spec_duration() == old(self).spec_duration(),
            final(self).spec_elapsed() == carried(
                old(self).spec_duration(),
                old(self).spec_elapsed(),
                delta,
            ),
            finished == (wraps(old(self).spec_duration(), old(self).spec_elapsed(), delta) > 0),
            final(self).well_formed(),
    {
        let (elapsed, finished) = tick_repeating(self.duration, self.elapsed, delta);
        self.elapsed = elapsed;
        finished
    }
}

/// Reads the elapsed time, in nanoseconds, of a fresh `Stopwatch::new()` of
/// the engine.
///
/// Trusted: a new stopwatch has no time elapsed.
#[verifier::external_body]
pub(crate) fn stopwatch_new() -> (elapsed: u64)
    ensures
        elapsed == 0,
{
    Stopwatch::new().elapsed().as_nanos() as u64
}

/// Runs `Stopwatch::tick` of the engine on an unpaused stopwatch with the
/// given elapsed time, in nanoseconds, and reads back the new elapsed time.
///
/// Trusted: the engine adds `delta` to the elapsed time.
#[verifier::external_body]
pub(crate) fn stopwatch_tick(elapsed: u64, delta: u64) -> (after: u128)
    ensures
        after == elapsed + delta,
{
    let mut watch = Stopwatch::new();
    watch.set_elapsed(Duration::from_nanos(elapsed));
    watch.tick(Duration::from_nanos(delta));
    watch.elapsed().as_nanos()
}

} // verus!
