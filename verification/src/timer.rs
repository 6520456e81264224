use vstd::prelude::*;
use core::time::Duration;
use bevy_time::{Timer, TimerMode};

verus! {

/// A span of time as `Duration` holds it: whole seconds and the nanoseconds
/// past them.
#[derive(Clone, Copy, Debug, PartialEq, Eq, Structural)]
pub struct TimerDuration {
    pub secs: u64,
    pub nanos: u32,
}

/// The longest span a `Duration` holds, in nanoseconds.
pub open spec fn max_duration_nanos() -> int {
    u64::MAX * 1_000_000_000 + 999_999_999
}

impl TimerDuration {
    /// The nanoseconds part is below one second.
    pub open spec fn wf(self) -> bool {
        self.nanos < 1_000_000_000
    }

    /// The span in nanoseconds.
    pub open spec fn total(self) -> int {
        self.secs * 1_000_000_000 + self.nanos
    }

    /// The empty span.
    pub fn zero() -> (d: Self)
        ensures
            d.wf(),
            d.total() == 0,
    {
        TimerDuration { secs: 0, nanos: 0 }
    }
}

/// The elapsed time after adding `delta`, saturating at the longest span.
pub open spec fn ticked_nanos(elapsed: int, delta: int) -> int {
    if elapsed + delta > max_duration_nanos() {
        max_duration_nanos()
    } else {
        elapsed + delta
    }
}

/// Whether a repeating timer of length `duration` finishes in a tick by `delta`.
pub open spec fn tick_finishes(duration: int, elapsed: int, delta: int) -> bool {
    ticked_nanos(elapsed, delta) >= duration
}

/// The elapsed time of a repeating timer after a tick: it wraps around the
/// timer's length when the timer finishes (and is zero for a zero length; the
/// remainder is kept to 64 bits of nanoseconds).
pub open spec fn elapsed_after_tick(duration: int, elapsed: int, delta: int) -> int {
    let t = ticked_nanos(elapsed, delta);
    if t < duration {
        t
    } else if duration == 0 {
        0
    } else {
        (t % duration) % 0x1_0000_0000_0000_0000
    }
}

/// Calls `bevy_time::Timer::tick` on a repeating, running timer of length
/// `duration` that has run for `elapsed`, built with `Timer::new` and
/// `Timer::set_elapsed`, and reads back `Timer::elapsed` and
/// `Timer::is_finished`. The elapsed time grows by `delta` (saturating); the
/// timer finishes when it reaches `duration`, and then the elapsed time becomes
/// its remainder modulo `duration` (zero for a zero duration), cut to 64 bits.
#[verifier::external_body]
fn repeating_timer_tick(duration: TimerDuration, elapsed: TimerDuration, delta: TimerDuration) -> (r: (
    TimerDuration,
    bool,
))
    requires
        duration.wf(),
        elapsed.wf(),
        delta.wf(),
    ensures
        r.0.wf(),
        r.0.total() == elapsed_after_tick(duration.total(), elapsed.total(), delta.total()),
        r.1 == tick_finishes(duration.total(), elapsed.total(), delta.total()),
{
    let mut timer = Timer::new(Duration::new(duration.secs, duration.nanos), TimerMode::Repeating);
    timer.set_elapsed(Duration::new(elapsed.secs, elapsed.nanos));
    timer.tick(Duration::new(delta.secs, delta.nanos));
    let after = timer.elapsed();
    (TimerDuration { secs: after.as_secs(), nanos: after.subsec_nanos() }, timer.is_finished())
}

/// A repeating timer: its length, the time it has run since it last finished,
/// and whether its last tick finished it.
#[derive(Clone, Copy, Debug, PartialEq, Eq, Structural)]
pub struct SpawnTimer {
    pub duration: TimerDuration,
    pub elapsed: TimerDuration,
    pub finished: bool,
}

impl SpawnTimer {
    pub open spec fn wf(self) -> bool {
        self.duration.wf() && self.elapsed.wf()
    }

    /// A repeating timer of length `duration` that has not run yet.
    pub fn new(duration: TimerDuration) -> (t: Self)
        requires
            duration.wf(),
        ensures
            t.wf(),
            t.duration == duration,
            t.elapsed.total() == 0,
            !t.finished,
    {
        SpawnTimer { duration, elapsed: TimerDuration::zero(), finished: false }
    }

    /// Changes the timer's length; the elapsed time stays.
    pub fn set_duration(&mut self, duration: TimerDuration)
        ensures
            final(self).duration == duration,
            final(self).elapsed == old(self).elapsed,
            final(self).finished == old(self).finished,
    {
        self.duration = duration;
    }

    /// Advances the timer by `delta`.
    pub fn tick(&mut self, delta: TimerDuration)
        requires
            old(self).wf(),
            delta.wf(),
        ensures
            final(self).wf(),
            final(self).duration == old(self).duration,
            final(self).finished == tick_finishes(old(self).duration.total(), old(self).elapsed.total(), delta.total()),
            final(self).elapsed.total() == elapsed_after_tick(
                old(self).duration.total(),
                old(self).elapsed.total(),
                delta.total(),
            ),
    {
        let (elapsed, finished) = repeating_timer_tick(self.duration, self.elapsed, delta);
        self.elapsed = elapsed;
        self.finished = finished;
    }

    /// Whether the last tick finished the timer.
    pub fn is_finished(&self) -> (b: bool)
        ensures
            b == self.finished,
    {
        self.finished
    }
}

} // verus!
