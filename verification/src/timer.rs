//! A one-shot countdown timer measured in nanoseconds: it runs until its
//! duration has elapsed, reports the tick on which it finished, and then stays
//! finished. This is the engine's `Timer` in its `Once` mode, never paused.

use vstd::prelude::*;

verus! {

/// The abstract state of a one-shot timer.
pub struct TimerView {
    pub duration: nat,
    pub elapsed: nat,
    pub finished: bool,
    pub just_finished: bool,
}

/// A fresh timer of the given duration: nothing elapsed, not finished.
pub open spec fn fresh_timer(duration: nat) -> TimerView {
    TimerView { duration, elapsed: 0, finished: false, just_finished: false }
}

/// The elapsed time after adding `delta`, saturating at the largest `u64`.
pub open spec fn saturating_elapsed(elapsed: nat, delta: nat) -> nat {
    if elapsed + delta > u64::MAX { u64::MAX as nat } else { elapsed + delta }
}

/// One tick of `delta` nanoseconds. A finished timer only clears its
/// "just finished" flag. A running one adds `delta`; when that reaches the
/// duration it finishes, clamps its elapsed time to the duration and reports
/// that it finished on this tick.
pub open spec fn tick_timer(t: TimerView, delta: nat) -> TimerView {
    if t.finished {
        TimerView { just_finished: false, ..t }
    } else {
        let e = saturating_elapsed(t.elapsed, delta);
        if e >= t.duration {
            TimerView { duration: t.duration, elapsed: t.duration, finished: true, just_finished: true }
        } else {
            TimerView { duration: t.duration, elapsed: e, finished: false, just_finished: false }
        }
    }
}

/// A timer never runs past its duration, reports finishing only when it is
/// finished, and a finished timer has run its whole duration.
pub open spec fn timer_wf(t: TimerView) -> bool {
    &&& t.elapsed <= t.duration <= u64::MAX
    &&& t.just_finished ==> t.finished
    &&& t.finished ==> t.elapsed == t.duration
}

/// Ticking keeps a timer well formed.
pub proof fn tick_keeps_timer_wf(t: TimerView, delta: nat)
    requires
        timer_wf(t),
    ensures
        timer_wf(tick_timer(t, delta)),
{
}

/// A one-shot timer.
#[derive(Debug, Clone, Copy, PartialEq, Eq, Structural)]
pub struct OnceTimer {
    duration_ns: u64,
    elapsed_ns: u64,
    finished: bool,
    just_finished: bool,
}

impl View for OnceTimer {
    type V = TimerView;

    closed spec fn view(&self) -> TimerView {
        TimerView {
            duration: self.duration_ns as nat,
            elapsed: self.elapsed_ns as nat,
            finished: self.finished,
            just_finished: self.just_finished,
        }
    }
}

impl OnceTimer {
    /// The timer never runs past its duration, and it reports finishing only
    /// when it is finished.
    pub open spec fn wf(&self) -> bool {
        timer_wf(self@)
    }

    /// A new timer of `duration_ns` nanoseconds.
    pub fn new(duration_ns: u64) -> (t: OnceTimer)
        ensures
            t.wf(),
            t@ == fresh_timer(duration_ns as nat),
    {
        OnceTimer { duration_ns, elapsed_ns: 0, finished: false, just_finished: false }
    }

    /// Advances the timer by `delta_ns` nanoseconds.
    pub fn tick(&mut self, delta_ns: u64)
        requires
            old(self).wf(),
        ensures
            final(self).wf(),
            final(self)@ == tick_timer(old(self)@, delta_ns as nat),
    {
        if self.finished {
            self.just_finished = false;
            return;
        }
        let e = self.elapsed_ns.saturating_add(delta_ns);
        if e >= self.duration_ns {
            self.elapsed_ns = self.duration_ns;
            self.finished = true;
            self.just_finished = true;
        } else {
            self.elapsed_ns = e;
            self.just_finished = false;
        }
    }

    /// Whether the whole duration has elapsed.
    pub fn is_finished(&self) -> (b: bool)
        ensures
            b == self@.finished,
    {
        self.finished
    }

    /// Whether the timer finished on its last tick.
    pub fn just_finished(&self) -> (b: bool)
        ensures
            b == self@.just_finished,
    {
        self.just_finished
    }

    /// The nanoseconds elapsed so far.
    pub fn elapsed_ns(&self) -> (e: u64)
        ensures
            e == self@.elapsed,
    {
        self.elapsed_ns
    }

    /// The duration in nanoseconds.
    pub fn duration_ns(&self) -> (d: u64)
        ensures
            d == self@.duration,
    {
        self.duration_ns
    }
}

/// A finished timer stays finished, and does not report finishing again.
pub proof fn finished_timer_stays_finished(t: TimerView, delta: nat)
    requires
        t.finished,
    ensures
        tick_timer(t, delta).finished,
        !tick_timer(t, delta).just_finished,
        tick_timer(t, delta).elapsed == t.elapsed,
{
}

/// A running timer finishes on exactly the tick that brings its elapsed time
/// to its duration, and reports it on that tick.
pub proof fn timer_finishes_when_time_is_up(t: TimerView, delta: nat)
    requires
        !t.finished,
        t.elapsed <= t.duration <= u64::MAX,
    ensures
        tick_timer(t, delta).just_finished <==> t.elapsed + delta >= t.duration,
        tick_timer(t, delta).finished <==> t.elapsed + delta >= t.duration,
        tick_timer(t, delta).elapsed <= t.duration,
{
}

/// Time on a timer never runs backwards: a tick never lowers the elapsed time.
pub proof fn timer_elapsed_never_decreases(t: TimerView, delta: nat)
    requires
        timer_wf(t),
    ensures
        tick_timer(t, delta).elapsed >= t.elapsed,
        tick_timer(t, delta).duration == t.duration,
{
}

} // verus!
