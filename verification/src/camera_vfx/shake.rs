//! The camera shake: a short, fading jolt that always returns the camera to
//! where it was.

use vstd::prelude::*;
use crate::app_plan::{AppPlan, Registration, ResourceId, ScheduleLabel, SystemId, plain, plain_system};
use crate::timer::{OnceTimer, TimerView, fresh_timer, tick_timer, timer_wf};

verus! {

/// How long a shake lasts, in nanoseconds: 0.3 s as a 32-bit float, rounded
/// to the nearest nanosecond.
pub const SHAKE_DURATION_NS: u64 = 300_000_012;

/// The abstract state of the shake: its timer, whether it runs, and the
/// camera pose to return to.
pub struct ShakeView<P> {
    pub timer: TimerView,
    pub is_active: bool,
    pub rest_pose: P,
}

/// The camera shake of pose type `P` (the camera's position and rotation).
#[derive(Debug, Clone, Copy, PartialEq)]
pub struct ScreenShake<P> {
    timer: OnceTimer,
    is_active: bool,
    rest_pose: P,
}

/// What the camera does this frame.
#[derive(Debug, Clone, Copy, PartialEq, Eq)]
pub enum ShakeStep<P> {
    /// No shake runs; the camera is left alone.
    Idle,
    /// The shake has ended: the camera goes back to this pose.
    Restore(P),
    /// The shake runs: the camera is jolted around this pose, the harder the
    /// less of the duration has elapsed.
    Jolt { rest_pose: P, elapsed_ns: u64, duration_ns: u64 },
}

/// A shake is running when it was started and its time is not yet up.
pub open spec fn shaking<P>(s: ShakeView<P>) -> bool {
    s.is_active && !s.timer.finished
}

/// Starting a light shake from pose `pose`.
pub open spec fn start_spec<P>(s: ShakeView<P>, pose: P) -> ShakeView<P> {
    ShakeView { timer: fresh_timer(SHAKE_DURATION_NS as nat), is_active: true, rest_pose: pose }
}

/// A shake request starts a shake unless one is already running.
pub open spec fn trigger_spec<P>(s: ShakeView<P>, pose: P) -> ShakeView<P> {
    if shaking(s) { s } else { start_spec(s, pose) }
}

/// One frame of `delta` nanoseconds: the state after it and the camera's step.
pub open spec fn apply_spec<P>(s: ShakeView<P>, delta: nat) -> (ShakeView<P>, ShakeStep<P>) {
    if !s.is_active {
        (s, ShakeStep::Idle)
    } else {
        let t = tick_timer(s.timer, delta);
        if t.finished {
            (ShakeView { timer: t, is_active: false, rest_pose: s.rest_pose }, ShakeStep::Restore(s.rest_pose))
        } else {
            (ShakeView { timer: t, ..s }, ShakeStep::Jolt {
                rest_pose: s.rest_pose,
                elapsed_ns: t.elapsed as u64,
                duration_ns: t.duration as u64,
            })
        }
    }
}

impl<P: Copy> View for ScreenShake<P> {
    type V = ShakeView<P>;

    /// The shake's abstract state.
    closed spec fn view(&self) -> ShakeView<P> {
        ShakeView { timer: self.timer@, is_active: self.is_active, rest_pose: self.rest_pose }
    }
}

impl<P: Copy> ScreenShake<P> {
    /// The shake's timer is well formed.
    pub closed spec fn wf(&self) -> bool {
        self.timer.wf()
    }

    /// A camera at rest at `pose`, with no shake running.
    pub fn new(pose: P) -> (s: ScreenShake<P>)
        ensures
            s.wf(),
            s@ == (ShakeView { timer: fresh_timer(0), is_active: false, rest_pose: pose }),
    {
        ScreenShake { timer: OnceTimer::new(0), is_active: false, rest_pose: pose }
    }

    /// Starts a light shake from the camera's current pose.
    pub fn start_light_shake(&mut self, current_pose: P)
        ensures
            final(self).wf(),
            final(self)@ == start_spec(old(self)@, current_pose),
    {
        self.timer = OnceTimer::new(SHAKE_DURATION_NS);
        self.is_active = true;
        self.rest_pose = current_pose;
    }

    /// Whether a shake is running.
    pub fn is_shaking(&self) -> (b: bool)
        ensures
            b == shaking(self@),
    {
        self.is_active && !self.timer.is_finished()
    }

    /// A shake request: starts a shake from `current_pose` unless one is
    /// already running.
    pub fn trigger_camera_shake(&mut self, current_pose: P)
        requires
            old(self).wf(),
        ensures
            final(self).wf(),
            final(self)@ == trigger_spec(old(self)@, current_pose),
    {
        if self.is_shaking() {
            return;
        }
        self.start_light_shake(current_pose);
    }

    /// Advances the shake by one frame of `delta_ns` nanoseconds.
    pub fn apply_camera_shake(&mut self, delta_ns: u64) -> (step: ShakeStep<P>)
        requires
            old(self).wf(),
        ensures
            final(self).wf(),
            (final(self)@, step) == apply_spec(old(self)@, delta_ns as nat),
    {
        if !self.is_active {
            return ShakeStep::Idle;
        }
        self.timer.tick(delta_ns);
        if self.timer.is_finished() {
            self.is_active = false;
            return ShakeStep::Restore(self.rest_pose);
        }
        ShakeStep::Jolt {
            rest_pose: self.rest_pose,
            elapsed_ns: self.timer.elapsed_ns(),
            duration_ns: self.timer.duration_ns(),
        }
    }
}

/// A shake request while a shake runs changes nothing: the running shake keeps
/// its timer and the pose it will return to.
pub proof fn shake_not_restarted<P>(s: ShakeView<P>, pose: P)
    requires
        shaking(s),
    ensures
        trigger_spec(s, pose) == s,
{
}

/// A shake started from pose `pose` and run frame by frame ends by putting the
/// camera back at `pose`: a frame that ends it restores exactly that pose and
/// stops the shake, and a frame that does not keeps `pose` as the one to
/// return to.
pub proof fn shake_returns_to_start<P>(s: ShakeView<P>, pose: P, delta: nat)
    requires
        timer_wf(s.timer),
    ensures
        ({
            let started = trigger_spec(s, pose);
            let (next, step) = apply_spec(started, delta);
            &&& next.rest_pose == started.rest_pose
            &&& (!shaking(s) ==> started.rest_pose == pose)
            &&& (step matches ShakeStep::Restore(p) ==> p == started.rest_pose && !next.is_active)
            &&& (step matches ShakeStep::Jolt { rest_pose, .. } ==> rest_pose == started.rest_pose
                && next.is_active)
        }),
{
}

/// A shake lasts exactly its duration: a fresh shake jolts on every frame
/// until the total time reaches the duration, and restores on the frame that
/// reaches it.
pub proof fn shake_lasts_its_duration<P>(s: ShakeView<P>, pose: P, delta: nat)
    ensures
        ({
            let started = start_spec(s, pose);
            let (_, step) = apply_spec(started, delta);
            &&& (delta >= SHAKE_DURATION_NS ==> step == ShakeStep::Restore(pose))
            &&& (delta < SHAKE_DURATION_NS ==> step is Jolt)
        }),
{
}

/// What the shake registers: the per-frame shake, the observer of shake
/// requests, and its resource.
pub open spec fn shake_registrations() -> Seq<Registration> {
    seq![
        plain(ScheduleLabel::Update, SystemId::ApplyCameraShake),
        Registration::Observer(SystemId::TriggerCameraShake),
        Registration::InitResource(ResourceId::ScreenShake),
    ]
}

/// Registers the shake.
pub fn plugin(app: &mut AppPlan)
    ensures
        final(app).backend == old(app).backend,
        final(app).registrations@ == old(app).registrations@ + shake_registrations(),
{
    let ghost start = app.registrations@;
    app.register(plain_system(ScheduleLabel::Update, SystemId::ApplyCameraShake));
    app.register(Registration::Observer(SystemId::TriggerCameraShake));
    app.register(Registration::InitResource(ResourceId::ScreenShake));
    proof {
        assert(app.registrations@ =~= start + shake_registrations());
    }
}

/// The time of the first `n` frames of `deltas`.
pub open spec fn frames_time(deltas: Seq<nat>, n: nat) -> nat
    decreases n,
{
    if n == 0 || deltas.len() == 0 {
        0
    } else {
        deltas[0] + frames_time(deltas.drop_first(), (n - 1) as nat)
    }
}

/// Runs the shake for one frame per entry of `deltas`: the state after the
/// last frame and the camera's step on each frame.
pub open spec fn run_frames<P>(s: ShakeView<P>, deltas: Seq<nat>) -> (ShakeView<P>, Seq<ShakeStep<P>>)
    decreases deltas.len(),
{
    if deltas.len() == 0 {
        (s, Seq::empty())
    } else {
        let (next, step) = apply_spec(s, deltas[0]);
        let (last, steps) = run_frames(next, deltas.drop_first());
        (last, seq![step] + steps)
    }
}

/// The camera's step on frame `i` of a shake around `pose` that has already
/// run for `elapsed` of its `duration`: a jolt while the time so far stays
/// short of the duration, the return to `pose` on the frame that reaches it,
/// and nothing afterwards.
pub open spec fn expected_step<P>(pose: P, elapsed: nat, duration: nat, deltas: Seq<nat>, i: nat) -> ShakeStep<P> {
    if elapsed + frames_time(deltas, i + 1) < duration {
        ShakeStep::Jolt {
            rest_pose: pose,
            elapsed_ns: (elapsed + frames_time(deltas, i + 1)) as u64,
            duration_ns: duration as u64,
        }
    } else if elapsed + frames_time(deltas, i) < duration {
        ShakeStep::Restore(pose)
    } else {
        ShakeStep::Idle
    }
}

/// A stopped shake stays stopped and leaves the camera alone on every frame.
proof fn idle_run<P>(s: ShakeView<P>, deltas: Seq<nat>)
    requires
        !s.is_active,
    ensures
        run_frames(s, deltas).0 == s,
        run_frames(s, deltas).1.len() == deltas.len(),
        forall|i: int| 0 <= i < deltas.len() ==> run_frames(s, deltas).1[i] == ShakeStep::<P>::Idle,
    decreases deltas.len(),
{
    if deltas.len() > 0 {
        idle_run(s, deltas.drop_first());
    }
}

proof fn run_len<P>(s: ShakeView<P>, deltas: Seq<nat>)
    ensures
        run_frames(s, deltas).1.len() == deltas.len(),
    decreases deltas.len(),
{
    if deltas.len() > 0 {
        let (next, _) = apply_spec(s, deltas[0]);
        run_len(next, deltas.drop_first());
    }
}

proof fn frames_time_grows(deltas: Seq<nat>, n: nat)
    requires
        n >= 1,
        deltas.len() >= 1,
    ensures
        frames_time(deltas, n) >= deltas[0],
{
}

/// A running shake, run frame by frame, takes exactly the expected steps.
proof fn running_run<P>(s: ShakeView<P>, deltas: Seq<nat>, i: nat)
    requires
        s.is_active,
        !s.timer.finished,
        timer_wf(s.timer),
        s.timer.elapsed < s.timer.duration,
        i < deltas.len(),
    ensures
        run_frames(s, deltas).1.len() == deltas.len(),
        run_frames(s, deltas).1[i as int] == expected_step(s.rest_pose, s.timer.elapsed, s.timer.duration, deltas, i),
        !run_frames(s, deltas).0.is_active <==> s.timer.elapsed + frames_time(deltas, deltas.len()) >= s.timer.duration,
    decreases deltas.len(),
{
    let d0 = deltas[0];
    let rest = deltas.drop_first();
    let (next, step) = apply_spec(s, d0);
    let e = s.timer.elapsed;
    let dur = s.timer.duration;
    assert forall|n: nat| n >= 1 implies #[trigger] frames_time(deltas, n) == d0 + frames_time(rest, (n - 1) as nat) by {
    }
    assert(frames_time(deltas, 0) == 0);
    assert(rest.len() + 1 == deltas.len());
    run_len(next, rest);
    assert(run_frames(s, deltas) == (run_frames(next, rest).0, seq![step] + run_frames(next, rest).1));
    assert((seq![step] + run_frames(next, rest).1)[0] == step);
    assert(forall|k: int| 0 < k < deltas.len() ==> (seq![step] + run_frames(next, rest).1)[k] == run_frames(next, rest).1[k - 1]);
    if e + d0 >= dur {
        assert(!next.is_active);
        idle_run(next, rest);
        if i > 0 {
            assert(run_frames(s, deltas).1[i as int] == run_frames(next, rest).1[i - 1]);
            frames_time_grows(deltas, i);
        }
        frames_time_grows(deltas, deltas.len());
    } else {
        assert(next.is_active && !next.timer.finished);
        assert(next.timer.elapsed == e + d0);
        if i > 0 {
            running_run(next, rest, (i - 1) as nat);
            assert(run_frames(s, deltas).1[i as int] == run_frames(next, rest).1[i - 1]);
            assert(frames_time(deltas, i + 1) == d0 + frames_time(rest, i));
            assert(frames_time(deltas, i) == d0 + frames_time(rest, (i - 1) as nat));
        } else {
            assert(frames_time(deltas, 1) == d0 + frames_time(rest, 0));
        }
        if rest.len() > 0 {
            running_run(next, rest, 0);
        } else {
            assert(run_frames(next, rest).1.len() == 0);
            assert(frames_time(deltas, deltas.len()) == d0 + frames_time(rest, 0));
        }
        assert(frames_time(deltas, deltas.len()) == d0 + frames_time(rest, (deltas.len() - 1) as nat));
    }
}

/// A light shake started from pose `pose` and then run frame by frame jolts
/// the camera on every frame while the time since the start stays under the
/// shake's duration, puts the camera back at exactly `pose` on the first frame
/// at which that time reaches the duration, and leaves the camera alone on
/// every later frame; after the run it has stopped exactly when the time of
/// all the frames reaches the duration.
pub proof fn shake_returns_after_its_duration<P>(prior: ShakeView<P>, pose: P, deltas: Seq<nat>, i: nat)
    requires
        i < deltas.len(),
    ensures
        ({
            let (last, steps) = run_frames(start_spec(prior, pose), deltas);
            &&& steps.len() == deltas.len()
            &&& steps[i as int] == expected_step(pose, 0, SHAKE_DURATION_NS as nat, deltas, i)
            &&& (!last.is_active <==> frames_time(deltas, deltas.len()) >= SHAKE_DURATION_NS)
        }),
{
    running_run(start_spec(prior, pose), deltas, i);
}

} // verus!
