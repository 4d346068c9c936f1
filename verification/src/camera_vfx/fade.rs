//! The full-screen fade overlay: at most one at a time, replaced by each new
//! fade, and removed once a fade-in has finished or the game is left.

use vstd::prelude::*;
use crate::app_plan::{AppPlan, Registration, ResourceId, ScheduleLabel, SystemId, plain, plain_system};

verus! {

/// Marks the fade overlay node.
#[derive(Debug, Clone, Copy, PartialEq, Eq, Structural)]
pub struct FadeOverlayMarker;

/// The direction of a fade.
#[derive(Debug, Clone, Copy, PartialEq, Eq, Hash, Structural)]
pub enum FadeKind {
    /// From a colour to transparent: the overlay goes once the fade is done.
    In,
    /// From transparent to a colour: the overlay stays, covering the screen.
    Out,
}

/// The overlay of the current fade, if any, and the direction of that fade.
#[derive(Debug, Clone, Copy, PartialEq, Eq, Structural)]
pub struct FadeOverlay {
    pub entity: Option<u64>,
    pub kind: Option<FadeKind>,
}

impl Default for FadeOverlay {
    fn default() -> (f: FadeOverlay)
        ensures
            f.entity is None,
            f.kind is None,
    {
        FadeOverlay { entity: None, kind: None }
    }
}

/// The overlay to despawn: the tracked one, when it still exists.
pub open spec fn stale_overlay(current: Option<u64>, alive: bool) -> Option<u64> {
    match current {
        Some(e) => if alive { Some(e) } else { None },
        None => None,
    }
}

/// The state after a fade of direction `kind` begins with `new_overlay`, and
/// what it despawns: the previous overlay, when it still exists.
pub open spec fn replace_spec(f: FadeOverlay, previous_alive: bool, new_overlay: u64, kind: FadeKind) -> (FadeOverlay, Option<u64>) {
    (FadeOverlay { entity: Some(new_overlay), kind: Some(kind) }, stale_overlay(f.entity, previous_alive))
}

/// The clean-up after a fade: the tracked overlay of a fade-in is despawned
/// and forgotten once it still exists and is fully transparent; in every other
/// case (no overlay, a fade-out, a gone or still visible overlay) nothing
/// changes.
pub open spec fn cleanup_spec(f: FadeOverlay, overlay_alive: bool, fully_transparent: bool) -> (FadeOverlay, Option<u64>) {
    if f.entity is Some && f.kind == Some(FadeKind::In) && overlay_alive && fully_transparent {
        (FadeOverlay { entity: None, kind: None }, f.entity)
    } else {
        (f, None)
    }
}

impl FadeOverlay {
    fn replace_overlay(&mut self, previous_alive: bool, new_overlay: u64, kind: FadeKind) -> (despawn: Option<u64>)
        ensures
            (*final(self), despawn) == replace_spec(*old(self), previous_alive, new_overlay, kind),
    {
        let despawn = match self.entity {
            Some(e) => if previous_alive { Some(e) } else { None },
            None => None,
        };
        self.entity = Some(new_overlay);
        self.kind = Some(kind);
        despawn
    }

    /// A fade-in begins with overlay `new_overlay` (which starts in the fade's
    /// colour and turns transparent): the previous overlay, when it still
    /// exists, is despawned and the new one is tracked as a fade-in.
    pub fn handle_fade_in(&mut self, previous_alive: bool, new_overlay: u64) -> (despawn: Option<u64>)
        ensures
            (*final(self), despawn) == replace_spec(*old(self), previous_alive, new_overlay, FadeKind::In),
    {
        self.replace_overlay(previous_alive, new_overlay, FadeKind::In)
    }

    /// A fade-out begins with overlay `new_overlay` (which starts transparent
    /// and turns to the fade's colour): the previous overlay, when it still
    /// exists, is despawned and the new one is tracked as a fade-out.
    pub fn handle_fade_out(&mut self, previous_alive: bool, new_overlay: u64) -> (despawn: Option<u64>)
        ensures
            (*final(self), despawn) == replace_spec(*old(self), previous_alive, new_overlay, FadeKind::Out),
    {
        self.replace_overlay(previous_alive, new_overlay, FadeKind::Out)
    }

    /// Cleans up after a completed fade-in: its overlay, once fully
    /// transparent, is despawned and no longer tracked. A fade-out overlay is
    /// never removed here.
    pub fn cleanup_fade_overlay_on_complete(&mut self, overlay_alive: bool, fully_transparent: bool) -> (despawn: Option<u64>)
        ensures
            (*final(self), despawn) == cleanup_spec(*old(self), overlay_alive, fully_transparent),
    {
        match (self.entity, self.kind) {
            (Some(e), Some(FadeKind::In)) => {
                if overlay_alive && fully_transparent {
                    self.entity = None;
                    self.kind = None;
                    Some(e)
                } else {
                    None
                }
            },
            _ => None,
        }
    }

    /// Leaving the game removes the overlay (when it still exists) and forgets it.
    pub fn cleanup_fade_on_exit(&mut self, overlay_alive: bool) -> (despawn: Option<u64>)
        ensures
            despawn == stale_overlay(old(self).entity, overlay_alive),
            final(self).entity is None,
            final(self).kind is None,
    {
        let despawn = match self.entity {
            Some(e) => if overlay_alive { Some(e) } else { None },
            None => None,
        };
        self.entity = None;
        self.kind = None;
        despawn
    }
}

/// Leaving the game resumes time that a pause stopped.
pub fn unpause_time_on_exit(paused: bool) -> (unpause: bool)
    ensures
        unpause == paused,
{
    paused
}

/// Two fades in a row: the second despawns the first one's overlay, which
/// still exists, and is then the only overlay tracked.
pub proof fn fades_replace_each_other(f: FadeOverlay, alive: bool, first: u64, k1: FadeKind, second: u64, k2: FadeKind)
    ensures
        ({
            let (f1, _) = replace_spec(f, alive, first, k1);
            let (f2, d2) = replace_spec(f1, true, second, k2);
            &&& d2 == Some(first)
            &&& f2.entity == Some(second)
            &&& f2.kind == Some(k2)
        }),
{
}

/// A fade-out's overlay is never removed by the clean-up, whatever its
/// transparency, so it stays until it reaches its colour and beyond; a
/// fade-in's overlay is removed exactly once it is fully transparent.
pub proof fn cleanup_removes_only_finished_fade_ins(f: FadeOverlay, previous_alive: bool, overlay: u64, alive: bool, transparent: bool)
    ensures
        ({
            let (out, _) = replace_spec(f, previous_alive, overlay, FadeKind::Out);
            cleanup_spec(out, alive, transparent) == (out, None::<u64>)
        }),
        ({
            let (fin, _) = replace_spec(f, previous_alive, overlay, FadeKind::In);
            let (after, despawn) = cleanup_spec(fin, alive, transparent);
            &&& (alive && transparent) ==> (despawn == Some(overlay) && after.entity is None)
            &&& !(alive && transparent) ==> (despawn is None && after == fin)
        }),
{
}

/// What the fade registers: its resource, the two fade observers, the
/// clean-up after a fade-in, and on leaving the game the clean-up and the
/// resumption of paused time.
pub open spec fn fade_registrations() -> Seq<Registration> {
    seq![
        Registration::InitResource(ResourceId::FadeOverlay),
        Registration::Observer(SystemId::HandleFadeIn),
        Registration::Observer(SystemId::HandleFadeOut),
        plain(ScheduleLabel::Update, SystemId::CleanupFadeOverlayOnComplete),
        plain(ScheduleLabel::OnExitGameplay, SystemId::CleanupFadeOnExit),
        plain(ScheduleLabel::OnExitGameplay, SystemId::UnpauseTimeOnExit),
    ]
}

/// Registers the fade.
pub fn plugin(app: &mut AppPlan)
    ensures
        final(app).backend == old(app).backend,
        final(app).registrations@ == old(app).registrations@ + fade_registrations(),
{
    let ghost start = app.registrations@;
    app.register(Registration::InitResource(ResourceId::FadeOverlay));
    app.register(Registration::Observer(SystemId::HandleFadeIn));
    app.register(Registration::Observer(SystemId::HandleFadeOut));
    app.register(plain_system(ScheduleLabel::Update, SystemId::CleanupFadeOverlayOnComplete));
    app.register(plain_system(ScheduleLabel::OnExitGameplay, SystemId::CleanupFadeOnExit));
    app.register(plain_system(ScheduleLabel::OnExitGameplay, SystemId::UnpauseTimeOnExit));
    proof {
        assert(app.registrations@ =~= start + fade_registrations());
    }
}

} // verus!
