//! What the plugins register with the engine, written down as data: which
//! systems run in which schedule, in which order, under which condition, and
//! which resources and observers exist. The engine side reads a plan and
//! registers the matching systems.

use vstd::prelude::*;
use crate::game_end_state::BattleEndUiSets;
use crate::prepare::PrepareUiSets;

verus! {

/// The game states the interface reacts to.
#[derive(Debug, Clone, Copy, PartialEq, Eq, Hash, Structural)]
pub enum GameState {
    Preparing,
    Battle,
    WinAndNextDay,
    Leaderboard,
    Lose,
}

/// When a system runs.
#[derive(Debug, Clone, Copy, PartialEq, Eq, Hash, Structural)]
pub enum ScheduleLabel {
    /// Once, when the game starts.
    Startup,
    /// Every frame.
    Update,
    /// On entering a game state.
    OnEnter(GameState),
    /// On leaving the gameplay screen.
    OnExitGameplay,
}

/// The stages in which a screen's interface is built.
#[derive(Debug, Clone, Copy, PartialEq, Eq, Hash, Structural)]
pub enum UiSet {
    BattleEnd(BattleEndUiSets),
    Prepare(PrepareUiSets),
}

/// The resources a plugin creates.
#[derive(Debug, Clone, Copy, PartialEq, Eq, Hash, Structural)]
pub enum ResourceId {
    FadeOverlay,
    ScreenShake,
}

/// The systems and observers the plugins register.
#[derive(Debug, Clone, Copy, PartialEq, Eq, Hash, Structural)]
pub enum SystemId {
    SpawnBattleEndRoot,
    InitializeLeaderboardPlayer,
    RefreshTopTenEntries,
    RefreshPlayerScoreDisplay,
    OnRefreshLeaderboardOnScoreSent,
    RefreshCopyPlayerNameToScore,
    SubmitPlayerScore,
    SpawnLeaderboardUi,
    SpawnPersistentUiRoot,
    SpawnPersistentBottomRightUi,
    SpawnGameWinUi,
    UpdateWinMessage,
    SpawnGameLoseUi,
    AddTooltipsToUnitButtons,
    AddTooltipsToMemoryButtons,
    AddHoverObserversToUnits,
    UpdatePanelText,
    UpdateBuffsText,
    HandleFadeIn,
    HandleFadeOut,
    CleanupFadeOverlayOnComplete,
    CleanupFadeOnExit,
    UnpauseTimeOnExit,
    ApplyCameraShake,
    TriggerCameraShake,
}

/// A system added to a schedule, with its place and condition.
#[derive(Debug, Clone, Copy, PartialEq, Eq, Structural)]
pub struct SystemEntry {
    pub schedule: ScheduleLabel,
    pub system: SystemId,
    /// The stage the system belongs to.
    pub in_set: Option<UiSet>,
    /// A stage the system runs after.
    pub after_set: Option<UiSet>,
    /// A system this one runs after.
    pub after_system: Option<SystemId>,
    /// The system only runs while the game is in this state.
    pub run_in_state: Option<GameState>,
}

/// One registration with the engine.
#[derive(Debug, Clone, Copy, PartialEq, Eq, Structural)]
pub enum Registration {
    InitResource(ResourceId),
    Observer(SystemId),
    System(SystemEntry),
    /// In `schedule`, every system of stage `first` runs before every system
    /// of stage `then`.
    ChainSets { schedule: ScheduleLabel, first: UiSet, then: UiSet },
}

/// The registrations made so far, in order, and whether this build talks to
/// the online leaderboard.
pub struct AppPlan {
    pub backend: bool,
    pub registrations: Vec<Registration>,
}

/// A system with no stage, ordering or condition.
pub open spec fn plain(schedule: ScheduleLabel, system: SystemId) -> Registration {
    Registration::System(SystemEntry {
        schedule,
        system,
        in_set: None,
        after_set: None,
        after_system: None,
        run_in_state: None,
    })
}

/// Builds a system with no stage, ordering or condition.
pub fn plain_system(schedule: ScheduleLabel, system: SystemId) -> (r: Registration)
    ensures
        r == plain(schedule, system),
{
    Registration::System(SystemEntry {
        schedule,
        system,
        in_set: None,
        after_set: None,
        after_system: None,
        run_in_state: None,
    })
}

impl AppPlan {
    /// An empty plan for a build with or without the online leaderboard.
    pub fn new(backend: bool) -> (p: AppPlan)
        ensures
            p.backend == backend,
            p.registrations@ == Seq::<Registration>::empty(),
    {
        AppPlan { backend, registrations: Vec::new() }
    }

    /// Appends one registration.
    pub fn register(&mut self, r: Registration)
        ensures
            final(self).backend == old(self).backend,
            final(self).registrations@ == old(self).registrations@.push(r),
    {
        self.registrations.push(r);
    }
}

} // verus!
