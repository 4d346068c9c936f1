//! The root of the end-of-battle interface.

use vstd::prelude::*;
use crate::app_plan::{AppPlan, GameState, Registration, ScheduleLabel, SystemEntry, SystemId, UiSet};

verus! {

/// Marks the root node of the end-of-battle interface.
#[derive(Debug, Clone, Copy, PartialEq, Eq, Structural)]
pub struct BattleEndRootNode;

/// The stages in which the end-of-battle interface is built: the root
/// first, then the panels inside it.
#[derive(Debug, Clone, Copy, PartialEq, Eq, Hash, Structural)]
pub enum BattleEndUiSets {
    SpawnRoot,
    SpawnChildren,
}

/// On entering the victory state, the root stage runs before the children
/// stage, and the root is spawned in the root stage.
pub open spec fn root_registrations() -> Seq<Registration> {
    seq![
        Registration::ChainSets {
            schedule: ScheduleLabel::OnEnter(GameState::WinAndNextDay),
            first: UiSet::BattleEnd(BattleEndUiSets::SpawnRoot),
            then: UiSet::BattleEnd(BattleEndUiSets::SpawnChildren),
        },
        Registration::System(SystemEntry {
            schedule: ScheduleLabel::OnEnter(GameState::WinAndNextDay),
            system: SystemId::SpawnBattleEndRoot,
            in_set: Some(UiSet::BattleEnd(BattleEndUiSets::SpawnRoot)),
            after_set: None,
            after_system: None,
            run_in_state: None,
        }),
    ]
}

/// Registers the root of the end-of-battle interface.
pub fn plugin(app: &mut AppPlan)
    ensures
        final(app).backend == old(app).backend,
        final(app).registrations@ == old(app).registrations@ + root_registrations(),
{
    let ghost start = app.registrations@;
    app.register(
        Registration::ChainSets {
            schedule: ScheduleLabel::OnEnter(GameState::WinAndNextDay),
            first: UiSet::BattleEnd(BattleEndUiSets::SpawnRoot),
            then: UiSet::BattleEnd(BattleEndUiSets::SpawnChildren),
        },
    );
    app.register(
        Registration::System(
            SystemEntry {
                schedule: ScheduleLabel::OnEnter(GameState::WinAndNextDay),
                system: SystemId::SpawnBattleEndRoot,
                in_set: Some(UiSet::BattleEnd(BattleEndUiSets::SpawnRoot)),
                after_set: None,
                after_system: None,
                run_in_state: None,
            },
        ),
    );
    proof {
        assert(app.registrations@ =~= start + root_registrations());
    }
}

} // verus!
