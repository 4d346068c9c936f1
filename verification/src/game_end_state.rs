//! The end-of-battle interface: its root and the leaderboard.

pub mod leaderboard;
pub mod root;

pub use root::{BattleEndRootNode, BattleEndUiSets};

use vstd::prelude::*;
use crate::app_plan::{AppPlan, GameState, Registration, ScheduleLabel, SystemEntry, SystemId, UiSet};

verus! {

/// Registers the root, then the leaderboard.
pub fn plugin(app: &mut AppPlan)
    ensures
        final(app).backend == old(app).backend,
        final(app).registrations@ == old(app).registrations@ + root::root_registrations()
            + leaderboard::leaderboard_registrations(old(app).backend),
{
    let ghost start = app.registrations@;
    root::plugin(app);
    leaderboard::plugin(app);
    proof {
        assert(app.registrations@ =~= start + root::root_registrations()
            + leaderboard::leaderboard_registrations(app.backend));
    }
}

/// On entering the victory state the interface is built root first: the
/// root stage is chained before the children stage, and the root is spawned
/// in the root stage, whatever else the plugin registers.
pub proof fn victory_root_spawns_before_children(backend: bool)
    ensures
        ({
            let regs = root::root_registrations() + leaderboard::leaderboard_registrations(backend);
            &&& regs.contains(Registration::ChainSets {
                schedule: ScheduleLabel::OnEnter(GameState::WinAndNextDay),
                first: UiSet::BattleEnd(BattleEndUiSets::SpawnRoot),
                then: UiSet::BattleEnd(BattleEndUiSets::SpawnChildren),
            })
            &&& regs.contains(Registration::System(SystemEntry {
                schedule: ScheduleLabel::OnEnter(GameState::WinAndNextDay),
                system: SystemId::SpawnBattleEndRoot,
                in_set: Some(UiSet::BattleEnd(BattleEndUiSets::SpawnRoot)),
                after_set: None,
                after_system: None,
                run_in_state: None,
            }))
        }),
{
    let regs = root::root_registrations() + leaderboard::leaderboard_registrations(backend);
    assert(regs[0] == root::root_registrations()[0]);
    assert(regs[1] == root::root_registrations()[1]);
}

} // verus!
