//! The interface outside any screen root: the victory and defeat overlays,
//! the tooltips of the shop buttons, and the panel over a hovered unit.

pub mod world_unit_tooltip;

use vstd::prelude::*;
use crate::app_plan::{
    AppPlan, GameState, Registration, ScheduleLabel, SystemEntry, SystemId, UiSet, plain, plain_system,
};
use crate::prepare::PrepareUiSets;

verus! {

/// A system that runs on entering preparation, once the preparation panels exist.
pub open spec fn after_prepare_children(system: SystemId) -> Registration {
    Registration::System(SystemEntry {
        schedule: ScheduleLabel::OnEnter(GameState::Preparing),
        system,
        in_set: None,
        after_set: Some(UiSet::Prepare(PrepareUiSets::SpawnChildren)),
        after_system: None,
        run_in_state: None,
    })
}

fn after_prepare_children_system(system: SystemId) -> (r: Registration)
    ensures
        r == after_prepare_children(system),
{
    Registration::System(
        SystemEntry {
            schedule: ScheduleLabel::OnEnter(GameState::Preparing),
            system,
            in_set: None,
            after_set: Some(UiSet::Prepare(PrepareUiSets::SpawnChildren)),
            after_system: None,
            run_in_state: None,
        },
    )
}

/// What these overlays register, in order: the victory overlay and its
/// message (updated only while the victory lasts), the defeat overlay, the
/// tooltips of the unit and memory buttons (added once those buttons exist),
/// and the unit panel's three systems.
pub open spec fn ui_no_root_registrations() -> Seq<Registration> {
    seq![
        plain(ScheduleLabel::OnEnter(GameState::WinAndNextDay), SystemId::SpawnGameWinUi),
        Registration::System(SystemEntry {
            schedule: ScheduleLabel::Update,
            system: SystemId::UpdateWinMessage,
            in_set: None,
            after_set: None,
            after_system: None,
            run_in_state: Some(GameState::WinAndNextDay),
        }),
        plain(ScheduleLabel::OnEnter(GameState::Lose), SystemId::SpawnGameLoseUi),
        after_prepare_children(SystemId::AddTooltipsToUnitButtons),
        after_prepare_children(SystemId::AddTooltipsToMemoryButtons),
        plain(ScheduleLabel::Update, SystemId::AddHoverObserversToUnits),
        plain(ScheduleLabel::Update, SystemId::UpdatePanelText),
        plain(ScheduleLabel::Update, SystemId::UpdateBuffsText),
    ]
}

/// Registers the overlays, tooltips and unit panel.
pub fn plugin(app: &mut AppPlan)
    ensures
        final(app).backend == old(app).backend,
        final(app).registrations@ == old(app).registrations@ + ui_no_root_registrations(),
{
    let ghost start = app.registrations@;
    app.register(plain_system(ScheduleLabel::OnEnter(GameState::WinAndNextDay), SystemId::SpawnGameWinUi));
    app.register(
        Registration::System(
            SystemEntry {
                schedule: ScheduleLabel::Update,
                system: SystemId::UpdateWinMessage,
                in_set: None,
                after_set: None,
                after_system: None,
                run_in_state: Some(GameState::WinAndNextDay),
            },
        ),
    );
    app.register(plain_system(ScheduleLabel::OnEnter(GameState::Lose), SystemId::SpawnGameLoseUi));
    app.register(after_prepare_children_system(SystemId::AddTooltipsToUnitButtons));
    app.register(after_prepare_children_system(SystemId::AddTooltipsToMemoryButtons));
    app.register(plain_system(ScheduleLabel::Update, SystemId::AddHoverObserversToUnits));
    app.register(plain_system(ScheduleLabel::Update, SystemId::UpdatePanelText));
    app.register(plain_system(ScheduleLabel::Update, SystemId::UpdateBuffsText));
    proof {
        assert(app.registrations@ =~= start + ui_no_root_registrations());
    }
}

/// The shop tooltips are attached only after the preparation screen has built
/// its buttons: every tooltip system this plugin registers runs on entering
/// preparation, after the children stage of that screen.
pub proof fn tooltips_follow_their_buttons(i: int)
    requires
        0 <= i < ui_no_root_registrations().len(),
        ui_no_root_registrations()[i] matches Registration::System(e) && (e.system
            == SystemId::AddTooltipsToUnitButtons || e.system == SystemId::AddTooltipsToMemoryButtons),
    ensures
        ui_no_root_registrations()[i] matches Registration::System(e) && e.schedule
            == ScheduleLabel::OnEnter(GameState::Preparing) && e.after_set == Some(
            UiSet::Prepare(PrepareUiSets::SpawnChildren),
        ),
{
}

/// A description in a tooltip, between double quotes.
pub fn quoted_description(desc: &str) -> (s: String)
    ensures
        s@ == seq!['"'] + desc@ + seq!['"'],
{
    proof {
        reveal_strlit("\"");
    }
    let mut s = String::from_str("\"");
    s.append(desc);
    s.append("\"");
    s
}

} // verus!
