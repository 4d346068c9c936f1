//! The version text in the bottom-right corner of the persistent interface.

use vstd::prelude::*;
use crate::app_plan::{AppPlan, Registration, ScheduleLabel, SystemEntry, SystemId};

verus! {

/// Marks the version text.
#[derive(Debug, Clone, Copy, PartialEq, Eq, Structural)]
pub struct VersionText;

/// The corner is spawned at startup, after the persistent root it hangs from.
pub open spec fn bottom_right_registrations() -> Seq<Registration> {
    seq![
        Registration::System(SystemEntry {
            schedule: ScheduleLabel::Startup,
            system: SystemId::SpawnPersistentBottomRightUi,
            in_set: None,
            after_set: None,
            after_system: Some(SystemId::SpawnPersistentUiRoot),
            run_in_state: None,
        }),
    ]
}

/// Registers the bottom-right corner.
pub fn plugin(app: &mut AppPlan)
    ensures
        final(app).backend == old(app).backend,
        final(app).registrations@ == old(app).registrations@ + bottom_right_registrations(),
{
    let ghost start = app.registrations@;
    app.register(
        Registration::System(
            SystemEntry {
                schedule: ScheduleLabel::Startup,
                system: SystemId::SpawnPersistentBottomRightUi,
                in_set: None,
                after_set: None,
                after_system: Some(SystemId::SpawnPersistentUiRoot),
                run_in_state: None,
            },
        ),
    );
    proof {
        assert(app.registrations@ =~= start + bottom_right_registrations());
    }
}

/// The version text: "v" and the game's version.
pub fn version_text(version: &str) -> (s: String)
    ensures
        s@ == seq!['v'] + version@,
{
    proof {
        reveal_strlit("v");
    }
    let mut s = String::from_str("v");
    s.append(version);
    s
}

/// Every system the persistent interface registers runs at startup, and the
/// corner is ordered after the root it is attached to, which is registered too.
pub proof fn corner_spawns_after_root()
    ensures
        ({
            let regs = super::root_registrations() + bottom_right_registrations();
            &&& regs.len() == 2
            &&& regs[0] == crate::app_plan::plain(ScheduleLabel::Startup, SystemId::SpawnPersistentUiRoot)
            &&& regs[1] matches Registration::System(e) && e.schedule == ScheduleLabel::Startup
                && e.after_system == Some(SystemId::SpawnPersistentUiRoot)
        }),
{
}

} // verus!
