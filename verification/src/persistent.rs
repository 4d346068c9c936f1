//! The interface that stays on screen for the whole game: a root node and
//! the version text in the bottom-right corner.

pub mod bottom_right;

use vstd::prelude::*;
use crate::app_plan::{AppPlan, Registration, ScheduleLabel, SystemId, plain, plain_system};

verus! {

/// Marks the root node of the persistent interface.
#[derive(Debug, Clone, Copy, PartialEq, Eq, Structural)]
pub struct PersistentUiRoot;

/// The persistent root is spawned once, at startup.
pub open spec fn root_registrations() -> Seq<Registration> {
    seq![plain(ScheduleLabel::Startup, SystemId::SpawnPersistentUiRoot)]
}

/// Registers the persistent root, then the bottom-right corner.
pub fn plugin(app: &mut AppPlan)
    ensures
        final(app).backend == old(app).backend,
        final(app).registrations@ == old(app).registrations@ + root_registrations()
            + bottom_right::bottom_right_registrations(),
{
    let ghost start = app.registrations@;
    app.register(plain_system(ScheduleLabel::Startup, SystemId::SpawnPersistentUiRoot));
    bottom_right::plugin(app);
    proof {
        assert(app.registrations@ =~= start + root_registrations()
            + bottom_right::bottom_right_registrations());
    }
}

} // verus!
