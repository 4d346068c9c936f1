//! Camera effects: the full-screen fade and the camera shake.

pub mod fade;
pub mod shake;

use vstd::prelude::*;
use crate::app_plan::{AppPlan, Registration};

verus! {

/// Registers the fade and the shake, in that order.
pub fn plugin(app: &mut AppPlan)
    ensures
        final(app).backend == old(app).backend,
        final(app).registrations@ == old(app).registrations@ + fade::fade_registrations()
            + shake::shake_registrations(),
{
    let ghost start = app.registrations@;
    fade::plugin(app);
    shake::plugin(app);
    proof {
        assert(app.registrations@ =~= start + fade::fade_registrations() + shake::shake_registrations());
    }
}

/// Every resource the camera effects read is created by their plugin.
pub proof fn camera_vfx_creates_its_resources()
    ensures
        (fade::fade_registrations() + shake::shake_registrations()).contains(
            Registration::InitResource(crate::app_plan::ResourceId::FadeOverlay),
        ),
        (fade::fade_registrations() + shake::shake_registrations()).contains(
            Registration::InitResource(crate::app_plan::ResourceId::ScreenShake),
        ),
{
    let all = fade::fade_registrations() + shake::shake_registrations();
    assert(all[0] == Registration::InitResource(crate::app_plan::ResourceId::FadeOverlay));
    assert(all[8] == Registration::InitResource(crate::app_plan::ResourceId::ScreenShake));
}

} // verus!
