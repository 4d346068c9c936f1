//! Hit flashes: a unit's sprites light up for a moment when it is hit, then
//! return to their colour.

use vstd::prelude::*;
use crate::timer::{OnceTimer, TimerView, fresh_timer, tick_timer};

verus! {

/// How long a hit flash lasts, in nanoseconds: 0.05 s as a 32-bit float,
/// rounded to the nearest nanosecond.
pub const HIT_FLASH_NS: u64 = 50_000_001;

/// How long the flash of a damage message lasts, in nanoseconds: 0.2 s as a
/// 32-bit float, rounded to the nearest nanosecond.
pub const DAMAGE_MESSAGE_FLASH_NS: u64 = 200_000_003;

/// Marks a sprite animation that despawns when it finishes.
#[derive(Debug, Clone, Copy, PartialEq, Eq, Structural)]
pub struct AseVfxEntity;

/// Asks for the camera to shake.
#[derive(Debug, Clone, Copy, PartialEq, Eq, Structural)]
pub struct CameraShakeEvent;

/// Asks for the unit `target` to flash.
#[derive(Debug, Clone, Copy, PartialEq, Eq, Structural)]
pub struct HitFlashVfxEvent {
    pub target: u64,
}

/// The kinds of visual effect a message can ask for.
#[derive(Debug, Clone, Copy, PartialEq, Eq, Structural)]
pub enum VFXType {
    Damage,
}

/// Asks for a visual effect on the unit `target`.
#[derive(Debug, Clone, Copy, PartialEq, Eq, Structural)]
pub struct VFXMessage {
    pub target: u64,
    pub vfx_type: VFXType,
}

/// The bright colour a flashing sprite takes.
#[derive(Debug, Clone, Copy, PartialEq, Eq, Hash, Structural)]
pub enum FlashTint {
    /// Bright pink, for the player's units.
    Pink,
    /// Bright white, for everyone else.
    White,
}

/// How a unit flashes: with which tint, for how long, and back to which colour.
#[derive(Debug, Clone, Copy, PartialEq, Eq, Structural)]
pub struct FlashPlan {
    pub target: u64,
    pub tint: FlashTint,
    pub duration_ns: u64,
    /// Back to the unit's own colour (else back to plain white).
    pub restore_original: bool,
}

/// A hit makes the player's units flash pink and all others white, briefly,
/// then restores each unit's own colour.
pub fn on_hit_flash_event(event: HitFlashVfxEvent, target_is_player: bool) -> (p: FlashPlan)
    ensures
        p == (FlashPlan {
            target: event.target,
            tint: if target_is_player { FlashTint::Pink } else { FlashTint::White },
            duration_ns: HIT_FLASH_NS,
            restore_original: true,
        }),
{
    let tint = if target_is_player { FlashTint::Pink } else { FlashTint::White };
    FlashPlan { target: event.target, tint, duration_ns: HIT_FLASH_NS, restore_original: true }
}

/// A damage message makes the unit flash white for a little longer, and then
/// turn plain white.
pub fn handle_vfx_message(message: VFXMessage) -> (p: Option<FlashPlan>)
    ensures
        p == (match message.vfx_type {
            VFXType::Damage => Some(FlashPlan {
                target: message.target,
                tint: FlashTint::White,
                duration_ns: DAMAGE_MESSAGE_FLASH_NS,
                restore_original: false,
            }),
        }),
{
    match message.vfx_type {
        VFXType::Damage => Some(
            FlashPlan {
                target: message.target,
                tint: FlashTint::White,
                duration_ns: DAMAGE_MESSAGE_FLASH_NS,
                restore_original: false,
            },
        ),
    }
}

/// The positions, in order, of the sprites that belong to `unit`.
pub fn sprites_of(owners: &Vec<u64>, unit: u64) -> (idx: Vec<usize>)
    ensures
        forall|k: int| 0 <= k < idx@.len() ==> {
            &&& 0 <= #[trigger] idx@[k] < owners@.len()
            &&& owners@[idx@[k] as int] == unit
        },
        forall|k: int, l: int| 0 <= k < l < idx@.len() ==> idx@[k] < idx@[l],
        forall|i: int| 0 <= i < owners@.len() && owners@[i] == unit ==> idx@.contains(i as usize),
{
    let mut idx: Vec<usize> = Vec::new();
    let mut i: usize = 0;
    while i < owners.len()
        invariant
            i <= owners@.len(),
            forall|k: int| 0 <= k < idx@.len() ==> {
                &&& 0 <= #[trigger] idx@[k] < i
                &&& owners@[idx@[k] as int] == unit
            },
            forall|k: int, l: int| 0 <= k < l < idx@.len() ==> idx@[k] < idx@[l],
            forall|j: int| 0 <= j < i && owners@[j] == unit ==> idx@.contains(j as usize),
        decreases owners.len() - i,
    {
        if owners[i] == unit {
            let ghost before = idx@;
            idx.push(i);
            proof {
                assert forall|j: int| 0 <= j <= i && owners@[j] == unit implies idx@.contains(
                    j as usize,
                ) by {
                    if j < i {
                        let k = choose|k: int| 0 <= k < before.len() && before[k] == j as usize;
                        assert(idx@[k] == j as usize);
                    } else {
                        assert(idx@[before.len() as int] == i);
                    }
                }
            }
        }
        i = i + 1;
    }
    idx
}

/// A running flash: its timer and the colour to return to.
#[derive(Debug, Clone, Copy, PartialEq, Eq)]
pub struct DamageFlash<C> {
    timer: OnceTimer,
    original_color: C,
}

impl<C: Copy> DamageFlash<C> {
    /// The flash's timer.
    pub closed spec fn timer_view(&self) -> TimerView {
        self.timer@
    }

    /// The colour the flash returns to.
    pub closed spec fn original(&self) -> C {
        self.original_color
    }

    /// The flash's timer is well formed.
    pub closed spec fn wf(&self) -> bool {
        self.timer.wf()
    }

    /// A flash of `duration_ns` nanoseconds that returns to `original_color`.
    pub fn new(duration_ns: u64, original_color: C) -> (f: DamageFlash<C>)
        ensures
            f.wf(),
            f.timer_view() == fresh_timer(duration_ns as nat),
            f.original() == original_color,
    {
        DamageFlash { timer: OnceTimer::new(duration_ns), original_color }
    }

    /// Advances the flash by `delta_ns`. Once its time is up it hands back the
    /// colour to restore, and the flash is then removed.
    pub fn tick_damage_flash(&mut self, delta_ns: u64) -> (restore: Option<C>)
        requires
            old(self).wf(),
        ensures
            final(self).wf(),
            final(self).timer_view() == tick_timer(old(self).timer_view(), delta_ns as nat),
            final(self).original() == old(self).original(),
            restore == (if final(self).timer_view().finished {
                Some(old(self).original())
            } else {
                None::<C>
            }),
    {
        self.timer.tick(delta_ns);
        if self.timer.is_finished() {
            Some(self.original_color)
        } else {
            None
        }
    }
}

/// A new flash ends on its first tick exactly when that tick covers its whole
/// duration; the tick that ends it hands back the colour it began with.
pub proof fn flash_ends_when_time_is_up(duration: nat, delta: nat)
    requires
        duration <= u64::MAX,
    ensures
        tick_timer(fresh_timer(duration), delta).finished <==> delta >= duration,
{
}

} // verus!
