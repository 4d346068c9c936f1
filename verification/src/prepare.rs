//! The preparation screen: buying squads with the player's gold, placing them
//! on the field, the fight button, and the counters at the top.

use vstd::prelude::*;
use crate::decimal::{decimal, push_decimal};

verus! {

/// Marks the root node of the preparation interface.
#[derive(Debug, Clone, Copy, PartialEq, Eq, Structural)]
pub struct PrepareRootNode;

/// The stages in which the preparation interface is built: the root first,
/// then the panels inside it.
#[derive(Debug, Clone, Copy, PartialEq, Eq, Hash, Structural)]
pub enum PrepareUiSets {
    SpawnRoot,
    SpawnChildren,
}

/// Marks the BigEye memory button.
#[derive(Debug, Clone, Copy, PartialEq, Eq, Default, Structural)]
pub struct BigEyeButtonMarker;

/// Marks the RA memory button.
#[derive(Debug, Clone, Copy, PartialEq, Eq, Default, Structural)]
pub struct RaButtonMarker;

/// Marks the BigHand memory button.
#[derive(Debug, Clone, Copy, PartialEq, Eq, Default, Structural)]
pub struct BigHandButtonMarker;

/// Marks the GoldenHeart memory button.
#[derive(Debug, Clone, Copy, PartialEq, Eq, Default, Structural)]
pub struct GoldenHeartButtonMarker;

/// Marks a squad that is being dragged and follows the cursor.
#[derive(Debug, Clone, Copy, PartialEq, Eq, Structural)]
pub struct FollowingCursor;

/// Marks the fight button.
#[derive(Debug, Clone, Copy, PartialEq, Eq, Structural)]
pub struct FightButtonMarker;

/// Marks the dot of the battle with this index in the night's row of dots.
#[derive(Debug, Clone, Copy, PartialEq, Eq, Structural)]
pub struct BattleDotMarker(pub usize);

/// Marks the night counter.
#[derive(Debug, Clone, Copy, PartialEq, Eq, Default, Structural)]
pub struct NightTextMarker;

/// Marks the gold amount text.
#[derive(Debug, Clone, Copy, PartialEq, Eq, Structural)]
pub struct PlayerGoldTextMarker;

/// Marks the gold panel, which shakes when the player cannot pay.
#[derive(Debug, Clone, Copy, PartialEq, Eq, Structural)]
pub struct PlayerGoldPanelMarker;

/// Marks the victory message.
#[derive(Debug, Clone, Copy, PartialEq, Eq, Structural)]
pub struct WinMessageMarker;

/// A 32-bit gold amount read as a signed 32-bit number (two's complement).
pub open spec fn gold_as_signed(gold: u32) -> int {
    if gold <= i32::MAX { gold as int } else { gold - 0x1_0000_0000 }
}

fn to_signed(gold: u32) -> (g: i32)
    ensures
        g == gold_as_signed(gold),
{
    if gold <= 0x7fff_ffff {
        gold as i32
    } else {
        let high = (gold - 0x8000_0000) as i32;
        high - 0x7fff_ffff - 1
    }
}

/// What pressing a unit button leads to.
#[derive(Debug, Clone, Copy, PartialEq, Eq, Structural)]
pub enum PurchaseOutcome {
    /// The unit has no stats; nothing happens.
    UnknownUnit,
    /// The player cannot pay: the button wiggles, an error sound plays and
    /// the gold panel shakes.
    NotEnoughGold,
    /// There is no cursor position on the field; nothing happens.
    NoCursor,
    /// The cost is paid and a squad spawns under the cursor, following it.
    Spawned { remaining_gold: u32 },
}

/// The outcome of pressing a unit button with `gold` in hand, for a unit of
/// cost `cost` (none when the unit has no stats) and a cursor that does or
/// does not lie on the field. Gold is compared and paid as a signed number.
pub open spec fn purchase_spec(gold: u32, cost: Option<i32>, cursor_on_field: bool) -> PurchaseOutcome {
    match cost {
        None => PurchaseOutcome::UnknownUnit,
        Some(c) => if gold_as_signed(gold) < c {
            PurchaseOutcome::NotEnoughGold
        } else if !cursor_on_field {
            PurchaseOutcome::NoCursor
        } else {
            PurchaseOutcome::Spawned { remaining_gold: (gold_as_signed(gold) - c) as u32 }
        },
    }
}

/// Decides a purchase. A payment that is made is signed arithmetic that must
/// not leave the 32-bit range.
pub fn try_spawn_unit(gold: u32, cost: Option<i32>, cursor_on_field: bool) -> (o: PurchaseOutcome)
    requires
        match cost {
            Some(c) => cursor_on_field && gold_as_signed(gold) >= c ==> gold_as_signed(gold) - c
                <= i32::MAX,
            None => true,
        },
    ensures
        o == purchase_spec(gold, cost, cursor_on_field),
{
    let c = match cost {
        None => return PurchaseOutcome::UnknownUnit,
        Some(c) => c,
    };
    let g = to_signed(gold);
    if g < c {
        return PurchaseOutcome::NotEnoughGold;
    }
    if !cursor_on_field {
        return PurchaseOutcome::NoCursor;
    }
    let remaining = g - c;
    PurchaseOutcome::Spawned { remaining_gold: remaining as u32 }
}

/// A unit of non-negative cost that the player can afford leaves exactly
/// `gold - cost` gold, and one it cannot afford takes none; either way gold
/// never goes below zero.
pub proof fn purchase_pays_exact_cost(gold: u32, cost: i32)
    requires
        gold <= i32::MAX,
        cost >= 0,
    ensures
        purchase_spec(gold, Some(cost), true) == (if gold < cost {
            PurchaseOutcome::NotEnoughGold
        } else {
            PurchaseOutcome::Spawned { remaining_gold: (gold - cost) as u32 }
        }),
{
}

/// A 32-bit signed cost read as an unsigned amount (two's complement).
pub open spec fn cost_as_unsigned(cost: i32) -> nat {
    if cost >= 0 { cost as nat } else { (cost + 0x1_0000_0000) as nat }
}

/// `gold + amount`, capped at the largest 32-bit amount.
pub open spec fn saturating_gold(gold: u32, amount: nat) -> u32 {
    if gold + amount > u32::MAX { u32::MAX } else { (gold + amount) as u32 }
}

/// What happens to a dragged squad when the mouse button is released.
#[derive(Debug, Clone, Copy, PartialEq, Eq, Structural)]
pub enum ReleaseOutcome {
    /// Dropped outside the field: the squad shakes away, an error sound
    /// plays, and its cost (when known) is paid back.
    Refunded { gold: u32 },
    /// Dropped on the field: the camera shakes, dust rises, and the squad
    /// stops following the cursor and plays its landing animation.
    Deployed,
}

/// Decides where a released squad goes.
pub fn handle_mouse_release(in_boundary: bool, gold: u32, cost: Option<i32>) -> (o: ReleaseOutcome)
    ensures
        in_boundary ==> o == ReleaseOutcome::Deployed,
        !in_boundary ==> o == (ReleaseOutcome::Refunded {
            gold: match cost {
                Some(c) => saturating_gold(gold, cost_as_unsigned(c)),
                None => gold,
            },
        }),
{
    if in_boundary {
        return ReleaseOutcome::Deployed;
    }
    let refunded = match cost {
        Some(c) => {
            let amount: u32 = if c >= 0 {
                c as u32
            } else {
                ((c + 0x7fff_ffff + 1) as u32) + 0x8000_0000
            };
            gold.saturating_add(amount)
        },
        None => gold,
    };
    ReleaseOutcome::Refunded { gold: refunded }
}

/// Buying a squad and dropping it outside the field gives back exactly what
/// it cost: the player ends with the gold they started with.
pub proof fn refund_undoes_purchase(gold: u32, cost: i32)
    requires
        gold <= i32::MAX,
        0 <= cost <= gold,
    ensures
        purchase_spec(gold, Some(cost), true) matches PurchaseOutcome::Spawned { remaining_gold }
            && saturating_gold(remaining_gold, cost_as_unsigned(cost)) == gold,
        forall|g: u32, amount: nat| saturating_gold(g, amount) >= g,
{
}

/// What pressing the fight button leads to.
#[derive(Debug, Clone, Copy, PartialEq, Eq, Structural)]
pub enum FightAction {
    /// No squad on the field: the button wiggles and an error sound plays.
    Refuse,
    /// The battle starts.
    StartBattle,
}

/// The battle starts only with at least one of the player's units on the field.
pub fn handle_fight_button(has_player_units: bool) -> (a: FightAction)
    ensures
        a == (if has_player_units { FightAction::StartBattle } else { FightAction::Refuse }),
{
    if has_player_units {
        FightAction::StartBattle
    } else {
        FightAction::Refuse
    }
}

/// The memory panel shows from the second round on, or always when memories
/// are switched on for testing.
pub fn memory_panel_visible(current_round: u32, memory_enabled: bool) -> (b: bool)
    ensures
        b == (current_round >= 2 || memory_enabled),
{
    current_round >= 2 || memory_enabled
}

/// The night counter shows the current round.
pub fn night_text(current_round: u32) -> (s: String)
    ensures
        s@ == decimal(current_round as nat),
{
    let mut s = String::new();
    push_decimal(&mut s, current_round as u64);
    proof {
        assert(s@ =~= decimal(current_round as nat));
    }
    s
}

/// The gold panel shows the amount in hand.
pub fn gold_text(amount: u32) -> (s: String)
    ensures
        s@ == decimal(amount as nat),
{
    let mut s = String::new();
    push_decimal(&mut s, amount as u64);
    proof {
        assert(s@ =~= decimal(amount as nat));
    }
    s
}

} // verus!
