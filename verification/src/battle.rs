//! The battle screen: the two strength bars at the top and the game-speed
//! panel at the top right.

use vstd::prelude::*;
use crate::decimal::{decimal, push_decimal};
use crate::palette::Rgba8;

verus! {

/// Marks the root node of the battle interface.
#[derive(Debug, Clone, Copy, PartialEq, Eq, Structural)]
pub struct BattleRootNode;

/// The stages in which the battle interface is built: the root first, then
/// the panels inside it.
#[derive(Debug, Clone, Copy, PartialEq, Eq, Hash, Structural)]
pub enum BattleUiSets {
    SpawnRoot,
    SpawnChildren,
}

/// Marks the player's strength bar.
#[derive(Debug, Clone, Copy, PartialEq, Eq, Structural)]
pub struct PlayerUnitBarMarker;

/// Marks the enemy's strength bar.
#[derive(Debug, Clone, Copy, PartialEq, Eq, Structural)]
pub struct EnemyUnitBarMarker;

/// Marks the player's unit count.
#[derive(Debug, Clone, Copy, PartialEq, Eq, Structural)]
pub struct PlayerUnitCountMarker;

/// Marks the enemy's unit count.
#[derive(Debug, Clone, Copy, PartialEq, Eq, Structural)]
pub struct EnemyUnitCountMarker;

/// The unit counts at the start of the battle; both zero until recorded.
#[derive(Debug, Clone, Copy, PartialEq, Eq, Structural)]
pub struct InitialUnitCounts {
    pub player: usize,
    pub enemy: usize,
}

impl Default for InitialUnitCounts {
    fn default() -> (c: InitialUnitCounts)
        ensures
            c.player == 0 && c.enemy == 0,
    {
        InitialUnitCounts { player: 0, enemy: 0 }
    }
}

/// The counts have been recorded once at least one unit was on the field.
pub open spec fn counts_recorded(c: InitialUnitCounts) -> bool {
    c.player != 0 || c.enemy != 0
}

impl InitialUnitCounts {
    /// Whether the starting counts are known.
    pub fn is_recorded(&self) -> (b: bool)
        ensures
            b == counts_recorded(*self),
    {
        self.player != 0 || self.enemy != 0
    }

    /// Records the current counts as the starting ones, the first time any
    /// unit is on the field; afterwards the record never changes.
    pub fn record_initial_counts(&mut self, player_count: usize, enemy_count: usize)
        ensures
            counts_recorded(*old(self)) ==> *final(self) == *old(self),
            !counts_recorded(*old(self)) && (player_count > 0 || enemy_count > 0) ==> *final(self)
                == (InitialUnitCounts { player: player_count, enemy: enemy_count }),
            !counts_recorded(*old(self)) && player_count == 0 && enemy_count == 0 ==> *final(self)
                == *old(self),
    {
        if self.player == 0 && self.enemy == 0 {
            if player_count > 0 || enemy_count > 0 {
                self.player = player_count;
                self.enemy = enemy_count;
            }
        }
    }
}

/// How full a strength bar is: `filled / total` of its width, or empty when
/// `total` is zero.
#[derive(Debug, Clone, Copy, PartialEq, Eq, Structural)]
pub struct BarFill {
    pub filled: usize,
    pub total: usize,
}

/// The share of the starting units still standing, capped at a full bar
/// (the side may grow during battle); an empty bar when the side started with
/// none.
pub open spec fn bar_fill_spec(current: usize, initial: usize) -> BarFill {
    if initial > 0 {
        BarFill { filled: if current < initial { current } else { initial }, total: initial }
    } else {
        BarFill { filled: 0, total: 0 }
    }
}

/// The fill of a strength bar.
pub fn bar_fill(current: usize, initial: usize) -> (f: BarFill)
    ensures
        f == bar_fill_spec(current, initial),
{
    if initial > 0 {
        BarFill { filled: if current < initial { current } else { initial }, total: initial }
    } else {
        BarFill { filled: 0, total: 0 }
    }
}

/// A bar is never more than full, and a side with more units never shows a
/// shorter bar: the fill grows with the current count.
pub proof fn bar_fill_bounded_and_monotone(a: usize, b: usize, initial: usize)
    requires
        a <= b,
    ensures
        bar_fill_spec(a, initial).filled <= bar_fill_spec(a, initial).total,
        bar_fill_spec(a, initial).total == bar_fill_spec(b, initial).total,
        bar_fill_spec(a, initial).filled <= bar_fill_spec(b, initial).filled,
        initial > 0 ==> (bar_fill_spec(b, initial).filled == bar_fill_spec(b, initial).total
            <==> b >= initial),
{
}

/// The fill follows the counts themselves: a side that started with units
/// fills `current` of `initial` parts, capped at a full bar; so the bar is
/// empty only when no unit stands, and full only when at least as many stand
/// as started. A side that started with none shows an empty bar.
pub proof fn bar_fill_is_share_of_start(current: usize, initial: usize)
    ensures
        initial > 0 && current <= initial ==> bar_fill_spec(current, initial) == (BarFill {
            filled: current,
            total: initial,
        }),
        initial > 0 && current > initial ==> bar_fill_spec(current, initial) == (BarFill {
            filled: initial,
            total: initial,
        }),
        initial > 0 ==> (bar_fill_spec(current, initial).filled > 0 <==> current > 0),
        initial == 0 ==> bar_fill_spec(current, initial).filled == 0 && bar_fill_spec(
            current,
            initial,
        ).total == 0,
{
}

/// What the top of the battle screen shows.
#[derive(Debug, Clone, PartialEq, Eq)]
pub struct BattleBars {
    pub player_fill: BarFill,
    pub enemy_fill: BarFill,
    pub player_count: String,
    pub enemy_count: String,
}

/// The bars and counts for the current unit counts, or nothing until the
/// starting counts are recorded.
pub fn update_battle_bars(initial: &InitialUnitCounts, current_player: usize, current_enemy: usize) -> (bars: Option<BattleBars>)
    ensures
        !counts_recorded(*initial) <==> bars is None,
        bars matches Some(b) ==> {
            &&& b.player_fill == bar_fill_spec(current_player, initial.player)
            &&& b.enemy_fill == bar_fill_spec(current_enemy, initial.enemy)
            &&& b.player_count@ == decimal(current_player as nat)
            &&& b.enemy_count@ == decimal(current_enemy as nat)
        },
{
    if initial.player == 0 && initial.enemy == 0 {
        return None;
    }
    let mut player_count = String::new();
    push_decimal(&mut player_count, current_player as u64);
    let mut enemy_count = String::new();
    push_decimal(&mut enemy_count, current_enemy as u64);
    proof {
        assert(player_count@ =~= decimal(current_player as nat));
        assert(enemy_count@ =~= decimal(current_enemy as nat));
    }
    Some(BattleBars {
        player_fill: bar_fill(current_player, initial.player),
        enemy_fill: bar_fill(current_enemy, initial.enemy),
        player_count,
        enemy_count,
    })
}

/// The four buttons of the speed panel.
#[derive(Debug, Clone, Copy, PartialEq, Eq, Hash, Structural)]
pub enum SpeedButton {
    Pause,
    Normal,
    Double,
    Quadruple,
}

/// How fast game time runs under each button, as a multiple of real time.
pub open spec fn button_speed(b: SpeedButton) -> nat {
    match b {
        SpeedButton::Pause => 0,
        SpeedButton::Normal => 1,
        SpeedButton::Double => 2,
        SpeedButton::Quadruple => 4,
    }
}

impl SpeedButton {
    /// The relative speed this button sets.
    pub fn relative_speed(&self) -> (s: u32)
        ensures
            s == button_speed(*self),
    {
        match self {
            SpeedButton::Pause => 0,
            SpeedButton::Normal => 1,
            SpeedButton::Double => 2,
            SpeedButton::Quadruple => 4,
        }
    }
}

/// The text on each button of the speed panel.
pub open spec fn button_label(b: SpeedButton) -> Seq<char> {
    match b {
        SpeedButton::Pause => seq!['|', '|'],
        SpeedButton::Normal => seq!['1', 'x'],
        SpeedButton::Double => seq!['2', 'x'],
        SpeedButton::Quadruple => seq!['4', 'x'],
    }
}

impl SpeedButton {
    /// The text shown on this button.
    pub fn label(&self) -> (s: String)
        ensures
            s@ == button_label(*self),
    {
        proof {
            reveal_strlit("||");
            reveal_strlit("1x");
            reveal_strlit("2x");
            reveal_strlit("4x");
        }
        match self {
            SpeedButton::Pause => String::from_str("||"),
            SpeedButton::Normal => String::from_str("1x"),
            SpeedButton::Double => String::from_str("2x"),
            SpeedButton::Quadruple => String::from_str("4x"),
        }
    }
}

/// Each button sets the speed its own text names: pressing it makes the
/// panel's speed label (see [`speed_label`]) read exactly the button's text.
/// Only the pause button stops time, 1x runs at real time, and each further
/// button doubles the speed of the one before.
pub proof fn buttons_set_the_speed_they_name(b: SpeedButton)
    ensures
        (button_speed(b) == 0) <==> (b == SpeedButton::Pause),
        b == SpeedButton::Pause ==> button_label(b) == seq!['|', '|'],
        b != SpeedButton::Pause ==> button_label(b) == decimal(button_speed(b)).push('x'),
        button_speed(SpeedButton::Normal) == 1,
        button_speed(SpeedButton::Double) == 2 * button_speed(SpeedButton::Normal),
        button_speed(SpeedButton::Quadruple) == 2 * button_speed(SpeedButton::Double),
{
    assert(decimal(1) =~= seq!['1']);
    assert(decimal(2) =~= seq!['2']);
    assert(decimal(4) =~= seq!['4']);
}

/// The speed the battle returns to when it ends.
pub fn default_speed() -> (s: SpeedButton)
    ensures
        button_speed(s) == 1,
{
    SpeedButton::Normal
}

/// Which speed buttons were pressed during one frame.
#[derive(Debug, Clone, Copy, PartialEq, Eq, Structural)]
pub struct SpeedPresses {
    pub pause: bool,
    pub normal: bool,
    pub double: bool,
    pub quadruple: bool,
}

/// The button that decides the speed this frame. The presses are applied in
/// the panel's order (pause, 1x, 2x, 4x), so the last pressed one wins; with
/// no press the speed stays as it is.
pub open spec fn deciding_button(p: SpeedPresses) -> Option<SpeedButton> {
    if p.quadruple {
        Some(SpeedButton::Quadruple)
    } else if p.double {
        Some(SpeedButton::Double)
    } else if p.normal {
        Some(SpeedButton::Normal)
    } else if p.pause {
        Some(SpeedButton::Pause)
    } else {
        None
    }
}

/// The button whose speed is set this frame, if any.
pub fn handle_speed_buttons(presses: SpeedPresses) -> (b: Option<SpeedButton>)
    ensures
        b == deciding_button(presses),
{
    let mut chosen: Option<SpeedButton> = None;
    if presses.pause {
        chosen = Some(SpeedButton::Pause);
    }
    if presses.normal {
        chosen = Some(SpeedButton::Normal);
    }
    if presses.double {
        chosen = Some(SpeedButton::Double);
    }
    if presses.quadruple {
        chosen = Some(SpeedButton::Quadruple);
    }
    chosen
}

/// The speed label: "||" while time stands still, else the whole part of the
/// speed followed by "x".
pub fn speed_label(stopped: bool, whole_speed: u32) -> (s: String)
    ensures
        stopped ==> s@ == "||"@,
        !stopped ==> s@ == decimal(whole_speed as nat).push('x'),
{
    proof {
        reveal_strlit("x");
    }
    if stopped {
        String::from_str("||")
    } else {
        let mut s = String::new();
        push_decimal(&mut s, whole_speed as u64);
        s.append("x");
        proof {
            assert(s@ =~= decimal(whole_speed as nat).push('x'));
        }
        s
    }
}

/// The background of the button for the current speed: green medium.
pub open spec fn active_speed_color() -> Rgba8 {
    Rgba8 { r: 0x78, g: 0x9a, b: 0x73, a: 0xff }
}

/// The background of the other buttons: tan medium at 35% opacity.
pub open spec fn inactive_speed_color() -> Rgba8 {
    Rgba8 { r: 0xdb, g: 0xb5, b: 0x7a, a: 0x59 }
}

/// The background of a speed button while time runs at `current` (nothing
/// when the speed is none of the four).
pub open spec fn speed_button_color_spec(button: SpeedButton, current: Option<SpeedButton>) -> Rgba8 {
    if current == Some(button) { active_speed_color() } else { inactive_speed_color() }
}

/// A button is highlighted exactly when game time runs at its speed.
pub fn speed_button_color(button: SpeedButton, current: Option<SpeedButton>) -> (c: Rgba8)
    ensures
        c == speed_button_color_spec(button, current),
{
    let active = match current {
        Some(b) => b == button,
        None => false,
    };
    if active {
        Rgba8 { r: 0x78, g: 0x9a, b: 0x73, a: 0xff }
    } else {
        Rgba8 { r: 0xdb, g: 0xb5, b: 0x7a, a: 0x59 }
    }
}

/// At any speed at most one button is highlighted: a button shows the active
/// colour exactly when time runs at its speed, so two different buttons never
/// both do.
pub proof fn one_speed_button_highlighted(current: Option<SpeedButton>, a: SpeedButton, b: SpeedButton)
    requires
        a != b,
    ensures
        speed_button_color_spec(a, current) == active_speed_color() <==> current == Some(a),
        !(speed_button_color_spec(a, current) == active_speed_color()
            && speed_button_color_spec(b, current) == active_speed_color()),
{
}

} // verus!
