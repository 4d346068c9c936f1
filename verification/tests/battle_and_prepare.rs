use bevy_game::battle::{
    bar_fill, default_speed, handle_speed_buttons, speed_button_color, speed_label,
    update_battle_bars, BarFill, InitialUnitCounts, SpeedButton, SpeedPresses,
};
use bevy_game::palette::Rgba8;
use bevy_game::prepare::{
    gold_text, handle_fight_button, handle_mouse_release, memory_panel_visible, night_text,
    try_spawn_unit, FightAction, PurchaseOutcome, ReleaseOutcome,
};

#[test]
fn initial_counts_recorded_once() {
    let mut c = InitialUnitCounts::default();
    assert!(!c.is_recorded());
    c.record_initial_counts(0, 0);
    assert_eq!(c, InitialUnitCounts { player: 0, enemy: 0 });
    c.record_initial_counts(5, 3);
    assert_eq!(c, InitialUnitCounts { player: 5, enemy: 3 });
    c.record_initial_counts(9, 9);
    assert_eq!(c, InitialUnitCounts { player: 5, enemy: 3 });
    assert!(c.is_recorded());
}

#[test]
fn bar_fill_is_capped_share() {
    assert_eq!(bar_fill(3, 6), BarFill { filled: 3, total: 6 });
    assert_eq!(bar_fill(8, 6), BarFill { filled: 6, total: 6 });
    assert_eq!(bar_fill(0, 6), BarFill { filled: 0, total: 6 });
    assert_eq!(bar_fill(4, 0), BarFill { filled: 0, total: 0 });
}

#[test]
fn battle_bars_wait_for_counts() {
    let none = InitialUnitCounts::default();
    assert!(update_battle_bars(&none, 3, 3).is_none());
    let c = InitialUnitCounts { player: 10, enemy: 4 };
    let bars = update_battle_bars(&c, 7, 12).unwrap();
    assert_eq!(bars.player_fill, BarFill { filled: 7, total: 10 });
    assert_eq!(bars.enemy_fill, BarFill { filled: 4, total: 4 });
    assert_eq!(bars.player_count, "7");
    assert_eq!(bars.enemy_count, "12");
}

#[test]
fn last_pressed_speed_button_wins() {
    let none = SpeedPresses { pause: false, normal: false, double: false, quadruple: false };
    assert_eq!(handle_speed_buttons(none), None);
    let p = SpeedPresses { pause: true, normal: false, double: true, quadruple: false };
    assert_eq!(handle_speed_buttons(p), Some(SpeedButton::Double));
    let p = SpeedPresses { pause: true, ..none };
    assert_eq!(handle_speed_buttons(p).map(|b| b.relative_speed()), Some(0));
    assert_eq!(SpeedButton::Quadruple.relative_speed(), 4);
    assert_eq!(default_speed().relative_speed(), 1);
}

#[test]
fn speed_labels() {
    assert_eq!(speed_label(true, 0), "||");
    assert_eq!(speed_label(false, 1), "1x");
    assert_eq!(speed_label(false, 4), "4x");
}

#[test]
fn only_current_speed_button_is_green() {
    let active = Rgba8 { r: 0x78, g: 0x9a, b: 0x73, a: 0xff };
    let inactive = Rgba8 { r: 0xdb, g: 0xb5, b: 0x7a, a: 0x59 };
    let cur = Some(SpeedButton::Double);
    assert_eq!(speed_button_color(SpeedButton::Double, cur), active);
    assert_eq!(speed_button_color(SpeedButton::Normal, cur), inactive);
    assert_eq!(speed_button_color(SpeedButton::Pause, None), inactive);
}

#[test]
fn purchase_outcomes() {
    assert_eq!(try_spawn_unit(100, None, true), PurchaseOutcome::UnknownUnit);
    assert_eq!(try_spawn_unit(10, Some(25), true), PurchaseOutcome::NotEnoughGold);
    assert_eq!(try_spawn_unit(30, Some(25), false), PurchaseOutcome::NoCursor);
    assert_eq!(try_spawn_unit(30, Some(25), true), PurchaseOutcome::Spawned { remaining_gold: 5 });
    assert_eq!(try_spawn_unit(25, Some(25), true), PurchaseOutcome::Spawned { remaining_gold: 0 });
    // A gold amount above the signed range reads as negative, as in the game.
    assert_eq!(try_spawn_unit(u32::MAX, Some(0), true), PurchaseOutcome::NotEnoughGold);
    // A negative cost adds gold.
    assert_eq!(try_spawn_unit(5, Some(-3), true), PurchaseOutcome::Spawned { remaining_gold: 8 });
}

#[test]
fn release_outcomes() {
    assert_eq!(handle_mouse_release(true, 40, Some(25)), ReleaseOutcome::Deployed);
    assert_eq!(handle_mouse_release(false, 40, Some(25)), ReleaseOutcome::Refunded { gold: 65 });
    assert_eq!(handle_mouse_release(false, 40, None), ReleaseOutcome::Refunded { gold: 40 });
    assert_eq!(
        handle_mouse_release(false, u32::MAX - 1, Some(25)),
        ReleaseOutcome::Refunded { gold: u32::MAX }
    );
    assert_eq!(handle_mouse_release(false, 0, Some(-1)), ReleaseOutcome::Refunded { gold: u32::MAX });
}

#[test]
fn refund_restores_gold_after_purchase() {
    let gold = 90;
    let cost = 35;
    let PurchaseOutcome::Spawned { remaining_gold } = try_spawn_unit(gold, Some(cost), true) else {
        panic!("purchase should succeed");
    };
    assert_eq!(
        handle_mouse_release(false, remaining_gold, Some(cost)),
        ReleaseOutcome::Refunded { gold }
    );
}

#[test]
fn fight_button_needs_units() {
    assert_eq!(handle_fight_button(false), FightAction::Refuse);
    assert_eq!(handle_fight_button(true), FightAction::StartBattle);
}

#[test]
fn preparation_counters() {
    assert!(!memory_panel_visible(1, false));
    assert!(memory_panel_visible(2, false));
    assert!(memory_panel_visible(0, true));
    assert_eq!(night_text(3), "3");
    assert_eq!(gold_text(1250), "1250");
    assert_eq!(gold_text(0), "0");
}
