use std::time::Duration;
use bevy_game::buffs::buff_in_range_exec;
use bevy_game::buffs::{format_buffs, BuffEffect, PoisonData, StackData};
use bevy_game::camera_vfx::fade::{unpause_time_on_exit, FadeKind, FadeOverlay};
use bevy_game::camera_vfx::shake::{ScreenShake, ShakeStep, SHAKE_DURATION_NS};
use bevy_game::timer::OnceTimer;
use bevy_game::ui_no_root::world_unit_tooltip::{
    on_hover_end, on_hover_start, update_buffs_text, PanelForUnit,
};
use bevy_game::vfx::{
    handle_vfx_message, on_hit_flash_event, sprites_of, DamageFlash, FlashTint,
    HitFlashVfxEvent, VFXMessage, VFXType, DAMAGE_MESSAGE_FLASH_NS, HIT_FLASH_NS,
};

#[test]
fn timer_finishes_once() {
    let mut t = OnceTimer::new(100);
    t.tick(60);
    assert!(!t.is_finished() && !t.just_finished());
    assert_eq!(t.elapsed_ns(), 60);
    t.tick(60);
    assert!(t.is_finished() && t.just_finished());
    assert_eq!(t.elapsed_ns(), 100);
    t.tick(60);
    assert!(t.is_finished() && !t.just_finished());
    assert_eq!(t.elapsed_ns(), 100);
    let mut z = OnceTimer::new(0);
    assert!(!z.is_finished());
    z.tick(0);
    assert!(z.just_finished());
}

#[test]
fn timer_saturates() {
    let mut t = OnceTimer::new(u64::MAX);
    t.tick(u64::MAX - 1);
    assert!(!t.is_finished());
    t.tick(5);
    assert!(t.is_finished());
}

#[test]
fn flash_restores_its_colour() {
    let mut f = DamageFlash::new(HIT_FLASH_NS, 7u32);
    assert_eq!(f.tick_damage_flash(HIT_FLASH_NS - 1), None);
    assert_eq!(f.tick_damage_flash(1), Some(7));
}

#[test]
fn flash_plans() {
    let p = on_hit_flash_event(HitFlashVfxEvent { target: 4 }, true);
    assert_eq!(p.tint, FlashTint::Pink);
    assert_eq!(p.duration_ns, HIT_FLASH_NS);
    assert!(p.restore_original);
    assert_eq!(on_hit_flash_event(HitFlashVfxEvent { target: 4 }, false).tint, FlashTint::White);
    let m = handle_vfx_message(VFXMessage { target: 9, vfx_type: VFXType::Damage }).unwrap();
    assert_eq!(m.target, 9);
    assert_eq!(m.tint, FlashTint::White);
    assert_eq!(m.duration_ns, DAMAGE_MESSAGE_FLASH_NS);
    assert!(!m.restore_original);
}

#[test]
fn sprites_of_unit() {
    assert_eq!(sprites_of(&vec![3, 5, 3, 7, 3], 3), vec![0, 2, 4]);
    assert!(sprites_of(&vec![1, 2], 9).is_empty());
}

#[test]
fn fade_overlay_lifecycle() {
    let mut f = FadeOverlay::default();
    assert_eq!(f.handle_fade_in(false, 10), None);
    assert_eq!(f.entity, Some(10));
    assert_eq!(f.kind, Some(FadeKind::In));
    assert_eq!(f.handle_fade_out(true, 11), Some(10));
    assert_eq!(f.entity, Some(11));
    assert_eq!(f.kind, Some(FadeKind::Out));
    // A fade-out overlay starts transparent and is never cleaned up.
    assert_eq!(f.cleanup_fade_overlay_on_complete(true, true), None);
    assert_eq!(f.entity, Some(11));
    assert_eq!(f.handle_fade_in(false, 12), None);
    assert_eq!(f.cleanup_fade_overlay_on_complete(true, false), None);
    assert_eq!(f.entity, Some(12));
    assert_eq!(f.cleanup_fade_overlay_on_complete(false, true), None);
    assert_eq!(f.entity, Some(12));
    assert_eq!(f.cleanup_fade_overlay_on_complete(true, true), Some(12));
    assert_eq!(f.entity, None);
    assert_eq!(f.kind, None);
    f.handle_fade_in(false, 13);
    assert_eq!(f.cleanup_fade_on_exit(false), None);
    assert_eq!(f.entity, None);
    f.handle_fade_out(false, 14);
    assert_eq!(f.cleanup_fade_on_exit(true), Some(14));
    assert_eq!(f.kind, None);
    assert!(unpause_time_on_exit(true));
    assert!(!unpause_time_on_exit(false));
}

#[test]
fn shake_runs_and_returns() {
    let mut s = ScreenShake::new((0i32, 0i32));
    assert!(!s.is_shaking());
    assert_eq!(s.apply_camera_shake(10), ShakeStep::Idle);
    s.trigger_camera_shake((5, 6));
    assert!(s.is_shaking());
    s.trigger_camera_shake((100, 100));
    match s.apply_camera_shake(100_000_000) {
        ShakeStep::Jolt { rest_pose, elapsed_ns, duration_ns } => {
            assert_eq!(rest_pose, (5, 6));
            assert_eq!(elapsed_ns, 100_000_000);
            assert_eq!(duration_ns, SHAKE_DURATION_NS);
        }
        other => panic!("expected a jolt, got {:?}", other),
    }
    assert_eq!(s.apply_camera_shake(SHAKE_DURATION_NS), ShakeStep::Restore((5, 6)));
    assert!(!s.is_shaking());
    assert_eq!(s.apply_camera_shake(1), ShakeStep::Idle);
    s.trigger_camera_shake((1, 1));
    assert!(s.is_shaking());
}

#[test]
fn buffs_line() {
    assert_eq!(format_buffs(&vec![]), "");
    let buffs = vec![
        BuffEffect::Poison(PoisonData { stacks: 4 }),
        BuffEffect::Block(StackData { current_stacks: 3, max_stacks: 10 }),
        BuffEffect::Stun(StackData { current_stacks: 0, max_stacks: 5 }),
        BuffEffect::AttackSpeed(StackData { current_stacks: 2, max_stacks: 4 }),
        BuffEffect::Invincible,
    ];
    assert_eq!(
        format_buffs(&buffs),
        "Buffs: Poison x4 (10 total dmg, 4\u{2192}1/sec) | Block 3/10 (15% chance) | Stun 0/5 (0% chance) | AtkSpd 2/4 (10% faster) | Invincible"
    );
    assert_eq!(format_buffs(&vec![BuffEffect::Invincible]), "Buffs: Invincible");
}

#[test]
fn poison_total_is_triangular() {
    for n in 0u32..50 {
        let expected: u32 = (1..=n).sum();
        let text = format_buffs(&vec![BuffEffect::Poison(PoisonData { stacks: n })]);
        assert!(text.contains(&format!("({} total dmg", expected)));
    }
}

#[test]
fn unit_panels() {
    let panels = vec![PanelForUnit { panel: 100, unit: 1 }, PanelForUnit { panel: 101, unit: 2 }];
    assert_eq!(on_hover_start(false, Some(3), &panels, true), Some(3));
    assert_eq!(on_hover_start(true, Some(3), &panels, true), None);
    assert_eq!(on_hover_start(false, Some(1), &panels, true), None);
    assert_eq!(on_hover_start(false, Some(3), &panels, false), None);
    assert_eq!(on_hover_start(false, None, &panels, true), None);
    let more = vec![
        PanelForUnit { panel: 100, unit: 1 },
        PanelForUnit { panel: 101, unit: 2 },
        PanelForUnit { panel: 102, unit: 1 },
    ];
    assert_eq!(on_hover_end(Some(1), &more), vec![100, 102]);
    assert!(on_hover_end(None, &more).is_empty());
    assert!(on_hover_end(Some(9), &more).is_empty());
    assert_eq!(update_buffs_text(None), "");
    assert_eq!(update_buffs_text(Some(&vec![BuffEffect::Invincible])), "Buffs: Invincible");
}

#[test]
fn buff_range_check() {
    assert!(buff_in_range_exec(BuffEffect::Poison(PoisonData { stacks: 65535 })));
    assert!(!buff_in_range_exec(BuffEffect::Poison(PoisonData { stacks: 65536 })));
    assert!(buff_in_range_exec(BuffEffect::Block(StackData { current_stacks: 3_355_443, max_stacks: 0 })));
    assert!(!buff_in_range_exec(BuffEffect::Stun(StackData { current_stacks: 3_355_444, max_stacks: 0 })));
    assert!(buff_in_range_exec(BuffEffect::Invincible));
}

#[test]
fn durations_match_float_seconds() {
    assert_eq!(Duration::from_secs_f32(0.05).as_nanos(), HIT_FLASH_NS as u128);
    assert_eq!(Duration::from_secs_f32(0.2).as_nanos(), DAMAGE_MESSAGE_FLASH_NS as u128);
    assert_eq!(Duration::from_secs_f32(0.3).as_nanos(), SHAKE_DURATION_NS as u128);
}

#[test]
fn shake_over_several_frames_returns_on_the_last() {
    let mut s = ScreenShake::new((0i32, 0i32));
    s.trigger_camera_shake((7, -2));
    let frame = SHAKE_DURATION_NS / 3;
    assert_eq!(frame * 3, SHAKE_DURATION_NS);
    for _ in 0..2 {
        assert!(matches!(s.apply_camera_shake(frame), ShakeStep::Jolt { rest_pose: (7, -2), .. }));
    }
    assert_eq!(s.apply_camera_shake(frame), ShakeStep::Restore((7, -2)));
    for _ in 0..3 {
        assert_eq!(s.apply_camera_shake(frame), ShakeStep::Idle);
    }
}

#[test]
fn hover_round_trip_removes_only_that_units_panels() {
    let mut panels = vec![PanelForUnit { panel: 100, unit: 1 }, PanelForUnit { panel: 101, unit: 2 }];
    assert_eq!(on_hover_start(false, Some(3), &panels, true), Some(3));
    panels.push(PanelForUnit { panel: 102, unit: 3 });
    let closed = on_hover_end(Some(3), &panels);
    assert_eq!(closed, vec![102]);
    panels.retain(|p| !closed.contains(&p.panel));
    assert_eq!(panels, vec![PanelForUnit { panel: 100, unit: 1 }, PanelForUnit { panel: 101, unit: 2 }]);
}
