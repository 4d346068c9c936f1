use bevy_game::settings::PresentMode;
use bevy_game::app_plan::{AppPlan, GameState, Registration, ResourceId, ScheduleLabel, SystemId, UiSet};
use bevy_game::camera_vfx;
use bevy_game::decimal::u64_to_decimal;
use bevy_game::game_end_state::{self, BattleEndUiSets};
use bevy_game::menus::{
    credits_cell_alignment, play_label_text, spawn_or_skip_asset_loading_screen,
    test_scene_from_name, update_loading_assets_label, FrameCounter, JustifySelf, LoadingStart,
    TestScene,
};
use bevy_game::persistent;
use bevy_game::persistent::bottom_right::version_text;
use bevy_game::prepare::PrepareUiSets;
use bevy_game::settings::{
    on_off_label, settings_go_back, update_volume_label, FpsLimiterSettings, Menu,
    VolumeSliderSettings, VsyncSetting, MAX_TICK_COUNT,
};
use bevy_game::ui_no_root;

#[test]
fn decimal_rendering() {
    assert_eq!(u64_to_decimal(0), "0");
    assert_eq!(u64_to_decimal(9), "9");
    assert_eq!(u64_to_decimal(10), "10");
    assert_eq!(u64_to_decimal(u64::MAX), u64::MAX.to_string());
}

#[test]
fn volume_slider() {
    let mut v = VolumeSliderSettings(19);
    v.increment();
    assert_eq!(v.0, 20);
    v.increment();
    assert_eq!(v.0, MAX_TICK_COUNT);
    let mut z = VolumeSliderSettings(0);
    z.decrement();
    assert_eq!(z.0, 0);
    assert_eq!(VolumeSliderSettings(3).fraction(), (3, 20));
    let label = update_volume_label(&VolumeSliderSettings(3));
    assert_eq!(label, format!("{}{}|", "\u{2588}".repeat(3), " ".repeat(17)));
    assert_eq!(update_volume_label(&VolumeSliderSettings(20)), format!("{}|", "\u{2588}".repeat(20)));
}

#[test]
fn fps_limiter() {
    let mut s = FpsLimiterSettings::default();
    assert!(!s.enabled);
    assert_eq!(s.target_fps, 60);
    assert_eq!(s.update_fps_limiter(), None);
    assert_eq!(s.enable(), Some(60));
    s.raise_target();
    assert_eq!(s.target_fps, 65);
    assert_eq!(s.update_fps_limiter(), Some(65));
    let mut low = FpsLimiterSettings { enabled: true, target_fps: 32 };
    low.lower_target();
    assert_eq!(low.target_fps, 30);
    low.lower_target();
    assert_eq!(low.target_fps, 30);
    let mut high = FpsLimiterSettings { enabled: false, target_fps: 358 };
    high.raise_target();
    assert_eq!(high.target_fps, 360);
    assert_eq!(high.target_label(), "360");
    assert_eq!(high.disable(), None);
}

#[test]
fn settings_labels_and_navigation() {
    assert!(VsyncSetting::default().0);
    assert_eq!(on_off_label(true), "On");
    assert_eq!(on_off_label(false), "Off");
    assert_eq!(settings_go_back(true), Menu::Main);
    assert_eq!(settings_go_back(false), Menu::Pause);
}

#[test]
fn menu_texts() {
    assert_eq!(play_label_text(1), "Night 1");
    assert_eq!(play_label_text(0), "Night 0");
    assert_eq!(play_label_text(3), "Night 3 Rewind");
    assert_eq!(credits_cell_alignment(0), JustifySelf::End);
    assert_eq!(credits_cell_alignment(1), JustifySelf::Start);
    assert_eq!(credits_cell_alignment(6), JustifySelf::End);
    assert_eq!(update_loading_assets_label(3, 7), "Loading Assets: 3 / 7");
    assert_eq!(spawn_or_skip_asset_loading_screen(true), LoadingStart::SkipToLevel);
    assert_eq!(spawn_or_skip_asset_loading_screen(false), LoadingStart::ShowScreen);
    assert_eq!(version_text("0.3.1"), "v0.3.1");
}

#[test]
fn window_shown_on_fifth_frame_only() {
    let mut c = FrameCounter::default();
    let shown: Vec<bool> = (0..8).map(|_| c.make_window_visible()).collect();
    assert_eq!(shown, vec![false, false, false, false, true, false, false, false]);
}

#[test]
fn test_scene_names() {
    assert_eq!(test_scene_from_name(&"big_eye".to_string()), Some(TestScene::BigEye));
    assert_eq!(test_scene_from_name(&"big_hand".to_string()), Some(TestScene::BigHand));
    assert_eq!(test_scene_from_name(&"ra".to_string()), Some(TestScene::Ra));
    assert_eq!(test_scene_from_name(&"golden_heart".to_string()), Some(TestScene::GoldenHeart));
    assert_eq!(test_scene_from_name(&"other".to_string()), None);
}

#[test]
fn camera_vfx_plugin_registers_fade_then_shake() {
    let mut app = AppPlan::new(false);
    camera_vfx::plugin(&mut app);
    assert_eq!(app.registrations.len(), 9);
    assert_eq!(app.registrations[0], Registration::InitResource(ResourceId::FadeOverlay));
    assert_eq!(app.registrations[8], Registration::InitResource(ResourceId::ScreenShake));
}

#[test]
fn game_end_plugin_depends_on_backend() {
    let mut offline = AppPlan::new(false);
    game_end_state::plugin(&mut offline);
    assert_eq!(offline.registrations.len(), 2);
    assert_eq!(
        offline.registrations[0],
        Registration::ChainSets {
            schedule: ScheduleLabel::OnEnter(GameState::WinAndNextDay),
            first: UiSet::BattleEnd(BattleEndUiSets::SpawnRoot),
            then: UiSet::BattleEnd(BattleEndUiSets::SpawnChildren),
        }
    );
    let mut online = AppPlan::new(true);
    game_end_state::plugin(&mut online);
    assert_eq!(online.registrations.len(), 9);
}

#[test]
fn persistent_corner_after_root() {
    let mut app = AppPlan::new(false);
    persistent::plugin(&mut app);
    assert_eq!(app.registrations.len(), 2);
    let Registration::System(corner) = app.registrations[1] else {
        panic!("expected a system");
    };
    assert_eq!(corner.system, SystemId::SpawnPersistentBottomRightUi);
    assert_eq!(corner.after_system, Some(SystemId::SpawnPersistentUiRoot));
    let mut only_corner = AppPlan::new(false);
    persistent::bottom_right::plugin(&mut only_corner);
    assert_eq!(only_corner.registrations.len(), 1);
}

#[test]
fn tooltips_after_prepare_children() {
    let mut app = AppPlan::new(false);
    ui_no_root::plugin(&mut app);
    assert_eq!(app.registrations.len(), 8);
    for r in &app.registrations {
        if let Registration::System(e) = r {
            if e.system == SystemId::AddTooltipsToUnitButtons
                || e.system == SystemId::AddTooltipsToMemoryButtons
            {
                assert_eq!(e.after_set, Some(UiSet::Prepare(PrepareUiSets::SpawnChildren)));
            }
        }
    }
    assert_eq!(ui_no_root::quoted_description("calm"), "\"calm\"");
}

#[test]
fn vsync_present_mode() {
    assert_eq!(VsyncSetting(true).update_vsync(), PresentMode::AutoVsync);
    assert_eq!(VsyncSetting(false).update_vsync(), PresentMode::AutoNoVsync);
}
