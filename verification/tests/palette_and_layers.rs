use bevy_game::interaction::{
    button_palette, hover_lift, hover_scale, interaction_sound, triggers_on_press, Interaction,
    InteractionPalette, InteractionSound, LiftTween, ScaleTween,
};
use bevy_game::palette::{ColorPalette, Rgba8, UiColorName};
use bevy_game::sprite_layer::SpriteLayer;

#[test]
fn default_palette_matches_published_hex_values() {
    let p = ColorPalette::default();
    assert_eq!(p.pink_dark, Rgba8 { r: 0xab, g: 0x65, b: 0x81, a: 0xff });
    assert_eq!(p.brown_dark, Rgba8 { r: 0x5e, g: 0x4f, b: 0x5d, a: 0xff });
    assert_eq!(p.green_dark, Rgba8 { r: 0x5b, g: 0x7f, b: 0x6f, a: 0xff });
    assert_eq!(p.tan_lightest, Rgba8 { r: 0xf1, g: 0xdf, b: 0xc1, a: 0xff });
}

#[test]
fn palette_roles() {
    let p = ColorPalette::default();
    assert_eq!(p.get(UiColorName::LabelText), p.tan_light);
    assert_eq!(p.get(UiColorName::HeaderText), p.tan_lightest);
    assert_eq!(p.get(UiColorName::ButtonText), p.brown_dark);
    assert_eq!(p.get(UiColorName::ButtonBackground), p.tan_lightest);
    assert_eq!(p.get(UiColorName::ButtonHoveredBackground), p.pink_light);
    assert_eq!(p.get(UiColorName::ButtonPressedBackground), p.tan_medium);
    assert_eq!(p.get(UiColorName::ScreenBackground), p.brown_dark);
    assert_eq!(p.get(UiColorName::FightButtonText), p.purple_lightest);
    assert_eq!(p.get(UiColorName::FightButtonBackground), p.brown_reddish);
    assert_eq!(p.get(UiColorName::FightButtonBorder), p.pink_medium);
}

#[test]
fn button_states_are_distinct_in_default_palette() {
    let p = ColorPalette::default();
    let b = button_palette(&p);
    assert_ne!(b.none, b.hovered);
    assert_ne!(b.none, b.pressed);
    assert_ne!(b.hovered, b.pressed);
    assert_eq!(b.apply_interaction_palette(Interaction::Hovered), p.pink_light);
    assert_eq!(b.apply_interaction_palette(Interaction::Pressed), p.tan_medium);
    assert_eq!(b.apply_interaction_palette(Interaction::Idle), p.tan_lightest);
}

#[test]
fn with_alpha_keeps_channels() {
    let c = Rgba8::opaque(1, 2, 3).with_alpha(0x59);
    assert_eq!(c, Rgba8 { r: 1, g: 2, b: 3, a: 0x59 });
}

#[test]
fn sprite_layers_draw_in_order() {
    let order = [
        SpriteLayer::VFX,
        SpriteLayer::SelectSquad,
        SpriteLayer::Item,
        SpriteLayer::Memory,
        SpriteLayer::Pawn,
        SpriteLayer::Dark,
        SpriteLayer::Building,
        SpriteLayer::Grid,
        SpriteLayer::PortalVFX,
        SpriteLayer::Shadow,
        SpriteLayer::Corpse,
    ];
    for w in order.windows(2) {
        assert!(w[0].as_z_coordinate() > w[1].as_z_coordinate());
    }
    assert_eq!(SpriteLayer::VFX.as_z_coordinate(), 900);
    assert_eq!(SpriteLayer::Shadow.as_z_coordinate(), -45);
    assert_eq!(SpriteLayer::Corpse.as_z_coordinate(), -55);
    assert_eq!(SpriteLayer::PortalVFX.as_z_coordinate(), 50);
}

#[test]
fn interaction_responses() {
    assert!(triggers_on_press(Interaction::Pressed));
    assert!(!triggers_on_press(Interaction::Hovered));
    assert!(!triggers_on_press(Interaction::Idle));
    assert_eq!(interaction_sound(Interaction::Hovered), Some(InteractionSound::Hover));
    assert_eq!(interaction_sound(Interaction::Pressed), Some(InteractionSound::Press));
    assert_eq!(interaction_sound(Interaction::Idle), None);
    assert_eq!(hover_scale(Interaction::Hovered), Some(ScaleTween::Enlarge));
    assert_eq!(hover_scale(Interaction::Idle), Some(ScaleTween::Restore));
    assert_eq!(hover_scale(Interaction::Pressed), None);
    assert_eq!(hover_lift(Interaction::Hovered), LiftTween::Raise);
    assert_eq!(hover_lift(Interaction::Pressed), LiftTween::Lower);
    assert_eq!(hover_lift(Interaction::Idle), LiftTween::Lower);
}

#[test]
fn interaction_palette_generic_colors() {
    let p = InteractionPalette { none: 1u8, hovered: 2u8, pressed: 3u8 };
    assert_eq!(p.apply_interaction_palette(Interaction::Idle), 1);
    assert_eq!(p.apply_interaction_palette(Interaction::Hovered), 2);
    assert_eq!(p.apply_interaction_palette(Interaction::Pressed), 3);
}
