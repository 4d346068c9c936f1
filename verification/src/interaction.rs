//! How widgets answer the pointer: colours per interaction state, press
//! events, sounds, and the hover animations of buttons.

use vstd::prelude::*;
use crate::palette::{ColorPalette, UiColorName, role_color};

verus! {

/// The pointer's relation to a widget.
#[derive(Debug, Clone, Copy, PartialEq, Eq, Hash, Structural)]
pub enum Interaction {
    Pressed,
    Hovered,
    /// Neither over the widget nor pressing it.
    Idle,
}

/// The background a widget shows in each interaction state.
#[derive(Debug, Clone, Copy, PartialEq, Eq)]
pub struct InteractionPalette<C> {
    pub none: C,
    pub hovered: C,
    pub pressed: C,
}

/// The background for an interaction state.
pub open spec fn palette_for<C>(p: InteractionPalette<C>, i: Interaction) -> C {
    match i {
        Interaction::Idle => p.none,
        Interaction::Hovered => p.hovered,
        Interaction::Pressed => p.pressed,
    }
}

impl<C: Copy> InteractionPalette<C> {
    /// The background to show when the interaction changes to `interaction`.
    pub fn apply_interaction_palette(&self, interaction: Interaction) -> (c: C)
        ensures
            c == palette_for(*self, interaction),
    {
        match interaction {
            Interaction::Idle => self.none,
            Interaction::Hovered => self.hovered,
            Interaction::Pressed => self.pressed,
        }
    }
}

/// The palette of a standard button: its background, hovered background and
/// pressed background roles.
pub fn button_palette(palette: &ColorPalette) -> (p: InteractionPalette<crate::palette::Rgba8>)
    ensures
        p.none == role_color(*palette, UiColorName::ButtonBackground),
        p.hovered == role_color(*palette, UiColorName::ButtonHoveredBackground),
        p.pressed == role_color(*palette, UiColorName::ButtonPressedBackground),
{
    InteractionPalette {
        none: palette.get(UiColorName::ButtonBackground),
        hovered: palette.get(UiColorName::ButtonHoveredBackground),
        pressed: palette.get(UiColorName::ButtonPressedBackground),
    }
}

/// A change of interaction becomes a press event exactly when it is a press.
pub fn triggers_on_press(interaction: Interaction) -> (b: bool)
    ensures
        b == (interaction == Interaction::Pressed),
{
    match interaction {
        Interaction::Pressed => true,
        _ => false,
    }
}

/// The two interface sounds.
#[derive(Debug, Clone, Copy, PartialEq, Eq, Hash, Structural)]
pub enum InteractionSound {
    Hover,
    Press,
}

/// The sound a change of interaction plays: hovering and pressing each have
/// one; leaving a widget plays none.
pub fn interaction_sound(interaction: Interaction) -> (s: Option<InteractionSound>)
    ensures
        s == (match interaction {
            Interaction::Hovered => Some(InteractionSound::Hover),
            Interaction::Pressed => Some(InteractionSound::Press),
            Interaction::Idle => None::<InteractionSound>,
        }),
{
    match interaction {
        Interaction::Hovered => Some(InteractionSound::Hover),
        Interaction::Pressed => Some(InteractionSound::Press),
        Interaction::Idle => None,
    }
}

/// The scale animation of the game's square buttons.
#[derive(Debug, Clone, Copy, PartialEq, Eq, Hash, Structural)]
pub enum ScaleTween {
    /// Grow to 110% (and, for the unit and memory buttons, darken).
    Enlarge,
    /// Shrink back to normal size (and clear the background).
    Restore,
}

/// Hovering grows a button, leaving shrinks it back; a press starts no
/// animation.
pub fn hover_scale(interaction: Interaction) -> (t: Option<ScaleTween>)
    ensures
        t == (match interaction {
            Interaction::Hovered => Some(ScaleTween::Enlarge),
            Interaction::Idle => Some(ScaleTween::Restore),
            Interaction::Pressed => None::<ScaleTween>,
        }),
{
    match interaction {
        Interaction::Hovered => Some(ScaleTween::Enlarge),
        Interaction::Idle => Some(ScaleTween::Restore),
        Interaction::Pressed => None,
    }
}

/// The lift animation of menu buttons.
#[derive(Debug, Clone, Copy, PartialEq, Eq, Hash, Structural)]
pub enum LiftTween {
    /// Float up by a few pixels.
    Raise,
    /// Settle back down.
    Lower,
}

/// Menu buttons rise while hovered and settle when left or pressed.
pub fn hover_lift(interaction: Interaction) -> (t: LiftTween)
    ensures
        t == (if interaction == Interaction::Hovered { LiftTween::Raise } else { LiftTween::Lower }),
{
    match interaction {
        Interaction::Hovered => LiftTween::Raise,
        Interaction::Idle | Interaction::Pressed => LiftTween::Lower,
    }
}

} // verus!
