//! The "Daifuku Delights 24" palette and the interface colours drawn from it.

use vstd::prelude::*;

verus! {

/// A colour given by its four sRGB channels, one byte each.
#[derive(Clone, Copy, Debug, PartialEq, Eq, Structural)]
pub struct Rgba8 {
    pub r: u8,
    pub g: u8,
    pub b: u8,
    pub a: u8,
}

/// The spec value of an opaque colour with the given channels.
pub open spec fn rgb(r: u8, g: u8, b: u8) -> Rgba8 {
    Rgba8 { r, g, b, a: 0xff }
}

impl Rgba8 {
    /// An opaque colour.
    pub fn opaque(r: u8, g: u8, b: u8) -> (c: Rgba8)
        ensures
            c == rgb(r, g, b),
    {
        Rgba8 { r, g, b, a: 0xff }
    }

    /// The same colour with another alpha byte.
    pub fn with_alpha(self, a: u8) -> (c: Rgba8)
        ensures
            c == (Rgba8 { a, ..self }),
    {
        Rgba8 { a, ..self }
    }
}

/// The roles a colour plays in the interface.
#[derive(Debug, Clone, Copy, PartialEq, Eq, Hash, Structural)]
pub enum UiColorName {
    LabelText,
    HeaderText,
    ButtonText,
    ButtonBackground,
    ButtonHoveredBackground,
    ButtonPressedBackground,
    ScreenBackground,
    FightButtonText,
    FightButtonBackground,
    FightButtonBorder,
}

/// Daifuku Delights 24 - a very delicate palette for pastel art.
#[derive(Debug, Clone, Copy, PartialEq, Eq, Structural)]
pub struct ColorPalette {
    // Pink/Purple shades
    pub pink_dark: Rgba8,
    pub pink_medium: Rgba8,
    pub pink_light: Rgba8,
    pub purple_light: Rgba8,
    pub purple_lighter: Rgba8,
    pub purple_lightest: Rgba8,
    // Blue shades
    pub blue_lightest: Rgba8,
    pub blue_lighter: Rgba8,
    pub blue_light: Rgba8,
    pub blue_medium: Rgba8,
    pub blue_dark: Rgba8,
    pub blue_darkest: Rgba8,
    // Brown/Tan shades
    pub brown_dark: Rgba8,
    pub brown_reddish: Rgba8,
    pub brown_medium_red: Rgba8,
    pub brown_medium: Rgba8,
    pub brown_light: Rgba8,
    pub tan_medium: Rgba8,
    pub tan_light: Rgba8,
    pub tan_lightest: Rgba8,
    // Green shades
    pub green_yellow: Rgba8,
    pub green_light: Rgba8,
    pub green_medium: Rgba8,
    pub green_dark: Rgba8,
}

/// The palette as published: every shade opaque, with these hex values.
pub open spec fn daifuku_delights() -> ColorPalette {
    ColorPalette {
        pink_dark: rgb(0xab, 0x65, 0x81),
        pink_medium: rgb(0xbb, 0x72, 0x9f),
        pink_light: rgb(0xca, 0x7f, 0xbc),
        purple_light: rgb(0xd7, 0x9d, 0xd9),
        purple_lighter: rgb(0xe4, 0xbb, 0xf7),
        purple_lightest: rgb(0xf1, 0xe4, 0xfd),
        blue_lightest: rgb(0xbb, 0xd1, 0xee),
        blue_lighter: rgb(0xa5, 0xb7, 0xe2),
        blue_light: rgb(0x8f, 0x9e, 0xd5),
        blue_medium: rgb(0x74, 0x8a, 0xb2),
        blue_dark: rgb(0x58, 0x77, 0x8e),
        blue_darkest: rgb(0x3d, 0x63, 0x6b),
        brown_dark: rgb(0x5e, 0x4f, 0x5d),
        brown_reddish: rgb(0x9c, 0x58, 0x64),
        brown_medium_red: rgb(0xad, 0x6d, 0x66),
        brown_medium: rgb(0xbd, 0x82, 0x69),
        brown_light: rgb(0xce, 0x97, 0x6b),
        tan_medium: rgb(0xdb, 0xb5, 0x7a),
        tan_light: rgb(0xe7, 0xd3, 0x88),
        tan_lightest: rgb(0xf1, 0xdf, 0xc1),
        green_yellow: rgb(0xc3, 0xc3, 0x80),
        green_light: rgb(0x9f, 0xb2, 0x78),
        green_medium: rgb(0x78, 0x9a, 0x73),
        green_dark: rgb(0x5b, 0x7f, 0x6f),
    }
}

/// Which shade of the palette plays each interface role.
pub open spec fn role_color(p: ColorPalette, role: UiColorName) -> Rgba8 {
    match role {
        UiColorName::LabelText => p.tan_light,
        UiColorName::HeaderText => p.tan_lightest,
        UiColorName::ButtonText => p.brown_dark,
        UiColorName::ButtonBackground => p.tan_lightest,
        UiColorName::ButtonHoveredBackground => p.pink_light,
        UiColorName::ButtonPressedBackground => p.tan_medium,
        UiColorName::ScreenBackground => p.brown_dark,
        UiColorName::FightButtonText => p.purple_lightest,
        UiColorName::FightButtonBackground => p.brown_reddish,
        UiColorName::FightButtonBorder => p.pink_medium,
    }
}

impl Default for ColorPalette {
    fn default() -> (p: ColorPalette)
        ensures
            p == daifuku_delights(),
    {
        ColorPalette {
            pink_dark: Rgba8::opaque(0xab, 0x65, 0x81),
            pink_medium: Rgba8::opaque(0xbb, 0x72, 0x9f),
            pink_light: Rgba8::opaque(0xca, 0x7f, 0xbc),
            purple_light: Rgba8::opaque(0xd7, 0x9d, 0xd9),
            purple_lighter: Rgba8::opaque(0xe4, 0xbb, 0xf7),
            purple_lightest: Rgba8::opaque(0xf1, 0xe4, 0xfd),
            blue_lightest: Rgba8::opaque(0xbb, 0xd1, 0xee),
            blue_lighter: Rgba8::opaque(0xa5, 0xb7, 0xe2),
            blue_light: Rgba8::opaque(0x8f, 0x9e, 0xd5),
            blue_medium: Rgba8::opaque(0x74, 0x8a, 0xb2),
            blue_dark: Rgba8::opaque(0x58, 0x77, 0x8e),
            blue_darkest: Rgba8::opaque(0x3d, 0x63, 0x6b),
            brown_dark: Rgba8::opaque(0x5e, 0x4f, 0x5d),
            brown_reddish: Rgba8::opaque(0x9c, 0x58, 0x64),
            brown_medium_red: Rgba8::opaque(0xad, 0x6d, 0x66),
            brown_medium: Rgba8::opaque(0xbd, 0x82, 0x69),
            brown_light: Rgba8::opaque(0xce, 0x97, 0x6b),
            tan_medium: Rgba8::opaque(0xdb, 0xb5, 0x7a),
            tan_light: Rgba8::opaque(0xe7, 0xd3, 0x88),
            tan_lightest: Rgba8::opaque(0xf1, 0xdf, 0xc1),
            green_yellow: Rgba8::opaque(0xc3, 0xc3, 0x80),
            green_light: Rgba8::opaque(0x9f, 0xb2, 0x78),
            green_medium: Rgba8::opaque(0x78, 0x9a, 0x73),
            green_dark: Rgba8::opaque(0x5b, 0x7f, 0x6f),
        }
    }
}

impl ColorPalette {
    /// The shade that plays the given interface role.
    pub fn get(&self, ui_type: UiColorName) -> (c: Rgba8)
        ensures
            c == role_color(*self, ui_type),
    {
        match ui_type {
            // Warm yellow-tan for readable labels
            UiColorName::LabelText => self.tan_light,
            // Brightest tan for prominent headers
            UiColorName::HeaderText => self.tan_lightest,
            // Dark brown for legible text on light buttons
            UiColorName::ButtonText => self.brown_dark,
            // Warm cream for button base
            UiColorName::ButtonBackground => self.tan_lightest,
            // Dreamy pink for hover state
            UiColorName::ButtonHoveredBackground => self.pink_light,
            // Slightly darker tan for pressed state
            UiColorName::ButtonPressedBackground => self.tan_medium,
            // Darkest color for non-distracting background
            UiColorName::ScreenBackground => self.brown_dark,
            // Fight button colors - reddish tones for emphasis
            UiColorName::FightButtonText => self.purple_lightest,
            UiColorName::FightButtonBackground => self.brown_reddish,
            UiColorName::FightButtonBorder => self.pink_medium,
        }
    }
}

/// In the default palette a button's three backgrounds (resting, hovered,
/// pressed) are three different colours, and button text differs from each,
/// so every interaction state can be told apart and text stays legible.
pub proof fn default_button_states_distinct()
    ensures
        ({
            let p = daifuku_delights();
            let base = role_color(p, UiColorName::ButtonBackground);
            let hover = role_color(p, UiColorName::ButtonHoveredBackground);
            let press = role_color(p, UiColorName::ButtonPressedBackground);
            let text = role_color(p, UiColorName::ButtonText);
            &&& base != hover
            &&& base != press
            &&& hover != press
            &&& text != base
            &&& text != hover
            &&& text != press
        }),
{
}

/// Every colour of the default palette is opaque, so any role drawn from it
/// is opaque too.
pub proof fn default_roles_opaque(role: UiColorName)
    ensures
        role_color(daifuku_delights(), role).a == 0xff,
{
}

} // verus!
