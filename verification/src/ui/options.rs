//! The options menu.

use vstd::prelude::*;
use crate::models::Permille;

verus! {

/// A palette for players who tell some colours apart with difficulty.
#[derive(Debug, Clone, Copy, PartialEq, Eq, Structural)]
pub enum ColorBlindPalette {
    Normal,
    Protanopia,
    Deuteranopia,
    Tritanopia,
}

/// How the game is shown and read out. `font_scale` is a multiple of the normal size.
#[derive(Debug, Clone, Copy, PartialEq, Eq, Structural)]
pub struct AccessibilitySettings {
    pub palette: ColorBlindPalette,
    pub font_scale: Permille,
    pub subtitles: bool,
}

impl AccessibilitySettings {
    /// The normal palette, the normal font size, and no subtitles.
    pub open spec fn standard() -> AccessibilitySettings {
        AccessibilitySettings {
            palette: ColorBlindPalette::Normal,
            font_scale: Permille { thousandths: 1000 },
            subtitles: false,
        }
    }
}

impl Default for AccessibilitySettings {
    fn default() -> (settings: Self)
        ensures
            settings == AccessibilitySettings::standard(),
    {
        AccessibilitySettings {
            palette: ColorBlindPalette::Normal,
            font_scale: Permille { thousandths: 1000 },
            subtitles: false,
        }
    }
}

/// The options menu.
#[derive(Debug, Clone, Copy, PartialEq, Eq, Structural)]
pub struct OptionsMenu {
    pub accessibility: AccessibilitySettings,
}

impl OptionsMenu {
    /// A menu with the standard settings.
    pub fn new() -> (menu: Self)
        ensures
            menu.accessibility == AccessibilitySettings::standard(),
    {
        OptionsMenu { accessibility: AccessibilitySettings::default() }
    }
}

} // verus!
