//! The semantic palette: every named color of the theme, for the light
//! and the dark mode.
//!
//! The palette is a fixed table; it is recomputed from the mode flag on
//! every style request and never cached.  Channel values are thousandths
//! (see [`crate::color`]).

use vstd::prelude::*;

use crate::color::Color;
use crate::color::UNIT;

verus! {

/// The full set of named colors for one theme mode.
#[derive(Clone, Copy, Debug, PartialEq, Eq)]
pub struct ThemeColors {
    /// The window background.
    pub background: Color,
    /// The standard text color.
    pub text: Color,
    /// Supporting text.
    pub secondary_text: Color,
    /// The least prominent text.
    pub tertiary_text: Color,
    /// Placeholder text in empty inputs.
    pub placeholder: Color,
    /// The accent blue.
    pub blue: Color,
    /// The accent green.
    pub green: Color,
    /// The accent red.
    pub red: Color,
    /// The accent orange.
    pub orange: Color,
    /// The accent purple.
    pub purple: Color,
    /// The accent teal.
    pub teal: Color,
    /// The accent pink.
    pub pink: Color,
    /// The accent indigo.
    pub indigo: Color,
    /// The color of link text.
    pub link: Color,
    /// The fill of text inputs.
    pub input_bg: Color,
    /// The border of text inputs.
    pub input_border: Color,
    /// The border of unselected radio buttons and checkboxes.
    pub inactive_border: Color,
    /// The fill of cards and floating panels.
    pub card_bg: Color,
    /// The neutral system fill of toolbars and system buttons.
    pub system_bg: Color,
    /// Hairline separators.
    pub separator: Color,
    /// The fill behind selected text.
    pub selection: Color,
    /// A tertiary surface fill, one step above the background.
    pub tertiary_background: Color,
}

impl ThemeColors {
    /// Every color in the palette is a valid color.
    pub open spec fn wf(self) -> bool {
        &&& self.background.wf()
        &&& self.text.wf()
        &&& self.secondary_text.wf()
        &&& self.tertiary_text.wf()
        &&& self.placeholder.wf()
        &&& self.blue.wf()
        &&& self.green.wf()
        &&& self.red.wf()
        &&& self.orange.wf()
        &&& self.purple.wf()
        &&& self.teal.wf()
        &&& self.pink.wf()
        &&& self.indigo.wf()
        &&& self.link.wf()
        &&& self.input_bg.wf()
        &&& self.input_border.wf()
        &&& self.inactive_border.wf()
        &&& self.card_bg.wf()
        &&& self.system_bg.wf()
        &&& self.separator.wf()
        &&& self.selection.wf()
        &&& self.tertiary_background.wf()
    }
}

/// The palette of the given mode: `true` is dark, `false` is light.
pub open spec fn spec_theme_colors(dark: bool) -> ThemeColors {
    if dark {
        ThemeColors {
            background: Color { r: 110, g: 110, b: 120, a: UNIT },
            text: Color { r: UNIT, g: UNIT, b: UNIT, a: UNIT },
            secondary_text: Color { r: 920, g: 920, b: 960, a: 600 },
            tertiary_text: Color { r: 920, g: 920, b: 960, a: 300 },
            placeholder: Color { r: 920, g: 920, b: 960, a: 300 },
            blue: Color { r: 40, g: 520, b: UNIT, a: UNIT },
            green: Color { r: 190, g: 820, b: 350, a: UNIT },
            red: Color { r: UNIT, g: 270, b: 230, a: UNIT },
            orange: Color { r: UNIT, g: 620, b: 40, a: UNIT },
            purple: Color { r: 750, g: 350, b: 950, a: UNIT },
            teal: Color { r: 390, g: 820, b: UNIT, a: UNIT },
            pink: Color { r: UNIT, g: 220, b: 370, a: UNIT },
            indigo: Color { r: 370, g: 350, b: 900, a: UNIT },
            link: Color { r: 40, g: 520, b: UNIT, a: UNIT },
            input_bg: Color { r: 170, g: 170, b: 180, a: UNIT },
            input_border: Color { r: 330, g: 330, b: 350, a: UNIT },
            inactive_border: Color { r: 400, g: 400, b: 420, a: UNIT },
            card_bg: Color { r: 170, g: 170, b: 180, a: UNIT },
            system_bg: Color { r: 280, g: 280, b: 290, a: UNIT },
            separator: Color { r: 380, g: 380, b: 400, a: UNIT },
            selection: Color { r: 40, g: 520, b: UNIT, a: 300 },
            tertiary_background: Color { r: 230, g: 230, b: 240, a: UNIT },
        }
    } else {
        ThemeColors {
            background: Color { r: 950, g: 950, b: 970, a: UNIT },
            text: Color { r: 0, g: 0, b: 0, a: UNIT },
            secondary_text: Color { r: 240, g: 240, b: 260, a: 600 },
            tertiary_text: Color { r: 240, g: 240, b: 260, a: 300 },
            placeholder: Color { r: 240, g: 240, b: 260, a: 300 },
            blue: Color { r: 0, g: 480, b: UNIT, a: UNIT },
            green: Color { r: 200, g: 780, b: 350, a: UNIT },
            red: Color { r: UNIT, g: 230, b: 190, a: UNIT },
            orange: Color { r: UNIT, g: 580, b: 0, a: UNIT },
            purple: Color { r: 690, g: 320, b: 870, a: UNIT },
            teal: Color { r: 350, g: 780, b: 980, a: UNIT },
            pink: Color { r: UNIT, g: 180, b: 330, a: UNIT },
            indigo: Color { r: 350, g: 340, b: 840, a: UNIT },
            link: Color { r: 0, g: 480, b: UNIT, a: UNIT },
            input_bg: Color { r: UNIT, g: UNIT, b: UNIT, a: UNIT },
            input_border: Color { r: 780, g: 780, b: 800, a: UNIT },
            inactive_border: Color { r: 700, g: 700, b: 720, a: UNIT },
            card_bg: Color { r: UNIT, g: UNIT, b: UNIT, a: UNIT },
            system_bg: Color { r: 900, g: 900, b: 920, a: UNIT },
            separator: Color { r: 840, g: 840, b: 860, a: UNIT },
            selection: Color { r: 0, g: 480, b: UNIT, a: 300 },
            tertiary_background: Color { r: 920, g: 920, b: 940, a: UNIT },
        }
    }
}

/// The palette of the given mode: `true` is dark, `false` is light.
pub fn get_theme_colors(dark: bool) -> (tc: ThemeColors)
    ensures
        tc == spec_theme_colors(dark),
        tc.wf(),
{
    if dark {
        ThemeColors {
            background: Color { r: 110, g: 110, b: 120, a: UNIT },
            text: Color { r: UNIT, g: UNIT, b: UNIT, a: UNIT },
            secondary_text: Color { r: 920, g: 920, b: 960, a: 600 },
            tertiary_text: Color { r: 920, g: 920, b: 960, a: 300 },
            placeholder: Color { r: 920, g: 920, b: 960, a: 300 },
            blue: Color { r: 40, g: 520, b: UNIT, a: UNIT },
            green: Color { r: 190, g: 820, b: 350, a: UNIT },
            red: Color { r: UNIT, g: 270, b: 230, a: UNIT },
            orange: Color { r: UNIT, g: 620, b: 40, a: UNIT },
            purple: Color { r: 750, g: 350, b: 950, a: UNIT },
            teal: Color { r: 390, g: 820, b: UNIT, a: UNIT },
            pink: Color { r: UNIT, g: 220, b: 370, a: UNIT },
            indigo: Color { r: 370, g: 350, b: 900, a: UNIT },
            link: Color { r: 40, g: 520, b: UNIT, a: UNIT },
            input_bg: Color { r: 170, g: 170, b: 180, a: UNIT },
            input_border: Color { r: 330, g: 330, b: 350, a: UNIT },
            inactive_border: Color { r: 400, g: 400, b: 420, a: UNIT },
            card_bg: Color { r: 170, g: 170, b: 180, a: UNIT },
            system_bg: Color { r: 280, g: 280, b: 290, a: UNIT },
            separator: Color { r: 380, g: 380, b: 400, a: UNIT },
            selection: Color { r: 40, g: 520, b: UNIT, a: 300 },
            tertiary_background: Color { r: 230, g: 230, b: 240, a: UNIT },
        }
    } else {
        ThemeColors {
            background: Color { r: 950, g: 950, b: 970, a: UNIT },
            text: Color { r: 0, g: 0, b: 0, a: UNIT },
            secondary_text: Color { r: 240, g: 240, b: 260, a: 600 },
            tertiary_text: Color { r: 240, g: 240, b: 260, a: 300 },
            placeholder: Color { r: 240, g: 240, b: 260, a: 300 },
            blue: Color { r: 0, g: 480, b: UNIT, a: UNIT },
            green: Color { r: 200, g: 780, b: 350, a: UNIT },
            red: Color { r: UNIT, g: 230, b: 190, a: UNIT },
            orange: Color { r: UNIT, g: 580, b: 0, a: UNIT },
            purple: Color { r: 690, g: 320, b: 870, a: UNIT },
            teal: Color { r: 350, g: 780, b: 980, a: UNIT },
            pink: Color { r: UNIT, g: 180, b: 330, a: UNIT },
            indigo: Color { r: 350, g: 340, b: 840, a: UNIT },
            link: Color { r: 0, g: 480, b: UNIT, a: UNIT },
            input_bg: Color { r: UNIT, g: UNIT, b: UNIT, a: UNIT },
            input_border: Color { r: 780, g: 780, b: 800, a: UNIT },
            inactive_border: Color { r: 700, g: 700, b: 720, a: UNIT },
            card_bg: Color { r: UNIT, g: UNIT, b: UNIT, a: UNIT },
            system_bg: Color { r: 900, g: 900, b: 920, a: UNIT },
            separator: Color { r: 840, g: 840, b: 860, a: UNIT },
            selection: Color { r: 0, g: 480, b: UNIT, a: 300 },
            tertiary_background: Color { r: 920, g: 920, b: 940, a: UNIT },
        }
    }
}

/// The accent yellow of the given mode.
pub open spec fn spec_yellow(dark: bool) -> Color {
    if dark {
        Color { r: UNIT, g: 840, b: 40, a: UNIT }
    } else {
        Color { r: UNIT, g: 800, b: 0, a: UNIT }
    }
}

/// The accent yellow of the given mode.
pub fn yellow(dark: bool) -> (c: Color)
    ensures
        c == spec_yellow(dark),
        c.wf(),
{
    if dark {
        Color { r: UNIT, g: 840, b: 40, a: UNIT }
    } else {
        Color { r: UNIT, g: 800, b: 0, a: UNIT }
    }
}

/// The accent mint of the given mode.
pub open spec fn spec_mint(dark: bool) -> Color {
    if dark {
        Color { r: 390, g: 900, b: 890, a: UNIT }
    } else {
        Color { r: 0, g: 780, b: 750, a: UNIT }
    }
}

/// The accent mint of the given mode.
pub fn mint(dark: bool) -> (c: Color)
    ensures
        c == spec_mint(dark),
        c.wf(),
{
    if dark {
        Color { r: 390, g: 900, b: 890, a: UNIT }
    } else {
        Color { r: 0, g: 780, b: 750, a: UNIT }
    }
}

/// The accent brown of the given mode.
pub open spec fn spec_brown(dark: bool) -> Color {
    if dark {
        Color { r: 670, g: 560, b: 410, a: UNIT }
    } else {
        Color { r: 640, g: 520, b: 370, a: UNIT }
    }
}

/// The accent brown of the given mode.
pub fn brown(dark: bool) -> (c: Color)
    ensures
        c == spec_brown(dark),
        c.wf(),
{
    if dark {
        Color { r: 670, g: 560, b: 410, a: UNIT }
    } else {
        Color { r: 640, g: 520, b: 370, a: UNIT }
    }
}

/// The neutral gray fill of gray buttons in the given mode.
pub open spec fn spec_gray_fill(dark: bool) -> Color {
    if dark {
        Color { r: 280, g: 280, b: 290, a: UNIT }
    } else {
        Color { r: 820, g: 820, b: 840, a: UNIT }
    }
}

/// The neutral gray fill of gray buttons in the given mode.
pub fn gray_fill(dark: bool) -> (c: Color)
    ensures
        c == spec_gray_fill(dark),
        c.wf(),
{
    if dark {
        Color { r: 280, g: 280, b: 290, a: UNIT }
    } else {
        Color { r: 820, g: 820, b: 840, a: UNIT }
    }
}

} // verus!
