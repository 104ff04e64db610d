//! The complete theme: a display name and the base palette the host
//! toolkit builds its defaults from.

use vstd::prelude::*;

use crate::color::Color;
use crate::colors::get_theme_colors;
use crate::colors::spec_theme_colors;

verus! {

broadcast use vstd::string::to_string_from_display_ensures_for_str;

/// The base colors a theme hands to the host toolkit.
#[derive(Clone, Copy, Debug, PartialEq, Eq)]
pub struct Palette {
    pub background: Color,
    pub text: Color,
    /// The accent of primary actions.
    pub primary: Color,
    /// The accent of confirmations.
    pub success: Color,
    /// The accent of destructive actions.
    pub danger: Color,
    /// The accent of warnings.
    pub warning: Color,
}

impl Palette {
    /// Every color in the palette is a valid color.
    pub open spec fn wf(self) -> bool {
        &&& self.background.wf()
        &&& self.text.wf()
        &&& self.primary.wf()
        &&& self.success.wf()
        &&& self.danger.wf()
        &&& self.warning.wf()
    }
}

/// A complete theme: a display name and its base palette.
#[derive(Debug)]
pub struct Theme {
    pub name: String,
    pub palette: Palette,
}

/// The display name of the theme in the given mode.
pub open spec fn spec_theme_name(dark_mode: bool) -> Seq<char> {
    if dark_mode {
        "Modern Dark"@
    } else {
        "Modern Light"@
    }
}

/// The base palette of the theme in the given mode.
pub open spec fn spec_modern_palette(dark_mode: bool) -> Palette {
    let tc = spec_theme_colors(dark_mode);
    Palette {
        background: tc.background,
        text: tc.text,
        primary: tc.blue,
        success: tc.green,
        danger: tc.red,
        warning: tc.orange,
    }
}

/// The complete theme of the given mode: its name and base palette.
pub fn create_modern_theme(dark_mode: bool) -> (t: Theme)
    ensures
        t.name@ == spec_theme_name(dark_mode),
        t.palette == spec_modern_palette(dark_mode),
        t.palette.wf(),
{
    let name: String = if dark_mode {
        "Modern Dark".to_string()
    } else {
        "Modern Light".to_string()
    };
    let tc = get_theme_colors(dark_mode);
    Theme {
        name,
        palette: Palette {
            background: tc.background,
            text: tc.text,
            primary: tc.blue,
            success: tc.green,
            danger: tc.red,
            warning: tc.orange,
        },
    }
}

} // verus!
