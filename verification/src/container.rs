//! Container style resolution.
//!
//! Containers have no interaction status: each class maps straight to a
//! record, with surfaces picked per mode so that the light and the dark
//! look never share a fill.

use vstd::prelude::*;

use crate::color::Color;
use crate::color::UNIT;
use crate::colors::get_theme_colors;
use crate::colors::spec_theme_colors;
use crate::style::Border;
use crate::style::CORNER_RADIUS;
use crate::style::Container;
use crate::style::ContainerStyle;
use crate::style::Shadow;
use crate::style::ValidationState;
use crate::style::Vector;
use crate::style::spec_border_none;
use crate::style::spec_shadow_none;

verus! {

/// A shadow in pure black at the given alpha, offset and blur.
pub open spec fn spec_black_shadow(alpha: u16, offset: Vector, blur: u16) -> Shadow {
    Shadow { color: Color { r: 0, g: 0, b: 0, a: alpha }, offset, blur_radius: blur }
}

/// A shadow in pure black at the given alpha, offset and blur.
pub fn black_shadow(alpha: u16, offset: Vector, blur: u16) -> (s: Shadow)
    requires
        alpha <= UNIT,
    ensures
        s == spec_black_shadow(alpha, offset, blur),
        s.wf(),
{
    Shadow { color: Color { r: 0, g: 0, b: 0, a: alpha }, offset, blur_radius: blur }
}

/// The sheet surface of the given mode.
pub open spec fn spec_sheet_bg(dark: bool) -> Color {
    if dark {
        Color { r: 220, g: 220, b: 230, a: UNIT }
    } else {
        Color { r: 950, g: 950, b: 970, a: UNIT }
    }
}

/// The grouped-content surface of the given mode.
pub open spec fn spec_group_bg(dark: bool) -> Color {
    if dark {
        Color { r: 170, g: 170, b: 180, a: UNIT }
    } else {
        Color { r: 950, g: 950, b: 970, a: UNIT }
    }
}

/// The sidebar surface of the given mode.
pub open spec fn spec_sidebar_bg(dark: bool) -> Color {
    if dark {
        Color { r: 150, g: 150, b: 160, a: UNIT }
    } else {
        Color { r: 920, g: 920, b: 930, a: UNIT }
    }
}

/// The resolved style of a container class in the given mode.
pub open spec fn spec_container_style(class: Container, dark: bool) -> ContainerStyle {
    let tc = spec_theme_colors(dark);
    match class {
        Container::Transparent => ContainerStyle {
            text_color: Some(tc.text),
            background: None,
            border: spec_border_none(),
            shadow: spec_shadow_none(),
            snap: true,
        },
        Container::Card => ContainerStyle {
            text_color: Some(tc.text),
            background: Some(tc.card_bg),
            border: Border { color: crate::color::spec_transparent(), width: 0, radius: 100 },
            shadow: spec_black_shadow(100, Vector { x: 0, y: 20 }, 80),
            snap: true,
        },
        Container::Sheet => ContainerStyle {
            text_color: Some(tc.text),
            background: Some(spec_sheet_bg(dark)),
            border: Border { color: crate::color::spec_transparent(), width: 0, radius: 120 },
            shadow: spec_black_shadow(200, Vector { x: 0, y: 40 }, 160),
            snap: true,
        },
        Container::Group => ContainerStyle {
            text_color: Some(tc.text),
            background: Some(spec_group_bg(dark)),
            border: Border { color: crate::color::spec_transparent(), width: 0, radius: 100 },
            shadow: spec_shadow_none(),
            snap: true,
        },
        Container::Sidebar => ContainerStyle {
            text_color: Some(tc.text),
            background: Some(spec_sidebar_bg(dark)),
            border: spec_border_none(),
            shadow: spec_black_shadow(50, Vector { x: 10, y: 0 }, 30),
            snap: true,
        },
    }
}

/// The resolved style of a container class in the given mode.
pub fn container_style(class: Container, dark: bool) -> (s: ContainerStyle)
    ensures
        s == spec_container_style(class, dark),
        s.wf(),
{
    let tc = get_theme_colors(dark);
    match class {
        Container::Transparent => ContainerStyle {
            text_color: Some(tc.text),
            background: None,
            border: Border::none(),
            shadow: Shadow::none(),
            snap: true,
        },
        Container::Card => ContainerStyle {
            text_color: Some(tc.text),
            background: Some(tc.card_bg),
            border: Border { color: Color::transparent(), width: 0, radius: 100 },
            shadow: black_shadow(100, Vector { x: 0, y: 20 }, 80),
            snap: true,
        },
        Container::Sheet => {
            let sheet_bg = if dark {
                Color { r: 220, g: 220, b: 230, a: UNIT }
            } else {
                Color { r: 950, g: 950, b: 970, a: UNIT }
            };
            ContainerStyle {
                text_color: Some(tc.text),
                background: Some(sheet_bg),
                border: Border { color: Color::transparent(), width: 0, radius: 120 },
                shadow: black_shadow(200, Vector { x: 0, y: 40 }, 160),
                snap: true,
            }
        },
        Container::Group => {
            let group_bg = if dark {
                Color { r: 170, g: 170, b: 180, a: UNIT }
            } else {
                Color { r: 950, g: 950, b: 970, a: UNIT }
            };
            ContainerStyle {
                text_color: Some(tc.text),
                background: Some(group_bg),
                border: Border { color: Color::transparent(), width: 0, radius: 100 },
                shadow: Shadow::none(),
                snap: true,
            }
        },
        Container::Sidebar => {
            let sidebar_bg = if dark {
                Color { r: 150, g: 150, b: 160, a: UNIT }
            } else {
                Color { r: 920, g: 920, b: 930, a: UNIT }
            };
            ContainerStyle {
                text_color: Some(tc.text),
                background: Some(sidebar_bg),
                border: Border::none(),
                shadow: black_shadow(50, Vector { x: 10, y: 0 }, 30),
                snap: true,
            }
        },
    }
}

/// A plain container filled with the window background, for content
/// separated by hairlines.
pub open spec fn spec_separated_container(dark: bool) -> ContainerStyle {
    let tc = spec_theme_colors(dark);
    ContainerStyle {
        text_color: Some(tc.text),
        background: Some(tc.background),
        border: spec_border_none(),
        shadow: spec_shadow_none(),
        snap: true,
    }
}

/// A plain container filled with the window background, for content
/// separated by hairlines.
pub fn separated_container(dark: bool) -> (s: ContainerStyle)
    ensures
        s == spec_separated_container(dark),
        s.wf(),
{
    let tc = get_theme_colors(dark);
    ContainerStyle {
        text_color: Some(tc.text),
        background: Some(tc.background),
        border: Border::none(),
        shadow: Shadow::none(),
        snap: true,
    }
}

/// A branded container with an accent-colored border.
pub open spec fn spec_accent_container(dark: bool) -> ContainerStyle {
    let tc = spec_theme_colors(dark);
    ContainerStyle {
        text_color: Some(tc.text),
        background: Some(tc.background),
        border: Border { color: tc.blue, width: 20, radius: 80 },
        shadow: spec_black_shadow(100, Vector { x: 0, y: 20 }, 40),
        snap: true,
    }
}

/// A branded container with an accent-colored border.
pub fn accent_container(dark: bool) -> (s: ContainerStyle)
    ensures
        s == spec_accent_container(dark),
        s.wf(),
{
    let tc = get_theme_colors(dark);
    ContainerStyle {
        text_color: Some(tc.text),
        background: Some(tc.background),
        border: Border { color: tc.blue, width: 20, radius: 80 },
        shadow: black_shadow(100, Vector { x: 0, y: 20 }, 40),
        snap: true,
    }
}

/// A toolbar container on the neutral system fill.
pub open spec fn spec_toolbar_container(dark: bool) -> ContainerStyle {
    let tc = spec_theme_colors(dark);
    ContainerStyle {
        text_color: Some(tc.text),
        background: Some(tc.system_bg),
        border: spec_border_none(),
        shadow: spec_black_shadow(50, Vector { x: 0, y: 10 }, 20),
        snap: true,
    }
}

/// A toolbar container on the neutral system fill.
pub fn toolbar_container(dark: bool) -> (s: ContainerStyle)
    ensures
        s == spec_toolbar_container(dark),
        s.wf(),
{
    let tc = get_theme_colors(dark);
    ContainerStyle {
        text_color: Some(tc.text),
        background: Some(tc.system_bg),
        border: Border::none(),
        shadow: black_shadow(50, Vector { x: 0, y: 10 }, 20),
        snap: true,
    }
}

/// A floating panel: the card fill with a stronger, wider shadow.
pub open spec fn spec_floating_container(dark: bool) -> ContainerStyle {
    let tc = spec_theme_colors(dark);
    ContainerStyle {
        text_color: Some(tc.text),
        background: Some(tc.card_bg),
        border: Border { color: crate::color::spec_transparent(), width: 0, radius: 100 },
        shadow: spec_black_shadow(250, Vector { x: 0, y: 40 }, 160),
        snap: true,
    }
}

/// A floating panel: the card fill with a stronger, wider shadow.
pub fn floating_container(dark: bool) -> (s: ContainerStyle)
    ensures
        s == spec_floating_container(dark),
        s.wf(),
{
    let tc = get_theme_colors(dark);
    ContainerStyle {
        text_color: Some(tc.text),
        background: Some(tc.card_bg),
        border: Border { color: Color::transparent(), width: 0, radius: 100 },
        shadow: black_shadow(250, Vector { x: 0, y: 40 }, 160),
        snap: true,
    }
}

/// A tooltip container in error colors: red text on a red-tinted fill
/// with a red border.
pub open spec fn spec_danger_tooltip_container(dark: bool) -> ContainerStyle {
    ContainerStyle {
        text_color: Some(
            if dark {
                Color { r: UNIT, g: 600, b: 600, a: UNIT }
            } else {
                Color { r: 700, g: 0, b: 0, a: UNIT }
            },
        ),
        background: Some(
            if dark {
                Color { r: 400, g: 100, b: 100, a: UNIT }
            } else {
                Color { r: UNIT, g: 920, b: 920, a: UNIT }
            },
        ),
        border: Border {
            color: if dark {
                Color { r: 800, g: 300, b: 300, a: UNIT }
            } else {
                Color { r: 900, g: 600, b: 600, a: UNIT }
            },
            width: 10,
            radius: 60,
        },
        shadow: spec_black_shadow(150, Vector { x: 0, y: 10 }, 30),
        snap: true,
    }
}

/// A tooltip container in error colors: red text on a red-tinted fill
/// with a red border.
pub fn danger_tooltip_container(dark: bool) -> (s: ContainerStyle)
    ensures
        s == spec_danger_tooltip_container(dark),
        s.wf(),
{
    let text = if dark {
        Color { r: UNIT, g: 600, b: 600, a: UNIT }
    } else {
        Color { r: 700, g: 0, b: 0, a: UNIT }
    };
    let fill = if dark {
        Color { r: 400, g: 100, b: 100, a: UNIT }
    } else {
        Color { r: UNIT, g: 920, b: 920, a: UNIT }
    };
    let edge = if dark {
        Color { r: 800, g: 300, b: 300, a: UNIT }
    } else {
        Color { r: 900, g: 600, b: 600, a: UNIT }
    };
    ContainerStyle {
        text_color: Some(text),
        background: Some(fill),
        border: Border { color: edge, width: 10, radius: 60 },
        shadow: black_shadow(150, Vector { x: 0, y: 10 }, 30),
        snap: true,
    }
}

/// A tooltip container in warning colors: orange text and border on an
/// orange-tinted fill.
pub open spec fn spec_warning_tooltip_container(dark: bool) -> ContainerStyle {
    let tc = spec_theme_colors(dark);
    ContainerStyle {
        text_color: Some(tc.orange),
        background: Some(
            if dark {
                Color { r: 300, g: 150, b: 0, a: 700 }
            } else {
                Color { r: UNIT, g: 960, b: 900, a: UNIT }
            },
        ),
        border: Border { color: tc.orange, width: 10, radius: 60 },
        shadow: spec_black_shadow(100, Vector { x: 0, y: 10 }, 20),
        snap: true,
    }
}

/// A tooltip container in warning colors: orange text and border on an
/// orange-tinted fill.
pub fn warning_tooltip_container(dark: bool) -> (s: ContainerStyle)
    ensures
        s == spec_warning_tooltip_container(dark),
        s.wf(),
{
    let tc = get_theme_colors(dark);
    let fill = if dark {
        Color { r: 300, g: 150, b: 0, a: 700 }
    } else {
        Color { r: UNIT, g: 960, b: 900, a: UNIT }
    };
    ContainerStyle {
        text_color: Some(tc.orange),
        background: Some(fill),
        border: Border { color: tc.orange, width: 10, radius: 60 },
        shadow: black_shadow(100, Vector { x: 0, y: 10 }, 20),
        snap: true,
    }
}

/// The tooltip container for a validation state: error and warning get
/// their own colors, valid input gets the plain card.
pub open spec fn spec_conditional_tooltip_container(
    validation_state: ValidationState,
    dark: bool,
) -> ContainerStyle {
    match validation_state {
        ValidationState::Error => spec_danger_tooltip_container(dark),
        ValidationState::Warning => spec_warning_tooltip_container(dark),
        ValidationState::Valid => spec_container_style(Container::Card, dark),
    }
}

/// The tooltip container for a validation state: error and warning get
/// their own colors, valid input gets the plain card.
pub fn conditional_tooltip_container(validation_state: ValidationState, dark: bool) -> (s:
    ContainerStyle)
    ensures
        s == spec_conditional_tooltip_container(validation_state, dark),
        s.wf(),
{
    match validation_state {
        ValidationState::Error => danger_tooltip_container(dark),
        ValidationState::Warning => warning_tooltip_container(dark),
        ValidationState::Valid => container_style(Container::Card, dark),
    }
}

/// The tooltip container for a plain error flag: the error colors when
/// set, the plain card when not.
pub open spec fn spec_validated_tooltip_container(has_error: bool, dark: bool) -> ContainerStyle {
    if has_error {
        spec_danger_tooltip_container(dark)
    } else {
        spec_container_style(Container::Card, dark)
    }
}

/// The tooltip container for a plain error flag: the error colors when
/// set, the plain card when not.
pub fn validated_tooltip_container(has_error: bool, dark: bool) -> (s: ContainerStyle)
    ensures
        s == spec_validated_tooltip_container(has_error, dark),
        s.wf(),
{
    if has_error {
        danger_tooltip_container(dark)
    } else {
        container_style(Container::Card, dark)
    }
}

/// One of two container styles, picked by a condition.
pub open spec fn spec_conditional_container_style(
    condition: bool,
    true_style: ContainerStyle,
    false_style: ContainerStyle,
) -> ContainerStyle {
    if condition {
        true_style
    } else {
        false_style
    }
}

/// One of two container styles, picked by a condition.
pub fn conditional_container_style(
    condition: bool,
    true_style: ContainerStyle,
    false_style: ContainerStyle,
) -> (s: ContainerStyle)
    ensures
        s == spec_conditional_container_style(condition, true_style, false_style),
{
    if condition {
        true_style
    } else {
        false_style
    }
}

/// Law: every container class that has a fill uses a different fill in
/// light mode than in dark mode, so the two looks stay distinct; only the
/// transparent class has no fill at all.
pub proof fn lemma_container_modes_distinct(class: Container)
    requires
        !(class is Transparent),
    ensures
        ({
            let light_bg = spec_container_style(class, false).background;
            let dark_bg = spec_container_style(class, true).background;
            &&& light_bg is Some
            &&& dark_bg is Some
            &&& light_bg != dark_bg
        }),
{
}

/// Law: container style resolution is pure — two resolutions of the same
/// class and mode are bit-identical.
pub proof fn lemma_container_resolution_pure(
    class: Container,
    dark: bool,
    first: ContainerStyle,
    second: ContainerStyle,
)
    requires
        first == spec_container_style(class, dark),
        second == spec_container_style(class, dark),
    ensures
        first == second,
{
}

} // verus!
