//! Button style resolution.
//!
//! A button has a base look per class (filled, outlined or text-only) and
//! a fixed transform per interaction status: hovering shifts the fill one
//! step toward white in dark mode and toward black in light mode, pressing
//! shifts it a larger step and drops the shadow, and disabling halves the
//! alpha of every color and drops the shadow.

use vstd::prelude::*;

use crate::color::Color;
use crate::color::lemma_scale_in_range;
use crate::color::lemma_shift_in_range;
use crate::color::spec_black;
use crate::color::spec_scale;
use crate::color::spec_scale_alpha;
use crate::color::spec_shift_rgb;
use crate::color::spec_transparent;
use crate::color::spec_white;
use crate::colors::get_theme_colors;
use crate::colors::spec_theme_colors;
use crate::style::Border;
use crate::style::Button;
use crate::style::ButtonSize;
use crate::style::ButtonStatus;
use crate::style::ButtonStyle;
use crate::style::CORNER_RADIUS;
use crate::style::Shadow;
use crate::style::TintedButtonColor;
use crate::style::Vector;
use crate::style::spec_border_none;
use crate::style::spec_shadow_none;

verus! {

/// How far hovering shifts the fill channels, in thousandths.
pub const HOVER_SHIFT: u16 = 50;

/// How far pressing shifts the fill channels, in thousandths.
pub const PRESS_SHIFT: u16 = 100;

/// The alpha factor of disabled fills, text and borders, in thousandths.
pub const DISABLED_ALPHA: u16 = 500;

/// The text alpha factor of hovered text-only buttons, in thousandths.
pub const HOVER_TEXT_ALPHA: u16 = 800;

/// The text alpha factor of pressed text-only buttons, in thousandths.
pub const PRESS_TEXT_ALPHA: u16 = 600;

/// The soft drop shadow under filled buttons.
pub open spec fn spec_button_shadow() -> Shadow {
    Shadow {
        color: Color { r: 0, g: 0, b: 0, a: 100 },
        offset: Vector { x: 0, y: 10 },
        blur_radius: 20,
    }
}

/// The soft drop shadow under filled buttons.
pub fn button_shadow() -> (s: Shadow)
    ensures
        s == spec_button_shadow(),
        s.wf(),
{
    Shadow {
        color: Color { r: 0, g: 0, b: 0, a: 100 },
        offset: Vector { x: 0, y: 10 },
        blur_radius: 20,
    }
}

/// A filled button: rounded corners, no border, a soft shadow.
pub open spec fn spec_filled_button(fill: Color, text: Color) -> ButtonStyle {
    ButtonStyle {
        background: Some(fill),
        text_color: text,
        border: Border { color: spec_transparent(), width: 0, radius: CORNER_RADIUS },
        shadow: spec_button_shadow(),
        snap: true,
    }
}

/// A filled button: rounded corners, no border, a soft shadow.
pub fn filled_button(fill: Color, text: Color) -> (s: ButtonStyle)
    requires
        fill.wf(),
        text.wf(),
    ensures
        s == spec_filled_button(fill, text),
        s.wf(),
{
    ButtonStyle {
        background: Some(fill),
        text_color: text,
        border: Border { color: Color::transparent(), width: 0, radius: CORNER_RADIUS },
        shadow: button_shadow(),
        snap: true,
    }
}

/// An outlined button: transparent fill, a hairline border.
pub open spec fn spec_outlined_button(color: Color, text: Color) -> ButtonStyle {
    ButtonStyle {
        background: Some(spec_transparent()),
        text_color: text,
        border: Border { color, width: 10, radius: CORNER_RADIUS },
        shadow: spec_shadow_none(),
        snap: true,
    }
}

/// An outlined button: transparent fill, a hairline border.
pub fn outlined_button(color: Color, text: Color) -> (s: ButtonStyle)
    requires
        color.wf(),
        text.wf(),
    ensures
        s == spec_outlined_button(color, text),
        s.wf(),
{
    ButtonStyle {
        background: Some(Color::transparent()),
        text_color: text,
        border: Border { color, width: 10, radius: CORNER_RADIUS },
        shadow: Shadow::none(),
        snap: true,
    }
}

/// A text-only button: transparent fill, no border, no shadow.
pub open spec fn spec_text_button(text: Color) -> ButtonStyle {
    ButtonStyle {
        background: Some(spec_transparent()),
        text_color: text,
        border: spec_border_none(),
        shadow: spec_shadow_none(),
        snap: true,
    }
}

/// A text-only button: transparent fill, no border, no shadow.
pub fn text_button(text: Color) -> (s: ButtonStyle)
    requires
        text.wf(),
    ensures
        s == spec_text_button(text),
        s.wf(),
{
    ButtonStyle {
        background: Some(Color::transparent()),
        text_color: text,
        border: Border::none(),
        shadow: Shadow::none(),
        snap: true,
    }
}

/// The base (active) look of each button class in the given mode.
pub open spec fn spec_button_base(class: Button, dark: bool) -> ButtonStyle {
    let tc = spec_theme_colors(dark);
    match class {
        Button::Primary => spec_filled_button(tc.blue, spec_white()),
        Button::Secondary => spec_outlined_button(tc.blue, tc.blue),
        Button::Success => spec_filled_button(tc.green, spec_white()),
        Button::Warning => spec_filled_button(
            tc.orange,
            if dark {
                spec_black()
            } else {
                spec_white()
            },
        ),
        Button::Danger => spec_filled_button(tc.red, spec_white()),
        Button::Link => spec_text_button(tc.blue),
        Button::System => spec_filled_button(tc.system_bg, tc.text),
        Button::Plain => spec_text_button(tc.text),
    }
}

/// The base (active) look of each button class in the given mode.
pub fn button_base(class: Button, dark: bool) -> (s: ButtonStyle)
    ensures
        s == spec_button_base(class, dark),
        s.wf(),
{
    let tc = get_theme_colors(dark);
    match class {
        Button::Primary => filled_button(tc.blue, Color::white()),
        Button::Secondary => outlined_button(tc.blue, tc.blue),
        Button::Warning => {
            let text = if dark {
                Color::black()
            } else {
                Color::white()
            };
            filled_button(tc.orange, text)
        },
        Button::Success => filled_button(tc.green, Color::white()),
        Button::Danger => filled_button(tc.red, Color::white()),
        Button::Link => text_button(tc.blue),
        Button::System => filled_button(tc.system_bg, tc.text),
        Button::Plain => text_button(tc.text),
    }
}

/// A base style under the hovered status: the fill, if there is one,
/// shifted one step toward white (dark mode) or black (light mode).
pub open spec fn spec_button_hover_style(base: ButtonStyle, dark: bool) -> ButtonStyle {
    match base.background {
        Some(c) => ButtonStyle { background: Some(spec_shift_rgb(c, dark, HOVER_SHIFT)), ..base },
        None => base,
    }
}

/// A base style under the hovered status: the fill, if there is one,
/// shifted one step toward white (dark mode) or black (light mode).
pub fn button_hover_style(base: ButtonStyle, dark: bool) -> (s: ButtonStyle)
    requires
        base.wf(),
    ensures
        s == spec_button_hover_style(base, dark),
        s.wf(),
{
    match base.background {
        Some(c) => ButtonStyle { background: Some(c.shift_rgb(dark, HOVER_SHIFT)), ..base },
        None => base,
    }
}

/// A base style under the pressed status: the fill, if there is one,
/// shifted a larger step, and the shadow removed.
pub open spec fn spec_button_pressed_style(base: ButtonStyle, dark: bool) -> ButtonStyle {
    match base.background {
        Some(c) => ButtonStyle {
            background: Some(spec_shift_rgb(c, dark, PRESS_SHIFT)),
            shadow: spec_shadow_none(),
            ..base
        },
        None => ButtonStyle { shadow: spec_shadow_none(), ..base },
    }
}

/// A base style under the pressed status: the fill, if there is one,
/// shifted a larger step, and the shadow removed.
pub fn button_pressed_style(base: ButtonStyle, dark: bool) -> (s: ButtonStyle)
    requires
        base.wf(),
    ensures
        s == spec_button_pressed_style(base, dark),
        s.wf(),
{
    match base.background {
        Some(c) => ButtonStyle {
            background: Some(c.shift_rgb(dark, PRESS_SHIFT)),
            shadow: Shadow::none(),
            ..base
        },
        None => ButtonStyle { shadow: Shadow::none(), ..base },
    }
}

/// A base style under the disabled status: the alpha of the fill, the
/// text and the border halved, and the shadow removed.
pub open spec fn spec_button_disabled_style(base: ButtonStyle) -> ButtonStyle {
    ButtonStyle {
        background: match base.background {
            Some(c) => Some(spec_scale_alpha(c, DISABLED_ALPHA)),
            None => None,
        },
        text_color: spec_scale_alpha(base.text_color, DISABLED_ALPHA),
        border: Border { color: spec_scale_alpha(base.border.color, DISABLED_ALPHA), ..base.border },
        shadow: spec_shadow_none(),
        snap: true,
    }
}

/// A base style under the disabled status: the alpha of the fill, the
/// text and the border halved, and the shadow removed.
pub fn button_disabled_style(base: ButtonStyle) -> (s: ButtonStyle)
    requires
        base.wf(),
    ensures
        s == spec_button_disabled_style(base),
        s.wf(),
{
    ButtonStyle {
        background: match base.background {
            Some(c) => Some(c.scale_alpha(DISABLED_ALPHA)),
            None => None,
        },
        text_color: base.text_color.scale_alpha(DISABLED_ALPHA),
        border: Border { color: base.border.color.scale_alpha(DISABLED_ALPHA), ..base.border },
        shadow: Shadow::none(),
        snap: true,
    }
}

/// The resolved style of a button class under a status in a mode.
///
/// Text-only classes (link, plain) fade their text on hover and press
/// instead of shifting their (transparent) fill.
pub open spec fn spec_button_style(class: Button, dark: bool, status: ButtonStatus) -> ButtonStyle {
    let base = spec_button_base(class, dark);
    match status {
        ButtonStatus::Active => base,
        ButtonStatus::Hovered => if class is Link || class is Plain {
            ButtonStyle { text_color: spec_scale_alpha(base.text_color, HOVER_TEXT_ALPHA), ..base }
        } else {
            spec_button_hover_style(base, dark)
        },
        ButtonStatus::Pressed => if class is Link || class is Plain {
            ButtonStyle {
                text_color: spec_scale_alpha(base.text_color, PRESS_TEXT_ALPHA),
                shadow: spec_shadow_none(),
                ..base
            }
        } else {
            spec_button_pressed_style(base, dark)
        },
        ButtonStatus::Disabled => spec_button_disabled_style(base),
    }
}

/// The resolved style of a button class under a status in a mode.
pub fn button_style(class: Button, dark: bool, status: ButtonStatus) -> (s: ButtonStyle)
    ensures
        s == spec_button_style(class, dark, status),
        s.wf(),
{
    let base = button_base(class, dark);
    match status {
        ButtonStatus::Active => base,
        ButtonStatus::Hovered => match class {
            Button::Link | Button::Plain => ButtonStyle {
                text_color: base.text_color.scale_alpha(HOVER_TEXT_ALPHA),
                ..base
            },
            _ => button_hover_style(base, dark),
        },
        ButtonStatus::Pressed => match class {
            Button::Link | Button::Plain => ButtonStyle {
                text_color: base.text_color.scale_alpha(PRESS_TEXT_ALPHA),
                shadow: Shadow::none(),
                ..base
            },
            _ => button_pressed_style(base, dark),
        },
        ButtonStatus::Disabled => button_disabled_style(base),
    }
}

/// The alpha of a tinted button's fill, in thousandths.
pub const TINT_ALPHA: u16 = 200;

/// The lighter drop shadow under tinted buttons.
pub open spec fn spec_tinted_shadow() -> Shadow {
    Shadow {
        color: Color { r: 0, g: 0, b: 0, a: 50 },
        offset: Vector { x: 0, y: 10 },
        blur_radius: 20,
    }
}

/// The resolved style of a solid accent button (teal, indigo, purple,
/// pink, gray): the filled base in the given colors under the standard
/// status transforms.
pub open spec fn spec_accent_button_style(
    fill: Color,
    text: Color,
    dark: bool,
    status: ButtonStatus,
) -> ButtonStyle {
    let base = spec_filled_button(fill, text);
    match status {
        ButtonStatus::Active => base,
        ButtonStatus::Hovered => spec_button_hover_style(base, dark),
        ButtonStatus::Pressed => spec_button_pressed_style(base, dark),
        ButtonStatus::Disabled => spec_button_disabled_style(base),
    }
}

/// The resolved style of a solid accent button (teal, indigo, purple,
/// pink, gray).
pub fn accent_button_style(fill: Color, text: Color, dark: bool, status: ButtonStatus) -> (s:
    ButtonStyle)
    requires
        fill.wf(),
        text.wf(),
    ensures
        s == spec_accent_button_style(fill, text, dark, status),
        s.wf(),
{
    let base = filled_button(fill, text);
    match status {
        ButtonStatus::Active => base,
        ButtonStatus::Hovered => button_hover_style(base, dark),
        ButtonStatus::Pressed => button_pressed_style(base, dark),
        ButtonStatus::Disabled => button_disabled_style(base),
    }
}

/// The base look of a tinted button: the hue at low alpha as the fill,
/// the full hue as the text, and a lighter shadow.
pub open spec fn spec_tinted_base(hue: Color) -> ButtonStyle {
    ButtonStyle {
        background: Some(Color { a: TINT_ALPHA, ..hue }),
        text_color: hue,
        border: Border { color: spec_transparent(), width: 0, radius: CORNER_RADIUS },
        shadow: spec_tinted_shadow(),
        snap: true,
    }
}

/// The resolved style of a tinted button in the given hue under the
/// standard status transforms.
pub open spec fn spec_tinted_button_style(hue: Color, dark: bool, status: ButtonStatus) -> ButtonStyle {
    let base = spec_tinted_base(hue);
    match status {
        ButtonStatus::Active => base,
        ButtonStatus::Hovered => spec_button_hover_style(base, dark),
        ButtonStatus::Pressed => spec_button_pressed_style(base, dark),
        ButtonStatus::Disabled => spec_button_disabled_style(base),
    }
}

/// The resolved style of a tinted button in the given hue.
pub fn tinted_button_style(hue: Color, dark: bool, status: ButtonStatus) -> (s: ButtonStyle)
    requires
        hue.wf(),
    ensures
        s == spec_tinted_button_style(hue, dark, status),
        s.wf(),
{
    let base = ButtonStyle {
        background: Some(Color { a: TINT_ALPHA, ..hue }),
        text_color: hue,
        border: Border { color: Color::transparent(), width: 0, radius: CORNER_RADIUS },
        shadow: Shadow {
            color: Color { r: 0, g: 0, b: 0, a: 50 },
            offset: Vector { x: 0, y: 10 },
            blur_radius: 20,
        },
        snap: true,
    };
    match status {
        ButtonStatus::Active => base,
        ButtonStatus::Hovered => button_hover_style(base, dark),
        ButtonStatus::Pressed => button_pressed_style(base, dark),
        ButtonStatus::Disabled => button_disabled_style(base),
    }
}

/// The hue of a tinted button color in the given mode.
pub open spec fn spec_tint_hue(color_variant: TintedButtonColor, dark: bool) -> Color {
    let tc = spec_theme_colors(dark);
    match color_variant {
        TintedButtonColor::Blue => tc.blue,
        TintedButtonColor::Green => tc.green,
        TintedButtonColor::Red => tc.red,
        TintedButtonColor::Orange => tc.orange,
        TintedButtonColor::Purple => tc.purple,
        TintedButtonColor::Teal => tc.teal,
        TintedButtonColor::Pink => tc.pink,
        TintedButtonColor::Indigo => tc.indigo,
    }
}

/// The hue of a tinted button color in the given mode.
pub fn tint_hue(color_variant: TintedButtonColor, dark: bool) -> (c: Color)
    ensures
        c == spec_tint_hue(color_variant, dark),
        c.wf(),
{
    let tc = get_theme_colors(dark);
    match color_variant {
        TintedButtonColor::Blue => tc.blue,
        TintedButtonColor::Green => tc.green,
        TintedButtonColor::Red => tc.red,
        TintedButtonColor::Orange => tc.orange,
        TintedButtonColor::Purple => tc.purple,
        TintedButtonColor::Teal => tc.teal,
        TintedButtonColor::Pink => tc.pink,
        TintedButtonColor::Indigo => tc.indigo,
    }
}

/// The corner radius of each button size, in tenths.
pub open spec fn spec_sized_radius(size: ButtonSize) -> u16 {
    match size {
        ButtonSize::Small => (CORNER_RADIUS * 8 / 10) as u16,
        ButtonSize::Medium => CORNER_RADIUS,
        ButtonSize::Large => (CORNER_RADIUS * 12 / 10) as u16,
    }
}

/// A button style resized: the corner radius replaced by the radius of
/// the given size, everything else untouched.
pub open spec fn spec_sized_button(style: ButtonStyle, size: ButtonSize) -> ButtonStyle {
    ButtonStyle { border: Border { radius: spec_sized_radius(size), ..style.border }, ..style }
}

/// A button style resized: the corner radius replaced by the radius of
/// the given size, everything else untouched.
pub fn sized_button(style: ButtonStyle, size: ButtonSize) -> (s: ButtonStyle)
    requires
        style.wf(),
    ensures
        s == spec_sized_button(style, size),
        s.wf(),
{
    let radius: u16 = match size {
        ButtonSize::Small => CORNER_RADIUS * 8 / 10,
        ButtonSize::Medium => CORNER_RADIUS,
        ButtonSize::Large => CORNER_RADIUS * 12 / 10,
    };
    ButtonStyle { border: Border { radius, ..style.border }, ..style }
}

/// A "selected" button: in the active status it shows what would
/// normally be the pressed look of its base style; in every other status
/// it shows the base style's own look for that status.
pub open spec fn spec_selected_button_style(
    dark: bool,
    status: ButtonStatus,
    active_style: ButtonStyle,
    status_style: ButtonStyle,
) -> ButtonStyle {
    if status is Active {
        spec_button_pressed_style(active_style, dark)
    } else {
        status_style
    }
}

/// A "selected" button, for navigation items: `active_style` is the base
/// style resolved at the active status, `status_style` the base style
/// resolved at `status`.
pub fn selected_button_style(
    dark: bool,
    status: ButtonStatus,
    active_style: ButtonStyle,
    status_style: ButtonStyle,
) -> (s: ButtonStyle)
    requires
        active_style.wf(),
        status_style.wf(),
    ensures
        s == spec_selected_button_style(dark, status, active_style, status_style),
        s.wf(),
{
    match status {
        ButtonStatus::Active => button_pressed_style(active_style, dark),
        _ => status_style,
    }
}

/// One of two button styles, picked by a condition.
pub open spec fn spec_conditional_button_style(
    condition: bool,
    true_style: ButtonStyle,
    false_style: ButtonStyle,
) -> ButtonStyle {
    if condition {
        true_style
    } else {
        false_style
    }
}

/// One of two button styles, picked by a condition.
pub fn conditional_button_style(
    condition: bool,
    true_style: ButtonStyle,
    false_style: ButtonStyle,
) -> (s: ButtonStyle)
    ensures
        s == spec_conditional_button_style(condition, true_style, false_style),
{
    if condition {
        true_style
    } else {
        false_style
    }
}

/// Halving through the fixed-point scale: scaling by `DISABLED_ALPHA`
/// is exact integer halving.
pub proof fn lemma_scale_is_halving(v: u16)
    ensures
        spec_scale(v, DISABLED_ALPHA) == v / 2,
{
    assert(v * 500 / 1000 == v / 2) by (nonlinear_arith);
}

/// Law: disabling a button halves the alpha of its fill, text and border
/// colors, leaves their other channels unchanged, and removes the shadow.
pub proof fn lemma_disabled_halves_alpha(base: ButtonStyle)
    ensures
        spec_button_disabled_style(base).text_color.a == base.text_color.a / 2,
        spec_button_disabled_style(base).text_color.r == base.text_color.r,
        spec_button_disabled_style(base).text_color.g == base.text_color.g,
        spec_button_disabled_style(base).text_color.b == base.text_color.b,
        base.background matches Some(c) ==> {
            &&& spec_button_disabled_style(base).background matches Some(d)
            &&& d.a == c.a / 2
            &&& d.r == c.r
            &&& d.g == c.g
            &&& d.b == c.b
        },
        base.background is None ==> spec_button_disabled_style(base).background is None,
        spec_button_disabled_style(base).border.color.a == base.border.color.a / 2,
        spec_button_disabled_style(base).shadow == spec_shadow_none(),
{
    lemma_scale_is_halving(base.text_color.a);
    lemma_scale_is_halving(base.border.color.a);
    if let Some(c) = base.background {
        lemma_scale_is_halving(c.a);
    }
}

/// Law: for every button class and both modes, the disabled style halves
/// the alpha of the active text and fill and removes the shadow.
pub proof fn lemma_button_disabled_law(class: Button, dark: bool)
    ensures
        ({
            let active = spec_button_style(class, dark, ButtonStatus::Active);
            let disabled = spec_button_style(class, dark, ButtonStatus::Disabled);
            &&& disabled.text_color.a == active.text_color.a / 2
            &&& active.background matches Some(c) ==> (disabled.background matches Some(d)
                && d.a == c.a / 2)
            &&& disabled.shadow == spec_shadow_none()
        }),
{
    lemma_disabled_halves_alpha(spec_button_base(class, dark));
}

/// Law: for every filled or outlined button class (everything but link
/// and plain) and both modes, the hovered and pressed fills are the
/// active fill shifted by the fixed deltas toward white in dark mode and
/// toward black in light mode, clamped to the unit range.
pub proof fn lemma_button_shift_law(class: Button, dark: bool)
    requires
        !(class is Link),
        !(class is Plain),
    ensures
        ({
            let active = spec_button_style(class, dark, ButtonStatus::Active);
            let hovered = spec_button_style(class, dark, ButtonStatus::Hovered);
            let pressed = spec_button_style(class, dark, ButtonStatus::Pressed);
            &&& active.background matches Some(b)
            &&& hovered.background == Some(spec_shift_rgb(active.background->Some_0, dark, HOVER_SHIFT))
            &&& pressed.background == Some(spec_shift_rgb(active.background->Some_0, dark, PRESS_SHIFT))
        }),
{
}

/// Law: for every solid accent button and both modes, the disabled style
/// halves the alpha of the active text and fill and removes the shadow,
/// and the hovered and pressed fills are the active fill shifted by the
/// fixed deltas.
pub proof fn lemma_accent_button_laws(fill: Color, text: Color, dark: bool)
    ensures
        ({
            let active = spec_accent_button_style(fill, text, dark, ButtonStatus::Active);
            let hovered = spec_accent_button_style(fill, text, dark, ButtonStatus::Hovered);
            let pressed = spec_accent_button_style(fill, text, dark, ButtonStatus::Pressed);
            let disabled = spec_accent_button_style(fill, text, dark, ButtonStatus::Disabled);
            &&& disabled.text_color.a == active.text_color.a / 2
            &&& active.background matches Some(c) ==> (disabled.background matches Some(d)
                && d.a == c.a / 2)
            &&& disabled.shadow == spec_shadow_none()
            &&& hovered.background == Some(spec_shift_rgb(fill, dark, HOVER_SHIFT))
            &&& pressed.background == Some(spec_shift_rgb(fill, dark, PRESS_SHIFT))
            &&& pressed.shadow == spec_shadow_none()
        }),
{
    lemma_disabled_halves_alpha(spec_filled_button(fill, text));
}

/// Law: for every tinted button hue and both modes, the disabled style
/// halves the alpha of the active text and fill and removes the shadow,
/// and the hovered and pressed fills are the active fill shifted by the
/// fixed deltas.
pub proof fn lemma_tinted_button_laws(hue: Color, dark: bool)
    ensures
        ({
            let active = spec_tinted_button_style(hue, dark, ButtonStatus::Active);
            let hovered = spec_tinted_button_style(hue, dark, ButtonStatus::Hovered);
            let pressed = spec_tinted_button_style(hue, dark, ButtonStatus::Pressed);
            let disabled = spec_tinted_button_style(hue, dark, ButtonStatus::Disabled);
            &&& disabled.text_color.a == active.text_color.a / 2
            &&& active.background matches Some(c) ==> (disabled.background matches Some(d)
                && d.a == c.a / 2)
            &&& disabled.shadow == spec_shadow_none()
            &&& hovered.background == Some(
                spec_shift_rgb(active.background->Some_0, dark, HOVER_SHIFT),
            )
            &&& pressed.background == Some(
                spec_shift_rgb(active.background->Some_0, dark, PRESS_SHIFT),
            )
            &&& pressed.shadow == spec_shadow_none()
        }),
{
    lemma_disabled_halves_alpha(spec_tinted_base(hue));
}

/// Law: shifting a fill moves every color channel toward white in dark
/// mode and toward black in light mode, and keeps it in the unit range.
pub proof fn lemma_shift_monotone(c: Color, dark: bool, delta: u16)
    requires
        c.wf(),
    ensures
        spec_shift_rgb(c, dark, delta).wf(),
        dark ==> spec_shift_rgb(c, dark, delta).r >= c.r && spec_shift_rgb(c, dark, delta).g >= c.g
            && spec_shift_rgb(c, dark, delta).b >= c.b,
        !dark ==> spec_shift_rgb(c, dark, delta).r <= c.r && spec_shift_rgb(c, dark, delta).g
            <= c.g && spec_shift_rgb(c, dark, delta).b <= c.b,
        spec_shift_rgb(c, dark, delta).a == c.a,
{
    lemma_shift_in_range(c.r, dark, delta);
    lemma_shift_in_range(c.g, dark, delta);
    lemma_shift_in_range(c.b, dark, delta);
}

/// Law: button style resolution is pure — two resolutions of the same
/// class, mode and status are bit-identical.
pub proof fn lemma_button_resolution_pure(
    class: Button,
    dark: bool,
    status: ButtonStatus,
    first: ButtonStyle,
    second: ButtonStyle,
)
    requires
        first == spec_button_style(class, dark, status),
        second == spec_button_style(class, dark, status),
    ensures
        first == second,
{
}

} // verus!
