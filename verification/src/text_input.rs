//! Text input style resolution: the standard field, the search field, the
//! inline (underline-only) field, and the validation overrides.

use vstd::prelude::*;

use crate::color::Color;
use crate::color::UNIT;
use crate::color::spec_scale_alpha;
use crate::color::spec_transparent;
use crate::colors::get_theme_colors;
use crate::colors::spec_theme_colors;
use crate::style::Border;
use crate::style::CORNER_RADIUS;
use crate::style::SMALL_CORNER_RADIUS;
use crate::style::TextInputStatus;
use crate::style::TextInputStyle;
use crate::style::ValidationState;

verus! {

/// The alpha factor of a disabled input's fill, in thousandths.
pub const DISABLED_FILL_ALPHA: u16 = 700;

/// The alpha factor of a disabled input's text and border, in thousandths.
pub const DISABLED_TEXT_ALPHA: u16 = 500;

/// The alpha factor of the selection fill behind text, in thousandths.
pub const SELECTION_ALPHA: u16 = 300;

/// The resolved style of the standard text input under a status.
pub open spec fn spec_text_input_style(dark: bool, status: TextInputStatus) -> TextInputStyle {
    let tc = spec_theme_colors(dark);
    let base = TextInputStyle {
        background: tc.input_bg,
        border: Border { color: tc.input_border, width: 10, radius: SMALL_CORNER_RADIUS },
        icon: tc.text,
        placeholder: tc.placeholder,
        value: tc.text,
        selection: spec_scale_alpha(tc.blue, SELECTION_ALPHA),
    };
    match status {
        TextInputStatus::Active => base,
        TextInputStatus::Hovered => TextInputStyle {
            border: Border { color: tc.placeholder, ..base.border },
            ..base
        },
        TextInputStatus::Focused { is_hovered } => TextInputStyle {
            border: Border { color: tc.blue, width: 20, ..base.border },
            ..base
        },
        TextInputStatus::Disabled => TextInputStyle {
            background: spec_scale_alpha(tc.input_bg, DISABLED_FILL_ALPHA),
            border: Border {
                color: spec_scale_alpha(tc.input_border, DISABLED_TEXT_ALPHA),
                ..base.border
            },
            value: spec_scale_alpha(tc.text, DISABLED_TEXT_ALPHA),
            ..base
        },
    }
}

/// The resolved style of the standard text input under a status.
pub fn text_input_style(dark: bool, status: TextInputStatus) -> (s: TextInputStyle)
    ensures
        s == spec_text_input_style(dark, status),
        s.wf(),
{
    let tc = get_theme_colors(dark);
    let base = TextInputStyle {
        background: tc.input_bg,
        border: Border { color: tc.input_border, width: 10, radius: SMALL_CORNER_RADIUS },
        icon: tc.text,
        placeholder: tc.placeholder,
        value: tc.text,
        selection: tc.blue.scale_alpha(SELECTION_ALPHA),
    };
    match status {
        TextInputStatus::Active => base,
        TextInputStatus::Hovered => TextInputStyle {
            border: Border { color: tc.placeholder, ..base.border },
            ..base
        },
        TextInputStatus::Focused { is_hovered: _ } => TextInputStyle {
            border: Border { color: tc.blue, width: 20, ..base.border },
            ..base
        },
        TextInputStatus::Disabled => TextInputStyle {
            background: tc.input_bg.scale_alpha(DISABLED_FILL_ALPHA),
            border: Border {
                color: tc.input_border.scale_alpha(DISABLED_TEXT_ALPHA),
                ..base.border
            },
            value: tc.text.scale_alpha(DISABLED_TEXT_ALPHA),
            ..base
        },
    }
}

/// The combo box field: identical to the standard text input, since a
/// combo box is a text input underneath.
pub open spec fn spec_combo_box_style(dark: bool, status: TextInputStatus) -> TextInputStyle {
    spec_text_input_style(dark, status)
}

/// The combo box field: identical to the standard text input, since a
/// combo box is a text input underneath.
pub fn combo_box_style(dark: bool, status: TextInputStatus) -> (s: TextInputStyle)
    ensures
        s == spec_combo_box_style(dark, status),
        s.wf(),
{
    text_input_style(dark, status)
}

/// The search field: a borderless, fully rounded input on the system
/// fill, which brightens one surface step while focused.
pub open spec fn spec_search_input(dark: bool, status: TextInputStatus) -> TextInputStyle {
    let tc = spec_theme_colors(dark);
    let base = TextInputStyle {
        background: tc.system_bg,
        border: Border { color: spec_transparent(), width: 0, radius: CORNER_RADIUS },
        icon: tc.tertiary_text,
        placeholder: tc.placeholder,
        value: tc.text,
        selection: tc.selection,
    };
    match status {
        TextInputStatus::Active => base,
        TextInputStatus::Hovered => base,
        TextInputStatus::Focused { is_hovered } => TextInputStyle {
            background: tc.tertiary_background,
            ..base
        },
        TextInputStatus::Disabled => TextInputStyle {
            background: spec_scale_alpha(tc.system_bg, DISABLED_FILL_ALPHA),
            value: spec_scale_alpha(tc.text, DISABLED_TEXT_ALPHA),
            ..base
        },
    }
}

/// The search field: a borderless, fully rounded input on the system
/// fill, which brightens one surface step while focused.
pub fn search_input(dark: bool, status: TextInputStatus) -> (s: TextInputStyle)
    ensures
        s == spec_search_input(dark, status),
        s.wf(),
{
    let tc = get_theme_colors(dark);
    let base = TextInputStyle {
        background: tc.system_bg,
        border: Border { color: Color::transparent(), width: 0, radius: CORNER_RADIUS },
        icon: tc.tertiary_text,
        placeholder: tc.placeholder,
        value: tc.text,
        selection: tc.selection,
    };
    match status {
        TextInputStatus::Active => base,
        TextInputStatus::Hovered => base,
        TextInputStatus::Focused { is_hovered: _ } => TextInputStyle {
            background: tc.tertiary_background,
            ..base
        },
        TextInputStatus::Disabled => TextInputStyle {
            background: tc.system_bg.scale_alpha(DISABLED_FILL_ALPHA),
            value: tc.text.scale_alpha(DISABLED_TEXT_ALPHA),
            ..base
        },
    }
}

/// The inline field: transparent with a bottom-style hairline that turns
/// into the accent color while focused.
pub open spec fn spec_inline_text_input(dark: bool, status: TextInputStatus) -> TextInputStyle {
    let tc = spec_theme_colors(dark);
    let base = TextInputStyle {
        background: spec_transparent(),
        border: Border { color: tc.separator, width: 10, radius: 0 },
        icon: tc.text,
        placeholder: tc.placeholder,
        value: tc.text,
        selection: tc.selection,
    };
    match status {
        TextInputStatus::Active => base,
        TextInputStatus::Hovered => TextInputStyle {
            border: Border { color: tc.tertiary_text, ..base.border },
            ..base
        },
        TextInputStatus::Focused { is_hovered } => TextInputStyle {
            border: Border { color: tc.blue, width: 20, ..base.border },
            ..base
        },
        TextInputStatus::Disabled => TextInputStyle {
            border: Border {
                color: spec_scale_alpha(tc.separator, DISABLED_TEXT_ALPHA),
                ..base.border
            },
            value: spec_scale_alpha(tc.text, DISABLED_TEXT_ALPHA),
            ..base
        },
    }
}

/// The inline field: transparent with a bottom-style hairline that turns
/// into the accent color while focused.
pub fn inline_text_input(dark: bool, status: TextInputStatus) -> (s: TextInputStyle)
    ensures
        s == spec_inline_text_input(dark, status),
        s.wf(),
{
    let tc = get_theme_colors(dark);
    let base = TextInputStyle {
        background: Color::transparent(),
        border: Border { color: tc.separator, width: 10, radius: 0 },
        icon: tc.text,
        placeholder: tc.placeholder,
        value: tc.text,
        selection: tc.selection,
    };
    match status {
        TextInputStatus::Active => base,
        TextInputStatus::Hovered => TextInputStyle {
            border: Border { color: tc.tertiary_text, ..base.border },
            ..base
        },
        TextInputStatus::Focused { is_hovered: _ } => TextInputStyle {
            border: Border { color: tc.blue, width: 20, ..base.border },
            ..base
        },
        TextInputStatus::Disabled => TextInputStyle {
            border: Border { color: tc.separator.scale_alpha(DISABLED_TEXT_ALPHA), ..base.border },
            value: tc.text.scale_alpha(DISABLED_TEXT_ALPHA),
            ..base
        },
    }
}

/// The standard input overridden with error styling: a red hairline
/// border and a red-tinted fill, whatever the status.
pub open spec fn spec_danger_text_input(dark: bool, status: TextInputStatus) -> TextInputStyle {
    let tc = spec_theme_colors(dark);
    let base = spec_text_input_style(dark, status);
    TextInputStyle {
        border: Border { color: tc.red, width: 10, ..base.border },
        background: if dark {
            Color { r: 300, g: 0, b: 0, a: 200 }
        } else {
            Color { r: UNIT, g: 900, b: 900, a: UNIT }
        },
        ..base
    }
}

/// The standard input overridden with error styling: a red hairline
/// border and a red-tinted fill, whatever the status.
pub fn danger_text_input(dark: bool, status: TextInputStatus) -> (s: TextInputStyle)
    ensures
        s == spec_danger_text_input(dark, status),
        s.wf(),
{
    let tc = get_theme_colors(dark);
    let base = text_input_style(dark, status);
    let fill = if dark {
        Color { r: 300, g: 0, b: 0, a: 200 }
    } else {
        Color { r: UNIT, g: 900, b: 900, a: UNIT }
    };
    TextInputStyle {
        border: Border { color: tc.red, width: 10, ..base.border },
        background: fill,
        ..base
    }
}

/// The standard input overridden with warning styling: an orange hairline
/// border, whatever the status.
pub open spec fn spec_warning_text_input(dark: bool, status: TextInputStatus) -> TextInputStyle {
    let tc = spec_theme_colors(dark);
    let base = spec_text_input_style(dark, status);
    TextInputStyle { border: Border { color: tc.orange, width: 10, ..base.border }, ..base }
}

/// The standard input overridden with warning styling: an orange hairline
/// border, whatever the status.
pub fn warning_text_input(dark: bool, status: TextInputStatus) -> (s: TextInputStyle)
    ensures
        s == spec_warning_text_input(dark, status),
        s.wf(),
{
    let tc = get_theme_colors(dark);
    let base = text_input_style(dark, status);
    TextInputStyle { border: Border { color: tc.orange, width: 10, ..base.border }, ..base }
}

/// The input for a validation state: error and warning get their
/// overrides, valid input gets the inline field.
pub open spec fn spec_conditional_text_input(
    validation_state: ValidationState,
    dark: bool,
    status: TextInputStatus,
) -> TextInputStyle {
    match validation_state {
        ValidationState::Error => spec_danger_text_input(dark, status),
        ValidationState::Warning => spec_warning_text_input(dark, status),
        ValidationState::Valid => spec_inline_text_input(dark, status),
    }
}

/// The input for a validation state: error and warning get their
/// overrides, valid input gets the inline field.
pub fn conditional_text_input(
    validation_state: ValidationState,
    dark: bool,
    status: TextInputStatus,
) -> (s: TextInputStyle)
    ensures
        s == spec_conditional_text_input(validation_state, dark, status),
        s.wf(),
{
    match validation_state {
        ValidationState::Error => danger_text_input(dark, status),
        ValidationState::Warning => warning_text_input(dark, status),
        ValidationState::Valid => inline_text_input(dark, status),
    }
}

/// The input for a plain error flag: the error override when set, the
/// inline field when not.
pub open spec fn spec_validated_text_input(
    has_error: bool,
    dark: bool,
    status: TextInputStatus,
) -> TextInputStyle {
    if has_error {
        spec_danger_text_input(dark, status)
    } else {
        spec_inline_text_input(dark, status)
    }
}

/// The input for a plain error flag: the error override when set, the
/// inline field when not.
pub fn validated_text_input(has_error: bool, dark: bool, status: TextInputStatus) -> (s:
    TextInputStyle)
    ensures
        s == spec_validated_text_input(has_error, dark, status),
        s.wf(),
{
    if has_error {
        danger_text_input(dark, status)
    } else {
        inline_text_input(dark, status)
    }
}

/// One of two text input styles, picked by a condition.
pub open spec fn spec_conditional_text_input_style(
    condition: bool,
    true_style: TextInputStyle,
    false_style: TextInputStyle,
) -> TextInputStyle {
    if condition {
        true_style
    } else {
        false_style
    }
}

/// One of two text input styles, picked by a condition.
pub fn conditional_text_input_style(
    condition: bool,
    true_style: TextInputStyle,
    false_style: TextInputStyle,
) -> (s: TextInputStyle)
    ensures
        s == spec_conditional_text_input_style(condition, true_style, false_style),
{
    if condition {
        true_style
    } else {
        false_style
    }
}

/// Law: text input style resolution is pure — two resolutions of the
/// same mode and status are bit-identical.
pub proof fn lemma_text_input_resolution_pure(
    dark: bool,
    status: TextInputStatus,
    first: TextInputStyle,
    second: TextInputStyle,
)
    requires
        first == spec_text_input_style(dark, status),
        second == spec_text_input_style(dark, status),
    ensures
        first == second,
{
}

} // verus!
