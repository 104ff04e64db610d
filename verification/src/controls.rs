//! Radio button, checkbox, pick list and drop-down menu style resolution.

use vstd::prelude::*;

use crate::color::Color;
use crate::color::spec_scale_alpha;
use crate::color::spec_transparent;
use crate::color::spec_white;
use crate::colors::get_theme_colors;
use crate::colors::spec_theme_colors;
use crate::style::Border;
use crate::style::CheckboxStatus;
use crate::style::CheckboxStyle;
use crate::style::MenuStyle;
use crate::style::PickListStatus;
use crate::style::PickListStyle;
use crate::style::RadioStatus;
use crate::style::RadioStyle;
use crate::style::SMALL_CORNER_RADIUS;
use crate::style::TINY_CORNER_RADIUS;
use crate::style::spec_shadow_none;
use crate::style::Shadow;

verus! {

/// The alpha factor of faded accents (hovered unselected borders,
/// disabled marks), in thousandths.
pub const FADED_ALPHA: u16 = 500;

/// The alpha factor of a hovered checked checkbox's fill, in thousandths.
pub const CHECKBOX_HOVER_ALPHA: u16 = 900;

/// The resolved style of a radio button under a status: a transparent
/// fill with an accent dot, the ring in the accent color once selected
/// and half-faded accent while hovering unselected.
pub open spec fn spec_radio_style(dark: bool, status: RadioStatus) -> RadioStyle {
    let tc = spec_theme_colors(dark);
    let ring = match status {
        RadioStatus::Active { is_selected } => if is_selected {
            tc.blue
        } else {
            tc.inactive_border
        },
        RadioStatus::Hovered { is_selected } => if is_selected {
            tc.blue
        } else {
            spec_scale_alpha(tc.blue, FADED_ALPHA)
        },
    };
    RadioStyle {
        background: spec_transparent(),
        dot_color: tc.blue,
        border_width: 20,
        border_color: ring,
        text_color: Some(tc.text),
    }
}

/// The resolved style of a radio button under a status.
pub fn radio_style(dark: bool, status: RadioStatus) -> (s: RadioStyle)
    ensures
        s == spec_radio_style(dark, status),
        s.wf(),
{
    let tc = get_theme_colors(dark);
    let ring = match status {
        RadioStatus::Active { is_selected } => if is_selected {
            tc.blue
        } else {
            tc.inactive_border
        },
        RadioStatus::Hovered { is_selected } => if is_selected {
            tc.blue
        } else {
            tc.blue.scale_alpha(FADED_ALPHA)
        },
    };
    RadioStyle {
        background: Color::transparent(),
        dot_color: tc.blue,
        border_width: 20,
        border_color: ring,
        text_color: Some(tc.text),
    }
}

/// A checked checkbox: an accent fill under a white mark, no border.
pub open spec fn spec_checkbox_checked(fill: Color, icon: Color, text: Color) -> CheckboxStyle {
    CheckboxStyle {
        background: fill,
        icon_color: icon,
        border: Border { color: spec_transparent(), width: 0, radius: TINY_CORNER_RADIUS },
        text_color: Some(text),
    }
}

/// An unchecked checkbox: a transparent fill inside a visible ring.
pub open spec fn spec_checkbox_unchecked(ring: Color, text: Color) -> CheckboxStyle {
    CheckboxStyle {
        background: spec_transparent(),
        icon_color: spec_transparent(),
        border: Border { color: ring, width: 20, radius: TINY_CORNER_RADIUS },
        text_color: Some(text),
    }
}

/// The resolved style of a checkbox under a status: checked boxes fill
/// with the accent (faded while hovered or disabled), unchecked boxes
/// show a ring that takes the accent on hover.
pub open spec fn spec_checkbox_style(dark: bool, status: CheckboxStatus) -> CheckboxStyle {
    let tc = spec_theme_colors(dark);
    match status {
        CheckboxStatus::Active { is_checked } => if is_checked {
            spec_checkbox_checked(tc.blue, spec_white(), tc.text)
        } else {
            spec_checkbox_unchecked(tc.inactive_border, tc.text)
        },
        CheckboxStatus::Hovered { is_checked } => if is_checked {
            spec_checkbox_checked(spec_scale_alpha(tc.blue, CHECKBOX_HOVER_ALPHA), spec_white(), tc.text)
        } else {
            spec_checkbox_unchecked(spec_scale_alpha(tc.blue, FADED_ALPHA), tc.text)
        },
        CheckboxStatus::Disabled { is_checked } => if is_checked {
            CheckboxStyle {
                background: spec_scale_alpha(tc.blue, FADED_ALPHA),
                icon_color: spec_scale_alpha(spec_white(), FADED_ALPHA),
                border: Border {
                    color: spec_transparent(),
                    width: 0,
                    radius: TINY_CORNER_RADIUS,
                },
                text_color: Some(spec_scale_alpha(tc.text, FADED_ALPHA)),
            }
        } else {
            CheckboxStyle {
                background: spec_transparent(),
                icon_color: spec_transparent(),
                border: Border {
                    color: spec_scale_alpha(tc.inactive_border, FADED_ALPHA),
                    width: 20,
                    radius: TINY_CORNER_RADIUS,
                },
                text_color: Some(spec_scale_alpha(tc.text, FADED_ALPHA)),
            }
        },
    }
}

/// The resolved style of a checkbox under a status.
pub fn checkbox_style(dark: bool, status: CheckboxStatus) -> (s: CheckboxStyle)
    ensures
        s == spec_checkbox_style(dark, status),
        s.wf(),
{
    let tc = get_theme_colors(dark);
    match status {
        CheckboxStatus::Active { is_checked } => if is_checked {
            CheckboxStyle {
                background: tc.blue,
                icon_color: Color::white(),
                border: Border { color: Color::transparent(), width: 0, radius: TINY_CORNER_RADIUS },
                text_color: Some(tc.text),
            }
        } else {
            CheckboxStyle {
                background: Color::transparent(),
                icon_color: Color::transparent(),
                border: Border {
                    color: tc.inactive_border,
                    width: 20,
                    radius: TINY_CORNER_RADIUS,
                },
                text_color: Some(tc.text),
            }
        },
        CheckboxStatus::Hovered { is_checked } => if is_checked {
            CheckboxStyle {
                background: tc.blue.scale_alpha(CHECKBOX_HOVER_ALPHA),
                icon_color: Color::white(),
                border: Border { color: Color::transparent(), width: 0, radius: TINY_CORNER_RADIUS },
                text_color: Some(tc.text),
            }
        } else {
            CheckboxStyle {
                background: Color::transparent(),
                icon_color: Color::transparent(),
                border: Border {
                    color: tc.blue.scale_alpha(FADED_ALPHA),
                    width: 20,
                    radius: TINY_CORNER_RADIUS,
                },
                text_color: Some(tc.text),
            }
        },
        CheckboxStatus::Disabled { is_checked } => if is_checked {
            CheckboxStyle {
                background: tc.blue.scale_alpha(FADED_ALPHA),
                icon_color: Color::white().scale_alpha(FADED_ALPHA),
                border: Border { color: Color::transparent(), width: 0, radius: TINY_CORNER_RADIUS },
                text_color: Some(tc.text.scale_alpha(FADED_ALPHA)),
            }
        } else {
            CheckboxStyle {
                background: Color::transparent(),
                icon_color: Color::transparent(),
                border: Border {
                    color: tc.inactive_border.scale_alpha(FADED_ALPHA),
                    width: 20,
                    radius: TINY_CORNER_RADIUS,
                },
                text_color: Some(tc.text.scale_alpha(FADED_ALPHA)),
            }
        },
    }
}

/// The resolved style of a pick list under a status: the input look,
/// with the border and the handle taking the accent color while open.
pub open spec fn spec_pick_list_style(dark: bool, status: PickListStatus) -> PickListStyle {
    let tc = spec_theme_colors(dark);
    let base = PickListStyle {
        text_color: tc.text,
        placeholder_color: tc.placeholder,
        background: tc.input_bg,
        border: Border { color: tc.input_border, width: 10, radius: SMALL_CORNER_RADIUS },
        handle_color: tc.placeholder,
    };
    match status {
        PickListStatus::Active => base,
        PickListStatus::Hovered => PickListStyle {
            border: Border { color: tc.placeholder, ..base.border },
            ..base
        },
        PickListStatus::Opened { is_hovered } => PickListStyle {
            border: Border { color: tc.blue, width: 15, ..base.border },
            handle_color: tc.blue,
            ..base
        },
    }
}

/// The resolved style of a pick list under a status.
pub fn pick_list_style(dark: bool, status: PickListStatus) -> (s: PickListStyle)
    ensures
        s == spec_pick_list_style(dark, status),
        s.wf(),
{
    let tc = get_theme_colors(dark);
    let base = PickListStyle {
        text_color: tc.text,
        placeholder_color: tc.placeholder,
        background: tc.input_bg,
        border: Border { color: tc.input_border, width: 10, radius: SMALL_CORNER_RADIUS },
        handle_color: tc.placeholder,
    };
    match status {
        PickListStatus::Active => base,
        PickListStatus::Hovered => PickListStyle {
            border: Border { color: tc.placeholder, ..base.border },
            ..base
        },
        PickListStatus::Opened { is_hovered: _ } => PickListStyle {
            border: Border { color: tc.blue, width: 15, ..base.border },
            handle_color: tc.blue,
            ..base
        },
    }
}

/// The resolved style of a combo box's drop-down menu: the card fill
/// with a hairline border and the accent behind the selected option.
pub open spec fn spec_combo_box_menu(dark: bool) -> MenuStyle {
    let tc = spec_theme_colors(dark);
    MenuStyle {
        text_color: tc.text,
        background: tc.card_bg,
        border: Border { color: tc.input_border, width: 10, radius: TINY_CORNER_RADIUS },
        selected_text_color: spec_white(),
        selected_background: tc.blue,
        shadow: spec_shadow_none(),
    }
}

/// The resolved style of a combo box's drop-down menu.
pub fn combo_box_menu(dark: bool) -> (s: MenuStyle)
    ensures
        s == spec_combo_box_menu(dark),
        s.wf(),
{
    let tc = get_theme_colors(dark);
    MenuStyle {
        text_color: tc.text,
        background: tc.card_bg,
        border: Border { color: tc.input_border, width: 10, radius: TINY_CORNER_RADIUS },
        selected_text_color: Color::white(),
        selected_background: tc.blue,
        shadow: Shadow::none(),
    }
}

/// Law: disabling a checkbox halves the alpha of its label text in both
/// modes, and of its fill and mark when checked.
pub proof fn lemma_checkbox_disabled_halves(dark: bool, is_checked: bool)
    ensures
        ({
            let active = spec_checkbox_style(dark, CheckboxStatus::Active { is_checked });
            let disabled = spec_checkbox_style(dark, CheckboxStatus::Disabled { is_checked });
            &&& disabled.text_color is Some
            &&& active.text_color is Some
            &&& disabled.text_color->Some_0.a == active.text_color->Some_0.a / 2
            &&& is_checked ==> disabled.background.a == active.background.a / 2
            &&& is_checked ==> disabled.icon_color.a == active.icon_color.a / 2
        }),
{
    crate::button::lemma_scale_is_halving(spec_theme_colors(dark).text.a);
    crate::button::lemma_scale_is_halving(spec_theme_colors(dark).blue.a);
    crate::button::lemma_scale_is_halving(spec_white().a);
}

} // verus!
