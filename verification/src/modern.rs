//! The [`Modern`] facade: one entry point per widget look.
//!
//! Every method is a pure resolver from the theme mode (and, where the
//! widget has one, the interaction status) to a style record, and its
//! contract pins the record to the corresponding specification table.

use vstd::prelude::*;

use crate::button;
use crate::button::spec_accent_button_style;
use crate::button::spec_button_style;
use crate::button::spec_conditional_button_style;
use crate::button::spec_selected_button_style;
use crate::button::spec_sized_button;
use crate::button::spec_tint_hue;
use crate::button::spec_tinted_button_style;
use crate::color::Color;
use crate::colors::get_theme_colors;
use crate::colors::gray_fill;
use crate::colors::spec_gray_fill;
use crate::colors::spec_theme_colors;
use crate::container;
use crate::container::spec_accent_container;
use crate::container::spec_conditional_container_style;
use crate::container::spec_conditional_tooltip_container;
use crate::container::spec_container_style;
use crate::container::spec_danger_tooltip_container;
use crate::container::spec_floating_container;
use crate::container::spec_separated_container;
use crate::container::spec_toolbar_container;
use crate::container::spec_validated_tooltip_container;
use crate::container::spec_warning_tooltip_container;
use crate::controls;
use crate::controls::spec_checkbox_style;
use crate::controls::spec_combo_box_menu;
use crate::controls::spec_pick_list_style;
use crate::controls::spec_radio_style;
use crate::style::Button;
use crate::style::ButtonSize;
use crate::style::ButtonStatus;
use crate::style::ButtonStyle;
use crate::style::CheckboxStatus;
use crate::style::CheckboxStyle;
use crate::style::Container;
use crate::style::ContainerStyle;
use crate::style::MenuStyle;
use crate::style::PickListStatus;
use crate::style::PickListStyle;
use crate::style::RadioStatus;
use crate::style::RadioStyle;
use crate::style::TextInputStatus;
use crate::style::TextInputStyle;
use crate::style::TextStyle;
use crate::style::TintedButtonColor;
use crate::style::ValidationState;
use crate::text;
use crate::text::spec_blue_text;
use crate::text::spec_brown_text;
use crate::text::spec_colored_text;
use crate::text::spec_green_text;
use crate::text::spec_indigo_text;
use crate::text::spec_link_text;
use crate::text::spec_mint_text;
use crate::text::spec_orange_text;
use crate::text::spec_pink_text;
use crate::text::spec_primary_text;
use crate::text::spec_purple_text;
use crate::text::spec_red_text;
use crate::text::spec_secondary_text;
use crate::text::spec_teal_text;
use crate::text::spec_tertiary_text;
use crate::text::spec_validated_text;
use crate::text::spec_yellow_text;
use crate::text_input;
use crate::text_input::spec_combo_box_style;
use crate::text_input::spec_conditional_text_input;
use crate::text_input::spec_conditional_text_input_style;
use crate::text_input::spec_danger_text_input;
use crate::text_input::spec_inline_text_input;
use crate::text_input::spec_search_input;
use crate::text_input::spec_text_input_style;
use crate::text_input::spec_validated_text_input;
use crate::text_input::spec_warning_text_input;
use crate::theme::Theme;
use crate::theme::create_modern_theme;
use crate::theme::spec_modern_palette;
use crate::theme::spec_theme_name;

verus! {

/// The theme's entry points, one per widget look.
pub struct Modern;

impl Modern {
    /// The style of the given button class under a status in a mode.
    pub fn button(style: Button, dark: bool, status: ButtonStatus) -> (s: ButtonStyle)
        ensures
            s == spec_button_style(style, dark, status),
            s.wf(),
    {
        button::button_style(style, dark, status)
    }

    /// The primary (accent blue, filled) button.
    pub fn primary_button(dark: bool, status: ButtonStatus) -> (s: ButtonStyle)
        ensures
            s == spec_button_style(Button::Primary, dark, status),
            s.wf(),
    {
        Self::button(Button::Primary, dark, status)
    }

    /// The secondary (outlined) button.
    pub fn secondary_button(dark: bool, status: ButtonStatus) -> (s: ButtonStyle)
        ensures
            s == spec_button_style(Button::Secondary, dark, status),
            s.wf(),
    {
        Self::button(Button::Secondary, dark, status)
    }

    /// The success (green, filled) button.
    pub fn success_button(dark: bool, status: ButtonStatus) -> (s: ButtonStyle)
        ensures
            s == spec_button_style(Button::Success, dark, status),
            s.wf(),
    {
        Self::button(Button::Success, dark, status)
    }

    /// The warning (orange, filled) button.
    pub fn warning_button(dark: bool, status: ButtonStatus) -> (s: ButtonStyle)
        ensures
            s == spec_button_style(Button::Warning, dark, status),
            s.wf(),
    {
        Self::button(Button::Warning, dark, status)
    }

    /// The danger (red, filled) button.
    pub fn danger_button(dark: bool, status: ButtonStatus) -> (s: ButtonStyle)
        ensures
            s == spec_button_style(Button::Danger, dark, status),
            s.wf(),
    {
        Self::button(Button::Danger, dark, status)
    }

    /// The link (text-only, link-colored) button.
    pub fn link_button(dark: bool, status: ButtonStatus) -> (s: ButtonStyle)
        ensures
            s == spec_button_style(Button::Link, dark, status),
            s.wf(),
    {
        Self::button(Button::Link, dark, status)
    }

    /// The system (neutral fill) button.
    pub fn system_button(dark: bool, status: ButtonStatus) -> (s: ButtonStyle)
        ensures
            s == spec_button_style(Button::System, dark, status),
            s.wf(),
    {
        Self::button(Button::System, dark, status)
    }

    /// The plain (text-only, text-colored) button.
    pub fn plain_button(dark: bool, status: ButtonStatus) -> (s: ButtonStyle)
        ensures
            s == spec_button_style(Button::Plain, dark, status),
            s.wf(),
    {
        Self::button(Button::Plain, dark, status)
    }

    /// The teal accent button.
    pub fn teal_button(dark: bool, status: ButtonStatus) -> (s: ButtonStyle)
        ensures
            s == spec_accent_button_style(
                spec_theme_colors(dark).teal,
                crate::color::spec_white(),
                dark,
                status,
            ),
            s.wf(),
    {
        let tc = get_theme_colors(dark);
        button::accent_button_style(tc.teal, Color::white(), dark, status)
    }

    /// The indigo accent button.
    pub fn indigo_button(dark: bool, status: ButtonStatus) -> (s: ButtonStyle)
        ensures
            s == spec_accent_button_style(
                spec_theme_colors(dark).indigo,
                crate::color::spec_white(),
                dark,
                status,
            ),
            s.wf(),
    {
        let tc = get_theme_colors(dark);
        button::accent_button_style(tc.indigo, Color::white(), dark, status)
    }

    /// The purple accent button.
    pub fn purple_button(dark: bool, status: ButtonStatus) -> (s: ButtonStyle)
        ensures
            s == spec_accent_button_style(
                spec_theme_colors(dark).purple,
                crate::color::spec_white(),
                dark,
                status,
            ),
            s.wf(),
    {
        let tc = get_theme_colors(dark);
        button::accent_button_style(tc.purple, Color::white(), dark, status)
    }

    /// The pink accent button.
    pub fn pink_button(dark: bool, status: ButtonStatus) -> (s: ButtonStyle)
        ensures
            s == spec_accent_button_style(
                spec_theme_colors(dark).pink,
                crate::color::spec_white(),
                dark,
                status,
            ),
            s.wf(),
    {
        let tc = get_theme_colors(dark);
        button::accent_button_style(tc.pink, Color::white(), dark, status)
    }

    /// The neutral gray button, labeled in the standard text color.
    pub fn gray_button(dark: bool, status: ButtonStatus) -> (s: ButtonStyle)
        ensures
            s == spec_accent_button_style(
                spec_gray_fill(dark),
                spec_theme_colors(dark).text,
                dark,
                status,
            ),
            s.wf(),
    {
        let tc = get_theme_colors(dark);
        button::accent_button_style(gray_fill(dark), tc.text, dark, status)
    }

    /// The tinted button in the given hue: a low-alpha fill of the hue
    /// under text in the full hue.
    pub fn tinted_button(color_variant: TintedButtonColor, dark: bool, status: ButtonStatus) -> (s:
        ButtonStyle)
        ensures
            s == spec_tinted_button_style(spec_tint_hue(color_variant, dark), dark, status),
            s.wf(),
    {
        let hue = button::tint_hue(color_variant, dark);
        button::tinted_button_style(hue, dark, status)
    }

    /// The blue tinted button.
    pub fn blue_tinted_button(dark: bool, status: ButtonStatus) -> (s: ButtonStyle)
        ensures
            s == spec_tinted_button_style(
                spec_tint_hue(TintedButtonColor::Blue, dark),
                dark,
                status,
            ),
            s.wf(),
    {
        Self::tinted_button(TintedButtonColor::Blue, dark, status)
    }

    /// The green tinted button.
    pub fn green_tinted_button(dark: bool, status: ButtonStatus) -> (s: ButtonStyle)
        ensures
            s == spec_tinted_button_style(
                spec_tint_hue(TintedButtonColor::Green, dark),
                dark,
                status,
            ),
            s.wf(),
    {
        Self::tinted_button(TintedButtonColor::Green, dark, status)
    }

    /// The red tinted button.
    pub fn red_tinted_button(dark: bool, status: ButtonStatus) -> (s: ButtonStyle)
        ensures
            s == spec_tinted_button_style(
                spec_tint_hue(TintedButtonColor::Red, dark),
                dark,
                status,
            ),
            s.wf(),
    {
        Self::tinted_button(TintedButtonColor::Red, dark, status)
    }

    /// The orange tinted button.
    pub fn orange_tinted_button(dark: bool, status: ButtonStatus) -> (s: ButtonStyle)
        ensures
            s == spec_tinted_button_style(
                spec_tint_hue(TintedButtonColor::Orange, dark),
                dark,
                status,
            ),
            s.wf(),
    {
        Self::tinted_button(TintedButtonColor::Orange, dark, status)
    }

    /// The purple tinted button.
    pub fn purple_tinted_button(dark: bool, status: ButtonStatus) -> (s: ButtonStyle)
        ensures
            s == spec_tinted_button_style(
                spec_tint_hue(TintedButtonColor::Purple, dark),
                dark,
                status,
            ),
            s.wf(),
    {
        Self::tinted_button(TintedButtonColor::Purple, dark, status)
    }

    /// The teal tinted button.
    pub fn teal_tinted_button(dark: bool, status: ButtonStatus) -> (s: ButtonStyle)
        ensures
            s == spec_tinted_button_style(
                spec_tint_hue(TintedButtonColor::Teal, dark),
                dark,
                status,
            ),
            s.wf(),
    {
        Self::tinted_button(TintedButtonColor::Teal, dark, status)
    }

    /// The indigo tinted button.
    pub fn indigo_tinted_button(dark: bool, status: ButtonStatus) -> (s: ButtonStyle)
        ensures
            s == spec_tinted_button_style(
                spec_tint_hue(TintedButtonColor::Indigo, dark),
                dark,
                status,
            ),
            s.wf(),
    {
        Self::tinted_button(TintedButtonColor::Indigo, dark, status)
    }

    /// The pink tinted button.
    pub fn pink_tinted_button(dark: bool, status: ButtonStatus) -> (s: ButtonStyle)
        ensures
            s == spec_tinted_button_style(
                spec_tint_hue(TintedButtonColor::Pink, dark),
                dark,
                status,
            ),
            s.wf(),
    {
        Self::tinted_button(TintedButtonColor::Pink, dark, status)
    }

    /// A button style resized to one of the standard sizes.
    pub fn sized_button(style: ButtonStyle, size: ButtonSize) -> (s: ButtonStyle)
        requires
            style.wf(),
        ensures
            s == spec_sized_button(style, size),
            s.wf(),
    {
        button::sized_button(style, size)
    }

    /// A "selected" button for navigation items: in the active status it
    /// shows the pressed look of its base style.  `active_style` is the
    /// base style resolved at the active status, `status_style` the base
    /// style resolved at `status`.
    pub fn selected_button_style(
        dark: bool,
        status: ButtonStatus,
        active_style: ButtonStyle,
        status_style: ButtonStyle,
    ) -> (s: ButtonStyle)
        requires
            active_style.wf(),
            status_style.wf(),
        ensures
            s == spec_selected_button_style(dark, status, active_style, status_style),
            s.wf(),
    {
        button::selected_button_style(dark, status, active_style, status_style)
    }

    /// One of two button styles, picked by a condition.
    pub fn conditional_button_style(
        condition: bool,
        true_style: ButtonStyle,
        false_style: ButtonStyle,
    ) -> (s: ButtonStyle)
        ensures
            s == spec_conditional_button_style(condition, true_style, false_style),
    {
        button::conditional_button_style(condition, true_style, false_style)
    }

    /// The standard text input.
    pub fn text_input(dark: bool, status: TextInputStatus) -> (s: TextInputStyle)
        ensures
            s == spec_text_input_style(dark, status),
            s.wf(),
    {
        text_input::text_input_style(dark, status)
    }

    /// The search field.
    pub fn search_input(dark: bool, status: TextInputStatus) -> (s: TextInputStyle)
        ensures
            s == spec_search_input(dark, status),
            s.wf(),
    {
        text_input::search_input(dark, status)
    }

    /// The inline (underline-only) text input.
    pub fn inline_text_input(dark: bool, status: TextInputStatus) -> (s: TextInputStyle)
        ensures
            s == spec_inline_text_input(dark, status),
            s.wf(),
    {
        text_input::inline_text_input(dark, status)
    }

    /// The text input with the error override.
    pub fn danger_text_input(dark: bool, status: TextInputStatus) -> (s: TextInputStyle)
        ensures
            s == spec_danger_text_input(dark, status),
            s.wf(),
    {
        text_input::danger_text_input(dark, status)
    }

    /// The text input with the warning override.
    pub fn warning_text_input(dark: bool, status: TextInputStatus) -> (s: TextInputStyle)
        ensures
            s == spec_warning_text_input(dark, status),
            s.wf(),
    {
        text_input::warning_text_input(dark, status)
    }

    /// The text input for a validation state.
    pub fn conditional_text_input(
        validation_state: ValidationState,
        dark: bool,
        status: TextInputStatus,
    ) -> (s: TextInputStyle)
        ensures
            s == spec_conditional_text_input(validation_state, dark, status),
            s.wf(),
    {
        text_input::conditional_text_input(validation_state, dark, status)
    }

    /// The text input for a plain error flag.
    pub fn validated_text_input(has_error: bool, dark: bool, status: TextInputStatus) -> (s:
        TextInputStyle)
        ensures
            s == spec_validated_text_input(has_error, dark, status),
            s.wf(),
    {
        text_input::validated_text_input(has_error, dark, status)
    }

    /// One of two text input styles, picked by a condition.
    pub fn conditional_text_input_style(
        condition: bool,
        true_style: TextInputStyle,
        false_style: TextInputStyle,
    ) -> (s: TextInputStyle)
        ensures
            s == spec_conditional_text_input_style(condition, true_style, false_style),
    {
        text_input::conditional_text_input_style(condition, true_style, false_style)
    }

    /// The combo box field: the standard text input look.
    pub fn combo_box(dark: bool, status: TextInputStatus) -> (s: TextInputStyle)
        ensures
            s == spec_combo_box_style(dark, status),
            s.wf(),
    {
        text_input::combo_box_style(dark, status)
    }

    /// The combo box's drop-down menu.
    pub fn combo_box_menu(dark: bool) -> (s: MenuStyle)
        ensures
            s == spec_combo_box_menu(dark),
            s.wf(),
    {
        controls::combo_box_menu(dark)
    }

    /// The style of the given container class in a mode.
    pub fn container(style: Container, dark: bool) -> (s: ContainerStyle)
        ensures
            s == spec_container_style(style, dark),
            s.wf(),
    {
        container::container_style(style, dark)
    }

    /// The card container.
    pub fn card_container(dark: bool) -> (s: ContainerStyle)
        ensures
            s == spec_container_style(Container::Card, dark),
            s.wf(),
    {
        Self::container(Container::Card, dark)
    }

    /// The sheet container.
    pub fn sheet_container(dark: bool) -> (s: ContainerStyle)
        ensures
            s == spec_container_style(Container::Sheet, dark),
            s.wf(),
    {
        Self::container(Container::Sheet, dark)
    }

    /// The grouped-content container.
    pub fn group_container(dark: bool) -> (s: ContainerStyle)
        ensures
            s == spec_container_style(Container::Group, dark),
            s.wf(),
    {
        Self::container(Container::Group, dark)
    }

    /// The sidebar container.
    pub fn sidebar_container(dark: bool) -> (s: ContainerStyle)
        ensures
            s == spec_container_style(Container::Sidebar, dark),
            s.wf(),
    {
        Self::container(Container::Sidebar, dark)
    }

    /// The plain separated-content container.
    pub fn separated_container(dark: bool) -> (s: ContainerStyle)
        ensures
            s == spec_separated_container(dark),
            s.wf(),
    {
        container::separated_container(dark)
    }

    /// The accent-bordered container.
    pub fn accent_container(dark: bool) -> (s: ContainerStyle)
        ensures
            s == spec_accent_container(dark),
            s.wf(),
    {
        container::accent_container(dark)
    }

    /// The toolbar container.
    pub fn toolbar_container(dark: bool) -> (s: ContainerStyle)
        ensures
            s == spec_toolbar_container(dark),
            s.wf(),
    {
        container::toolbar_container(dark)
    }

    /// The floating panel container.
    pub fn floating_container(dark: bool) -> (s: ContainerStyle)
        ensures
            s == spec_floating_container(dark),
            s.wf(),
    {
        container::floating_container(dark)
    }

    /// The tooltip container in error colors.
    pub fn danger_tooltip_container(dark: bool) -> (s: ContainerStyle)
        ensures
            s == spec_danger_tooltip_container(dark),
            s.wf(),
    {
        container::danger_tooltip_container(dark)
    }

    /// The tooltip container in warning colors.
    pub fn warning_tooltip_container(dark: bool) -> (s: ContainerStyle)
        ensures
            s == spec_warning_tooltip_container(dark),
            s.wf(),
    {
        container::warning_tooltip_container(dark)
    }

    /// The tooltip container for a validation state.
    pub fn conditional_tooltip_container(validation_state: ValidationState, dark: bool) -> (s:
        ContainerStyle)
        ensures
            s == spec_conditional_tooltip_container(validation_state, dark),
            s.wf(),
    {
        container::conditional_tooltip_container(validation_state, dark)
    }

    /// The tooltip container for a plain error flag.
    pub fn validated_tooltip_container(has_error: bool, dark: bool) -> (s: ContainerStyle)
        ensures
            s == spec_validated_tooltip_container(has_error, dark),
            s.wf(),
    {
        container::validated_tooltip_container(has_error, dark)
    }

    /// One of two container styles, picked by a condition.
    pub fn conditional_container_style(
        condition: bool,
        true_style: ContainerStyle,
        false_style: ContainerStyle,
    ) -> (s: ContainerStyle)
        ensures
            s == spec_conditional_container_style(condition, true_style, false_style),
    {
        container::conditional_container_style(condition, true_style, false_style)
    }

    /// The radio button.
    pub fn radio(dark: bool, status: RadioStatus) -> (s: RadioStyle)
        ensures
            s == spec_radio_style(dark, status),
            s.wf(),
    {
        controls::radio_style(dark, status)
    }

    /// The checkbox.
    pub fn checkbox(dark: bool, status: CheckboxStatus) -> (s: CheckboxStyle)
        ensures
            s == spec_checkbox_style(dark, status),
            s.wf(),
    {
        controls::checkbox_style(dark, status)
    }

    /// The pick list.
    pub fn pick_list(dark: bool, status: PickListStatus) -> (s: PickListStyle)
        ensures
            s == spec_pick_list_style(dark, status),
            s.wf(),
    {
        controls::pick_list_style(dark, status)
    }

    /// The complete theme of the given mode.
    pub fn theme(dark_mode: bool) -> (t: Theme)
        ensures
            t.name@ == spec_theme_name(dark_mode),
            t.palette == spec_modern_palette(dark_mode),
            t.palette.wf(),
    {
        create_modern_theme(dark_mode)
    }

    /// The light theme.
    pub fn light_theme() -> (t: Theme)
        ensures
            t.name@ == spec_theme_name(false),
            t.palette == spec_modern_palette(false),
            t.palette.wf(),
    {
        Self::theme(false)
    }

    /// The dark theme.
    pub fn dark_theme() -> (t: Theme)
        ensures
            t.name@ == spec_theme_name(true),
            t.palette == spec_modern_palette(true),
            t.palette.wf(),
    {
        Self::theme(true)
    }

    /// The main content text style.
    pub fn primary_text(dark: bool) -> (s: TextStyle)
        ensures
            s == spec_primary_text(dark),
            s.wf(),
    {
        text::primary_text(dark)
    }

    /// The supporting text style.
    pub fn secondary_text(dark: bool) -> (s: TextStyle)
        ensures
            s == spec_secondary_text(dark),
            s.wf(),
    {
        text::secondary_text(dark)
    }

    /// The least prominent text style.
    pub fn tertiary_text(dark: bool) -> (s: TextStyle)
        ensures
            s == spec_tertiary_text(dark),
            s.wf(),
    {
        text::tertiary_text(dark)
    }

    /// The link text style.
    pub fn link_text(dark: bool) -> (s: TextStyle)
        ensures
            s == spec_link_text(dark),
            s.wf(),
    {
        text::link_text(dark)
    }

    /// Text in a fixed color per mode.
    pub fn colored_text(light_color: Color, dark_color: Color, dark: bool) -> (s: TextStyle)
        requires
            light_color.wf(),
            dark_color.wf(),
        ensures
            s == spec_colored_text(light_color, dark_color, dark),
            s.wf(),
    {
        text::colored_text(light_color, dark_color, dark)
    }

    /// Text in the accent red.
    pub fn red_text(dark: bool) -> (s: TextStyle)
        ensures
            s == spec_red_text(dark),
            s.wf(),
    {
        text::red_text(dark)
    }

    /// Text in the accent blue.
    pub fn blue_text(dark: bool) -> (s: TextStyle)
        ensures
            s == spec_blue_text(dark),
            s.wf(),
    {
        text::blue_text(dark)
    }

    /// Text in the accent green.
    pub fn green_text(dark: bool) -> (s: TextStyle)
        ensures
            s == spec_green_text(dark),
            s.wf(),
    {
        text::green_text(dark)
    }

    /// Text in the accent orange.
    pub fn orange_text(dark: bool) -> (s: TextStyle)
        ensures
            s == spec_orange_text(dark),
            s.wf(),
    {
        text::orange_text(dark)
    }

    /// Text in the accent yellow.
    pub fn yellow_text(dark: bool) -> (s: TextStyle)
        ensures
            s == spec_yellow_text(dark),
            s.wf(),
    {
        text::yellow_text(dark)
    }

    /// Text in the accent purple.
    pub fn purple_text(dark: bool) -> (s: TextStyle)
        ensures
            s == spec_purple_text(dark),
            s.wf(),
    {
        text::purple_text(dark)
    }

    /// Text in the accent pink.
    pub fn pink_text(dark: bool) -> (s: TextStyle)
        ensures
            s == spec_pink_text(dark),
            s.wf(),
    {
        text::pink_text(dark)
    }

    /// Text in the accent teal.
    pub fn teal_text(dark: bool) -> (s: TextStyle)
        ensures
            s == spec_teal_text(dark),
            s.wf(),
    {
        text::teal_text(dark)
    }

    /// Text in the accent indigo.
    pub fn indigo_text(dark: bool) -> (s: TextStyle)
        ensures
            s == spec_indigo_text(dark),
            s.wf(),
    {
        text::indigo_text(dark)
    }

    /// Text in the accent mint.
    pub fn mint_text(dark: bool) -> (s: TextStyle)
        ensures
            s == spec_mint_text(dark),
            s.wf(),
    {
        text::mint_text(dark)
    }

    /// Text in the accent brown.
    pub fn brown_text(dark: bool) -> (s: TextStyle)
        ensures
            s == spec_brown_text(dark),
            s.wf(),
    {
        text::brown_text(dark)
    }

    /// Text for success messages: the accent green.
    pub fn success_text(dark: bool) -> (s: TextStyle)
        ensures
            s == spec_green_text(dark),
            s.wf(),
    {
        Self::green_text(dark)
    }

    /// Text for warning messages: the accent orange.
    pub fn warning_text(dark: bool) -> (s: TextStyle)
        ensures
            s == spec_orange_text(dark),
            s.wf(),
    {
        Self::orange_text(dark)
    }

    /// Text for error messages: the accent red.
    pub fn error_text(dark: bool) -> (s: TextStyle)
        ensures
            s == spec_red_text(dark),
            s.wf(),
    {
        Self::red_text(dark)
    }

    /// Text for a plain error flag: red when set, green when not.
    pub fn validated_text(has_error: bool, dark: bool) -> (s: TextStyle)
        ensures
            s == spec_validated_text(has_error, dark),
            s.wf(),
    {
        text::validated_text(has_error, dark)
    }
}

} // verus!
