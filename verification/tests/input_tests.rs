use modern_theme::color::Color;
use modern_theme::style::PickListStatus;
use modern_theme::style::TextInputStatus;
use modern_theme::style::ValidationState;
use modern_theme::Modern;

const ALL_STATUSES: [TextInputStatus; 5] = [
    TextInputStatus::Active,
    TextInputStatus::Hovered,
    TextInputStatus::Focused { is_hovered: false },
    TextInputStatus::Focused { is_hovered: true },
    TextInputStatus::Disabled,
];

#[test]
fn text_input_active_light() {
    let s = Modern::text_input(false, TextInputStatus::Active);
    assert_eq!(s.background, Color { r: 1000, g: 1000, b: 1000, a: 1000 });
    assert_eq!(s.border.color, Color { r: 780, g: 780, b: 800, a: 1000 });
    assert_eq!(s.border.width, 10);
    assert_eq!(s.border.radius, 60);
    assert_eq!(s.value, Color { r: 0, g: 0, b: 0, a: 1000 });
    // The selection fill is the accent blue at 0.3 alpha.
    assert_eq!(s.selection, Color { r: 0, g: 480, b: 1000, a: 300 });
}

#[test]
fn text_input_hovered_changes_only_the_border() {
    let active = Modern::text_input(true, TextInputStatus::Active);
    let hovered = Modern::text_input(true, TextInputStatus::Hovered);
    assert_eq!(hovered.border.color, Color { r: 920, g: 920, b: 960, a: 300 });
    assert_eq!(hovered.background, active.background);
    assert_eq!(hovered.value, active.value);
    assert_eq!(hovered.border.width, active.border.width);
}

#[test]
fn text_input_focused_takes_the_accent_border() {
    for hover in [false, true] {
        let s = Modern::text_input(false, TextInputStatus::Focused { is_hovered: hover });
        assert_eq!(s.border.color, Color { r: 0, g: 480, b: 1000, a: 1000 });
        assert_eq!(s.border.width, 20);
    }
}

#[test]
fn text_input_disabled_fades_fill_and_value() {
    let active = Modern::text_input(false, TextInputStatus::Active);
    let s = Modern::text_input(false, TextInputStatus::Disabled);
    assert_eq!(s.background.a as u32, active.background.a as u32 * 700 / 1000);
    assert_eq!(s.value.a, active.value.a / 2);
    assert_eq!(s.border.color.a, active.border.color.a / 2);
}

#[test]
fn text_input_resolution_is_pure() {
    for dark in [false, true] {
        for status in ALL_STATUSES {
            assert_eq!(Modern::text_input(dark, status), Modern::text_input(dark, status));
        }
    }
}

#[test]
fn combo_box_matches_text_input() {
    for dark in [false, true] {
        for status in ALL_STATUSES {
            assert_eq!(Modern::combo_box(dark, status), Modern::text_input(dark, status));
        }
    }
}

#[test]
fn search_input_is_borderless_and_brightens_on_focus() {
    let s = Modern::search_input(false, TextInputStatus::Active);
    assert_eq!(s.background, Color { r: 900, g: 900, b: 920, a: 1000 });
    assert_eq!(s.border.width, 0);
    assert_eq!(s.border.radius, 80);
    assert_eq!(s, Modern::search_input(false, TextInputStatus::Hovered));
    let focused = Modern::search_input(false, TextInputStatus::Focused { is_hovered: false });
    assert_eq!(focused.background, Color { r: 920, g: 920, b: 940, a: 1000 });
    let disabled = Modern::search_input(false, TextInputStatus::Disabled);
    assert_eq!(disabled.background.a, 700);
    assert_eq!(disabled.value.a, 500);
}

#[test]
fn inline_text_input_underline_states() {
    let active = Modern::inline_text_input(false, TextInputStatus::Active);
    assert_eq!(active.background, Color { r: 0, g: 0, b: 0, a: 0 });
    assert_eq!(active.border.color, Color { r: 840, g: 840, b: 860, a: 1000 });
    assert_eq!(active.border.radius, 0);
    let hovered = Modern::inline_text_input(false, TextInputStatus::Hovered);
    assert_eq!(hovered.border.color, Color { r: 240, g: 240, b: 260, a: 300 });
    let focused = Modern::inline_text_input(false, TextInputStatus::Focused { is_hovered: false });
    assert_eq!(focused.border.color, Color { r: 0, g: 480, b: 1000, a: 1000 });
    assert_eq!(focused.border.width, 20);
    let disabled = Modern::inline_text_input(false, TextInputStatus::Disabled);
    assert_eq!(disabled.border.color.a, 500);
    assert_eq!(disabled.value.a, 500);
}

#[test]
fn danger_text_input_overrides_border_and_fill() {
    for status in ALL_STATUSES {
        let s = Modern::danger_text_input(false, status);
        assert_eq!(s.border.color, Color { r: 1000, g: 230, b: 190, a: 1000 });
        assert_eq!(s.border.width, 10);
        assert_eq!(s.background, Color { r: 1000, g: 900, b: 900, a: 1000 });
    }
    let dark = Modern::danger_text_input(true, TextInputStatus::Active);
    assert_eq!(dark.background, Color { r: 300, g: 0, b: 0, a: 200 });
}

#[test]
fn warning_text_input_overrides_only_the_border() {
    let base = Modern::text_input(false, TextInputStatus::Active);
    let s = Modern::warning_text_input(false, TextInputStatus::Active);
    assert_eq!(s.border.color, Color { r: 1000, g: 580, b: 0, a: 1000 });
    assert_eq!(s.border.width, 10);
    assert_eq!(s.background, base.background);
    assert_eq!(s.value, base.value);
}

#[test]
fn conditional_text_input_picks_by_state() {
    for dark in [false, true] {
        for status in ALL_STATUSES {
            assert_eq!(
                Modern::conditional_text_input(ValidationState::Error, dark, status),
                Modern::danger_text_input(dark, status)
            );
            assert_eq!(
                Modern::conditional_text_input(ValidationState::Warning, dark, status),
                Modern::warning_text_input(dark, status)
            );
            assert_eq!(
                Modern::conditional_text_input(ValidationState::Valid, dark, status),
                Modern::inline_text_input(dark, status)
            );
        }
    }
}

#[test]
fn validated_text_input_picks_by_flag() {
    let status = TextInputStatus::Active;
    assert_eq!(
        Modern::validated_text_input(true, false, status),
        Modern::danger_text_input(false, status)
    );
    assert_eq!(
        Modern::validated_text_input(false, false, status),
        Modern::inline_text_input(false, status)
    );
}

#[test]
fn conditional_text_input_style_picks_by_condition() {
    let yes = Modern::text_input(false, TextInputStatus::Active);
    let no = Modern::search_input(false, TextInputStatus::Active);
    assert_eq!(Modern::conditional_text_input_style(true, yes, no), yes);
    assert_eq!(Modern::conditional_text_input_style(false, yes, no), no);
}

#[test]
fn pick_list_states() {
    let base = Modern::pick_list(false, PickListStatus::Active);
    assert_eq!(base.background, Color { r: 1000, g: 1000, b: 1000, a: 1000 });
    assert_eq!(base.border.color, Color { r: 780, g: 780, b: 800, a: 1000 });
    assert_eq!(base.handle_color, Color { r: 240, g: 240, b: 260, a: 300 });
    let hovered = Modern::pick_list(false, PickListStatus::Hovered);
    assert_eq!(hovered.border.color, Color { r: 240, g: 240, b: 260, a: 300 });
    let opened = Modern::pick_list(false, PickListStatus::Opened { is_hovered: false });
    assert_eq!(opened.border.color, Color { r: 0, g: 480, b: 1000, a: 1000 });
    assert_eq!(opened.border.width, 15);
    assert_eq!(opened.handle_color, Color { r: 0, g: 480, b: 1000, a: 1000 });
}

#[test]
fn combo_box_menu_colors() {
    let s = Modern::combo_box_menu(false);
    assert_eq!(s.background, Color { r: 1000, g: 1000, b: 1000, a: 1000 });
    assert_eq!(s.border.color, Color { r: 780, g: 780, b: 800, a: 1000 });
    assert_eq!(s.border.radius, 40);
    assert_eq!(s.selected_text_color, Color { r: 1000, g: 1000, b: 1000, a: 1000 });
    assert_eq!(s.selected_background, Color { r: 0, g: 480, b: 1000, a: 1000 });
    assert_eq!(s.shadow.blur_radius, 0);
}
