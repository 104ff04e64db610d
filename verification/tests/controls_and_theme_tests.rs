use modern_theme::color::Color;
use modern_theme::style::CheckboxStatus;
use modern_theme::style::RadioStatus;
use modern_theme::Modern;

#[test]
fn radio_selected_ring_is_the_accent() {
    for dark in [false, true] {
        let selected = Modern::radio(dark, RadioStatus::Active { is_selected: true });
        assert_eq!(selected.border_color, selected.dot_color);
        assert_eq!(selected.border_width, 20);
        assert_eq!(selected.background, Color { r: 0, g: 0, b: 0, a: 0 });
    }
}

#[test]
fn radio_unselected_states() {
    let inactive = Modern::radio(false, RadioStatus::Active { is_selected: false });
    assert_eq!(inactive.border_color, Color { r: 700, g: 700, b: 720, a: 1000 });
    let hovered = Modern::radio(false, RadioStatus::Hovered { is_selected: false });
    assert_eq!(hovered.border_color, Color { r: 0, g: 480, b: 1000, a: 500 });
    let hovered_selected = Modern::radio(false, RadioStatus::Hovered { is_selected: true });
    assert_eq!(hovered_selected.border_color, Color { r: 0, g: 480, b: 1000, a: 1000 });
}

#[test]
fn checkbox_checked_states() {
    let active = Modern::checkbox(false, CheckboxStatus::Active { is_checked: true });
    assert_eq!(active.background, Color { r: 0, g: 480, b: 1000, a: 1000 });
    assert_eq!(active.icon_color, Color { r: 1000, g: 1000, b: 1000, a: 1000 });
    assert_eq!(active.border.width, 0);
    assert_eq!(active.border.radius, 40);
    let hovered = Modern::checkbox(false, CheckboxStatus::Hovered { is_checked: true });
    assert_eq!(hovered.background.a, 900);
    let disabled = Modern::checkbox(false, CheckboxStatus::Disabled { is_checked: true });
    assert_eq!(disabled.background.a, 500);
    assert_eq!(disabled.icon_color.a, 500);
    assert_eq!(disabled.text_color.unwrap().a, 500);
}

#[test]
fn checkbox_unchecked_states() {
    let active = Modern::checkbox(false, CheckboxStatus::Active { is_checked: false });
    assert_eq!(active.background, Color { r: 0, g: 0, b: 0, a: 0 });
    assert_eq!(active.icon_color, Color { r: 0, g: 0, b: 0, a: 0 });
    assert_eq!(active.border.color, Color { r: 700, g: 700, b: 720, a: 1000 });
    assert_eq!(active.border.width, 20);
    let hovered = Modern::checkbox(false, CheckboxStatus::Hovered { is_checked: false });
    assert_eq!(hovered.border.color, Color { r: 0, g: 480, b: 1000, a: 500 });
    let disabled = Modern::checkbox(false, CheckboxStatus::Disabled { is_checked: false });
    assert_eq!(disabled.border.color.a, 500);
}

#[test]
fn checkbox_disabled_halves_text_alpha() {
    for dark in [false, true] {
        for checked in [false, true] {
            let active = Modern::checkbox(dark, CheckboxStatus::Active { is_checked: checked });
            let disabled = Modern::checkbox(dark, CheckboxStatus::Disabled { is_checked: checked });
            assert_eq!(
                disabled.text_color.unwrap().a,
                active.text_color.unwrap().a / 2
            );
        }
    }
}

#[test]
fn theme_names_follow_the_mode() {
    assert_eq!(Modern::light_theme().name, "Modern Light");
    assert_eq!(Modern::dark_theme().name, "Modern Dark");
    assert_eq!(Modern::theme(true).name, "Modern Dark");
}

#[test]
fn theme_palette_light() {
    let t = Modern::light_theme();
    assert_eq!(t.palette.background, Color { r: 950, g: 950, b: 970, a: 1000 });
    assert_eq!(t.palette.text, Color { r: 0, g: 0, b: 0, a: 1000 });
    assert_eq!(t.palette.primary, Color { r: 0, g: 480, b: 1000, a: 1000 });
    assert_eq!(t.palette.success, Color { r: 200, g: 780, b: 350, a: 1000 });
    assert_eq!(t.palette.danger, Color { r: 1000, g: 230, b: 190, a: 1000 });
    assert_eq!(t.palette.warning, Color { r: 1000, g: 580, b: 0, a: 1000 });
}

#[test]
fn theme_palette_dark() {
    let t = Modern::dark_theme();
    assert_eq!(t.palette.background, Color { r: 110, g: 110, b: 120, a: 1000 });
    assert_eq!(t.palette.text, Color { r: 1000, g: 1000, b: 1000, a: 1000 });
    assert_eq!(t.palette.primary, Color { r: 40, g: 520, b: 1000, a: 1000 });
    assert_eq!(t.palette.success, Color { r: 190, g: 820, b: 350, a: 1000 });
    assert_eq!(t.palette.danger, Color { r: 1000, g: 270, b: 230, a: 1000 });
    assert_eq!(t.palette.warning, Color { r: 1000, g: 620, b: 40, a: 1000 });
}

#[test]
fn theme_palettes_differ_across_modes() {
    let light = Modern::light_theme().palette;
    let dark = Modern::dark_theme().palette;
    assert_ne!(light.background, dark.background);
    assert_ne!(light.text, dark.text);
    assert_ne!(light.primary, dark.primary);
}

#[test]
fn color_arithmetic_edges() {
    // Scaling the alpha floors toward zero and clamps nothing else.
    let c = Color { r: 10, g: 20, b: 30, a: 55 };
    let scaled = c.scale_alpha(500);
    assert_eq!(scaled, Color { r: 10, g: 20, b: 30, a: 27 });
    // Shifting clamps at both ends of the unit range.
    let white = Color::white();
    assert_eq!(white.shift_rgb(true, 100), white);
    let black = Color::black();
    assert_eq!(black.shift_rgb(false, 100), black);
}
