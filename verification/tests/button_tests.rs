use modern_theme::color::Color;
use modern_theme::style::Button;
use modern_theme::style::ButtonSize;
use modern_theme::style::ButtonStatus;
use modern_theme::style::TintedButtonColor;
use modern_theme::Modern;

const ALL_CLASSES: [Button; 8] = [
    Button::Primary,
    Button::Secondary,
    Button::Success,
    Button::Warning,
    Button::Danger,
    Button::Link,
    Button::System,
    Button::Plain,
];

#[test]
fn primary_button_active_light() {
    let s = Modern::primary_button(false, ButtonStatus::Active);
    assert_eq!(s.background, Some(Color { r: 0, g: 480, b: 1000, a: 1000 }));
    assert_eq!(s.text_color, Color { r: 1000, g: 1000, b: 1000, a: 1000 });
    assert_eq!(s.border.width, 0);
    assert_eq!(s.border.radius, 80);
    assert_eq!(s.shadow.color, Color { r: 0, g: 0, b: 0, a: 100 });
    assert_eq!(s.shadow.offset.y, 10);
    assert_eq!(s.shadow.blur_radius, 20);
    assert!(s.snap);
}

#[test]
fn secondary_button_is_outlined() {
    let s = Modern::secondary_button(false, ButtonStatus::Active);
    assert_eq!(s.background, Some(Color { r: 0, g: 0, b: 0, a: 0 }));
    assert_eq!(s.border.width, 10);
    assert_eq!(s.border.color, Color { r: 0, g: 480, b: 1000, a: 1000 });
    assert_eq!(s.text_color, Color { r: 0, g: 480, b: 1000, a: 1000 });
    assert_eq!(s.shadow.blur_radius, 0);
}

#[test]
fn warning_button_text_follows_mode() {
    let light = Modern::warning_button(false, ButtonStatus::Active);
    assert_eq!(light.text_color, Color { r: 1000, g: 1000, b: 1000, a: 1000 });
    let dark = Modern::warning_button(true, ButtonStatus::Active);
    assert_eq!(dark.text_color, Color { r: 0, g: 0, b: 0, a: 1000 });
}

#[test]
fn hovered_darkens_in_light_mode() {
    let active = Modern::primary_button(false, ButtonStatus::Active);
    let hovered = Modern::primary_button(false, ButtonStatus::Hovered);
    let a = active.background.unwrap();
    let h = hovered.background.unwrap();
    assert_eq!(h, Color { r: 0, g: 430, b: 950, a: 1000 });
    assert!(h.r <= a.r && h.g <= a.g && h.b <= a.b);
    assert_eq!(h.a, a.a);
}

#[test]
fn hovered_lightens_in_dark_mode() {
    let active = Modern::primary_button(true, ButtonStatus::Active);
    let hovered = Modern::primary_button(true, ButtonStatus::Hovered);
    let a = active.background.unwrap();
    let h = hovered.background.unwrap();
    assert_eq!(h, Color { r: 90, g: 570, b: 1000, a: 1000 });
    assert!(h.r >= a.r && h.g >= a.g && h.b >= a.b);
}

#[test]
fn pressed_shifts_twice_as_far_and_drops_shadow() {
    let pressed = Modern::primary_button(false, ButtonStatus::Pressed);
    assert_eq!(pressed.background, Some(Color { r: 0, g: 380, b: 900, a: 1000 }));
    assert_eq!(pressed.shadow.color.a, 0);
    assert_eq!(pressed.shadow.blur_radius, 0);
}

#[test]
fn shift_clamps_at_the_unit_bounds() {
    // The secondary fill is transparent black: darkening clamps at zero.
    let hovered = Modern::secondary_button(false, ButtonStatus::Hovered);
    assert_eq!(hovered.background, Some(Color { r: 0, g: 0, b: 0, a: 0 }));
    // The red tinted fill has a full red channel: lightening clamps at one.
    let t = Modern::red_tinted_button(true, ButtonStatus::Hovered);
    assert_eq!(t.background.unwrap().r, 1000);
}

#[test]
fn disabled_halves_alpha_for_every_class_and_mode() {
    for class in ALL_CLASSES {
        for dark in [false, true] {
            let active = Modern::button(class, dark, ButtonStatus::Active);
            let disabled = Modern::button(class, dark, ButtonStatus::Disabled);
            assert_eq!(disabled.text_color.a, active.text_color.a / 2);
            let a = active.background.unwrap();
            let d = disabled.background.unwrap();
            assert_eq!(d.a, a.a / 2);
            assert_eq!((d.r, d.g, d.b), (a.r, a.g, a.b));
            assert_eq!(disabled.border.color.a, active.border.color.a / 2);
            assert_eq!(disabled.shadow.color.a, 0);
            assert_eq!(disabled.shadow.blur_radius, 0);
        }
    }
}

#[test]
fn hover_and_press_shift_all_filled_classes() {
    for class in ALL_CLASSES {
        if class == Button::Link || class == Button::Plain {
            continue;
        }
        for dark in [false, true] {
            let a = Modern::button(class, dark, ButtonStatus::Active).background.unwrap();
            let h = Modern::button(class, dark, ButtonStatus::Hovered).background.unwrap();
            let p = Modern::button(class, dark, ButtonStatus::Pressed).background.unwrap();
            for (base, shifted, delta) in [(a, h, 50), (a, p, 100)] {
                for (b, s) in [(base.r, shifted.r), (base.g, shifted.g), (base.b, shifted.b)] {
                    let expect = if dark {
                        (b + delta).min(1000)
                    } else {
                        b.saturating_sub(delta)
                    };
                    assert_eq!(s, expect);
                }
                assert_eq!(shifted.a, base.a);
            }
        }
    }
}

#[test]
fn link_and_plain_fade_text_instead_of_shifting() {
    for class in [Button::Link, Button::Plain] {
        for dark in [false, true] {
            let active = Modern::button(class, dark, ButtonStatus::Active);
            let hovered = Modern::button(class, dark, ButtonStatus::Hovered);
            let pressed = Modern::button(class, dark, ButtonStatus::Pressed);
            assert_eq!(hovered.background, active.background);
            assert_eq!(pressed.background, active.background);
            assert_eq!(hovered.text_color.a as u32, active.text_color.a as u32 * 800 / 1000);
            assert_eq!(pressed.text_color.a as u32, active.text_color.a as u32 * 600 / 1000);
            assert_eq!(pressed.shadow.blur_radius, 0);
        }
    }
}

#[test]
fn resolution_is_pure() {
    for class in ALL_CLASSES {
        for dark in [false, true] {
            for status in [
                ButtonStatus::Active,
                ButtonStatus::Hovered,
                ButtonStatus::Pressed,
                ButtonStatus::Disabled,
            ] {
                assert_eq!(
                    Modern::button(class, dark, status),
                    Modern::button(class, dark, status)
                );
            }
        }
    }
}

#[test]
fn tinted_button_uses_low_alpha_fill_and_full_hue_text() {
    let s = Modern::blue_tinted_button(false, ButtonStatus::Active);
    assert_eq!(s.background, Some(Color { r: 0, g: 480, b: 1000, a: 200 }));
    assert_eq!(s.text_color, Color { r: 0, g: 480, b: 1000, a: 1000 });
    assert_eq!(s.shadow.color.a, 50);
    let d = Modern::blue_tinted_button(false, ButtonStatus::Disabled);
    assert_eq!(d.background.unwrap().a, 100);
}

#[test]
fn every_tinted_hue_matches_the_palette() {
    let hues = [
        (TintedButtonColor::Blue, Color { r: 0, g: 480, b: 1000, a: 1000 }),
        (TintedButtonColor::Green, Color { r: 200, g: 780, b: 350, a: 1000 }),
        (TintedButtonColor::Red, Color { r: 1000, g: 230, b: 190, a: 1000 }),
        (TintedButtonColor::Orange, Color { r: 1000, g: 580, b: 0, a: 1000 }),
        (TintedButtonColor::Purple, Color { r: 690, g: 320, b: 870, a: 1000 }),
        (TintedButtonColor::Teal, Color { r: 350, g: 780, b: 980, a: 1000 }),
        (TintedButtonColor::Pink, Color { r: 1000, g: 180, b: 330, a: 1000 }),
        (TintedButtonColor::Indigo, Color { r: 350, g: 340, b: 840, a: 1000 }),
    ];
    for (variant, hue) in hues {
        let s = Modern::tinted_button(variant, false, ButtonStatus::Active);
        assert_eq!(s.text_color, hue);
        assert_eq!(s.background, Some(Color { a: 200, ..hue }));
    }
}

#[test]
fn gray_button_fill_follows_mode() {
    let light = Modern::gray_button(false, ButtonStatus::Active);
    assert_eq!(light.background, Some(Color { r: 820, g: 820, b: 840, a: 1000 }));
    assert_eq!(light.text_color, Color { r: 0, g: 0, b: 0, a: 1000 });
    let dark = Modern::gray_button(true, ButtonStatus::Active);
    assert_eq!(dark.background, Some(Color { r: 280, g: 280, b: 290, a: 1000 }));
    assert_eq!(dark.text_color, Color { r: 1000, g: 1000, b: 1000, a: 1000 });
}

#[test]
fn teal_button_matches_accent_family() {
    let s = Modern::teal_button(true, ButtonStatus::Active);
    assert_eq!(s.background, Some(Color { r: 390, g: 820, b: 1000, a: 1000 }));
    assert_eq!(s.text_color, Color { r: 1000, g: 1000, b: 1000, a: 1000 });
    let p = Modern::teal_button(true, ButtonStatus::Pressed);
    assert_eq!(p.background, Some(Color { r: 490, g: 920, b: 1000, a: 1000 }));
}

#[test]
fn sized_button_changes_only_the_radius() {
    let base = Modern::primary_button(false, ButtonStatus::Active);
    let small = Modern::sized_button(base, ButtonSize::Small);
    let medium = Modern::sized_button(base, ButtonSize::Medium);
    let large = Modern::sized_button(base, ButtonSize::Large);
    assert_eq!(small.border.radius, 64);
    assert_eq!(medium.border.radius, 80);
    assert_eq!(large.border.radius, 96);
    assert_eq!(small.background, base.background);
    assert_eq!(small.text_color, base.text_color);
    assert_eq!(small.shadow, base.shadow);
}

#[test]
fn selected_button_presses_the_active_status() {
    let active = Modern::primary_button(false, ButtonStatus::Active);
    let hovered = Modern::primary_button(false, ButtonStatus::Hovered);
    let selected = Modern::selected_button_style(false, ButtonStatus::Active, active, active);
    assert_eq!(selected, Modern::primary_button(false, ButtonStatus::Pressed));
    let untouched = Modern::selected_button_style(false, ButtonStatus::Hovered, active, hovered);
    assert_eq!(untouched, hovered);
}

#[test]
fn conditional_button_style_picks_by_condition() {
    let yes = Modern::primary_button(false, ButtonStatus::Active);
    let no = Modern::danger_button(false, ButtonStatus::Active);
    assert_eq!(Modern::conditional_button_style(true, yes, no), yes);
    assert_eq!(Modern::conditional_button_style(false, yes, no), no);
}
