use modern_theme::color::Color;
use modern_theme::style::Container;
use modern_theme::style::ValidationState;
use modern_theme::Modern;

const ALL_CLASSES: [Container; 5] = [
    Container::Transparent,
    Container::Card,
    Container::Sheet,
    Container::Group,
    Container::Sidebar,
];

#[test]
fn transparent_container_has_no_fill() {
    for dark in [false, true] {
        let s = Modern::container(Container::Transparent, dark);
        assert_eq!(s.background, None);
        assert_eq!(s.border.width, 0);
        assert_eq!(s.shadow.blur_radius, 0);
        assert!(s.text_color.is_some());
    }
}

#[test]
fn card_container_light() {
    let s = Modern::card_container(false);
    assert_eq!(s.background, Some(Color { r: 1000, g: 1000, b: 1000, a: 1000 }));
    assert_eq!(s.text_color, Some(Color { r: 0, g: 0, b: 0, a: 1000 }));
    assert_eq!(s.border.radius, 100);
    assert_eq!(s.shadow.color, Color { r: 0, g: 0, b: 0, a: 100 });
    assert_eq!(s.shadow.offset.y, 20);
    assert_eq!(s.shadow.blur_radius, 80);
}

#[test]
fn sheet_container_backgrounds() {
    assert_eq!(
        Modern::sheet_container(false).background,
        Some(Color { r: 950, g: 950, b: 970, a: 1000 })
    );
    assert_eq!(
        Modern::sheet_container(true).background,
        Some(Color { r: 220, g: 220, b: 230, a: 1000 })
    );
    assert_eq!(Modern::sheet_container(true).border.radius, 120);
}

#[test]
fn group_container_has_no_shadow() {
    for dark in [false, true] {
        let s = Modern::group_container(dark);
        assert_eq!(s.shadow.blur_radius, 0);
        assert_eq!(s.border.radius, 100);
    }
    assert_eq!(
        Modern::group_container(true).background,
        Some(Color { r: 170, g: 170, b: 180, a: 1000 })
    );
}

#[test]
fn sidebar_container_shadow_points_right() {
    let s = Modern::sidebar_container(false);
    assert_eq!(s.background, Some(Color { r: 920, g: 920, b: 930, a: 1000 }));
    assert_eq!(s.shadow.offset.x, 10);
    assert_eq!(s.shadow.offset.y, 0);
    assert_eq!(s.shadow.color.a, 50);
}

#[test]
fn light_and_dark_never_share_a_fill() {
    for class in ALL_CLASSES {
        if class == Container::Transparent {
            continue;
        }
        let light = Modern::container(class, false).background.unwrap();
        let dark = Modern::container(class, true).background.unwrap();
        assert_ne!(light, dark);
    }
}

#[test]
fn container_resolution_is_pure() {
    for class in ALL_CLASSES {
        for dark in [false, true] {
            assert_eq!(Modern::container(class, dark), Modern::container(class, dark));
        }
    }
}

#[test]
fn accent_container_has_accent_border() {
    let s = Modern::accent_container(false);
    assert_eq!(s.border.color, Color { r: 0, g: 480, b: 1000, a: 1000 });
    assert_eq!(s.border.width, 20);
    assert_eq!(s.border.radius, 80);
}

#[test]
fn toolbar_container_uses_system_fill() {
    assert_eq!(
        Modern::toolbar_container(false).background,
        Some(Color { r: 900, g: 900, b: 920, a: 1000 })
    );
    assert_eq!(
        Modern::toolbar_container(true).background,
        Some(Color { r: 280, g: 280, b: 290, a: 1000 })
    );
}

#[test]
fn floating_container_has_strong_shadow() {
    let s = Modern::floating_container(true);
    assert_eq!(s.background, Some(Color { r: 170, g: 170, b: 180, a: 1000 }));
    assert_eq!(s.shadow.color.a, 250);
    assert_eq!(s.shadow.blur_radius, 160);
}

#[test]
fn separated_container_uses_window_background() {
    let s = Modern::separated_container(false);
    assert_eq!(s.background, Some(Color { r: 950, g: 950, b: 970, a: 1000 }));
    assert_eq!(s.shadow.blur_radius, 0);
    assert_eq!(s.border.width, 0);
}

#[test]
fn danger_tooltip_container_colors() {
    let light = Modern::danger_tooltip_container(false);
    assert_eq!(light.text_color, Some(Color { r: 700, g: 0, b: 0, a: 1000 }));
    assert_eq!(light.background, Some(Color { r: 1000, g: 920, b: 920, a: 1000 }));
    assert_eq!(light.border.color, Color { r: 900, g: 600, b: 600, a: 1000 });
    let dark = Modern::danger_tooltip_container(true);
    assert_eq!(dark.text_color, Some(Color { r: 1000, g: 600, b: 600, a: 1000 }));
    assert_eq!(dark.background, Some(Color { r: 400, g: 100, b: 100, a: 1000 }));
    assert_eq!(dark.border.color, Color { r: 800, g: 300, b: 300, a: 1000 });
}

#[test]
fn warning_tooltip_container_colors() {
    let light = Modern::warning_tooltip_container(false);
    assert_eq!(light.text_color, Some(Color { r: 1000, g: 580, b: 0, a: 1000 }));
    assert_eq!(light.background, Some(Color { r: 1000, g: 960, b: 900, a: 1000 }));
    let dark = Modern::warning_tooltip_container(true);
    assert_eq!(dark.background, Some(Color { r: 300, g: 150, b: 0, a: 700 }));
    assert_eq!(dark.border.color, Color { r: 1000, g: 620, b: 40, a: 1000 });
}

#[test]
fn conditional_tooltip_container_picks_by_state() {
    for dark in [false, true] {
        assert_eq!(
            Modern::conditional_tooltip_container(ValidationState::Error, dark),
            Modern::danger_tooltip_container(dark)
        );
        assert_eq!(
            Modern::conditional_tooltip_container(ValidationState::Warning, dark),
            Modern::warning_tooltip_container(dark)
        );
        assert_eq!(
            Modern::conditional_tooltip_container(ValidationState::Valid, dark),
            Modern::card_container(dark)
        );
    }
}

#[test]
fn validated_tooltip_container_picks_by_flag() {
    for dark in [false, true] {
        assert_eq!(
            Modern::validated_tooltip_container(true, dark),
            Modern::danger_tooltip_container(dark)
        );
        assert_eq!(
            Modern::validated_tooltip_container(false, dark),
            Modern::card_container(dark)
        );
    }
}

#[test]
fn conditional_container_style_picks_by_condition() {
    let yes = Modern::card_container(false);
    let no = Modern::sheet_container(false);
    assert_eq!(Modern::conditional_container_style(true, yes, no), yes);
    assert_eq!(Modern::conditional_container_style(false, yes, no), no);
}
