use modern_theme::color::Color;
use modern_theme::Modern;

#[test]
fn text_hierarchy_light() {
    assert_eq!(
        Modern::primary_text(false).color,
        Some(Color { r: 0, g: 0, b: 0, a: 1000 })
    );
    assert_eq!(
        Modern::secondary_text(false).color,
        Some(Color { r: 240, g: 240, b: 260, a: 600 })
    );
    assert_eq!(
        Modern::tertiary_text(false).color,
        Some(Color { r: 240, g: 240, b: 260, a: 300 })
    );
    assert_eq!(
        Modern::link_text(false).color,
        Some(Color { r: 0, g: 480, b: 1000, a: 1000 })
    );
}

#[test]
fn text_hierarchy_dark() {
    assert_eq!(
        Modern::primary_text(true).color,
        Some(Color { r: 1000, g: 1000, b: 1000, a: 1000 })
    );
    assert_eq!(
        Modern::secondary_text(true).color,
        Some(Color { r: 920, g: 920, b: 960, a: 600 })
    );
    assert_eq!(
        Modern::link_text(true).color,
        Some(Color { r: 40, g: 520, b: 1000, a: 1000 })
    );
}

#[test]
fn colored_text_picks_the_mode_color() {
    let light_color = Color { r: 100, g: 200, b: 300, a: 1000 };
    let dark_color = Color { r: 900, g: 800, b: 700, a: 1000 };
    assert_eq!(
        Modern::colored_text(light_color, dark_color, false).color,
        Some(light_color)
    );
    assert_eq!(
        Modern::colored_text(light_color, dark_color, true).color,
        Some(dark_color)
    );
}

#[test]
fn accent_text_colors() {
    assert_eq!(
        Modern::red_text(false).color,
        Some(Color { r: 1000, g: 230, b: 190, a: 1000 })
    );
    assert_eq!(
        Modern::red_text(true).color,
        Some(Color { r: 1000, g: 270, b: 230, a: 1000 })
    );
    assert_eq!(
        Modern::yellow_text(false).color,
        Some(Color { r: 1000, g: 800, b: 0, a: 1000 })
    );
    assert_eq!(
        Modern::yellow_text(true).color,
        Some(Color { r: 1000, g: 840, b: 40, a: 1000 })
    );
    assert_eq!(
        Modern::mint_text(false).color,
        Some(Color { r: 0, g: 780, b: 750, a: 1000 })
    );
    assert_eq!(
        Modern::brown_text(true).color,
        Some(Color { r: 670, g: 560, b: 410, a: 1000 })
    );
    assert_eq!(Modern::blue_text(false), Modern::link_text(false));
    assert_eq!(
        Modern::teal_text(true).color,
        Some(Color { r: 390, g: 820, b: 1000, a: 1000 })
    );
    assert_eq!(
        Modern::indigo_text(false).color,
        Some(Color { r: 350, g: 340, b: 840, a: 1000 })
    );
    assert_eq!(
        Modern::purple_text(false).color,
        Some(Color { r: 690, g: 320, b: 870, a: 1000 })
    );
    assert_eq!(
        Modern::pink_text(true).color,
        Some(Color { r: 1000, g: 220, b: 370, a: 1000 })
    );
    assert_eq!(
        Modern::orange_text(false).color,
        Some(Color { r: 1000, g: 580, b: 0, a: 1000 })
    );
    assert_eq!(
        Modern::green_text(true).color,
        Some(Color { r: 190, g: 820, b: 350, a: 1000 })
    );
}

#[test]
fn message_text_aliases() {
    for dark in [false, true] {
        assert_eq!(Modern::success_text(dark), Modern::green_text(dark));
        assert_eq!(Modern::warning_text(dark), Modern::orange_text(dark));
        assert_eq!(Modern::error_text(dark), Modern::red_text(dark));
    }
}

#[test]
fn validated_text_picks_by_flag() {
    for dark in [false, true] {
        assert_eq!(Modern::validated_text(true, dark), Modern::red_text(dark));
        assert_eq!(Modern::validated_text(false, dark), Modern::green_text(dark));
    }
}
