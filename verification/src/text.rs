//! Text label styles: the standard hierarchy (primary, secondary,
//! tertiary, link) and the named accent colors, each as a per-mode pair.

use vstd::prelude::*;

use crate::color::Color;
use crate::colors::brown;
use crate::colors::get_theme_colors;
use crate::colors::mint;
use crate::colors::spec_brown;
use crate::colors::spec_mint;
use crate::colors::spec_theme_colors;
use crate::colors::spec_yellow;
use crate::colors::yellow;
use crate::style::TextStyle;

verus! {

/// The main content text color of the given mode.
pub open spec fn spec_primary_text(dark: bool) -> TextStyle {
    TextStyle { color: Some(spec_theme_colors(dark).text) }
}

/// The main content text color of the given mode.
pub fn primary_text(dark: bool) -> (s: TextStyle)
    ensures
        s == spec_primary_text(dark),
        s.wf(),
{
    let tc = get_theme_colors(dark);
    TextStyle { color: Some(tc.text) }
}

/// The supporting text color of the given mode.
pub open spec fn spec_secondary_text(dark: bool) -> TextStyle {
    TextStyle { color: Some(spec_theme_colors(dark).secondary_text) }
}

/// The supporting text color of the given mode.
pub fn secondary_text(dark: bool) -> (s: TextStyle)
    ensures
        s == spec_secondary_text(dark),
        s.wf(),
{
    let tc = get_theme_colors(dark);
    TextStyle { color: Some(tc.secondary_text) }
}

/// The least prominent text color of the given mode.
pub open spec fn spec_tertiary_text(dark: bool) -> TextStyle {
    TextStyle { color: Some(spec_theme_colors(dark).tertiary_text) }
}

/// The least prominent text color of the given mode.
pub fn tertiary_text(dark: bool) -> (s: TextStyle)
    ensures
        s == spec_tertiary_text(dark),
        s.wf(),
{
    let tc = get_theme_colors(dark);
    TextStyle { color: Some(tc.tertiary_text) }
}

/// The link text color of the given mode.
pub open spec fn spec_link_text(dark: bool) -> TextStyle {
    TextStyle { color: Some(spec_theme_colors(dark).link) }
}

/// The link text color of the given mode.
pub fn link_text(dark: bool) -> (s: TextStyle)
    ensures
        s == spec_link_text(dark),
        s.wf(),
{
    let tc = get_theme_colors(dark);
    TextStyle { color: Some(tc.link) }
}

/// Text in a fixed color per mode: `light_color` in light mode,
/// `dark_color` in dark mode.
pub open spec fn spec_colored_text(light_color: Color, dark_color: Color, dark: bool) -> TextStyle {
    TextStyle {
        color: Some(
            if dark {
                dark_color
            } else {
                light_color
            },
        ),
    }
}

/// Text in a fixed color per mode: `light_color` in light mode,
/// `dark_color` in dark mode.
pub fn colored_text(light_color: Color, dark_color: Color, dark: bool) -> (s: TextStyle)
    requires
        light_color.wf(),
        dark_color.wf(),
    ensures
        s == spec_colored_text(light_color, dark_color, dark),
        s.wf(),
{
    let color = if dark {
        dark_color
    } else {
        light_color
    };
    TextStyle { color: Some(color) }
}

/// Text in the accent red of the given mode.
pub open spec fn spec_red_text(dark: bool) -> TextStyle {
    TextStyle { color: Some(spec_theme_colors(dark).red) }
}

/// Text in the accent red of the given mode.
pub fn red_text(dark: bool) -> (s: TextStyle)
    ensures
        s == spec_red_text(dark),
        s.wf(),
{
    let tc = get_theme_colors(dark);
    TextStyle { color: Some(tc.red) }
}

/// Text in the accent blue of the given mode.
pub open spec fn spec_blue_text(dark: bool) -> TextStyle {
    TextStyle { color: Some(spec_theme_colors(dark).blue) }
}

/// Text in the accent blue of the given mode.
pub fn blue_text(dark: bool) -> (s: TextStyle)
    ensures
        s == spec_blue_text(dark),
        s.wf(),
{
    let tc = get_theme_colors(dark);
    TextStyle { color: Some(tc.blue) }
}

/// Text in the accent green of the given mode.
pub open spec fn spec_green_text(dark: bool) -> TextStyle {
    TextStyle { color: Some(spec_theme_colors(dark).green) }
}

/// Text in the accent green of the given mode.
pub fn green_text(dark: bool) -> (s: TextStyle)
    ensures
        s == spec_green_text(dark),
        s.wf(),
{
    let tc = get_theme_colors(dark);
    TextStyle { color: Some(tc.green) }
}

/// Text in the accent orange of the given mode.
pub open spec fn spec_orange_text(dark: bool) -> TextStyle {
    TextStyle { color: Some(spec_theme_colors(dark).orange) }
}

/// Text in the accent orange of the given mode.
pub fn orange_text(dark: bool) -> (s: TextStyle)
    ensures
        s == spec_orange_text(dark),
        s.wf(),
{
    let tc = get_theme_colors(dark);
    TextStyle { color: Some(tc.orange) }
}

/// Text in the accent yellow of the given mode.
pub open spec fn spec_yellow_text(dark: bool) -> TextStyle {
    TextStyle { color: Some(spec_yellow(dark)) }
}

/// Text in the accent yellow of the given mode.
pub fn yellow_text(dark: bool) -> (s: TextStyle)
    ensures
        s == spec_yellow_text(dark),
        s.wf(),
{
    TextStyle { color: Some(yellow(dark)) }
}

/// Text in the accent purple of the given mode.
pub open spec fn spec_purple_text(dark: bool) -> TextStyle {
    TextStyle { color: Some(spec_theme_colors(dark).purple) }
}

/// Text in the accent purple of the given mode.
pub fn purple_text(dark: bool) -> (s: TextStyle)
    ensures
        s == spec_purple_text(dark),
        s.wf(),
{
    let tc = get_theme_colors(dark);
    TextStyle { color: Some(tc.purple) }
}

/// Text in the accent pink of the given mode.
pub open spec fn spec_pink_text(dark: bool) -> TextStyle {
    TextStyle { color: Some(spec_theme_colors(dark).pink) }
}

/// Text in the accent pink of the given mode.
pub fn pink_text(dark: bool) -> (s: TextStyle)
    ensures
        s == spec_pink_text(dark),
        s.wf(),
{
    let tc = get_theme_colors(dark);
    TextStyle { color: Some(tc.pink) }
}

/// Text in the accent teal of the given mode.
pub open spec fn spec_teal_text(dark: bool) -> TextStyle {
    TextStyle { color: Some(spec_theme_colors(dark).teal) }
}

/// Text in the accent teal of the given mode.
pub fn teal_text(dark: bool) -> (s: TextStyle)
    ensures
        s == spec_teal_text(dark),
        s.wf(),
{
    let tc = get_theme_colors(dark);
    TextStyle { color: Some(tc.teal) }
}

/// Text in the accent indigo of the given mode.
pub open spec fn spec_indigo_text(dark: bool) -> TextStyle {
    TextStyle { color: Some(spec_theme_colors(dark).indigo) }
}

/// Text in the accent indigo of the given mode.
pub fn indigo_text(dark: bool) -> (s: TextStyle)
    ensures
        s == spec_indigo_text(dark),
        s.wf(),
{
    let tc = get_theme_colors(dark);
    TextStyle { color: Some(tc.indigo) }
}

/// Text in the accent mint of the given mode.
pub open spec fn spec_mint_text(dark: bool) -> TextStyle {
    TextStyle { color: Some(spec_mint(dark)) }
}

/// Text in the accent mint of the given mode.
pub fn mint_text(dark: bool) -> (s: TextStyle)
    ensures
        s == spec_mint_text(dark),
        s.wf(),
{
    TextStyle { color: Some(mint(dark)) }
}

/// Text in the accent brown of the given mode.
pub open spec fn spec_brown_text(dark: bool) -> TextStyle {
    TextStyle { color: Some(spec_brown(dark)) }
}

/// Text in the accent brown of the given mode.
pub fn brown_text(dark: bool) -> (s: TextStyle)
    ensures
        s == spec_brown_text(dark),
        s.wf(),
{
    TextStyle { color: Some(brown(dark)) }
}

/// Text for a plain error flag: the accent red when set, the accent
/// green when not.
pub open spec fn spec_validated_text(has_error: bool, dark: bool) -> TextStyle {
    if has_error {
        spec_red_text(dark)
    } else {
        spec_green_text(dark)
    }
}

/// Text for a plain error flag: the accent red when set, the accent
/// green when not.
pub fn validated_text(has_error: bool, dark: bool) -> (s: TextStyle)
    ensures
        s == spec_validated_text(has_error, dark),
        s.wf(),
{
    if has_error {
        red_text(dark)
    } else {
        green_text(dark)
    }
}

} // verus!
