//! Widget variants, interaction statuses, and the style records that the
//! resolvers return.
//!
//! Lengths (border widths, corner radii, shadow offsets and blur) are in
//! tenths of a logical pixel, so `10` is a hairline of width 1 and
//! [`CORNER_RADIUS`] is the standard rounded corner of 8 pixels.

use vstd::prelude::*;

use crate::color::Color;
use crate::color::spec_transparent;

verus! {

/// The standard corner radius of filled buttons and inputs, in tenths.
pub const CORNER_RADIUS: u16 = 80;

/// The corner radius of text inputs and pick lists, in tenths.
pub const SMALL_CORNER_RADIUS: u16 = 60;

/// The corner radius of checkboxes and menus, in tenths.
pub const TINY_CORNER_RADIUS: u16 = 40;

/// The visual classes a button can take.
#[derive(Clone, Copy, Debug, PartialEq, Eq, Structural)]
pub enum Button {
    /// Filled with the accent blue; for the main action.
    Primary,
    /// Outlined in the accent blue on a transparent fill.
    Secondary,
    /// Filled green; for confirmations.
    Success,
    /// Filled orange; for actions that need care.
    Warning,
    /// Filled red; for destructive actions.
    Danger,
    /// Text-only, in the link color.
    Link,
    /// Filled with the neutral system fill.
    System,
    /// Text-only, in the standard text color.
    Plain,
}

/// The visual classes a container can take.
#[derive(Clone, Copy, Debug, PartialEq, Eq, Structural)]
pub enum Container {
    /// No fill, no border, no shadow.
    Transparent,
    /// An elevated card with a soft shadow.
    Card,
    /// A modal sheet surface.
    Sheet,
    /// A grouped-content surface without a shadow.
    Group,
    /// A sidebar surface with a hairline shadow to its right.
    Sidebar,
}

/// The accent colors available for tinted buttons.
#[derive(Clone, Copy, Debug, PartialEq, Eq, Structural)]
pub enum TintedButtonColor {
    Blue,
    Green,
    Red,
    Orange,
    Purple,
    Teal,
    Pink,
    Indigo,
}

/// Size variants for buttons; only the corner radius changes.
#[derive(Clone, Copy, Debug, PartialEq, Eq, Structural)]
pub enum ButtonSize {
    Small,
    Medium,
    Large,
}

/// The outcome of validating user input, for conditional styles.
#[derive(Clone, Copy, Debug, PartialEq, Eq, Structural)]
pub enum ValidationState {
    Valid,
    Warning,
    Error,
}

/// The interaction status of a button, as the host toolkit reports it.
#[derive(Clone, Copy, Debug, PartialEq, Eq, Structural)]
pub enum ButtonStatus {
    Active,
    Hovered,
    Pressed,
    Disabled,
}

/// The interaction status of a text input.
#[derive(Clone, Copy, Debug, PartialEq, Eq, Structural)]
pub enum TextInputStatus {
    Active,
    Hovered,
    Focused { is_hovered: bool },
    Disabled,
}

/// The interaction status of a pick list.
#[derive(Clone, Copy, Debug, PartialEq, Eq, Structural)]
pub enum PickListStatus {
    Active,
    Hovered,
    Opened { is_hovered: bool },
}

/// The interaction status of a radio button.
#[derive(Clone, Copy, Debug, PartialEq, Eq, Structural)]
pub enum RadioStatus {
    Active { is_selected: bool },
    Hovered { is_selected: bool },
}

/// The interaction status of a checkbox.
#[derive(Clone, Copy, Debug, PartialEq, Eq, Structural)]
pub enum CheckboxStatus {
    Active { is_checked: bool },
    Hovered { is_checked: bool },
    Disabled { is_checked: bool },
}

/// A two-dimensional offset, in tenths of a logical pixel.
#[derive(Clone, Copy, Debug, PartialEq, Eq, Structural)]
pub struct Vector {
    pub x: u16,
    pub y: u16,
}

/// A border: color, width and corner radius (lengths in tenths).
#[derive(Clone, Copy, Debug, PartialEq, Eq)]
pub struct Border {
    pub color: Color,
    pub width: u16,
    pub radius: u16,
}

/// A drop shadow: color, offset and blur radius (lengths in tenths).
#[derive(Clone, Copy, Debug, PartialEq, Eq)]
pub struct Shadow {
    pub color: Color,
    pub offset: Vector,
    pub blur_radius: u16,
}

impl Border {
    /// The border color is a valid color.
    pub open spec fn wf(self) -> bool {
        self.color.wf()
    }

    /// No border: transparent, zero width, square corners.
    pub fn none() -> (b: Border)
        ensures
            b == spec_border_none(),
            b.wf(),
    {
        Border { color: Color::transparent(), width: 0, radius: 0 }
    }
}

/// No border: transparent, zero width, square corners.
pub open spec fn spec_border_none() -> Border {
    Border { color: spec_transparent(), width: 0, radius: 0 }
}

impl Shadow {
    /// The shadow color is a valid color.
    pub open spec fn wf(self) -> bool {
        self.color.wf()
    }

    /// No shadow: transparent, no offset, no blur.
    pub fn none() -> (s: Shadow)
        ensures
            s == spec_shadow_none(),
            s.wf(),
    {
        Shadow { color: Color::transparent(), offset: Vector { x: 0, y: 0 }, blur_radius: 0 }
    }
}

/// No shadow: transparent, no offset, no blur.
pub open spec fn spec_shadow_none() -> Shadow {
    Shadow { color: spec_transparent(), offset: Vector { x: 0, y: 0 }, blur_radius: 0 }
}

/// The style record of a button.
#[derive(Clone, Copy, Debug, PartialEq, Eq)]
pub struct ButtonStyle {
    /// The fill, if any; text-only buttons keep a transparent fill.
    pub background: Option<Color>,
    pub text_color: Color,
    pub border: Border,
    pub shadow: Shadow,
    /// Whether the host should snap the button to the pixel grid.
    pub snap: bool,
}

impl ButtonStyle {
    /// Every color in the record is a valid color.
    pub open spec fn wf(self) -> bool {
        &&& (self.background matches Some(c) ==> c.wf())
        &&& self.text_color.wf()
        &&& self.border.wf()
        &&& self.shadow.wf()
    }
}

/// The style record of a text input.
#[derive(Clone, Copy, Debug, PartialEq, Eq)]
pub struct TextInputStyle {
    pub background: Color,
    pub border: Border,
    /// The color of a leading or trailing icon.
    pub icon: Color,
    pub placeholder: Color,
    /// The color of the entered text.
    pub value: Color,
    /// The fill behind selected text.
    pub selection: Color,
}

impl TextInputStyle {
    /// Every color in the record is a valid color.
    pub open spec fn wf(self) -> bool {
        &&& self.background.wf()
        &&& self.border.wf()
        &&& self.icon.wf()
        &&& self.placeholder.wf()
        &&& self.value.wf()
        &&& self.selection.wf()
    }
}

/// The style record of a container.
#[derive(Clone, Copy, Debug, PartialEq, Eq)]
pub struct ContainerStyle {
    pub text_color: Option<Color>,
    pub background: Option<Color>,
    pub border: Border,
    pub shadow: Shadow,
    /// Whether the host should snap the container to the pixel grid.
    pub snap: bool,
}

impl ContainerStyle {
    /// Every color in the record is a valid color.
    pub open spec fn wf(self) -> bool {
        &&& (self.text_color matches Some(c) ==> c.wf())
        &&& (self.background matches Some(c) ==> c.wf())
        &&& self.border.wf()
        &&& self.shadow.wf()
    }
}

/// The style record of a checkbox.
#[derive(Clone, Copy, Debug, PartialEq, Eq)]
pub struct CheckboxStyle {
    pub background: Color,
    /// The color of the check mark.
    pub icon_color: Color,
    pub border: Border,
    pub text_color: Option<Color>,
}

impl CheckboxStyle {
    /// Every color in the record is a valid color.
    pub open spec fn wf(self) -> bool {
        &&& self.background.wf()
        &&& self.icon_color.wf()
        &&& self.border.wf()
        &&& (self.text_color matches Some(c) ==> c.wf())
    }
}

/// The style record of a radio button.
#[derive(Clone, Copy, Debug, PartialEq, Eq)]
pub struct RadioStyle {
    pub background: Color,
    /// The color of the selection dot.
    pub dot_color: Color,
    /// The border width, in tenths.
    pub border_width: u16,
    pub border_color: Color,
    pub text_color: Option<Color>,
}

impl RadioStyle {
    /// Every color in the record is a valid color.
    pub open spec fn wf(self) -> bool {
        &&& self.background.wf()
        &&& self.dot_color.wf()
        &&& self.border_color.wf()
        &&& (self.text_color matches Some(c) ==> c.wf())
    }
}

/// The style record of a pick list.
#[derive(Clone, Copy, Debug, PartialEq, Eq)]
pub struct PickListStyle {
    pub text_color: Color,
    pub placeholder_color: Color,
    pub background: Color,
    pub border: Border,
    /// The color of the drop-down handle.
    pub handle_color: Color,
}

impl PickListStyle {
    /// Every color in the record is a valid color.
    pub open spec fn wf(self) -> bool {
        &&& self.text_color.wf()
        &&& self.placeholder_color.wf()
        &&& self.background.wf()
        &&& self.border.wf()
        &&& self.handle_color.wf()
    }
}

/// The style record of a text label.
#[derive(Clone, Copy, Debug, PartialEq, Eq)]
pub struct TextStyle {
    /// The text color; `None` inherits the surrounding color.
    pub color: Option<Color>,
}

impl TextStyle {
    /// The color, if set, is a valid color.
    pub open spec fn wf(self) -> bool {
        self.color matches Some(c) ==> c.wf()
    }
}

/// The style record of a drop-down menu.
#[derive(Clone, Copy, Debug, PartialEq, Eq)]
pub struct MenuStyle {
    pub text_color: Color,
    pub background: Color,
    pub border: Border,
    pub selected_text_color: Color,
    pub selected_background: Color,
    pub shadow: Shadow,
}

impl MenuStyle {
    /// Every color in the record is a valid color.
    pub open spec fn wf(self) -> bool {
        &&& self.text_color.wf()
        &&& self.background.wf()
        &&& self.border.wf()
        &&& self.selected_text_color.wf()
        &&& self.selected_background.wf()
        &&& self.shadow.wf()
    }
}

} // verus!
