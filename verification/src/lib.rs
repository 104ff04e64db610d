//! A light/dark widget theme in the flat, rounded "modern" style.
//!
//! The crate is a pure style resolver: given a theme mode (light or dark),
//! a widget variant and an interaction status, each entry point returns an
//! immutable style record for that widget.  Colors are modeled in integer
//! fixed point (thousandths of the unit interval) and lengths in tenths of
//! a logical pixel, so every transform — alpha scaling for disabled
//! widgets, the clamped lighten/darken steps for hovered and pressed
//! buttons — is exact and carries a proved contract.
//!
//! A host GUI toolkit consumes the records: an adapter converts the fixed
//! point channels to its own floating point colors at the boundary.

pub mod button;
pub mod color;
pub mod colors;
pub mod container;
pub mod controls;
pub mod modern;
pub mod style;
pub mod text;
pub mod text_input;
pub mod theme;

pub use modern::Modern;
pub use theme::Palette;
pub use theme::Theme;

pub use color::Color;
pub use color::UNIT;
pub use style::Button;
pub use style::ButtonSize;
pub use style::ButtonStatus;
pub use style::ButtonStyle;
pub use style::CheckboxStatus;
pub use style::CheckboxStyle;
pub use style::Container;
pub use style::ContainerStyle;
pub use style::MenuStyle;
pub use style::PickListStatus;
pub use style::PickListStyle;
pub use style::RadioStatus;
pub use style::RadioStyle;
pub use style::TextInputStatus;
pub use style::TextInputStyle;
pub use style::TextStyle;
pub use style::TintedButtonColor;
pub use style::ValidationState;
