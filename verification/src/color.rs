//! Fixed-point RGBA colors.
//!
//! Every channel is stored in thousandths of the unit interval: `0` is
//! fully off, [`UNIT`] (1000) is fully on.  Working in integers keeps the
//! channel arithmetic exact, so the status transforms (alpha scaling,
//! lighten/darken with clamping) can be specified and proved precisely.

use vstd::prelude::*;

verus! {

/// One whole unit of a color channel: channels range over `0 ..= UNIT`.
pub const UNIT: u16 = 1000;

/// An RGBA color; each channel is in thousandths of the unit interval.
#[derive(Clone, Copy, Debug, PartialEq, Eq)]
pub struct Color {
    pub r: u16,
    pub g: u16,
    pub b: u16,
    pub a: u16,
}

impl Color {
    /// Every channel lies within the unit range.
    pub open spec fn wf(self) -> bool {
        self.r <= UNIT && self.g <= UNIT && self.b <= UNIT && self.a <= UNIT
    }
}

/// `v` scaled by the factor `f` (both in thousandths), rounded down.
pub open spec fn spec_scale(v: u16, f: u16) -> u16 {
    ((v * f) / (UNIT as int)) as u16
}

/// `v` raised by `delta`, clamped to `UNIT`.
pub open spec fn spec_raise(v: u16, delta: u16) -> u16 {
    if v + delta > UNIT {
        UNIT
    } else {
        (v + delta) as u16
    }
}

/// `v` lowered by `delta`, clamped to zero.
pub open spec fn spec_lower(v: u16, delta: u16) -> u16 {
    if v < delta {
        0u16
    } else {
        (v - delta) as u16
    }
}

/// A channel shifted toward white in dark mode and toward black in light
/// mode, clamped to the unit range.
pub open spec fn spec_shift(v: u16, dark: bool, delta: u16) -> u16 {
    if dark {
        spec_raise(v, delta)
    } else {
        spec_lower(v, delta)
    }
}

/// The alpha channel scaled by `f`; the other channels are untouched.
pub open spec fn spec_scale_alpha(c: Color, f: u16) -> Color {
    Color { a: spec_scale(c.a, f), ..c }
}

/// The color channels shifted toward white (dark mode) or black (light
/// mode) by `delta`; the alpha channel is untouched.
pub open spec fn spec_shift_rgb(c: Color, dark: bool, delta: u16) -> Color {
    Color {
        r: spec_shift(c.r, dark, delta),
        g: spec_shift(c.g, dark, delta),
        b: spec_shift(c.b, dark, delta),
        a: c.a,
    }
}

/// Scaling by a factor within the unit range stays within the unit range.
pub proof fn lemma_scale_in_range(v: u16, f: u16)
    requires
        v <= UNIT,
        f <= UNIT,
    ensures
        spec_scale(v, f) <= UNIT,
        v * f <= 1000000,
{
    assert(v * f <= 1000000) by (nonlinear_arith)
        requires
            v <= 1000,
            f <= 1000,
    ;
    assert((v * f) / (UNIT as int) <= UNIT);
}

/// Shifting keeps a channel within the unit range and moves it toward
/// white (dark mode) or black (light mode).
pub proof fn lemma_shift_in_range(v: u16, dark: bool, delta: u16)
    requires
        v <= UNIT,
    ensures
        spec_shift(v, dark, delta) <= UNIT,
        dark ==> spec_shift(v, dark, delta) >= v,
        !dark ==> spec_shift(v, dark, delta) <= v,
{
}

impl Color {
    /// The fully transparent color.
    pub fn transparent() -> (c: Color)
        ensures
            c == spec_transparent(),
            c.wf(),
    {
        Color { r: 0, g: 0, b: 0, a: 0 }
    }

    /// Opaque white.
    pub fn white() -> (c: Color)
        ensures
            c == spec_white(),
            c.wf(),
    {
        Color { r: UNIT, g: UNIT, b: UNIT, a: UNIT }
    }

    /// Opaque black.
    pub fn black() -> (c: Color)
        ensures
            c == spec_black(),
            c.wf(),
    {
        Color { r: 0, g: 0, b: 0, a: UNIT }
    }

    /// This color with its alpha channel scaled by `factor` (in
    /// thousandths), as used for disabled and tinted looks.
    pub fn scale_alpha(self, factor: u16) -> (c: Color)
        requires
            self.wf(),
            factor <= UNIT,
        ensures
            c == spec_scale_alpha(self, factor),
            c.wf(),
    {
        proof {
            lemma_scale_in_range(self.a, factor);
        }
        let scaled: u32 = (self.a as u32) * (factor as u32) / (UNIT as u32);
        Color { a: scaled as u16, ..self }
    }

    /// This color shifted toward white (dark mode) or black (light mode)
    /// by `delta` on each color channel, clamped to the unit range.
    pub fn shift_rgb(self, dark: bool, delta: u16) -> (c: Color)
        requires
            self.wf(),
            delta <= UNIT,
        ensures
            c == spec_shift_rgb(self, dark, delta),
            c.wf(),
    {
        if dark {
            Color {
                r: if self.r + delta > UNIT { UNIT } else { self.r + delta },
                g: if self.g + delta > UNIT { UNIT } else { self.g + delta },
                b: if self.b + delta > UNIT { UNIT } else { self.b + delta },
                a: self.a,
            }
        } else {
            Color {
                r: if self.r < delta { 0 } else { self.r - delta },
                g: if self.g < delta { 0 } else { self.g - delta },
                b: if self.b < delta { 0 } else { self.b - delta },
                a: self.a,
            }
        }
    }
}

/// The fully transparent color.
pub open spec fn spec_transparent() -> Color {
    Color { r: 0, g: 0, b: 0, a: 0 }
}

/// Opaque white.
pub open spec fn spec_white() -> Color {
    Color { r: UNIT, g: UNIT, b: UNIT, a: UNIT }
}

/// Opaque black.
pub open spec fn spec_black() -> Color {
    Color { r: 0, g: 0, b: 0, a: UNIT }
}

} // verus!
