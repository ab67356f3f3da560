use vstd::prelude::*;

verus! {

/// A color as four bytes: red, green, blue and alpha.
#[derive(Clone, Copy, Debug, PartialEq, Eq, Structural)]
pub struct Color {
    pub r: u8,
    pub g: u8,
    pub b: u8,
    pub a: u8,
}

/// The opaque color with the given red, green and blue components.
pub open spec fn rgb(r: u8, g: u8, b: u8) -> Color {
    Color { r, g, b, a: 255 }
}

pub open spec fn spec_red() -> Color {
    rgb(255, 0, 0)
}

pub open spec fn spec_blue() -> Color {
    rgb(0, 0, 255)
}

pub open spec fn spec_green() -> Color {
    rgb(0, 255, 0)
}

pub open spec fn spec_yellow() -> Color {
    rgb(255, 255, 0)
}

pub open spec fn spec_purple() -> Color {
    rgb(0x80, 0, 0x80)
}

/// The color that follows `c` in the palette
/// Red -> Blue -> Green -> Yellow -> Purple -> Red.
/// A color outside the palette is followed by Red.
pub open spec fn next_color(c: Color) -> Color {
    if c == spec_red() {
        spec_blue()
    } else if c == spec_blue() {
        spec_green()
    } else if c == spec_green() {
        spec_yellow()
    } else if c == spec_yellow() {
        spec_purple()
    } else {
        spec_red()
    }
}

impl Color {
    pub fn from_rgb(r: u8, g: u8, b: u8) -> (c: Color)
        ensures
            c == rgb(r, g, b),
    {
        Color { r, g, b, a: 255 }
    }

    pub fn from_rgba_premultiplied(r: u8, g: u8, b: u8, a: u8) -> (c: Color)
        ensures
            c == (Color { r, g, b, a }),
    {
        Color { r, g, b, a }
    }

    pub fn to_array(&self) -> (arr: [u8; 4])
        ensures
            arr@ == seq![self.r, self.g, self.b, self.a],
    {
        [self.r, self.g, self.b, self.a]
    }

    pub fn red() -> (c: Color)
        ensures
            c == spec_red(),
    {
        Color::from_rgb(255, 0, 0)
    }

    pub fn blue() -> (c: Color)
        ensures
            c == spec_blue(),
    {
        Color::from_rgb(0, 0, 255)
    }

    pub fn green() -> (c: Color)
        ensures
            c == spec_green(),
    {
        Color::from_rgb(0, 255, 0)
    }

    pub fn yellow() -> (c: Color)
        ensures
            c == spec_yellow(),
    {
        Color::from_rgb(255, 255, 0)
    }

    pub fn purple() -> (c: Color)
        ensures
            c == spec_purple(),
    {
        Color::from_rgb(0x80, 0, 0x80)
    }

    /// The next color of the palette cycle; see `next_color`.
    pub fn cycle(self) -> (c: Color)
        ensures
            c == next_color(self),
    {
        if self == Color::red() {
            Color::blue()
        } else if self == Color::blue() {
            Color::green()
        } else if self == Color::green() {
            Color::yellow()
        } else if self == Color::yellow() {
            Color::purple()
        } else {
            Color::red()
        }
    }
}

/// The palette cycle has period five: each step moves to the next palette
/// color, and five steps from Red come back to Red.
pub proof fn lemma_color_cycle()
    ensures
        next_color(spec_red()) == spec_blue(),
        next_color(spec_blue()) == spec_green(),
        next_color(spec_green()) == spec_yellow(),
        next_color(spec_yellow()) == spec_purple(),
        next_color(spec_purple()) == spec_red(),
        next_color(next_color(next_color(next_color(next_color(spec_red()))))) == spec_red(),
{
}

/// A color outside the palette is reset to Red.
pub proof fn lemma_color_fallback(c: Color)
    requires
        c != spec_red(),
        c != spec_blue(),
        c != spec_green(),
        c != spec_yellow(),
        c != spec_purple(),
    ensures
        next_color(c) == spec_red(),
{
}

} // verus!
