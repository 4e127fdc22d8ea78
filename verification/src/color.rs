//! Colors with four 8-bit channels, and the fixed palette of named colors.

use vstd::prelude::*;

verus! {

/// A color: red, green, blue and alpha, eight bits each. An alpha of 255 is
/// opaque.
#[derive(Clone, Copy, Debug, PartialEq, Eq, Structural)]
pub struct Color {
    pub red: u8,
    pub green: u8,
    pub blue: u8,
    pub alpha: u8,
}

impl Color {
    /// The color with the given channels.
    pub open spec fn rgba(red: u8, green: u8, blue: u8, alpha: u8) -> Color {
        Color { red, green, blue, alpha }
    }

    /// The color that a name of the palette stands for.
    pub open spec fn named(name: Seq<char>) -> Option<Color> {
        if name == "BLACK"@ {
            Some(Color::rgba(0, 0, 0, 255))
        } else if name == "WHITE"@ {
            Some(Color::rgba(255, 255, 255, 255))
        } else if name == "RED"@ {
            Some(Color::rgba(255, 0, 0, 255))
        } else if name == "GREEN"@ {
            Some(Color::rgba(0, 255, 0, 255))
        } else if name == "BLUE"@ {
            Some(Color::rgba(0, 0, 255, 255))
        } else if name == "YELLOW"@ {
            Some(Color::rgba(255, 255, 0, 255))
        } else if name == "CYAN"@ {
            Some(Color::rgba(0, 255, 255, 255))
        } else if name == "MAGENTA"@ {
            Some(Color::rgba(255, 0, 255, 255))
        } else if name == "TRANSPARENT"@ {
            Some(Color::rgba(0, 0, 0, 0))
        } else {
            None
        }
    }

    /// The color with the given channels.
    pub fn from_rgba8(red: u8, green: u8, blue: u8, alpha: u8) -> (r: Color)
        ensures
            r == Color::rgba(red, green, blue, alpha),
    {
        Color { red, green, blue, alpha }
    }

    /// The opaque color with the given channels.
    pub fn from_rgb8(red: u8, green: u8, blue: u8) -> (r: Color)
        ensures
            r == Color::rgba(red, green, blue, 255),
    {
        Color { red, green, blue, alpha: 255 }
    }
}

impl Default for Color {
    fn default() -> (r: Color)
        ensures
            r == Color::rgba(0, 0, 0, 0),
    {
        Color { red: 0, green: 0, blue: 0, alpha: 0 }
    }
}

/// A value of this type is its own model.
impl View for Color {
    type V = Color;

    open spec fn view(&self) -> Color {
        *self
    }
}

} // verus!
