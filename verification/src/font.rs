//! The vertical metrics of the font in use, and the sizes derived from them.
use vstd::prelude::*;

verus! {

/// Line height and ascent of a font, in pixels.
#[derive(Clone, Copy, Debug, PartialEq, Eq, Structural)]
pub struct Font {
    pub height: u16,
    pub ascent: i16,
}

/// The height of a strip set in a font of the given line height: 1.4 times
/// the line height, rounded down, and no more than a `u16` holds.
pub open spec fn strip_height(font_height: int) -> int {
    if 7 * font_height / 5 > 0xffff {
        0xffff
    } else {
        7 * font_height / 5
    }
}

/// The padding left and right of a label: 0.4 times the line height, rounded down.
pub open spec fn horizontal_padding(font_height: int) -> int {
    2 * font_height / 5
}

/// The thickness of an underline: an eighth of the line height, rounded down.
pub open spec fn underline_height(font_height: int) -> int {
    font_height / 8
}

impl Font {
    pub fn new(height: u16, ascent: i16) -> (font: Font)
        ensures
            font == (Font { height, ascent }),
    {
        Font { height, ascent }
    }

    /// The line height.
    pub fn height(&self) -> (h: u16)
        ensures
            h == self.height,
    {
        self.height
    }

    /// The distance from the top of a line to its baseline.
    pub fn ascent(&self) -> (a: i16)
        ensures
            a == self.ascent,
    {
        self.ascent
    }

    /// The height of a bar set in this font.
    pub fn strip_height(&self) -> (h: u16)
        ensures
            h == strip_height(self.height as int),
    {
        let scaled: u32 = self.height as u32 * 7 / 5;
        if scaled > 0xffff {
            0xffff
        } else {
            scaled as u16
        }
    }

    /// The padding on each side of a tag's label.
    pub fn horizontal_padding(&self) -> (p: u16)
        ensures
            p == horizontal_padding(self.height as int),
    {
        (self.height as u32 * 2 / 5) as u16
    }

    /// The thickness of the underlines drawn in a bar.
    pub fn underline_height(&self) -> (h: u16)
        ensures
            h == underline_height(self.height as int),
    {
        self.height / 8
    }
}

} // verus!
