//! Colours: the scheme a state selects, and packed RGB widened to 16-bit channels.
use vstd::prelude::*;

verus! {

/// A foreground, background and underline colour, each a packed 24-bit RGB value.
#[derive(Clone, Copy, Debug, PartialEq, Eq, Structural)]
pub struct ColorScheme {
    pub foreground: u32,
    pub background: u32,
    pub underline: u32,
}

/// A colour with sixteen bits per channel, the depth a text renderer takes.
#[derive(Clone, Copy, Debug, PartialEq, Eq, Structural)]
pub struct RenderColor {
    pub red: u16,
    pub green: u16,
    pub blue: u16,
    pub alpha: u16,
}

/// The eight-bit channel of `color` whose lowest bit has the weight `unit`.
pub open spec fn channel(color: u32, unit: int) -> int {
    (color as int / unit) % 256
}

/// An eight-bit channel repeated in both bytes of a sixteen-bit one, so that
/// 0 stays 0 and 255 becomes 65535.
pub open spec fn widened(channel: int) -> int {
    257 * channel
}

proof fn lemma_channel_bits(color: u32)
    ensures
        ((color >> 16) & 0xff) == channel(color, 65536),
        ((color >> 8) & 0xff) == channel(color, 256),
        (color & 0xff) == channel(color, 1),
{
    assert(((color >> 16) & 0xff) == (color / 65536) % 256) by (bit_vector);
    assert(((color >> 8) & 0xff) == (color / 256) % 256) by (bit_vector);
    assert((color & 0xff) == color % 256) by (bit_vector);
}

proof fn lemma_widen_bits(c: u16)
    requires
        c < 256,
    ensures
        (c << 8 | c) == widened(c as int),
{
    assert(c < 256 ==> (c << 8 | c) == 257 * c) by (bit_vector);
}

impl RenderColor {
    /// Expands a packed 24-bit RGB value; the result is opaque. Bits above the
    /// 24th are ignored.
    pub fn from_packed(color: u32) -> (out: RenderColor)
        ensures
            out.red == widened(channel(color, 65536)),
            out.green == widened(channel(color, 256)),
            out.blue == widened(channel(color, 1)),
            out.alpha == 0xffff,
    {
        let red: u16 = ((color >> 16) & 0xff) as u16;
        let green: u16 = ((color >> 8) & 0xff) as u16;
        let blue: u16 = (color & 0xff) as u16;
        proof {
            lemma_channel_bits(color);
            lemma_widen_bits(red);
            lemma_widen_bits(green);
            lemma_widen_bits(blue);
        }
        RenderColor { red: red << 8 | red, green: green << 8 | green, blue: blue << 8 | blue, alpha: 0xffff }
    }
}

} // verus!
