//! A palette colour with an alpha channel, and its hex rendering.

use vstd::prelude::*;

use crate::digests::push_char;

verus! {

/// The lower-hex character of a nibble.
pub open spec fn hex_lower(v: u8) -> char {
    if v < 10 {
        ((v + 48) as u8) as char
    } else {
        ((v + 87) as u8) as char
    }
}

/// The two lower-hex characters of a byte.
pub open spec fn hex_pair(v: u8) -> Seq<char> {
    seq![hex_lower((v / 16) as u8), hex_lower((v % 16) as u8)]
}

/// The `#rrggbb` rendering of a colour, with `aa` appended when the alpha
/// channel is not fully opaque.
pub open spec fn spec_color_hex(c: Color) -> Seq<char> {
    seq!['#'] + hex_pair(c.red) + hex_pair(c.green) + hex_pair(c.blue) + (if c.alpha != 255 {
        hex_pair(c.alpha)
    } else {
        Seq::empty()
    })
}

/// One colour of the palette.
#[derive(Debug, Copy, Clone, PartialEq, Eq, Structural)]
pub struct Color {
    pub red: u8,
    pub green: u8,
    pub blue: u8,
    pub alpha: u8,
}

impl Color {
    /// Builds a colour from its four channel bytes in order.
    pub fn from_array(channels: [u8; 4]) -> (r: Self)
        ensures
            r.red == channels@[0],
            r.green == channels@[1],
            r.blue == channels@[2],
            r.alpha == channels@[3],
    {
        Color { red: channels[0], green: channels[1], blue: channels[2], alpha: channels[3] }
    }

    /// Renders the colour as `#rrggbb`, with the alpha pair appended when it
    /// is not 255.
    pub fn hex_string(&self) -> (r: String)
        ensures
            r@ == spec_color_hex(*self),
    {
        let mut out = String::new();
        push_char(&mut out, '#');
        push_hex_pair(&mut out, self.red);
        push_hex_pair(&mut out, self.green);
        push_hex_pair(&mut out, self.blue);
        if self.alpha != 255 {
            push_hex_pair(&mut out, self.alpha);
        }
        proof {
            assert(out@ =~= spec_color_hex(*self));
        }
        out
    }
}

/// Appends the two lower-hex characters of a byte.
fn push_hex_pair(out: &mut String, v: u8)
    ensures
        final(out)@ == old(out)@ + hex_pair(v),
{
    let hi = v / 16;
    let lo = v % 16;
    let c_hi = if hi < 10 {
        (48 + hi) as char
    } else {
        (87 + hi) as char
    };
    let c_lo = if lo < 10 {
        (48 + lo) as char
    } else {
        (87 + lo) as char
    };
    push_char(out, c_hi);
    push_char(out, c_lo);
    proof {
        assert(out@ =~= old(out)@ + hex_pair(v));
    }
}

} // verus!
