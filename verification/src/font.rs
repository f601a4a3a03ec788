//! The two fixed-cell digit fonts: their cell geometry and the glyphs each
//! one can draw.

use vstd::prelude::*;

verus! {

/// One of the two seven-segment fonts.
#[derive(Clone, Copy, Debug, PartialEq, Eq, Structural)]
pub enum Font {
    /// The large font of the hour and minute field: digits and the colon.
    Large,
    /// The small font of the seconds field: digits only.
    Small,
}

/// The cell geometry of a font and of the bitmap strip its glyphs are cut
/// from, in pixels.
#[derive(Clone, Copy, Debug, PartialEq, Eq, Structural)]
pub struct FontMetrics {
    /// Width of one glyph cell.
    pub cell_width: u32,
    /// Height of one glyph cell.
    pub cell_height: u32,
    /// Gap between neighbouring glyphs of one line.
    pub spacing: u32,
    /// Distance of the alphabetic baseline from the top of the cell.
    pub baseline: u32,
    /// Width of the bitmap strip that holds the cells side by side.
    pub strip_width: u32,
    /// Glyph height that the underline and strikethrough offsets are taken from.
    pub decoration_height: u32,
}

/// The character that shows the decimal digit `d`.
pub open spec fn digit(d: int) -> char {
    if d == 0 {
        '0'
    } else if d == 1 {
        '1'
    } else if d == 2 {
        '2'
    } else if d == 3 {
        '3'
    } else if d == 4 {
        '4'
    } else if d == 5 {
        '5'
    } else if d == 6 {
        '6'
    } else if d == 7 {
        '7'
    } else if d == 8 {
        '8'
    } else {
        '9'
    }
}

/// `c` is one of the ten decimal digit characters.
pub open spec fn is_digit(c: char) -> bool {
    exists|d: int| 0 <= d <= 9 && c == #[trigger] digit(d)
}

impl Font {
    /// The cell geometry of this font.
    pub open spec fn metrics_spec(self) -> FontMetrics {
        match self {
            Font::Large => FontMetrics {
                cell_width: 22,
                cell_height: 40,
                spacing: 4,
                baseline: 7,
                strip_width: 256,
                decoration_height: 40,
            },
            Font::Small => FontMetrics {
                cell_width: 9,
                cell_height: 18,
                spacing: 1,
                baseline: 18,
                strip_width: 90,
                decoration_height: 40,
            },
        }
    }

    /// The glyphs of this font, in the order of their cells in the strip.
    pub open spec fn glyph_set(self) -> Seq<char> {
        match self {
            Font::Large => seq!['0', '1', '2', '3', '4', '5', '6', '7', '8', '9', ':'],
            Font::Small => seq!['0', '1', '2', '3', '4', '5', '6', '7', '8', '9'],
        }
    }

    /// This font has a glyph for `c`: any digit, and for the large font the
    /// colon as well.
    pub open spec fn supports(self, c: char) -> bool {
        is_digit(c) || (self == Font::Large && c == ':')
    }

    /// The cell geometry of this font.
    pub fn metrics(self) -> (m: FontMetrics)
        ensures
            m == self.metrics_spec(),
    {
        match self {
            Font::Large => FontMetrics {
                cell_width: 22,
                cell_height: 40,
                spacing: 4,
                baseline: 7,
                strip_width: 256,
                decoration_height: 40,
            },
            Font::Small => FontMetrics {
                cell_width: 9,
                cell_height: 18,
                spacing: 1,
                baseline: 18,
                strip_width: 90,
                decoration_height: 40,
            },
        }
    }

    /// The glyphs of this font as the string that maps each character to its
    /// cell: the character at position `i` is drawn from cell `i`.
    pub fn glyphs(self) -> (s: &'static str)
        ensures
            s@ == self.glyph_set(),
    {
        proof {
            reveal_strlit("0123456789:");
            reveal_strlit("0123456789");
        }
        match self {
            Font::Large => {
                assert("0123456789:"@ =~= Font::Large.glyph_set());
                "0123456789:"
            },
            Font::Small => {
                assert("0123456789"@ =~= Font::Small.glyph_set());
                "0123456789"
            },
        }
    }

    /// Tells whether this font has a glyph for `c`.
    pub fn has_glyph(self, c: char) -> (yes: bool)
        ensures
            yes == self.supports(c),
    {
        let digit_char = c == '0' || c == '1' || c == '2' || c == '3' || c == '4' || c == '5' || c
            == '6' || c == '7' || c == '8' || c == '9';
        proof {
            if digit_char {
                assert(c == digit(0) || c == digit(1) || c == digit(2) || c == digit(3) || c
                    == digit(4) || c == digit(5) || c == digit(6) || c == digit(7) || c == digit(8)
                    || c == digit(9));
            }
        }
        match self {
            Font::Large => digit_char || c == ':',
            Font::Small => digit_char,
        }
    }
}

/// A font supports exactly the characters of its glyph set: each glyph has a
/// cell, and no other character has one.
pub proof fn glyph_set_is_what_is_supported(font: Font, c: char)
    ensures
        font.supports(c) <==> font.glyph_set().contains(c),
{
    let g = font.glyph_set();
    if font.supports(c) {
        if is_digit(c) {
            let d = choose|d: int| 0 <= d <= 9 && c == #[trigger] digit(d);
            assert(g[d] == c);
        } else {
            assert(g[10] == c);
        }
    }
    if g.contains(c) {
        let i = choose|i: int| 0 <= i < g.len() && g[i] == c;
        if i < 10 {
            assert(c == digit(i));
        }
    }
}

} // verus!
