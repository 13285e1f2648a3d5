use vstd::prelude::*;

verus! {

/// An RGBA colour with 8-bit channels. The renderer divides each channel
/// by 255 when it builds the floating-point instance buffer.
#[derive(Clone, Copy, PartialEq, Eq, Structural, Debug)]
pub struct Color {
    pub r: u8,
    pub g: u8,
    pub b: u8,
    pub a: u8,
}

/// The fixed six-colour palette that spawned particles draw from, indexed
/// from 1 to 6.
pub open spec fn palette_color(k: int) -> Color {
    if k == 1 {
        Color { r: 252, g: 215, b: 3, a: 255 }
    } else if k == 2 {
        Color { r: 235, g: 64, b: 52, a: 255 }
    } else if k == 3 {
        Color { r: 235, g: 198, b: 52, a: 255 }
    } else if k == 4 {
        Color { r: 55, g: 235, b: 52, a: 255 }
    } else if k == 5 {
        Color { r: 235, g: 52, b: 195, a: 255 }
    } else {
        Color { r: 171, g: 52, b: 235, a: 255 }
    }
}

/// Whether a colour is one of the six palette entries.
pub open spec fn in_palette(c: Color) -> bool {
    exists|k: int| 1 <= k <= 6 && c == #[trigger] palette_color(k)
}

/// Looks a palette entry up by its index.
pub fn color_from_index(k: u64) -> (c: Color)
    requires
        1 <= k <= 6,
    ensures
        c == palette_color(k as int),
        in_palette(c),
{
    let c = match k {
        1 => Color { r: 252, g: 215, b: 3, a: 255 },
        2 => Color { r: 235, g: 64, b: 52, a: 255 },
        3 => Color { r: 235, g: 198, b: 52, a: 255 },
        4 => Color { r: 55, g: 235, b: 52, a: 255 },
        5 => Color { r: 235, g: 52, b: 195, a: 255 },
        _ => Color { r: 171, g: 52, b: 235, a: 255 },
    };
    assert(c == palette_color(k as int));
    c
}

} // verus!
