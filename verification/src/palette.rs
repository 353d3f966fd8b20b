//! The 256-colour terminal palette and the colours cells are painted with.
//!
//! The first 16 entries are the standard terminal colours; entries 16 to 231
//! form a 6x6x6 colour cube and entries 232 to 255 a grey ramp, both
//! computed from the index.
use vstd::prelude::*;

verus! {

/// An 8-bit-per-channel colour.
#[derive(Debug, Clone, Copy, PartialEq, Eq, Structural)]
pub struct Rgb {
    pub r: u8,
    pub g: u8,
    pub b: u8,
}

/// What a cell part is painted with. The renderer turns `Solid` into the
/// colour itself, `Dimmed` into the colour at two thirds of its intensity,
/// and the two defaults into the theme's default foreground and background.
#[derive(Debug, Clone, Copy, PartialEq, Eq, Structural)]
pub enum Paint {
    Solid(Rgb),
    Dimmed(Rgb),
    DefaultForeground,
    DefaultBackground,
}

pub open spec fn rgb(r: u8, g: u8, b: u8) -> Rgb {
    Rgb { r, g, b }
}

/// The 16 standard terminal colours.
pub open spec fn spec_ansi_color(n: u8) -> Rgb
    recommends
        n < 16,
{
    if n == 0 {
        rgb(0, 0, 0)  // Black
    } else if n == 1 {
        rgb(205, 49, 49)  // Red
    } else if n == 2 {
        rgb(13, 188, 121)  // Green
    } else if n == 3 {
        rgb(229, 229, 16)  // Yellow
    } else if n == 4 {
        rgb(36, 114, 200)  // Blue
    } else if n == 5 {
        rgb(188, 63, 188)  // Magenta
    } else if n == 6 {
        rgb(17, 168, 205)  // Cyan
    } else if n == 7 {
        rgb(229, 229, 229)  // White (light grey)
    } else if n == 8 {
        rgb(102, 102, 102)  // Bright black (dark grey)
    } else if n == 9 {
        rgb(241, 76, 76)  // Bright red
    } else if n == 10 {
        rgb(35, 209, 139)  // Bright green
    } else if n == 11 {
        rgb(245, 245, 67)  // Bright yellow
    } else if n == 12 {
        rgb(59, 142, 234)  // Bright blue
    } else if n == 13 {
        rgb(214, 112, 214)  // Bright magenta
    } else if n == 14 {
        rgb(41, 184, 219)  // Bright cyan
    } else {
        rgb(255, 255, 255)  // Bright white
    }
}

/// Entry `n` of the 256-colour palette: a standard colour below 16, the
/// colour cube (red, green and blue each in 6 steps of 51) from 16 to 231,
/// and the grey ramp (8, 18, ..., 238) from 232 up.
pub open spec fn spec_palette(n: u8) -> Rgb {
    if n < 16 {
        spec_ansi_color(n)
    } else if n < 232 {
        let i = n - 16;
        rgb(((i / 36) * 51) as u8, (((i / 6) % 6) * 51) as u8, ((i % 6) * 51) as u8)
    } else {
        let v = (8 + (n - 232) * 10) as u8;
        rgb(v, v, v)
    }
}

/// One of the 16 standard terminal colours.
pub fn ansi_color(n: u8) -> (c: Rgb)
    requires
        n < 16,
    ensures
        c == spec_ansi_color(n),
{
    match n {
        0 => Rgb { r: 0, g: 0, b: 0 },
        1 => Rgb { r: 205, g: 49, b: 49 },
        2 => Rgb { r: 13, g: 188, b: 121 },
        3 => Rgb { r: 229, g: 229, b: 16 },
        4 => Rgb { r: 36, g: 114, b: 200 },
        5 => Rgb { r: 188, g: 63, b: 188 },
        6 => Rgb { r: 17, g: 168, b: 205 },
        7 => Rgb { r: 229, g: 229, b: 229 },
        8 => Rgb { r: 102, g: 102, b: 102 },
        9 => Rgb { r: 241, g: 76, b: 76 },
        10 => Rgb { r: 35, g: 209, b: 139 },
        11 => Rgb { r: 245, g: 245, b: 67 },
        12 => Rgb { r: 59, g: 142, b: 234 },
        13 => Rgb { r: 214, g: 112, b: 214 },
        14 => Rgb { r: 41, g: 184, b: 219 },
        _ => Rgb { r: 255, g: 255, b: 255 },
    }
}

/// Entry `n` of the 256-colour palette.
pub fn palette_color(n: u8) -> (c: Rgb)
    ensures
        c == spec_palette(n),
{
    if n < 16 {
        ansi_color(n)
    } else if n < 232 {
        // 216-colour cube: 6x6x6
        let i = n - 16;
        let b = (i % 6) * 51;
        let g = ((i / 6) % 6) * 51;
        let r = (i / 36) * 51;
        Rgb { r, g, b }
    } else {
        // 24 greys
        let v = 8 + (n - 232) * 10;
        Rgb { r: v, g: v, b: v }
    }
}

/// The colour cube: entry `16 + 36r + 6g + b` has channels `51r`, `51g`, `51b`.
pub proof fn lemma_palette_cube(r: u8, g: u8, b: u8)
    requires
        r < 6,
        g < 6,
        b < 6,
    ensures
        spec_palette((16 + 36 * r + 6 * g + b) as u8) == rgb(
            (51 * r) as u8,
            (51 * g) as u8,
            (51 * b) as u8,
        ),
{
    let i = 36 * r + 6 * g + b;
    assert(i / 36 == r && (i / 6) % 6 == g && i % 6 == b) by (nonlinear_arith)
        requires
            i == 36 * r + 6 * g + b,
            r < 6,
            g < 6,
            b < 6,
    ;
}

/// The grey ramp brightens by 10 from each entry to the next.
pub proof fn lemma_grey_ramp_steps(n: u8)
    requires
        232 <= n < 255,
    ensures
        spec_palette((n + 1) as u8).r == spec_palette(n).r + 10,
        spec_palette(n).r == spec_palette(n).g == spec_palette(n).b,
{
}

/// Entry `232 + k` of the palette is the grey with all three channels
/// `8 + 10k`, from 8 at entry 232 to 238 at entry 255; the first 16 entries
/// are the standard colours.
pub proof fn lemma_palette_greys_and_standard_colours(n: u8)
    ensures
        232 <= n ==> spec_palette(n) == rgb((8 + 10 * (n - 232)) as u8, (8 + 10 * (n - 232)) as u8, (8 + 10 * (n - 232)) as u8),
        n < 16 ==> spec_palette(n) == spec_ansi_color(n),
{
}

} // verus!
