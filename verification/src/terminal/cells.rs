//! What each terminal grid cell is drawn as: its colours, its glyph, its
//! underline and strike-through, and where the cursor goes.
use vstd::prelude::*;
use crate::palette::{palette_color, spec_palette, Paint, Rgb};

verus! {

/// The terminal's named colours.
#[derive(Debug, Clone, Copy, PartialEq, Eq, Structural)]
pub enum NamedColor {
    Black,
    Red,
    Green,
    Yellow,
    Blue,
    Magenta,
    Cyan,
    White,
    BrightBlack,
    BrightRed,
    BrightGreen,
    BrightYellow,
    BrightBlue,
    BrightMagenta,
    BrightCyan,
    BrightWhite,
    Foreground,
    Background,
    Cursor,
    DimBlack,
    DimRed,
    DimGreen,
    DimYellow,
    DimBlue,
    DimMagenta,
    DimCyan,
    DimWhite,
    BrightForeground,
    DimForeground,
}

/// A colour as a terminal program sets it.
#[derive(Debug, Clone, Copy, PartialEq, Eq, Structural)]
pub enum Color {
    Named(NamedColor),
    Spec(Rgb),
    Indexed(u8),
}

/// The attributes of a terminal cell.
#[derive(Debug, Clone, Copy, PartialEq, Eq, Structural)]
pub struct CellFlags {
    pub inverse: bool,
    pub hidden: bool,
    pub dim: bool,
    pub bold: bool,
    pub italic: bool,
    pub wide_char_spacer: bool,
    pub underline: bool,
    pub double_underline: bool,
    pub undercurl: bool,
    pub dotted_underline: bool,
    pub dashed_underline: bool,
    pub strikeout: bool,
}

/// How an underline is drawn.
#[derive(Debug, Clone, Copy, PartialEq, Eq, Structural)]
pub enum UnderlineStyle {
    Line,
    Double,
    Curl,
    Dotted,
    Dashed,
}

/// A glyph to draw from the atlas.
#[derive(Debug, Clone, Copy, PartialEq, Eq, Structural)]
pub struct GlyphRequest {
    pub ch: char,
    pub bold: bool,
    pub italic: bool,
}

/// What one terminal cell is drawn as. The glyph, the underline and the
/// strike-through are all painted with `fg`, darkened further when `dim`.
#[derive(Debug, Clone, Copy, PartialEq, Eq, Structural)]
pub struct TerminalCellPlan {
    pub fg: Paint,
    pub bg: Paint,
    pub dim: bool,
    pub glyph: Option<GlyphRequest>,
    pub underline: Option<UnderlineStyle>,
    pub strikeout: bool,
}

/// Whether a character is a control character: Unicode's general category
/// `Cc`, which is exactly U+0000 to U+001F and U+007F to U+009F.
pub open spec fn unicode_control(c: char) -> bool {
    (c as int) <= 0x1f || (0x7f <= (c as int) && (c as int) <= 0x9f)
}

/// Calls `char::is_control`, which its documentation says tells whether the
/// character's general category is `Cc`; Unicode assigns that category to
/// the two ranges of `unicode_control` and to nothing else, and keeps it
/// stable.
#[verifier::external_body]
pub(crate) fn is_control(c: char) -> (r: bool)
    ensures
        r == unicode_control(c),
{
    c.is_control()
}

/// Palette entry `n` as the terminal paints it: the entry of the ANSI
/// 256-colour palette, whatever the default.
pub open spec fn spec_indexed_paint(n: u8, default: Paint) -> Paint {
    Paint::Solid(spec_palette(n))
}

/// The palette index a standard or bright named colour stands for.
pub open spec fn spec_named_index(named: NamedColor) -> Option<u8> {
    match named {
        NamedColor::Black => Some(0u8),
        NamedColor::Red => Some(1u8),
        NamedColor::Green => Some(2u8),
        NamedColor::Yellow => Some(3u8),
        NamedColor::Blue => Some(4u8),
        NamedColor::Magenta => Some(5u8),
        NamedColor::Cyan => Some(6u8),
        NamedColor::White => Some(7u8),
        NamedColor::BrightBlack => Some(8u8),
        NamedColor::BrightRed => Some(9u8),
        NamedColor::BrightGreen => Some(10u8),
        NamedColor::BrightYellow => Some(11u8),
        NamedColor::BrightBlue => Some(12u8),
        NamedColor::BrightMagenta => Some(13u8),
        NamedColor::BrightCyan => Some(14u8),
        NamedColor::BrightWhite => Some(15u8),
        _ => None,
    }
}

/// The palette index whose colour a dim named colour darkens.
pub open spec fn spec_dim_index(named: NamedColor) -> Option<u8> {
    match named {
        NamedColor::DimBlack => Some(0u8),
        NamedColor::DimRed => Some(1u8),
        NamedColor::DimGreen => Some(2u8),
        NamedColor::DimYellow => Some(3u8),
        NamedColor::DimBlue => Some(4u8),
        NamedColor::DimMagenta => Some(5u8),
        NamedColor::DimCyan => Some(6u8),
        NamedColor::DimWhite => Some(7u8),
        _ => None,
    }
}

/// A named colour as the terminal paints it: standard and bright colours are
/// their palette entries, dim colours darken the standard entry, and the
/// foreground, background, cursor, bright-foreground and dim-foreground
/// colours are the default.
pub open spec fn spec_named_paint(named: NamedColor, default: Paint) -> Paint {
    if spec_named_index(named) is Some {
        spec_indexed_paint(spec_named_index(named)->0, default)
    } else if spec_dim_index(named) is Some {
        Paint::Dimmed(spec_palette(spec_dim_index(named)->0))
    } else {
        default
    }
}

/// A terminal colour as it is painted, `default` standing in where the
/// colour defers to the theme.
pub open spec fn spec_color_paint(color: Color, default: Paint) -> Paint {
    match color {
        Color::Spec(c) => Paint::Solid(c),
        Color::Indexed(n) => spec_indexed_paint(n, default),
        Color::Named(named) => spec_named_paint(named, default),
    }
}

/// Palette entry `n` as the terminal paints it.
pub fn indexed_paint(n: u8, default: Paint) -> (p: Paint)
    ensures
        p == spec_indexed_paint(n, default),
{
    Paint::Solid(palette_color(n))
}

/// A named colour as the terminal paints it.
pub fn named_paint(named: NamedColor, default: Paint) -> (p: Paint)
    ensures
        p == spec_named_paint(named, default),
{
    match named {
        NamedColor::Black => indexed_paint(0, default),
        NamedColor::Red => indexed_paint(1, default),
        NamedColor::Green => indexed_paint(2, default),
        NamedColor::Yellow => indexed_paint(3, default),
        NamedColor::Blue => indexed_paint(4, default),
        NamedColor::Magenta => indexed_paint(5, default),
        NamedColor::Cyan => indexed_paint(6, default),
        NamedColor::White => indexed_paint(7, default),
        NamedColor::BrightBlack => indexed_paint(8, default),
        NamedColor::BrightRed => indexed_paint(9, default),
        NamedColor::BrightGreen => indexed_paint(10, default),
        NamedColor::BrightYellow => indexed_paint(11, default),
        NamedColor::BrightBlue => indexed_paint(12, default),
        NamedColor::BrightMagenta => indexed_paint(13, default),
        NamedColor::BrightCyan => indexed_paint(14, default),
        NamedColor::BrightWhite => indexed_paint(15, default),
        NamedColor::Foreground | NamedColor::Background | NamedColor::Cursor => default,
        // Dim variants use the base colour at reduced intensity
        NamedColor::DimBlack => Paint::Dimmed(palette_color(0)),
        NamedColor::DimRed => Paint::Dimmed(palette_color(1)),
        NamedColor::DimGreen => Paint::Dimmed(palette_color(2)),
        NamedColor::DimYellow => Paint::Dimmed(palette_color(3)),
        NamedColor::DimBlue => Paint::Dimmed(palette_color(4)),
        NamedColor::DimMagenta => Paint::Dimmed(palette_color(5)),
        NamedColor::DimCyan => Paint::Dimmed(palette_color(6)),
        NamedColor::DimWhite => Paint::Dimmed(palette_color(7)),
        NamedColor::BrightForeground | NamedColor::DimForeground => default,
    }
}

/// A terminal colour as it is painted.
pub fn color_paint(color: Color, default: Paint) -> (p: Paint)
    ensures
        p == spec_color_paint(color, default),
{
    match color {
        Color::Spec(c) => Paint::Solid(c),
        Color::Indexed(n) => indexed_paint(n, default),
        Color::Named(named) => named_paint(named, default),
    }
}

/// The underline a cell's flags ask for; a plain underline wins over a
/// double one, which wins over a curly, a dotted and a dashed one, in that
/// order.
pub open spec fn spec_underline_style(flags: CellFlags) -> Option<UnderlineStyle> {
    if flags.underline {
        Some(UnderlineStyle::Line)
    } else if flags.double_underline {
        Some(UnderlineStyle::Double)
    } else if flags.undercurl {
        Some(UnderlineStyle::Curl)
    } else if flags.dotted_underline {
        Some(UnderlineStyle::Dotted)
    } else if flags.dashed_underline {
        Some(UnderlineStyle::Dashed)
    } else {
        None
    }
}

/// Whether a cell's character is drawn: not on the second cell of a wide
/// character, and not for a space, NUL or any other control character.
pub open spec fn spec_draws_glyph(ch: char, flags: CellFlags) -> bool {
    !flags.wide_char_spacer && ch != ' ' && ch != '\0' && !unicode_control(ch)
}

/// What a terminal cell is drawn as: its colours resolved against the
/// default foreground and background, swapped for inverse video, the
/// foreground replaced by the background when hidden; its glyph, in the
/// cell's weight and slant, when it is drawn; its underline and
/// strike-through.
pub open spec fn spec_plan_terminal_cell(fg: Color, bg: Color, ch: char, flags: CellFlags) -> TerminalCellPlan {
    let fg0 = spec_color_paint(fg, Paint::DefaultForeground);
    let bg0 = spec_color_paint(bg, Paint::DefaultBackground);
    let (fg1, bg1) = if flags.inverse { (bg0, fg0) } else { (fg0, bg0) };
    let fg2 = if flags.hidden { bg1 } else { fg1 };
    TerminalCellPlan {
        fg: fg2,
        bg: bg1,
        dim: flags.dim,
        glyph: if spec_draws_glyph(ch, flags) {
            Some(GlyphRequest { ch, bold: flags.bold, italic: flags.italic })
        } else {
            None
        },
        underline: spec_underline_style(flags),
        strikeout: flags.strikeout,
    }
}

/// The underline a cell's flags ask for.
pub fn underline_style(flags: &CellFlags) -> (r: Option<UnderlineStyle>)
    ensures
        r == spec_underline_style(*flags),
{
    if flags.underline {
        Some(UnderlineStyle::Line)
    } else if flags.double_underline {
        Some(UnderlineStyle::Double)
    } else if flags.undercurl {
        Some(UnderlineStyle::Curl)
    } else if flags.dotted_underline {
        Some(UnderlineStyle::Dotted)
    } else if flags.dashed_underline {
        Some(UnderlineStyle::Dashed)
    } else {
        None
    }
}

/// What a terminal cell with colours `fg` and `bg`, character `ch` and
/// attributes `flags` is drawn as.
pub fn plan_terminal_cell(fg: Color, bg: Color, ch: char, flags: &CellFlags) -> (plan: TerminalCellPlan)
    ensures
        plan == spec_plan_terminal_cell(fg, bg, ch, *flags),
{
    // Resolve colors
    let mut fg = color_paint(fg, Paint::DefaultForeground);
    let mut bg = color_paint(bg, Paint::DefaultBackground);
    // Handle INVERSE flag
    if flags.inverse {
        let t = fg;
        fg = bg;
        bg = t;
    }
    // Handle HIDDEN flag
    if flags.hidden {
        fg = bg;
    }
    // Skip wide char spacers (second cell of a wide character)
    let is_spacer = flags.wide_char_spacer;
    let glyph = if !is_spacer && ch != ' ' && ch != '\0' && !is_control(ch) {
        Some(GlyphRequest { ch, bold: flags.bold, italic: flags.italic })
    } else {
        None
    };
    TerminalCellPlan {
        fg,
        bg,
        dim: flags.dim,
        glyph,
        underline: underline_style(flags),
        strikeout: flags.strikeout,
    }
}

/// The block cursor is shown only when asked for, when the view is not
/// scrolled back, and when the cursor lies on the screen.
pub open spec fn spec_cursor_visible(
    show_cursor: bool,
    display_offset: usize,
    cursor_line: i32,
    cursor_column: usize,
    num_lines: usize,
    num_cols: usize,
) -> bool {
    show_cursor && display_offset == 0 && (cursor_line as usize) < num_lines && cursor_column
        < num_cols
}

/// Whether the terminal's block cursor is drawn.
pub fn cursor_visible(
    show_cursor: bool,
    display_offset: usize,
    cursor_line: i32,
    cursor_column: usize,
    num_lines: usize,
    num_cols: usize,
) -> (r: bool)
    ensures
        r == spec_cursor_visible(show_cursor, display_offset, cursor_line, cursor_column, num_lines, num_cols),
{
    let cursor_row = cursor_line as usize;
    show_cursor && display_offset == 0 && cursor_row < num_lines && cursor_column < num_cols
}

/// Dim colours darken the standard colour of the same name.
pub proof fn lemma_dim_darkens_standard(named: NamedColor, default: Paint)
    requires
        spec_dim_index(named) is Some,
    ensures
        spec_named_paint(named, default) == Paint::Dimmed(spec_palette(spec_dim_index(named)->0)),
        spec_named_paint(
            match named {
                NamedColor::DimBlack => NamedColor::Black,
                NamedColor::DimRed => NamedColor::Red,
                NamedColor::DimGreen => NamedColor::Green,
                NamedColor::DimYellow => NamedColor::Yellow,
                NamedColor::DimBlue => NamedColor::Blue,
                NamedColor::DimMagenta => NamedColor::Magenta,
                NamedColor::DimCyan => NamedColor::Cyan,
                _ => NamedColor::White,
            },
            default,
        ) == Paint::Solid(spec_palette(spec_dim_index(named)->0)),
{
}

/// A hidden cell's glyph, underline and strike-through are planned in the
/// colour of its background.
pub proof fn lemma_hidden_cells_blend_in(fg: Color, bg: Color, ch: char, flags: CellFlags)
    requires
        flags.hidden,
    ensures
        spec_plan_terminal_cell(fg, bg, ch, flags).fg == spec_plan_terminal_cell(fg, bg, ch, flags).bg,
{
}

/// Inverse video exchanges the two colours of a cell that is not hidden.
pub proof fn lemma_inverse_swaps_colors(fg: Color, bg: Color, ch: char, flags: CellFlags)
    requires
        !flags.hidden,
    ensures
        ({
            let plain = spec_plan_terminal_cell(fg, bg, ch, CellFlags { inverse: false, ..flags });
            let inverted = spec_plan_terminal_cell(fg, bg, ch, CellFlags { inverse: true, ..flags });
            inverted.fg == plain.bg && inverted.bg == plain.fg
        }),
{
}

/// What a terminal cell's attributes do to its plan: its character is drawn
/// exactly when the cell is not the second half of a wide character and the
/// character is neither a space nor a control character (U+0000 to U+001F,
/// U+007F to U+009F), and then from the face of the cell's own weight and
/// slant; the cell is dim and struck through exactly when its flags say so;
/// and its underline is the first the flags ask for of a plain, double,
/// curly, dotted and dashed one.
pub proof fn lemma_terminal_cell_attributes(fg: Color, bg: Color, ch: char, flags: CellFlags)
    ensures
        ({
            let p = spec_plan_terminal_cell(fg, bg, ch, flags);
            let control = (ch as int) <= 0x1f || (0x7f <= (ch as int) && (ch as int) <= 0x9f);
            &&& (p.glyph is Some <==> !flags.wide_char_spacer && ch != ' ' && !control)
            &&& p.glyph is Some ==> p.glyph->0.ch == ch && p.glyph->0.bold == flags.bold
                && p.glyph->0.italic == flags.italic
            &&& p.dim == flags.dim
            &&& p.strikeout == flags.strikeout
            &&& flags.underline ==> p.underline == Some(UnderlineStyle::Line)
            &&& !flags.underline && flags.double_underline ==> p.underline == Some(UnderlineStyle::Double)
            &&& !flags.underline && !flags.double_underline && flags.undercurl ==> p.underline == Some(
                UnderlineStyle::Curl,
            )
            &&& !flags.underline && !flags.double_underline && !flags.undercurl && flags.dotted_underline
                ==> p.underline == Some(UnderlineStyle::Dotted)
            &&& !flags.underline && !flags.double_underline && !flags.undercurl && !flags.dotted_underline
                && flags.dashed_underline ==> p.underline == Some(UnderlineStyle::Dashed)
            &&& !flags.underline && !flags.double_underline && !flags.undercurl && !flags.dotted_underline
                && !flags.dashed_underline ==> p.underline is None
        }),
{
}

/// A cell that is neither inverse nor hidden is painted in its own colours,
/// resolved against the default foreground and background.
pub proof fn lemma_plain_cells_keep_their_colours(fg: Color, bg: Color, ch: char, flags: CellFlags)
    requires
        !flags.inverse,
        !flags.hidden,
    ensures
        spec_plan_terminal_cell(fg, bg, ch, flags).fg == spec_color_paint(fg, Paint::DefaultForeground),
        spec_plan_terminal_cell(fg, bg, ch, flags).bg == spec_color_paint(bg, Paint::DefaultBackground),
{
}

/// The terminal's named colours: black, red, green, yellow, blue, magenta,
/// cyan and white are palette entries 0 to 7 and their bright forms
/// entries 8 to 15; the dim forms are entries 0 to 7 darkened; the
/// foreground, background, cursor, bright-foreground and dim-foreground
/// colours are the default.
pub proof fn lemma_named_colours_are_palette_entries(default: Paint)
    ensures
        ({
            let t = |c: NamedColor| spec_color_paint(Color::Named(c), default);
            let p = |n: u8| Paint::Solid(spec_palette(n));
            let d = |n: u8| Paint::Dimmed(spec_palette(n));
            &&& t(NamedColor::Black) == p(0) && t(NamedColor::Red) == p(1)
            &&& t(NamedColor::Green) == p(2) && t(NamedColor::Yellow) == p(3)
            &&& t(NamedColor::Blue) == p(4) && t(NamedColor::Magenta) == p(5)
            &&& t(NamedColor::Cyan) == p(6) && t(NamedColor::White) == p(7)
            &&& t(NamedColor::BrightBlack) == p(8) && t(NamedColor::BrightRed) == p(9)
            &&& t(NamedColor::BrightGreen) == p(10) && t(NamedColor::BrightYellow) == p(11)
            &&& t(NamedColor::BrightBlue) == p(12) && t(NamedColor::BrightMagenta) == p(13)
            &&& t(NamedColor::BrightCyan) == p(14) && t(NamedColor::BrightWhite) == p(15)
            &&& t(NamedColor::DimBlack) == d(0) && t(NamedColor::DimRed) == d(1)
            &&& t(NamedColor::DimGreen) == d(2) && t(NamedColor::DimYellow) == d(3)
            &&& t(NamedColor::DimBlue) == d(4) && t(NamedColor::DimMagenta) == d(5)
            &&& t(NamedColor::DimCyan) == d(6) && t(NamedColor::DimWhite) == d(7)
            &&& t(NamedColor::Foreground) == default && t(NamedColor::Background) == default
            &&& t(NamedColor::Cursor) == default && t(NamedColor::BrightForeground) == default
            &&& t(NamedColor::DimForeground) == default
        }),
{
}

/// A colour set as red, green and blue is painted as exactly that colour,
/// and an indexed one as its palette entry.
pub proof fn lemma_direct_colours(c: Rgb, n: u8, default: Paint)
    ensures
        spec_color_paint(Color::Spec(c), default) == Paint::Solid(c),
        spec_color_paint(Color::Indexed(n), default) == Paint::Solid(spec_palette(n)),
{
}

/// The block cursor is never drawn when the cursor is hidden or the view is
/// scrolled back, and for a cursor on the screen (a row from 0 below the
/// line count, a column below the column count) it is drawn exactly when
/// shown and the view is not scrolled back.
pub proof fn lemma_cursor_visibility(
    show_cursor: bool,
    display_offset: usize,
    cursor_line: i32,
    cursor_column: usize,
    num_lines: usize,
    num_cols: usize,
)
    ensures
        !show_cursor || display_offset != 0 ==> !spec_cursor_visible(
            show_cursor,
            display_offset,
            cursor_line,
            cursor_column,
            num_lines,
            num_cols,
        ),
        0 <= cursor_line < num_lines && cursor_column < num_cols ==> spec_cursor_visible(
            show_cursor,
            display_offset,
            cursor_line,
            cursor_column,
            num_lines,
            num_cols,
        ) == (show_cursor && display_offset == 0),
        cursor_column >= num_cols ==> !spec_cursor_visible(
            show_cursor,
            display_offset,
            cursor_line,
            cursor_column,
            num_lines,
            num_cols,
        ),
{
}

} // verus!
