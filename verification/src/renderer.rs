//! What each editor grid cell is drawn as, and which font face draws it.
use vstd::prelude::*;
use crate::event::first_char;
use crate::palette::{palette_color, spec_palette, Paint, Rgb};
use crate::terminal::cells::{is_control, unicode_control, UnderlineStyle};

verus! {

/// The editor's colours.
#[derive(Debug, Clone, Copy, PartialEq, Eq, Structural)]
pub enum Color {
    Reset,
    Black,
    Red,
    Green,
    Yellow,
    Blue,
    Magenta,
    Cyan,
    Gray,
    LightRed,
    LightGreen,
    LightYellow,
    LightBlue,
    LightMagenta,
    LightCyan,
    LightGray,
    White,
    Rgb(u8, u8, u8),
    Indexed(u8),
}

/// The editor's text modifiers that change how a cell is drawn.
#[derive(Debug, Clone, Copy, PartialEq, Eq, Structural)]
pub struct Modifier {
    pub bold: bool,
    pub dim: bool,
    pub italic: bool,
    pub reversed: bool,
    pub hidden: bool,
    pub crossed_out: bool,
}

/// The editor's underline styles.
#[derive(Debug, Clone, Copy, PartialEq, Eq, Structural)]
pub enum UiUnderline {
    Reset,
    Line,
    Curl,
    Dotted,
    Dashed,
    DoubleLine,
}

/// The editor's cursor shapes.
#[derive(Debug, Clone, Copy, PartialEq, Eq, Structural)]
pub enum CursorKind {
    Block,
    Bar,
    Underline,
    Hidden,
}

/// One cell of the editor's grid.
#[derive(Debug, Clone, PartialEq, Eq)]
pub struct Cell {
    pub symbol: String,
    pub fg: Color,
    pub bg: Color,
    pub underline_color: Color,
    pub underline_style: UiUnderline,
    pub modifier: Modifier,
}

/// Which face of the font draws a glyph.
#[derive(Debug, Clone, Copy, PartialEq, Eq, Structural)]
pub enum FontStyle {
    Regular,
    Bold,
    Italic,
    BoldItalic,
}

/// What one editor cell is drawn as. The glyph and the strike-through are
/// painted with `fg`, at half opacity when `faded`; an underline is painted
/// with its own colour when it has one, else like the glyph.
#[derive(Debug, Clone, Copy, PartialEq, Eq)]
pub struct EditorCellPlan {
    pub fg: Paint,
    pub bg: Paint,
    pub faded: bool,
    pub glyph: Option<(char, FontStyle)>,
    pub underline: Option<(UnderlineStyle, Option<Paint>)>,
    pub strikeout: bool,
}

/// An editor colour as it is painted, `default` standing in for `Reset`:
/// black and white are pure, the named colours are palette entries (both
/// greys being entry 7), and indexed colours are palette entries.
pub open spec fn spec_color_paint(color: Color, default: Paint) -> Paint {
    match color {
        Color::Rgb(r, g, b) => Paint::Solid(Rgb { r, g, b }),
        Color::Indexed(n) => Paint::Solid(spec_palette(n)),
        Color::Black => Paint::Solid(Rgb { r: 0, g: 0, b: 0 }),
        Color::Red => Paint::Solid(spec_palette(1)),
        Color::Green => Paint::Solid(spec_palette(2)),
        Color::Yellow => Paint::Solid(spec_palette(3)),
        Color::Blue => Paint::Solid(spec_palette(4)),
        Color::Magenta => Paint::Solid(spec_palette(5)),
        Color::Cyan => Paint::Solid(spec_palette(6)),
        Color::Gray => Paint::Solid(spec_palette(7)),
        Color::LightRed => Paint::Solid(spec_palette(9)),
        Color::LightGreen => Paint::Solid(spec_palette(10)),
        Color::LightYellow => Paint::Solid(spec_palette(11)),
        Color::LightBlue => Paint::Solid(spec_palette(12)),
        Color::LightMagenta => Paint::Solid(spec_palette(13)),
        Color::LightCyan => Paint::Solid(spec_palette(14)),
        Color::LightGray => Paint::Solid(spec_palette(7)),
        Color::White => Paint::Solid(Rgb { r: 255, g: 255, b: 255 }),
        Color::Reset => default,
    }
}

/// An editor colour as it is painted.
pub fn color_paint(color: Color, default: Paint) -> (p: Paint)
    ensures
        p == spec_color_paint(color, default),
{
    match color {
        Color::Rgb(r, g, b) => Paint::Solid(Rgb { r, g, b }),
        Color::Indexed(n) => Paint::Solid(palette_color(n)),
        Color::Black => Paint::Solid(Rgb { r: 0, g: 0, b: 0 }),
        Color::Red => Paint::Solid(palette_color(1)),
        Color::Green => Paint::Solid(palette_color(2)),
        Color::Yellow => Paint::Solid(palette_color(3)),
        Color::Blue => Paint::Solid(palette_color(4)),
        Color::Magenta => Paint::Solid(palette_color(5)),
        Color::Cyan => Paint::Solid(palette_color(6)),
        Color::Gray => Paint::Solid(palette_color(7)),
        Color::LightRed => Paint::Solid(palette_color(9)),
        Color::LightGreen => Paint::Solid(palette_color(10)),
        Color::LightYellow => Paint::Solid(palette_color(11)),
        Color::LightBlue => Paint::Solid(palette_color(12)),
        Color::LightMagenta => Paint::Solid(palette_color(13)),
        Color::LightCyan => Paint::Solid(palette_color(14)),
        Color::LightGray => Paint::Solid(palette_color(7)),
        Color::White => Paint::Solid(Rgb { r: 255, g: 255, b: 255 }),
        Color::Reset => default,
    }
}

/// The theme colour a style gives, when it is a true colour.
pub open spec fn spec_theme_rgb(color: Option<Color>) -> Option<Rgb> {
    match color {
        Some(Color::Rgb(r, g, b)) => Some(Rgb { r, g, b }),
        _ => None,
    }
}

/// The renderer takes a theme's default foreground or background only when
/// the theme gives it as a true colour; otherwise it keeps its own.
pub fn theme_rgb(color: Option<Color>) -> (r: Option<Rgb>)
    ensures
        r == spec_theme_rgb(color),
{
    match color {
        Some(Color::Rgb(r, g, b)) => Some(Rgb { r, g, b }),
        _ => None,
    }
}

/// The face for a weight and slant.
pub open spec fn spec_font_style(bold: bool, italic: bool) -> FontStyle {
    if bold && italic {
        FontStyle::BoldItalic
    } else if bold {
        FontStyle::Bold
    } else if italic {
        FontStyle::Italic
    } else {
        FontStyle::Regular
    }
}

/// The face for a weight and slant.
pub fn font_style(bold: bool, italic: bool) -> (r: FontStyle)
    ensures
        r == spec_font_style(bold, italic),
{
    match (bold, italic) {
        (true, true) => FontStyle::BoldItalic,
        (true, false) => FontStyle::Bold,
        (false, true) => FontStyle::Italic,
        (false, false) => FontStyle::Regular,
    }
}

/// The font loaded for a face, falling back to the regular font where that
/// face did not load.
pub open spec fn spec_select_font<K>(
    style: FontStyle,
    regular: K,
    bold: Option<K>,
    italic: Option<K>,
    bold_italic: Option<K>,
) -> K {
    let chosen = match style {
        FontStyle::BoldItalic => bold_italic,
        FontStyle::Bold => bold,
        FontStyle::Italic => italic,
        FontStyle::Regular => None,
    };
    match chosen {
        Some(k) => k,
        None => regular,
    }
}

/// The font loaded for a face, or the regular one.
pub fn select_font<K: Copy>(
    style: FontStyle,
    regular: K,
    bold: Option<K>,
    italic: Option<K>,
    bold_italic: Option<K>,
) -> (r: K)
    ensures
        r == spec_select_font(style, regular, bold, italic, bold_italic),
{
    let chosen = match style {
        FontStyle::BoldItalic => bold_italic,
        FontStyle::Bold => bold,
        FontStyle::Italic => italic,
        FontStyle::Regular => None,
    };
    match chosen {
        Some(k) => k,
        None => regular,
    }
}

/// The underline an editor style asks for.
pub open spec fn spec_underline_style(style: UiUnderline) -> Option<UnderlineStyle> {
    match style {
        UiUnderline::Reset => None,
        UiUnderline::Line => Some(UnderlineStyle::Line),
        UiUnderline::DoubleLine => Some(UnderlineStyle::Double),
        UiUnderline::Curl => Some(UnderlineStyle::Curl),
        UiUnderline::Dotted => Some(UnderlineStyle::Dotted),
        UiUnderline::Dashed => Some(UnderlineStyle::Dashed),
    }
}

/// The character a cell shows: the first of its symbol, or a space.
pub open spec fn spec_cell_char(symbol: Seq<char>) -> char {
    if symbol.len() > 0 {
        symbol[0]
    } else {
        ' '
    }
}

/// What an editor cell is drawn as: its colours resolved against the
/// default foreground and background, swapped when reversed, the foreground
/// replaced by the background when hidden, faded when dim; its first
/// character in the face its weight and slant choose, unless that is a space
/// or a control character; its underline, in its underline colour unless
/// that is `Reset`; and its strike-through when crossed out.
pub open spec fn spec_plan_editor_cell(cell: Cell) -> EditorCellPlan {
    let m = cell.modifier;
    let fg0 = spec_color_paint(cell.fg, Paint::DefaultForeground);
    let bg0 = spec_color_paint(cell.bg, Paint::DefaultBackground);
    let (fg1, bg1) = if m.reversed { (bg0, fg0) } else { (fg0, bg0) };
    let fg2 = if m.hidden { bg1 } else { fg1 };
    let ch = spec_cell_char(cell.symbol@);
    EditorCellPlan {
        fg: fg2,
        bg: bg1,
        faded: m.dim,
        glyph: if ch != ' ' && !unicode_control(ch) {
            Some((ch, spec_font_style(m.bold, m.italic)))
        } else {
            None
        },
        underline: match spec_underline_style(cell.underline_style) {
            Some(style) => Some(
                (
                    style,
                    if cell.underline_color != Color::Reset {
                        Some(spec_color_paint(cell.underline_color, fg2))
                    } else {
                        None
                    },
                ),
            ),
            None => None,
        },
        strikeout: m.crossed_out,
    }
}

/// The underline an editor style asks for.
pub fn underline_style(style: UiUnderline) -> (r: Option<UnderlineStyle>)
    ensures
        r == spec_underline_style(style),
{
    match style {
        UiUnderline::Reset => None,
        UiUnderline::Line => Some(UnderlineStyle::Line),
        UiUnderline::DoubleLine => Some(UnderlineStyle::Double),
        UiUnderline::Curl => Some(UnderlineStyle::Curl),
        UiUnderline::Dotted => Some(UnderlineStyle::Dotted),
        UiUnderline::Dashed => Some(UnderlineStyle::Dashed),
    }
}

/// What an editor cell is drawn as.
pub fn plan_editor_cell(cell: &Cell) -> (plan: EditorCellPlan)
    ensures
        plan == spec_plan_editor_cell(*cell),
{
    let modifier = cell.modifier;
    let mut fg = color_paint(cell.fg, Paint::DefaultForeground);
    let mut bg = color_paint(cell.bg, Paint::DefaultBackground);
    if modifier.reversed {
        let t = fg;
        fg = bg;
        bg = t;
    }
    if modifier.hidden {
        fg = bg;
    }
    // Glyph
    let ch = match first_char(cell.symbol.as_str()) {
        Some(c) => c,
        None => ' ',
    };
    let glyph = if ch != ' ' && !is_control(ch) {
        Some((ch, font_style(modifier.bold, modifier.italic)))
    } else {
        None
    };
    // Underline decorations
    let underline = match underline_style(cell.underline_style) {
        Some(style) => {
            let color = if cell.underline_color != Color::Reset {
                Some(color_paint(cell.underline_color, fg))
            } else {
                None
            };
            Some((style, color))
        },
        None => None,
    };
    EditorCellPlan {
        fg,
        bg,
        faded: modifier.dim,
        glyph,
        underline,
        strikeout: modifier.crossed_out,
    }
}

/// The cursor drawn over the cell at (`col`, `row`): the cursor's shape when
/// the cursor is at that cell and not hidden.
pub open spec fn spec_cursor_at(col: u16, row: u16, cursor_pos: Option<(u16, u16)>, kind: CursorKind) -> Option<CursorKind> {
    match cursor_pos {
        Some((cx, cy)) => if col == cx && row == cy && kind != CursorKind::Hidden {
            Some(kind)
        } else {
            None
        },
        None => None,
    }
}

/// The cursor drawn over the cell at (`col`, `row`), if any.
pub fn cursor_at(col: u16, row: u16, cursor_pos: Option<(u16, u16)>, kind: CursorKind) -> (r: Option<CursorKind>)
    ensures
        r == spec_cursor_at(col, row, cursor_pos, kind),
{
    if let Some((cx, cy)) = cursor_pos {
        if col == cx && row == cy && kind != CursorKind::Hidden {
            return Some(kind);
        }
    }
    None
}

/// The editor and the terminal paint palette colours alike: every indexed
/// colour is the same entry of the 256-colour palette in both, whatever
/// either's default.
pub proof fn lemma_indexed_colors_agree(n: u8, terminal_default: Paint, editor_default: Paint)
    ensures
        crate::terminal::cells::spec_color_paint(
            crate::terminal::cells::Color::Indexed(n),
            terminal_default,
        ) == spec_color_paint(Color::Indexed(n), editor_default),
{
}

/// The editor's named colours are the terminal's colours of the same name:
/// black, red, green, yellow, blue, magenta and cyan are the standard
/// colours, the light ones the bright colours, and grey the terminal's
/// white; the editor's white is pure white, as is the terminal's bright white.
pub proof fn lemma_named_colors_agree(terminal_default: Paint, editor_default: Paint)
    ensures
        ({
            let t = |c: crate::terminal::cells::NamedColor|
                crate::terminal::cells::spec_color_paint(
                    crate::terminal::cells::Color::Named(c),
                    terminal_default,
                );
            let e = |c: Color| spec_color_paint(c, editor_default);
            &&& e(Color::Black) == t(crate::terminal::cells::NamedColor::Black)
            &&& e(Color::Red) == t(crate::terminal::cells::NamedColor::Red)
            &&& e(Color::Green) == t(crate::terminal::cells::NamedColor::Green)
            &&& e(Color::Yellow) == t(crate::terminal::cells::NamedColor::Yellow)
            &&& e(Color::Blue) == t(crate::terminal::cells::NamedColor::Blue)
            &&& e(Color::Magenta) == t(crate::terminal::cells::NamedColor::Magenta)
            &&& e(Color::Cyan) == t(crate::terminal::cells::NamedColor::Cyan)
            &&& e(Color::Gray) == t(crate::terminal::cells::NamedColor::White)
            &&& e(Color::LightGray) == t(crate::terminal::cells::NamedColor::White)
            &&& e(Color::LightRed) == t(crate::terminal::cells::NamedColor::BrightRed)
            &&& e(Color::LightGreen) == t(crate::terminal::cells::NamedColor::BrightGreen)
            &&& e(Color::LightYellow) == t(crate::terminal::cells::NamedColor::BrightYellow)
            &&& e(Color::LightBlue) == t(crate::terminal::cells::NamedColor::BrightBlue)
            &&& e(Color::LightMagenta) == t(crate::terminal::cells::NamedColor::BrightMagenta)
            &&& e(Color::LightCyan) == t(crate::terminal::cells::NamedColor::BrightCyan)
            &&& e(Color::White) == t(crate::terminal::cells::NamedColor::BrightWhite)
        }),
{
}

/// Reversing a cell that is not hidden exchanges its two colours, and a
/// hidden cell's glyph is painted in its background colour.
pub proof fn lemma_editor_reverse_and_hide(cell: Cell)
    ensures
        ({
            let m = cell.modifier;
            let plain = spec_plan_editor_cell(Cell { modifier: Modifier { reversed: false, hidden: false, ..m }, ..cell });
            let reversed = spec_plan_editor_cell(Cell { modifier: Modifier { reversed: true, hidden: false, ..m }, ..cell });
            &&& reversed.fg == plain.bg && reversed.bg == plain.fg
        }),
        cell.modifier.hidden ==> spec_plan_editor_cell(cell).fg == spec_plan_editor_cell(cell).bg,
{
}

/// The face has the bold weight exactly when asked for bold, and the
/// italic slant exactly when asked for italic.
pub proof fn lemma_font_style_matches_request(bold: bool, italic: bool)
    ensures
        ({
            let f = spec_font_style(bold, italic);
            &&& (f == FontStyle::Bold || f == FontStyle::BoldItalic) == bold
            &&& (f == FontStyle::Italic || f == FontStyle::BoldItalic) == italic
        }),
{
}

/// The font drawing a style is that style's own font where it loaded, and
/// the regular font otherwise.
pub proof fn lemma_select_font_prefers_own_face<K>(
    style: FontStyle,
    regular: K,
    bold: Option<K>,
    italic: Option<K>,
    bold_italic: Option<K>,
)
    ensures
        ({
            let r = spec_select_font(style, regular, bold, italic, bold_italic);
            &&& style == FontStyle::Regular ==> r == regular
            &&& style == FontStyle::Bold ==> r == (if bold is Some { bold->0 } else { regular })
            &&& style == FontStyle::Italic ==> r == (if italic is Some { italic->0 } else { regular })
            &&& style == FontStyle::BoldItalic ==> r == (if bold_italic is Some {
                bold_italic->0
            } else {
                regular
            })
        }),
{
}

/// What an editor cell's modifiers do to its plan: its first character (a
/// space when it has none) is drawn exactly when it is neither a space nor
/// a control character (U+0000 to U+001F, U+007F to U+009F), and then from
/// the bold face when only bold, the italic face when only italic, the
/// bold-italic face when both and the regular face when neither; the cell
/// is faded exactly when dim and struck through exactly when crossed out.
pub proof fn lemma_editor_cell_attributes(cell: Cell)
    ensures
        ({
            let p = spec_plan_editor_cell(cell);
            let m = cell.modifier;
            let ch = if cell.symbol@.len() > 0 { cell.symbol@[0] } else { ' ' };
            let control = (ch as int) <= 0x1f || (0x7f <= (ch as int) && (ch as int) <= 0x9f);
            &&& (p.glyph is Some <==> ch != ' ' && !control)
            &&& p.glyph matches Some((c, face)) ==> {
                &&& c == ch
                &&& m.bold && m.italic ==> face == FontStyle::BoldItalic
                &&& m.bold && !m.italic ==> face == FontStyle::Bold
                &&& !m.bold && m.italic ==> face == FontStyle::Italic
                &&& !m.bold && !m.italic ==> face == FontStyle::Regular
            }
            &&& p.faded == m.dim
            &&& p.strikeout == m.crossed_out
        }),
{
}

/// An editor cell's underline: none for `Reset`, else the style of the same
/// name (a double line for `DoubleLine`), in the cell's underline colour
/// resolved against its glyph colour, or in the glyph's colour when the
/// underline colour is `Reset`.
pub proof fn lemma_editor_underline(cell: Cell)
    ensures
        ({
            let p = spec_plan_editor_cell(cell);
            let colour = if cell.underline_color == Color::Reset {
                None
            } else {
                Some(spec_color_paint(cell.underline_color, p.fg))
            };
            &&& cell.underline_style == UiUnderline::Reset ==> p.underline is None
            &&& cell.underline_style == UiUnderline::Line ==> p.underline == Some((UnderlineStyle::Line, colour))
            &&& cell.underline_style == UiUnderline::DoubleLine ==> p.underline == Some(
                (UnderlineStyle::Double, colour),
            )
            &&& cell.underline_style == UiUnderline::Curl ==> p.underline == Some((UnderlineStyle::Curl, colour))
            &&& cell.underline_style == UiUnderline::Dotted ==> p.underline == Some(
                (UnderlineStyle::Dotted, colour),
            )
            &&& cell.underline_style == UiUnderline::Dashed ==> p.underline == Some(
                (UnderlineStyle::Dashed, colour),
            )
        }),
{
}

/// An editor colour given as red, green and blue is painted as exactly that
/// colour, black and white as pure black and white, and `Reset` as the
/// default it is resolved against.
pub proof fn lemma_editor_direct_colours(r: u8, g: u8, b: u8, default: Paint)
    ensures
        spec_color_paint(Color::Rgb(r, g, b), default) == Paint::Solid(Rgb { r, g, b }),
        spec_color_paint(Color::Black, default) == Paint::Solid(Rgb { r: 0, g: 0, b: 0 }),
        spec_color_paint(Color::White, default) == Paint::Solid(Rgb { r: 255, g: 255, b: 255 }),
        spec_color_paint(Color::Reset, default) == default,
{
}

/// The cursor is drawn over a cell exactly when the cursor is at that cell
/// and not hidden, and then in its own shape.
pub proof fn lemma_cursor_only_at_its_cell(col: u16, row: u16, cursor_pos: Option<(u16, u16)>, kind: CursorKind)
    ensures
        spec_cursor_at(col, row, cursor_pos, kind) is Some <==> (cursor_pos == Some((col, row)) && kind
            != CursorKind::Hidden),
        spec_cursor_at(col, row, cursor_pos, kind) is Some ==> spec_cursor_at(col, row, cursor_pos, kind)
            == Some(kind),
{
}

} // verus!
