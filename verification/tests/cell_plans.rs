use helide::palette::{Paint, Rgb};
use helide::renderer::{
    cursor_at, font_style, plan_editor_cell, select_font, Cell, Color as UiColor, CursorKind,
    EditorCellPlan, FontStyle, Modifier, UiUnderline,
};
use helide::terminal::cells::{
    cursor_visible, plan_terminal_cell, underline_style, CellFlags, Color, GlyphRequest, NamedColor,
    UnderlineStyle,
};

fn flags() -> CellFlags {
    CellFlags {
        inverse: false,
        hidden: false,
        dim: false,
        bold: false,
        italic: false,
        wide_char_spacer: false,
        underline: false,
        double_underline: false,
        undercurl: false,
        dotted_underline: false,
        dashed_underline: false,
        strikeout: false,
    }
}

const RED: Rgb = Rgb { r: 205, g: 49, b: 49 };

#[test]
fn plain_terminal_cell() {
    let p = plan_terminal_cell(Color::Named(NamedColor::Red), Color::Named(NamedColor::Background), 'x', &flags());
    assert_eq!(p.fg, Paint::Solid(RED));
    assert_eq!(p.bg, Paint::DefaultBackground);
    assert_eq!(p.glyph, Some(GlyphRequest { ch: 'x', bold: false, italic: false }));
    assert_eq!(p.underline, None);
    assert!(!p.dim && !p.strikeout);
}

#[test]
fn inverse_and_hidden() {
    let mut f = flags();
    f.inverse = true;
    let p = plan_terminal_cell(Color::Named(NamedColor::Red), Color::Named(NamedColor::Foreground), 'x', &f);
    assert_eq!(p.fg, Paint::DefaultBackground);
    assert_eq!(p.bg, Paint::Solid(RED));
    f.hidden = true;
    let p = plan_terminal_cell(Color::Named(NamedColor::Red), Color::Named(NamedColor::Foreground), 'x', &f);
    assert_eq!(p.fg, Paint::Solid(RED));
    assert_eq!(p.bg, Paint::Solid(RED));
}

#[test]
fn glyph_is_skipped_for_blank_control_and_spacer_cells() {
    let c = Color::Named(NamedColor::Foreground);
    assert_eq!(plan_terminal_cell(c, c, ' ', &flags()).glyph, None);
    assert_eq!(plan_terminal_cell(c, c, '\0', &flags()).glyph, None);
    assert_eq!(plan_terminal_cell(c, c, '\u{7}', &flags()).glyph, None);
    assert_eq!(plan_terminal_cell(c, c, '\u{85}', &flags()).glyph, None);
    let mut f = flags();
    f.wide_char_spacer = true;
    assert_eq!(plan_terminal_cell(c, c, '漢', &f).glyph, None);
    f.wide_char_spacer = false;
    f.bold = true;
    f.italic = true;
    assert_eq!(plan_terminal_cell(c, c, '漢', &f).glyph, Some(GlyphRequest { ch: '漢', bold: true, italic: true }));
}

#[test]
fn underline_priority() {
    let mut f = flags();
    f.dashed_underline = true;
    assert_eq!(underline_style(&f), Some(UnderlineStyle::Dashed));
    f.dotted_underline = true;
    assert_eq!(underline_style(&f), Some(UnderlineStyle::Dotted));
    f.undercurl = true;
    assert_eq!(underline_style(&f), Some(UnderlineStyle::Curl));
    f.double_underline = true;
    assert_eq!(underline_style(&f), Some(UnderlineStyle::Double));
    f.underline = true;
    assert_eq!(underline_style(&f), Some(UnderlineStyle::Line));
    f.strikeout = true;
    f.dim = true;
    let p = plan_terminal_cell(Color::Indexed(1), Color::Indexed(0), 'a', &f);
    assert!(p.strikeout && p.dim);
}

#[test]
fn terminal_cursor_visibility() {
    assert!(cursor_visible(true, 0, 3, 4, 24, 80));
    assert!(!cursor_visible(false, 0, 3, 4, 24, 80));
    assert!(!cursor_visible(true, 1, 3, 4, 24, 80));
    assert!(!cursor_visible(true, 0, 24, 4, 24, 80));
    assert!(!cursor_visible(true, 0, 3, 80, 24, 80));
    assert!(!cursor_visible(true, 0, -1, 4, 24, 80));
}

fn modifier() -> Modifier {
    Modifier { bold: false, dim: false, italic: false, reversed: false, hidden: false, crossed_out: false }
}

fn cell(symbol: &str) -> Cell {
    Cell {
        symbol: symbol.to_string(),
        fg: UiColor::Reset,
        bg: UiColor::Reset,
        underline_color: UiColor::Reset,
        underline_style: UiUnderline::Reset,
        modifier: modifier(),
    }
}

#[test]
fn plain_editor_cell() {
    let p = plan_editor_cell(&cell("a"));
    assert_eq!(
        p,
        EditorCellPlan {
            fg: Paint::DefaultForeground,
            bg: Paint::DefaultBackground,
            faded: false,
            glyph: Some(('a', FontStyle::Regular)),
            underline: None,
            strikeout: false,
        }
    );
}

#[test]
fn editor_glyph_uses_first_char_or_space() {
    assert_eq!(plan_editor_cell(&cell("")).glyph, None);
    assert_eq!(plan_editor_cell(&cell(" ")).glyph, None);
    assert_eq!(plan_editor_cell(&cell("\t")).glyph, None);
    assert_eq!(plan_editor_cell(&cell("é\u{301}")).glyph, Some(('é', FontStyle::Regular)));
}

#[test]
fn editor_modifiers() {
    let mut c = cell("x");
    c.fg = UiColor::Red;
    c.bg = UiColor::Rgb(1, 2, 3);
    c.modifier.reversed = true;
    c.modifier.bold = true;
    c.modifier.dim = true;
    c.modifier.crossed_out = true;
    let p = plan_editor_cell(&c);
    assert_eq!(p.fg, Paint::Solid(Rgb { r: 1, g: 2, b: 3 }));
    assert_eq!(p.bg, Paint::Solid(RED));
    assert!(p.faded && p.strikeout);
    assert_eq!(p.glyph, Some(('x', FontStyle::Bold)));
    c.modifier.hidden = true;
    let p = plan_editor_cell(&c);
    assert_eq!(p.fg, p.bg);
}

#[test]
fn editor_underline_colour() {
    let mut c = cell("x");
    c.underline_style = UiUnderline::Curl;
    assert_eq!(plan_editor_cell(&c).underline, Some((UnderlineStyle::Curl, None)));
    c.underline_color = UiColor::Red;
    c.underline_style = UiUnderline::DoubleLine;
    assert_eq!(plan_editor_cell(&c).underline, Some((UnderlineStyle::Double, Some(Paint::Solid(RED)))));
    c.underline_style = UiUnderline::Reset;
    assert_eq!(plan_editor_cell(&c).underline, None);
}

#[test]
fn editor_cursor() {
    assert_eq!(cursor_at(3, 4, Some((3, 4)), CursorKind::Bar), Some(CursorKind::Bar));
    assert_eq!(cursor_at(3, 4, Some((3, 4)), CursorKind::Hidden), None);
    assert_eq!(cursor_at(3, 5, Some((3, 4)), CursorKind::Block), None);
    assert_eq!(cursor_at(3, 4, None, CursorKind::Underline), None);
}

#[test]
fn font_faces_fall_back_to_regular() {
    assert_eq!(font_style(true, true), FontStyle::BoldItalic);
    assert_eq!(font_style(false, true), FontStyle::Italic);
    assert_eq!(select_font(FontStyle::Bold, 1u32, Some(2), Some(3), Some(4)), 2);
    assert_eq!(select_font(FontStyle::Italic, 1u32, Some(2), Some(3), Some(4)), 3);
    assert_eq!(select_font(FontStyle::BoldItalic, 1u32, Some(2), Some(3), None), 1);
    assert_eq!(select_font(FontStyle::Regular, 1u32, Some(2), Some(3), Some(4)), 1);
}

#[test]
fn control_ranges_have_no_glyph_and_their_neighbours_do() {
    let c = Color::Named(NamedColor::Foreground);
    for ch in ['\u{1}', '\u{1f}', '\u{7f}', '\u{80}', '\u{9f}'] {
        assert_eq!(plan_terminal_cell(c, c, ch, &flags()).glyph, None);
        assert_eq!(plan_editor_cell(&cell(&ch.to_string())).glyph, None);
    }
    for ch in ['!', '~', '\u{a0}', '\u{a1}'] {
        assert_eq!(plan_terminal_cell(c, c, ch, &flags()).glyph, Some(GlyphRequest { ch, bold: false, italic: false }));
        assert!(plan_editor_cell(&cell(&ch.to_string())).glyph.is_some());
    }
}
