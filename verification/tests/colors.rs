use helide::palette::{ansi_color, palette_color, Paint, Rgb};
use helide::renderer::{color_paint as ui_paint, theme_rgb, Color as UiColor};
use helide::terminal::cells::{color_paint as term_paint, indexed_paint, named_paint, Color as TermColor, NamedColor};

fn rgb(r: u8, g: u8, b: u8) -> Rgb {
    Rgb { r, g, b }
}

#[test]
fn standard_colors() {
    assert_eq!(ansi_color(0), rgb(0, 0, 0));
    assert_eq!(ansi_color(1), rgb(205, 49, 49));
    assert_eq!(ansi_color(7), rgb(229, 229, 229));
    assert_eq!(ansi_color(8), rgb(102, 102, 102));
    assert_eq!(ansi_color(15), rgb(255, 255, 255));
    assert_eq!(palette_color(12), rgb(59, 142, 234));
}

#[test]
fn colour_cube() {
    assert_eq!(palette_color(16), rgb(0, 0, 0));
    assert_eq!(palette_color(17), rgb(0, 0, 51));
    assert_eq!(palette_color(22), rgb(0, 51, 0));
    assert_eq!(palette_color(52), rgb(51, 0, 0));
    // 16 + 36*5 + 6*2 + 3 = 211
    assert_eq!(palette_color(211), rgb(255, 102, 153));
    assert_eq!(palette_color(231), rgb(255, 255, 255));
}

#[test]
fn grey_ramp() {
    assert_eq!(palette_color(232), rgb(8, 8, 8));
    assert_eq!(palette_color(233), rgb(18, 18, 18));
    assert_eq!(palette_color(254), rgb(228, 228, 228));
    assert_eq!(palette_color(255), rgb(238, 238, 238));
}

#[test]
fn terminal_index_255_is_the_last_grey() {
    assert_eq!(indexed_paint(255, Paint::DefaultBackground), Paint::Solid(rgb(238, 238, 238)));
    assert_eq!(term_paint(TermColor::Indexed(255), Paint::DefaultForeground), Paint::Solid(rgb(238, 238, 238)));
    assert_eq!(indexed_paint(254, Paint::DefaultBackground), Paint::Solid(rgb(228, 228, 228)));
    assert_eq!(ui_paint(UiColor::Indexed(255), Paint::DefaultForeground), Paint::Solid(rgb(238, 238, 238)));
}

#[test]
fn palettes_agree_at_every_index() {
    for n in 0u8..=255 {
        assert_eq!(
            term_paint(TermColor::Indexed(n), Paint::DefaultForeground),
            ui_paint(UiColor::Indexed(n), Paint::DefaultBackground)
        );
    }
}

#[test]
fn terminal_named_colours() {
    let d = Paint::DefaultForeground;
    assert_eq!(named_paint(NamedColor::Red, d), Paint::Solid(rgb(205, 49, 49)));
    assert_eq!(named_paint(NamedColor::BrightCyan, d), Paint::Solid(rgb(41, 184, 219)));
    assert_eq!(named_paint(NamedColor::DimRed, d), Paint::Dimmed(rgb(205, 49, 49)));
    assert_eq!(named_paint(NamedColor::DimWhite, d), Paint::Dimmed(rgb(229, 229, 229)));
    assert_eq!(named_paint(NamedColor::Foreground, d), d);
    assert_eq!(named_paint(NamedColor::Background, Paint::DefaultBackground), Paint::DefaultBackground);
    assert_eq!(named_paint(NamedColor::Cursor, d), d);
    assert_eq!(named_paint(NamedColor::BrightForeground, d), d);
    assert_eq!(named_paint(NamedColor::DimForeground, d), d);
    assert_eq!(term_paint(TermColor::Spec(rgb(1, 2, 3)), d), Paint::Solid(rgb(1, 2, 3)));
}

#[test]
fn editor_named_colours() {
    let d = Paint::DefaultBackground;
    assert_eq!(ui_paint(UiColor::Reset, d), d);
    assert_eq!(ui_paint(UiColor::Black, d), Paint::Solid(rgb(0, 0, 0)));
    assert_eq!(ui_paint(UiColor::White, d), Paint::Solid(rgb(255, 255, 255)));
    assert_eq!(ui_paint(UiColor::Gray, d), Paint::Solid(rgb(229, 229, 229)));
    assert_eq!(ui_paint(UiColor::LightGray, d), Paint::Solid(rgb(229, 229, 229)));
    assert_eq!(ui_paint(UiColor::LightRed, d), Paint::Solid(rgb(241, 76, 76)));
    assert_eq!(ui_paint(UiColor::Rgb(10, 20, 30), d), Paint::Solid(rgb(10, 20, 30)));
    assert_eq!(ui_paint(UiColor::Magenta, d), named_paint(NamedColor::Magenta, d));
    assert_eq!(ui_paint(UiColor::LightBlue, d), named_paint(NamedColor::BrightBlue, d));
}

#[test]
fn theme_defaults_need_true_colour() {
    assert_eq!(theme_rgb(Some(UiColor::Rgb(40, 44, 52))), Some(rgb(40, 44, 52)));
    assert_eq!(theme_rgb(Some(UiColor::Red)), None);
    assert_eq!(theme_rgb(None), None);
}
