use helide::atlas::{glyph_alpha, GlyphBitmap, ShelfPacker, ATLAS_SIZE};

#[test]
fn glyphs_go_left_to_right_then_wrap() {
    let mut p = ShelfPacker::new(20, 20);
    assert_eq!(p.place(5, 3), Some((0, 0)));
    assert_eq!(p.place(5, 7), Some((6, 0)));
    assert_eq!(p.place(8, 2), Some((12, 0)));
    // 21 + 1 > 20: new row, one pixel below the tallest glyph (7).
    assert_eq!(p.place(2, 2), Some((0, 8)));
    assert_eq!(p.place(4, 4), Some((3, 8)));
}

#[test]
fn empty_glyphs_get_no_place() {
    let mut p = ShelfPacker::new(ATLAS_SIZE, ATLAS_SIZE);
    assert_eq!(p.place(0, 10), None);
    assert_eq!(p.place(10, 0), None);
    assert_eq!(p.place(10, 10), Some((0, 0)));
}

#[test]
fn glyph_wider_than_the_atlas_starts_a_new_row() {
    let mut p = ShelfPacker::new(10, 10);
    assert_eq!(p.place(3, 4), Some((0, 0)));
    assert_eq!(p.place(12, 1), Some((0, 5)));
    assert_eq!(p.place(1, 1), Some((0, 7)));
}

#[test]
fn overflow_is_detected_before_placing() {
    let mut p = ShelfPacker::new(u32::MAX, 10);
    assert!(p.can_place(10, 10));
    assert_eq!(p.place(u32::MAX - 5, 1), Some((0, 0)));
    assert!(!p.can_place(10, 1));
    assert!(p.can_place(0, 1));
}

#[test]
fn subpixel_bitmap_averages_to_grey() {
    assert_eq!(glyph_alpha(&GlyphBitmap::Rgb(vec![30, 60, 90])), vec![60]);
    assert_eq!(glyph_alpha(&GlyphBitmap::Rgb(vec![255, 255, 255, 0, 0, 1])), vec![255, 0]);
    let b = GlyphBitmap::Rgb(vec![1, 2, 3, 4, 5, 6, 7]);
    assert_eq!(glyph_alpha(&b), vec![2, 5, 7]);
    assert_eq!(glyph_alpha(&GlyphBitmap::Rgb(vec![10, 21])), vec![15]);
    assert_eq!(glyph_alpha(&GlyphBitmap::Rgb(vec![])), Vec::<u8>::new());
}

#[test]
fn colour_bitmap_keeps_alpha_channel() {
    let b = GlyphBitmap::Rgba(vec![1, 2, 3, 4, 5, 6, 7, 8]);
    assert_eq!(glyph_alpha(&b), vec![4, 8]);
}

#[test]
fn placements_never_overlap_and_stay_within_width() {
    let mut p = ShelfPacker::new(64, 64);
    let sizes = [(10, 12), (20, 5), (30, 9), (7, 7), (64, 3), (1, 1), (40, 20), (25, 2), (0, 4), (13, 13)];
    let mut rects: Vec<(u32, u32, u32, u32)> = Vec::new();
    for (w, h) in sizes {
        if let Some((x, y)) = p.place(w, h) {
            assert!(x + w <= 64);
            rects.push((x, y, w, h));
        }
    }
    assert_eq!(rects.len(), 9);
    for i in 0..rects.len() {
        for j in 0..rects.len() {
            if i != j {
                let (ax, ay, aw, ah) = rects[i];
                let (bx, by, bw, bh) = rects[j];
                assert!(ax + aw <= bx || bx + bw <= ax || ay + ah <= by || by + bh <= ay);
            }
        }
    }
}
