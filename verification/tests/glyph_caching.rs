use helide::glyph_cache::{glyph_key, GlyphCache, GlyphPlacement};

#[test]
fn keys_hold_face_and_character() {
    assert_eq!(glyph_key(0, 'a'), 97);
    assert_eq!(glyph_key(1, 'a'), (1u64 << 32) + 97);
    assert_eq!(glyph_key(3, '\u{10FFFF}'), (3u64 << 32) + 0x10FFFF);
    assert_ne!(glyph_key(1, 'a'), glyph_key(2, 'a'));
}

#[test]
fn an_unplaced_glyph_is_not_found() {
    let cache = GlyphCache::new(64, 64);
    assert_eq!(cache.lookup(glyph_key(0, 'x')), None);
}

#[test]
fn a_placed_glyph_is_found_with_its_place() {
    let mut cache = GlyphCache::new(20, 20);
    let a = glyph_key(0, 'a');
    let b = glyph_key(1, 'a');
    let pa = cache.place_glyph(a, 5, 3, 1, 9);
    assert_eq!(pa, GlyphPlacement { x: 0, y: 0, width: 5, height: 3, left: 1, top: 9 });
    let pb = cache.place_glyph(b, 5, 7, -2, 8);
    assert_eq!(pb, GlyphPlacement { x: 6, y: 0, width: 5, height: 7, left: -2, top: 8 });
    assert_eq!(cache.lookup(a), Some(pa));
    assert_eq!(cache.lookup(b), Some(pb));
    // A lookup takes no room: the next glyph goes right after the last one.
    let pc = cache.place_glyph(glyph_key(0, 'c'), 8, 2, 0, 0);
    assert_eq!((pc.x, pc.y), (12, 0));
}

#[test]
fn glyphs_wrap_to_a_new_row_below_the_tallest() {
    let mut cache = GlyphCache::new(20, 20);
    cache.place_glyph(1, 5, 3, 0, 0);
    cache.place_glyph(2, 5, 7, 0, 0);
    cache.place_glyph(3, 8, 2, 0, 0);
    let p = cache.place_glyph(4, 4, 4, 0, 0);
    assert_eq!((p.x, p.y), (0, 8));
}

#[test]
fn an_empty_glyph_is_cached_without_room() {
    let mut cache = GlyphCache::new(20, 20);
    let space = glyph_key(0, ' ');
    let p = cache.place_glyph(space, 0, 0, 3, 4);
    assert_eq!(p, GlyphPlacement { x: 0, y: 0, width: 0, height: 0, left: 0, top: 0 });
    assert_eq!(cache.lookup(space), Some(p));
    let q = cache.place_glyph(glyph_key(0, 'q'), 4, 4, 0, 0);
    assert_eq!((q.x, q.y), (0, 0));
}

#[test]
fn placement_overflow_is_detected() {
    let mut cache = GlyphCache::new(u32::MAX, 10);
    assert!(cache.can_place(10, 10));
    cache.place_glyph(1, u32::MAX - 1, 1, 0, 0);
    assert!(!cache.can_place(u32::MAX, 1));
}
