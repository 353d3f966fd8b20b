//! The glyph atlas's cache: each glyph, keyed by its face and character, is
//! given its place in the atlas once, and found there afterwards.
use crate::atlas::ShelfPacker;
use std::collections::HashMap;
use vstd::prelude::*;

verus! {

broadcast use vstd::std_specs::hash::group_hash_axioms;

/// Where a cached glyph lies in the atlas, in pixels, and how its bitmap is
/// offset from the pen: `left` to the right of it, `top` above the
/// baseline. An empty glyph has all of these zero.
#[derive(Debug, Clone, Copy, PartialEq, Eq)]
pub struct GlyphPlacement {
    pub x: u32,
    pub y: u32,
    pub width: u32,
    pub height: u32,
    pub left: i32,
    pub top: i32,
}

/// The key of a character in a face: the face above the 32 bits that hold
/// the character's code point.
pub open spec fn spec_glyph_key(face: u8, ch: char) -> int {
    face * 0x1_0000_0000 + ch as int
}

/// The cache key of character `ch` in face `face`.
pub fn glyph_key(face: u8, ch: char) -> (k: u64)
    ensures
        k == spec_glyph_key(face, ch),
{
    (face as u64) * 0x1_0000_0000 + (ch as u32) as u64
}

/// Two different characters, or one character in two different faces, never
/// share a key.
pub proof fn lemma_glyph_keys_distinct(face_a: u8, ch_a: char, face_b: u8, ch_b: char)
    requires
        face_a != face_b || ch_a != ch_b,
    ensures
        spec_glyph_key(face_a, ch_a) != spec_glyph_key(face_b, ch_b),
{
    assert((ch_a as int) < 0x1_0000_0000 && (ch_b as int) < 0x1_0000_0000);
}

/// What placing a glyph whose corner the packer gave as `corner` records:
/// that corner with the glyph's size and offsets, or the empty placement
/// where the glyph got no corner.
pub open spec fn spec_placement(
    corner: Option<(u32, u32)>,
    width: u32,
    height: u32,
    left: i32,
    top: i32,
) -> GlyphPlacement {
    match corner {
        Some((x, y)) => GlyphPlacement { x, y, width, height, left, top },
        None => GlyphPlacement { x: 0, y: 0, width: 0, height: 0, left: 0, top: 0 },
    }
}

/// The cached placements of the atlas's glyphs, and the packer that gives
/// new ones their place.
pub struct GlyphCache {
    entries: HashMap<u64, GlyphPlacement>,
    packer: ShelfPacker,
}

impl GlyphCache {
    /// The placement cached under each key.
    pub closed spec fn entries(&self) -> Map<u64, GlyphPlacement> {
        self.entries@
    }

    /// The packer of the atlas.
    pub closed spec fn packer(&self) -> ShelfPacker {
        self.packer
    }

    /// An empty cache for an atlas of the given size.
    pub fn new(atlas_width: u32, atlas_height: u32) -> (c: GlyphCache)
        ensures
            c.entries() == Map::<u64, GlyphPlacement>::empty(),
            c.packer().width() == atlas_width,
            c.packer().height() == atlas_height,
            c.packer().cursor_x() == 0,
            c.packer().cursor_y() == 0,
            c.packer().row_height() == 0,
            c.packer().placed().len() == 0,
    {
        GlyphCache { entries: HashMap::new(), packer: ShelfPacker::new(atlas_width, atlas_height) }
    }

    /// The placement cached under `key`, if there is one. The cache is only
    /// read.
    pub fn lookup(&self, key: u64) -> (r: Option<GlyphPlacement>)
        ensures
            r == (if self.entries().contains_key(key) {
                Some(self.entries()[key])
            } else {
                None
            }),
    {
        match self.entries.get(&key) {
            Some(p) => Some(*p),
            None => None,
        }
    }

    /// Whether a glyph of this size can be placed with every coordinate
    /// within `u32`.
    pub fn can_place(&self, width: u32, height: u32) -> (r: bool)
        ensures
            r == self.packer().fits(width, height),
    {
        self.packer.can_place(width, height)
    }

    /// Give a glyph of `width` by `height` pixels, offset by `left` and
    /// `top`, its place in the atlas and cache it under `key`; returns what
    /// was cached. An empty glyph is cached with the empty placement and
    /// takes no room.
    pub fn place_glyph(&mut self, key: u64, width: u32, height: u32, left: i32, top: i32) -> (p:
        GlyphPlacement)
        requires
            old(self).packer().fits(width, height),
        ensures
            p == spec_placement(old(self).packer().spec_place(width, height), width, height, left, top),
            old(self).packer().steps_to(final(self).packer(), width, height),
            final(self).entries() == old(self).entries().insert(key, p),
    {
        let corner = self.packer.place(width, height);
        let p = match corner {
            Some((x, y)) => GlyphPlacement { x, y, width, height, left, top },
            None => GlyphPlacement { x: 0, y: 0, width: 0, height: 0, left: 0, top: 0 },
        };
        self.entries.insert(key, p);
        p
    }
}

/// A glyph once placed is found under its key with what was cached, and
/// every other key keeps what it had.
pub proof fn lemma_placed_glyph_is_found(
    before: GlyphCache,
    after: GlyphCache,
    key: u64,
    p: GlyphPlacement,
    other: u64,
)
    requires
        after.entries() == before.entries().insert(key, p),
        other != key,
    ensures
        after.entries().contains_key(key),
        after.entries()[key] == p,
        after.entries().contains_key(other) == before.entries().contains_key(other),
        before.entries().contains_key(other) ==> after.entries()[other] == before.entries()[other],
{
}

} // verus!
