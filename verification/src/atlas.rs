//! Placement of rasterised glyphs in the glyph atlas texture, and the
//! single-channel coverage uploaded for them.
//!
//! Glyphs are packed in shelves: each goes right of the previous one, one
//! pixel apart, and when a glyph does not fit in what is left of the row, a
//! new row starts one pixel below the tallest glyph of the current one.
use vstd::prelude::*;

verus! {

/// Width and height in pixels of the glyph atlas texture.
pub const ATLAS_SIZE: u32 = 2048;

/// A rectangle of the atlas given to a glyph.
#[derive(Debug, Clone, Copy, PartialEq, Eq, Structural)]
pub struct Slot {
    pub x: u32,
    pub y: u32,
    pub width: u32,
    pub height: u32,
}

/// Two rectangles share no pixel.
pub open spec fn disjoint(a: Slot, b: Slot) -> bool {
    ||| a.x + a.width <= b.x
    ||| b.x + b.width <= a.x
    ||| a.y + a.height <= b.y
    ||| b.y + b.height <= a.y
}

/// The shelf packer of the glyph atlas.
pub struct ShelfPacker {
    atlas_width: u32,
    atlas_height: u32,
    cursor_x: u32,
    cursor_y: u32,
    row_height: u32,
    placed: Ghost<Seq<Slot>>,
}

impl ShelfPacker {
    /// The atlas width.
    pub closed spec fn width(&self) -> u32 {
        self.atlas_width
    }

    /// The atlas height.
    pub closed spec fn height(&self) -> u32 {
        self.atlas_height
    }

    /// Where the next glyph of the current row goes.
    pub closed spec fn cursor_x(&self) -> u32 {
        self.cursor_x
    }

    /// The top of the current row.
    pub closed spec fn cursor_y(&self) -> u32 {
        self.cursor_y
    }

    /// The height of the tallest glyph of the current row.
    pub closed spec fn row_height(&self) -> u32 {
        self.row_height
    }

    /// Every rectangle given out so far, in order.
    pub closed spec fn placed(&self) -> Seq<Slot> {
        self.placed@
    }

    /// Each rectangle given out lies in a finished row, wholly above the
    /// current one, or in the current row, left of the cursor and no taller
    /// than the row; and no two of them share a pixel. Every packer keeps
    /// this.
    #[verifier::type_invariant]
    pub closed spec fn wf(&self) -> bool {
        &&& forall|i: int|
            0 <= i < self.placed@.len() ==> {
                let s = #[trigger] self.placed@[i];
                ||| s.y + s.height < self.cursor_y
                ||| (s.y == self.cursor_y && s.height <= self.row_height && s.x + s.width
                    < self.cursor_x)
            }
        &&& forall|i: int, j: int|
            0 <= i < self.placed@.len() && 0 <= j < self.placed@.len() && i != j ==> disjoint(
                #[trigger] self.placed@[i],
                #[trigger] self.placed@[j],
            )
    }

    /// Whether a glyph of `width` by `height` pixels starts a new row.
    pub open spec fn wraps(&self, width: u32) -> bool {
        self.cursor_x() + width > self.width()
    }

    /// Where a glyph of the given width goes: at the cursor, or at the start
    /// of a new row one pixel below the current one.
    pub open spec fn spec_position(&self, width: u32) -> (int, int) {
        if self.wraps(width) {
            (0, self.cursor_y() + self.row_height() + 1)
        } else {
            (self.cursor_x() as int, self.cursor_y() as int)
        }
    }

    /// Placing a glyph of this size keeps every coordinate the packer
    /// computes within `u32`.
    pub open spec fn fits(&self, width: u32, height: u32) -> bool {
        width == 0 || height == 0 || {
            let (x, y) = self.spec_position(width);
            &&& self.cursor_x() + width <= u32::MAX
            &&& y <= u32::MAX
            &&& x + width + 1 <= u32::MAX
        }
    }

    /// The top-left corner that placing a glyph of `width` by `height`
    /// pixels gives it; an empty glyph gets none.
    pub open spec fn spec_place(&self, width: u32, height: u32) -> Option<(u32, u32)> {
        if width == 0 || height == 0 {
            None
        } else {
            let (x, y) = self.spec_position(width);
            Some((x as u32, y as u32))
        }
    }

    /// `next` is this packer after placing a glyph of `width` by `height`
    /// pixels. An empty glyph changes nothing. Any other goes at
    /// `spec_position`; the cursor then moves one pixel past it, the row
    /// grows to its height, and its rectangle joins those given out.
    pub open spec fn steps_to(&self, next: ShelfPacker, width: u32, height: u32) -> bool {
        &&& next.width() == self.width()
        &&& next.height() == self.height()
        &&& width == 0 || height == 0 ==> {
            &&& next.cursor_x() == self.cursor_x()
            &&& next.cursor_y() == self.cursor_y()
            &&& next.row_height() == self.row_height()
            &&& next.placed() == self.placed()
        }
        &&& width > 0 && height > 0 ==> {
            let (x, y) = self.spec_position(width);
            let base_height = if self.wraps(width) { 0 } else { self.row_height() };
            &&& next.cursor_x() == x + width + 1
            &&& next.cursor_y() == y
            &&& next.row_height() == if height > base_height { height } else { base_height }
            &&& next.placed() == self.placed().push(Slot { x: x as u32, y: y as u32, width, height })
        }
    }

    /// An empty packer for an atlas of the given size.
    pub fn new(atlas_width: u32, atlas_height: u32) -> (p: ShelfPacker)
        ensures
            p.wf(),
            p.width() == atlas_width,
            p.height() == atlas_height,
            p.cursor_x() == 0,
            p.cursor_y() == 0,
            p.row_height() == 0,
            p.placed() == Seq::<Slot>::empty(),
    {
        ShelfPacker {
            atlas_width,
            atlas_height,
            cursor_x: 0,
            cursor_y: 0,
            row_height: 0,
            placed: Ghost(Seq::empty()),
        }
    }

    /// Whether placing a glyph of this size keeps every coordinate within `u32`.
    pub fn can_place(&self, width: u32, height: u32) -> (r: bool)
        ensures
            r == self.fits(width, height),
    {
        if width == 0 || height == 0 {
            return true;
        }
        let right = self.cursor_x as u64 + width as u64;
        let (x, y): (u64, u64) = if right > self.atlas_width as u64 {
            (0, self.cursor_y as u64 + self.row_height as u64 + 1)
        } else {
            (self.cursor_x as u64, self.cursor_y as u64)
        };
        right <= u32::MAX as u64 && y <= u32::MAX as u64 && x + width as u64 + 1 <= u32::MAX as u64
    }

    /// Give a glyph of `width` by `height` pixels its place in the atlas,
    /// returning its top-left corner; an empty glyph gets none and changes
    /// nothing. The place is at the cursor when the glyph fits in what is
    /// left of the row, else at the start of a new row; the cursor then
    /// moves one pixel past the glyph, and the row grows to the glyph's
    /// height. Nothing checks the atlas height: a glyph may be placed below
    /// it.
    pub fn place(&mut self, width: u32, height: u32) -> (r: Option<(u32, u32)>)
        requires
            old(self).fits(width, height),
        ensures
            final(self).wf(),
            r == old(self).spec_place(width, height),
            old(self).steps_to(*final(self), width, height),
    {
        proof {
            use_type_invariant(&*self);
        }
        if width == 0 || height == 0 {
            return None;
        }
        // Advance to next row if needed
        let (x, y, row_height): (u32, u32, u32) = if self.cursor_x + width > self.atlas_width {
            (0, self.cursor_y + self.row_height + 1, 0)
        } else {
            (self.cursor_x, self.cursor_y, self.row_height)
        };
        let new_row = if height > row_height { height } else { row_height };
        let slot = Slot { x, y, width, height };
        let ghost old_placed = self.placed@;
        let ghost placed = old_placed.push(slot);
        proof {
            assert forall|i: int| 0 <= i < old_placed.len() implies disjoint(
                #[trigger] old_placed[i],
                slot,
            ) && disjoint(slot, old_placed[i]) && {
                let s = old_placed[i];
                ||| s.y + s.height < y
                ||| (s.y == y && s.height <= new_row && s.x + s.width < x + width + 1)
            } by {
                let s = old_placed[i];
                if s.y + s.height < self.cursor_y {
                } else {
                    assert(s.x + s.width < self.cursor_x);
                }
            }
            assert forall|i: int, j: int|
                0 <= i < placed.len() && 0 <= j < placed.len() && i != j implies disjoint(
                #[trigger] placed[i],
                #[trigger] placed[j],
            ) by {
                if i < old_placed.len() && j < old_placed.len() {
                    assert(placed[i] == old_placed[i]);
                    assert(placed[j] == old_placed[j]);
                } else if i < old_placed.len() {
                    assert(placed[i] == old_placed[i]);
                } else {
                    assert(placed[j] == old_placed[j]);
                }
            }
            assert forall|i: int| 0 <= i < placed.len() implies {
                let s = #[trigger] placed[i];
                ||| s.y + s.height < y
                ||| (s.y == y && s.height <= new_row && s.x + s.width < x + width + 1)
            } by {
                if i < old_placed.len() {
                    assert(placed[i] == old_placed[i]);
                }
            }
        }
        *self = ShelfPacker {
            atlas_width: self.atlas_width,
            atlas_height: self.atlas_height,
            cursor_x: x + width + 1,
            cursor_y: y,
            row_height: new_row,
            placed: Ghost(placed),
        };
        Some((x, y))
    }
}

/// No two glyphs given places by the packer share a pixel.
pub proof fn lemma_placed_glyphs_never_overlap(packer: &ShelfPacker, i: int, j: int)
    requires
        packer.wf(),
        0 <= i < packer.placed().len(),
        0 <= j < packer.placed().len(),
        i != j,
    ensures
        disjoint(packer.placed()[i], packer.placed()[j]),
{
}

/// A glyph no wider than the atlas is placed wholly within its width.
pub proof fn lemma_placement_within_width(packer: &ShelfPacker, width: u32)
    ensures
        width <= packer.width() ==> packer.spec_position(width).0 + width <= packer.width(),
{
}

/// A rasterised glyph bitmap.
#[derive(Debug, Clone, PartialEq, Eq)]
pub enum GlyphBitmap {
    /// Three bytes per pixel: sub-pixel coverage of red, green and blue.
    Rgb(Vec<u8>),
    /// Four bytes per pixel: colour and alpha.
    Rgba(Vec<u8>),
}

/// The mean of the bytes of the `i`th group of three: a sub-pixel bitmap's
/// red, green and blue coverage of one pixel averaged to grey. A short last
/// group averages the bytes it has.
pub open spec fn rgb_grey(data: Seq<u8>, i: int) -> u8 {
    let s = 3 * i;
    if s + 3 <= data.len() {
        ((data[s] + data[s + 1] + data[s + 2]) / 3) as u8
    } else if s + 2 <= data.len() {
        ((data[s] + data[s + 1]) / 2) as u8
    } else {
        data[s]
    }
}

/// The coverage kept of a bitmap: the mean of each group of three bytes
/// (the last group may be shorter), or the fourth of each group of four.
pub open spec fn spec_glyph_alpha(bitmap: GlyphBitmap) -> Seq<u8> {
    match bitmap {
        GlyphBitmap::Rgb(data) => Seq::new(
            ((data.len() + 2) / 3) as nat,
            |i: int| rgb_grey(data@, i),
        ),
        GlyphBitmap::Rgba(data) => Seq::new((data.len() / 4) as nat, |i: int| data@[4 * i + 3]),
    }
}

/// Convert a glyph bitmap to the single channel the atlas holds: a
/// sub-pixel bitmap's three channels averaged to grey, the alpha channel of
/// a colour one.
pub fn glyph_alpha(bitmap: &GlyphBitmap) -> (r: Vec<u8>)
    requires
        bitmap matches GlyphBitmap::Rgba(data) ==> data.len() % 4 == 0,
    ensures
        r@ == spec_glyph_alpha(*bitmap),
{
    match bitmap {
        GlyphBitmap::Rgb(data) => {
            let len = data.len();
            let n = len / 3 + if len % 3 != 0 { 1 } else { 0 };
            assert(n == (len + 2) / 3);
            let mut out: Vec<u8> = Vec::new();
            let mut k: usize = 0;
            while k < n
                invariant
                    len == data.len(),
                    n == (data.len() + 2) / 3,
                    k <= n,
                    out.len() == k,
                    forall|j: int| 0 <= j < out.len() ==> out@[j] == rgb_grey(data@, j),
                decreases n - k,
            {
                let s = 3 * k;
                let grey: u8 = if s + 3 <= len {
                    let sum: u16 = data[s] as u16 + data[s + 1] as u16 + data[s + 2] as u16;
                    (sum / 3) as u8
                } else if s + 2 <= len {
                    let sum: u16 = data[s] as u16 + data[s + 1] as u16;
                    (sum / 2) as u8
                } else {
                    data[s]
                };
                out.push(grey);
                k = k + 1;
            }
            assert(out@ =~= spec_glyph_alpha(*bitmap));
            out
        },
        GlyphBitmap::Rgba(data) => {
            let mut out: Vec<u8> = Vec::new();
            let mut i: usize = 0;
            while i < data.len()
                invariant
                    i == 4 * out.len(),
                    i <= data.len(),
                    data.len() % 4 == 0,
                    forall|k: int| 0 <= k < out.len() ==> out@[k] == data@[4 * k + 3],
                decreases data.len() - i,
            {
                out.push(data[i + 3]);
                i = i + 4;
            }
            assert(out@ =~= spec_glyph_alpha(*bitmap));
            out
        },
    }
}

/// Two glyphs placed one after the other in the same row sit one pixel
/// apart at the same height; a glyph that starts a new row goes to its left
/// edge, below every glyph placed before it.
pub proof fn lemma_glyphs_one_pixel_apart(
    p0: ShelfPacker,
    p1: ShelfPacker,
    p2: ShelfPacker,
    w1: u32,
    h1: u32,
    w2: u32,
    h2: u32,
)
    requires
        p1.wf(),
        p0.steps_to(p1, w1, h1),
        p1.steps_to(p2, w2, h2),
        w1 > 0 && h1 > 0 && w2 > 0 && h2 > 0,
    ensures
        !p1.wraps(w2) ==> p2.placed().last().x == p1.placed().last().x + w1 + 1 && p2.placed().last().y
            == p1.placed().last().y,
        p1.wraps(w2) ==> p2.placed().last().x == 0 && forall|i: int|
            0 <= i < p1.placed().len() ==> #[trigger] p1.placed()[i].y + p1.placed()[i].height
                < p2.placed().last().y,
{
}

/// The coverage of a sub-pixel bitmap has one byte per pixel, the mean of
/// its red, green and blue bytes; that of a colour bitmap one byte per
/// pixel, its alpha byte.
pub proof fn lemma_glyph_alpha_per_pixel(bitmap: GlyphBitmap, i: int)
    ensures
        match bitmap {
            GlyphBitmap::Rgb(d) => d.len() % 3 == 0 ==> spec_glyph_alpha(bitmap).len() == d.len() / 3 && (0
                <= i < d.len() / 3 ==> spec_glyph_alpha(bitmap)[i] == (d@[3 * i] + d@[3 * i + 1] + d@[3 * i
                + 2]) / 3),
            GlyphBitmap::Rgba(d) => spec_glyph_alpha(bitmap).len() == d.len() / 4 && (0 <= i < d.len() / 4
                ==> spec_glyph_alpha(bitmap)[i] == d@[4 * i + 3]),
        },
{
}

} // verus!
