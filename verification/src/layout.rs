//! GUI-level vertical split: editor on top, terminal below.
//!
//! The split ratio is a fraction kept by the window front end; this module
//! owns the pixel geometry that follows from it: where the editor, the
//! divider and the terminal lie, and which of them a pixel row belongs to.
use vstd::prelude::*;

verus! {

/// Height in pixels of the divider between the editor and the terminal.
pub const DIVIDER_HEIGHT: u32 = 2;

/// Which part of the window a point falls in.
#[derive(Debug, Clone, Copy, PartialEq, Eq, Structural)]
pub enum RegionKind {
    Editor,
    Divider,
    Terminal,
}

/// Pixel regions computed from the layout, each as `(x, y, width, height)`.
#[derive(Debug, Clone, Copy, PartialEq, Eq)]
pub struct Regions {
    /// Editor region.
    pub editor: (u32, u32, u32, u32),
    /// Divider region; `None` while the terminal is hidden.
    pub divider: Option<(u32, u32, u32, u32)>,
    /// Terminal region; `None` while the terminal is hidden.
    pub terminal: Option<(u32, u32, u32, u32)>,
}

/// The height left for the two panes once the divider is taken out,
/// saturating at zero.
pub open spec fn spec_usable_height(height: u32) -> u32 {
    if height >= DIVIDER_HEIGHT { (height - DIVIDER_HEIGHT) as u32 } else { 0 }
}

/// The window height left for the two panes once the divider is taken out.
pub fn usable_height(height: u32) -> (r: u32)
    ensures
        r == spec_usable_height(height),
{
    height.saturating_sub(DIVIDER_HEIGHT)
}

/// The regions of a window whose terminal pane is hidden: the editor gets it all.
pub open spec fn spec_full(width: u32, height: u32) -> Regions {
    Regions { editor: (0, 0, width, height), divider: None, terminal: None }
}

/// The regions of a window whose terminal pane is shown, for a given editor height.
pub open spec fn spec_split(width: u32, height: u32, editor_height: u32) -> Regions {
    let usable = spec_usable_height(height);
    Regions {
        editor: (0, 0, width, editor_height),
        divider: Some((0, editor_height, width, DIVIDER_HEIGHT)),
        terminal: Some(
            (0, (editor_height + DIVIDER_HEIGHT) as u32, width, (usable - editor_height) as u32),
        ),
    }
}

/// Which region a pixel row falls in: at or below the top of the terminal is
/// the terminal, within the divider's rows is the divider, anything else
/// (above, or in a window whose terminal is hidden) is the editor.
pub open spec fn spec_kind_at(regions: Regions, y: int) -> RegionKind {
    let in_terminal = match regions.terminal {
        Some((_, ty, _, _)) => y >= ty,
        None => false,
    };
    let in_divider = match regions.divider {
        Some((_, dy, _, dh)) => dy <= y < dy + dh,
        None => false,
    };
    if in_terminal {
        RegionKind::Terminal
    } else if in_divider {
        RegionKind::Divider
    } else {
        RegionKind::Editor
    }
}

impl Regions {
    /// The regions while the terminal is hidden.
    pub fn full(width: u32, height: u32) -> (r: Regions)
        ensures
            r == spec_full(width, height),
    {
        Regions { editor: (0, 0, width, height), divider: None, terminal: None }
    }

    /// The regions while the terminal is shown: the editor takes
    /// `editor_height` rows from the top, the divider follows, and the
    /// terminal takes the rest of the usable height.
    pub fn split(width: u32, height: u32, editor_height: u32) -> (r: Regions)
        requires
            editor_height <= spec_usable_height(height),
        ensures
            r == spec_split(width, height, editor_height),
    {
        let usable = usable_height(height);
        let terminal_height = usable - editor_height;
        Regions {
            editor: (0, 0, width, editor_height),
            divider: Some((0, editor_height, width, DIVIDER_HEIGHT)),
            terminal: Some((0, editor_height + DIVIDER_HEIGHT, width, terminal_height)),
        }
    }

    /// Which region the pixel row `y` falls in.
    pub fn kind_at(&self, y: i64) -> (r: RegionKind)
        ensures
            r == spec_kind_at(*self, y as int),
    {
        if let Some((_, ty, _, _)) = self.terminal {
            if y >= ty as i64 {
                return RegionKind::Terminal;
            }
        }
        if let Some((_, dy, _, dh)) = self.divider {
            if y >= dy as i64 && y < dy as i64 + dh as i64 {
                return RegionKind::Divider;
            }
        }
        RegionKind::Editor
    }
}

/// The window-level layout: whether the terminal pane is shown, and the
/// window size. The split ratio between the panes is kept by the window
/// front end, which turns it into the editor's height in rows of pixels.
#[derive(Debug, Clone, Copy, PartialEq, Eq, Structural)]
pub struct Layout {
    /// Terminal pane visible?
    pub terminal_visible: bool,
    /// Window width in pixels.
    pub window_width: u32,
    /// Window height in pixels.
    pub window_height: u32,
}

/// The layout with the terminal's visibility flipped.
pub open spec fn spec_toggled(l: Layout) -> Layout {
    Layout { terminal_visible: !l.terminal_visible, ..l }
}

/// The regions of a layout whose editor is `editor_height` pixels high when
/// the terminal is shown.
pub open spec fn spec_layout_regions(terminal_visible: bool, width: u32, height: u32, editor_height: u32) -> Regions {
    if terminal_visible {
        spec_split(width, height, editor_height)
    } else {
        spec_full(width, height)
    }
}

impl Layout {
    /// A layout for a window of the given size, with the terminal hidden.
    pub fn new(window_width: u32, window_height: u32) -> (l: Layout)
        ensures
            !l.terminal_visible,
            l.window_width == window_width,
            l.window_height == window_height,
    {
        Layout { terminal_visible: false, window_width, window_height }
    }

    /// Recompute after window resize.
    pub fn set_window_size(&mut self, width: u32, height: u32)
        ensures
            final(self).terminal_visible == old(self).terminal_visible,
            final(self).window_width == width,
            final(self).window_height == height,
    {
        self.window_width = width;
        self.window_height = height;
    }

    /// The window size in pixels, as (width, height).
    pub fn window_size(&self) -> (r: (u32, u32))
        ensures
            r == (self.window_width, self.window_height),
    {
        (self.window_width, self.window_height)
    }

    /// Toggle terminal visibility. Returns true if now visible.
    pub fn toggle_terminal(&mut self) -> (visible: bool)
        ensures
            *final(self) == spec_toggled(*old(self)),
            visible == final(self).terminal_visible,
    {
        self.terminal_visible = !self.terminal_visible;
        self.terminal_visible
    }

    /// The height the editor and terminal share.
    pub fn usable_height(&self) -> (r: u32)
        ensures
            r == spec_usable_height(self.window_height),
    {
        usable_height(self.window_height)
    }

    /// Compute pixel regions for editor, divider, and terminal, the editor
    /// being `editor_height` pixels high when the terminal is shown.
    pub fn regions(&self, editor_height: u32) -> (r: Regions)
        requires
            self.terminal_visible ==> editor_height <= spec_usable_height(self.window_height),
        ensures
            r == spec_layout_regions(
                self.terminal_visible,
                self.window_width,
                self.window_height,
                editor_height,
            ),
    {
        if !self.terminal_visible {
            return Regions::full(self.window_width, self.window_height);
        }
        Regions::split(self.window_width, self.window_height, editor_height)
    }

    /// Determine which region the pixel row `y` falls in.
    pub fn region_at(&self, editor_height: u32, y: i64) -> (r: RegionKind)
        requires
            self.terminal_visible ==> editor_height <= spec_usable_height(self.window_height),
        ensures
            r == spec_kind_at(
                spec_layout_regions(
                    self.terminal_visible,
                    self.window_width,
                    self.window_height,
                    editor_height,
                ),
                y as int,
            ),
            !self.terminal_visible ==> r == RegionKind::Editor,
    {
        if !self.terminal_visible {
            return RegionKind::Editor;
        }
        self.regions(editor_height).kind_at(y)
    }
}

/// Toggling the terminal twice leaves the layout as it was, and toggling
/// never changes the window size.
pub proof fn lemma_toggle_twice_restores(l: Layout)
    ensures
        spec_toggled(spec_toggled(l)) == l,
        spec_toggled(l).window_width == l.window_width,
        spec_toggled(l).window_height == l.window_height,
        spec_toggled(l).terminal_visible != l.terminal_visible,
{
}

/// A split window is tiled exactly: the editor starts at the top, the divider
/// starts where the editor ends, the terminal starts where the divider ends,
/// all three span the full width, and when the window is at least as tall as
/// the divider their heights add up to the window height.
pub proof fn lemma_split_tiles_window(width: u32, height: u32, editor_height: u32)
    requires
        editor_height <= spec_usable_height(height),
    ensures
        ({
            let r = spec_split(width, height, editor_height);
            let (ex, ey, ew, eh) = r.editor;
            let (dx, dy, dw, dh) = r.divider.unwrap();
            let (tx, ty, tw, th) = r.terminal.unwrap();
            &&& ex == 0 && dx == 0 && tx == 0
            &&& ew == width && dw == width && tw == width
            &&& ey == 0
            &&& dy == ey + eh
            &&& ty == dy + dh
            &&& height >= DIVIDER_HEIGHT ==> eh + dh + th == height
        }),
{
}

/// Every pixel row of a split window belongs to exactly the region whose
/// rows contain it: rows of the editor are the editor, rows of the divider
/// are the divider, rows from the terminal's top down are the terminal.
pub proof fn lemma_kind_at_matches_split(width: u32, height: u32, editor_height: u32, y: int)
    requires
        editor_height <= spec_usable_height(height),
    ensures
        ({
            let r = spec_split(width, height, editor_height);
            &&& y < editor_height ==> spec_kind_at(r, y) == RegionKind::Editor
            &&& editor_height <= y < editor_height + DIVIDER_HEIGHT ==> spec_kind_at(r, y)
                == RegionKind::Divider
            &&& y >= editor_height + DIVIDER_HEIGHT ==> spec_kind_at(r, y)
                == RegionKind::Terminal
        }),
{
}

/// With the terminal hidden, every point is in the editor.
pub proof fn lemma_hidden_terminal_is_all_editor(width: u32, height: u32, y: int)
    ensures
        spec_kind_at(spec_full(width, height), y) == RegionKind::Editor,
{
}

} // verus!
