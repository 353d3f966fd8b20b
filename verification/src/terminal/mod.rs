//! The embedded terminal pane: its grid size, its redraw and exit state, and
//! the pixel region it is drawn into.
use vstd::prelude::*;

pub mod cells;
pub mod input;

verus! {

/// The size of a terminal grid, for creating or resizing the terminal.
#[derive(Debug, Clone, Copy, PartialEq, Eq, Structural)]
pub struct TermDims {
    pub cols: usize,
    pub rows: usize,
}

impl TermDims {
    /// Lines the grid holds: as many as the screen shows.
    pub fn total_lines(&self) -> (r: usize)
        ensures
            r == self.rows,
    {
        self.rows
    }

    /// Lines the screen shows.
    pub fn screen_lines(&self) -> (r: usize)
        ensures
            r == self.rows,
    {
        self.rows
    }

    /// Columns of the grid.
    pub fn columns(&self) -> (r: usize)
        ensures
            r == self.cols,
    {
        self.cols
    }
}

/// What the terminal's event loop reports.
#[derive(Debug, Clone, Copy, PartialEq, Eq, Structural)]
pub enum PtyEvent {
    /// New output was parsed into the grid.
    Wakeup,
    /// The terminal asked to exit.
    Exit,
    /// The shell process ended.
    ChildExit,
    /// Anything else, which the pane ignores.
    Other,
}

/// What a resize changes.
#[derive(Debug, Clone, Copy, PartialEq, Eq, Structural)]
pub struct ResizeEffects {
    /// The grid changed size: it is reallocated (and the program in the
    /// terminal told).
    pub grid_changed: bool,
    /// The pixel region changed size: its texture is recreated.
    pub texture_changed: bool,
}

/// The grid size and pixel size of a pane's region.
#[derive(Debug, Clone, Copy, PartialEq, Eq, Structural)]
pub struct RegionGeometry {
    pub cols: u16,
    pub rows: u16,
    pub width: u32,
    pub height: u32,
}

/// What resizing a region of geometry `g` to the given size changes: the
/// grid when its column or row count differs, the texture when its pixel
/// width or height differs.
pub open spec fn spec_resize_effects(g: RegionGeometry, new_cols: u16, new_rows: u16, width: u32, height: u32) -> ResizeEffects {
    ResizeEffects {
        grid_changed: new_cols != g.cols || new_rows != g.rows,
        texture_changed: width != g.width || height != g.height,
    }
}

impl RegionGeometry {
    /// Take a new size; report which parts of it changed.
    pub fn resize(&mut self, new_cols: u16, new_rows: u16, width: u32, height: u32) -> (effects: ResizeEffects)
        ensures
            *final(self) == (RegionGeometry { cols: new_cols, rows: new_rows, width, height }),
            effects == spec_resize_effects(*old(self), new_cols, new_rows, width, height),
            effects.grid_changed == (final(self).cols != old(self).cols || final(self).rows != old(self).rows),
            effects.texture_changed == (final(self).width != old(self).width || final(self).height
                != old(self).height),
    {
        let grid_changed = new_cols != self.cols || new_rows != self.rows;
        if grid_changed {
            self.cols = new_cols;
            self.rows = new_rows;
        }
        let texture_changed = width != self.width || height != self.height;
        if texture_changed {
            self.width = width;
            self.height = height;
        }
        ResizeEffects { grid_changed, texture_changed }
    }

    /// The grid size as the terminal takes it.
    pub fn dims(&self) -> (d: TermDims)
        ensures
            d == (TermDims { cols: self.cols as usize, rows: self.rows as usize }),
    {
        TermDims { cols: self.cols as usize, rows: self.rows as usize }
    }
}

/// The state of the terminal pane that decides when it is redrawn.
#[derive(Debug, Clone, Copy, PartialEq, Eq, Structural)]
pub struct TerminalPaneState {
    pub geometry: RegionGeometry,
    /// Keyboard input goes to the terminal.
    pub focused: bool,
    /// The pane must be drawn again.
    pub dirty: bool,
    /// The shell has exited.
    pub exited: bool,
}

/// Whether an event asks for a redraw.
pub open spec fn marks_dirty(event: PtyEvent) -> bool {
    event != PtyEvent::Other
}

/// Whether an event reports the end of the shell.
pub open spec fn marks_exited(event: PtyEvent) -> bool {
    event == PtyEvent::Exit || event == PtyEvent::ChildExit
}

/// The pane after taking one event from the terminal: new output marks it
/// dirty, an exit marks it exited and dirty, anything else changes nothing.
pub open spec fn spec_observe(s: TerminalPaneState, event: PtyEvent) -> TerminalPaneState {
    TerminalPaneState {
        dirty: s.dirty || marks_dirty(event),
        exited: s.exited || marks_exited(event),
        ..s
    }
}

impl TerminalPaneState {
    /// A new, unfocused pane that still has to be drawn.
    pub fn new(cols: u16, rows: u16, width: u32, height: u32) -> (s: TerminalPaneState)
        ensures
            s.geometry == (RegionGeometry { cols, rows, width, height }),
            !s.focused,
            s.dirty,
            !s.exited,
    {
        TerminalPaneState {
            geometry: RegionGeometry { cols, rows, width, height },
            focused: false,
            dirty: true,
            exited: false,
        }
    }

    /// Take one event from the terminal: new output marks the pane dirty, an
    /// exit marks it exited and dirty, anything else changes nothing.
    pub fn observe(&mut self, event: PtyEvent)
        ensures
            *final(self) == spec_observe(*old(self), event),
    {
        match event {
            PtyEvent::Wakeup => {
                self.dirty = true;
            },
            PtyEvent::Exit | PtyEvent::ChildExit => {
                self.exited = true;
                self.dirty = true;
            },
            PtyEvent::Other => {},
        }
    }

    /// Take the pending events from the terminal, in order.
    pub fn poll_events(&mut self, events: &[PtyEvent])
        ensures
            final(self).geometry == old(self).geometry,
            final(self).focused == old(self).focused,
            final(self).dirty == (old(self).dirty || exists|i: int|
                0 <= i < events@.len() && marks_dirty(#[trigger] events@[i])),
            final(self).exited == (old(self).exited || exists|i: int|
                0 <= i < events@.len() && marks_exited(#[trigger] events@[i])),
    {
        let mut k: usize = 0;
        while k < events.len()
            invariant
                k <= events@.len(),
                self.geometry == old(self).geometry,
                self.focused == old(self).focused,
                self.dirty == (old(self).dirty || exists|i: int|
                    0 <= i < k && marks_dirty(#[trigger] events@[i])),
                self.exited == (old(self).exited || exists|i: int|
                    0 <= i < k && marks_exited(#[trigger] events@[i])),
            decreases events@.len() - k,
        {
            self.observe(events[k]);
            k = k + 1;
        }
    }

    /// Resize the pane to a grid of `new_cols` by `new_rows` cells in a
    /// region of `width` by `height` pixels; the pane is drawn again.
    pub fn resize(&mut self, new_cols: u16, new_rows: u16, width: u32, height: u32) -> (effects: ResizeEffects)
        ensures
            final(self).geometry == (RegionGeometry { cols: new_cols, rows: new_rows, width, height }),
            final(self).focused == old(self).focused,
            final(self).exited == old(self).exited,
            final(self).dirty,
            effects == spec_resize_effects(old(self).geometry, new_cols, new_rows, width, height),
            effects.grid_changed == (new_cols != old(self).geometry.cols || new_rows != old(self).geometry.rows),
            effects.texture_changed == (width != old(self).geometry.width || height != old(self).geometry.height),
    {
        let effects = self.geometry.resize(new_cols, new_rows, width, height);
        self.dirty = true;
        effects
    }

    /// The pixel size of the pane's region.
    pub fn region_size(&self) -> (r: (u32, u32))
        ensures
            r == (self.geometry.width, self.geometry.height),
    {
        (self.geometry.width, self.geometry.height)
    }
}

/// Once the shell has exited, the pane stays exited whatever the terminal
/// reports next and whatever resizes happen.
pub proof fn lemma_exit_is_final(
    s: TerminalPaneState,
    event: PtyEvent,
    new_cols: u16,
    new_rows: u16,
    width: u32,
    height: u32,
)
    requires
        s.exited,
    ensures
        spec_observe(s, event).exited,
        (TerminalPaneState { geometry: RegionGeometry { cols: new_cols, rows: new_rows, width, height }, dirty: true, ..s }).exited,
{
}

/// Resizing a region to the size it already has changes nothing, so a
/// resize repeated with the same size is free.
pub proof fn lemma_resize_is_idempotent(g: RegionGeometry, new_cols: u16, new_rows: u16, width: u32, height: u32)
    ensures
        spec_resize_effects(g, g.cols, g.rows, g.width, g.height) == (ResizeEffects {
            grid_changed: false,
            texture_changed: false,
        }),
        spec_resize_effects(
            RegionGeometry { cols: new_cols, rows: new_rows, width, height },
            new_cols,
            new_rows,
            width,
            height,
        ) == (ResizeEffects { grid_changed: false, texture_changed: false }),
{
}

/// A resize reports the grid changed exactly when the column count or the
/// row count is new, and the texture changed exactly when the pixel width
/// or height is new.
pub proof fn lemma_resize_reports_what_changed(
    g: RegionGeometry,
    new_cols: u16,
    new_rows: u16,
    width: u32,
    height: u32,
)
    ensures
        spec_resize_effects(g, new_cols, new_rows, width, height).grid_changed <==> (new_cols != g.cols
            || new_rows != g.rows),
        spec_resize_effects(g, new_cols, new_rows, width, height).texture_changed <==> (width != g.width
            || height != g.height),
{
}

/// New output marks the pane dirty and nothing else; an exit or the end of
/// the shell marks it exited and dirty; any other event changes nothing.
/// No event changes the pane's size or focus.
pub proof fn lemma_events_mark_the_pane(s: TerminalPaneState, event: PtyEvent)
    ensures
        spec_observe(s, event).geometry == s.geometry,
        spec_observe(s, event).focused == s.focused,
        event == PtyEvent::Wakeup ==> spec_observe(s, event).dirty && spec_observe(s, event).exited
            == s.exited,
        event == PtyEvent::Exit || event == PtyEvent::ChildExit ==> spec_observe(s, event).dirty
            && spec_observe(s, event).exited,
        event == PtyEvent::Other ==> spec_observe(s, event) == s,
{
}

} // verus!
