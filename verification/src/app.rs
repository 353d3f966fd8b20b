//! The front end's decisions: where keyboard and mouse input goes, when the
//! editor is drawn again, and which dropped files are opened.
use vstd::prelude::*;
use crate::event::{KeyInput, Modifiers};
use crate::input::{convert_key_event, is_toggle_terminal, spec_convert_key_event, spec_is_toggle_terminal, Event};
use crate::layout::RegionKind;
use crate::terminal::input::{encode_key, spec_encode_key};

verus! {

/// Which pane receives keyboard input.
#[derive(Debug, Clone, Copy, PartialEq, Eq, Structural)]
pub enum Focus {
    Editor,
    Terminal,
}

/// What a key press does.
#[derive(Debug, Clone, PartialEq, Eq)]
pub enum KeyAction {
    /// Show or hide the terminal pane.
    ToggleTerminal,
    /// Hand the event, if the key has one, to the editor.
    Editor(Option<Event>),
    /// Write the bytes, if the key has any, to the terminal.
    Terminal(Option<Vec<u8>>),
}

/// Where a key event goes: Ctrl+` toggles the terminal whichever pane has
/// focus; otherwise the focused pane gets the key, translated for it.
pub fn route_key(event: &KeyInput, modifiers: &Modifiers, focus: Focus) -> (action: KeyAction)
    ensures
        spec_is_toggle_terminal(*event, *modifiers) ==> action == KeyAction::ToggleTerminal,
        !spec_is_toggle_terminal(*event, *modifiers) && focus == Focus::Editor ==> action
            == KeyAction::Editor(spec_convert_key_event(*event, *modifiers)),
        !spec_is_toggle_terminal(*event, *modifiers) && focus == Focus::Terminal ==> match action {
            KeyAction::Terminal(Some(bytes)) => spec_encode_key(*event, *modifiers) == Some(bytes@),
            KeyAction::Terminal(None) => spec_encode_key(*event, *modifiers) is None,
            _ => false,
        },
{
    // Global: toggle terminal
    if is_toggle_terminal(event, modifiers) {
        return KeyAction::ToggleTerminal;
    }
    match focus {
        Focus::Editor => KeyAction::Editor(convert_key_event(event, modifiers)),
        Focus::Terminal => KeyAction::Terminal(encode_key(event, modifiers)),
    }
}

/// What a mouse button event does.
#[derive(Debug, Clone, Copy, PartialEq, Eq, Structural)]
pub enum MouseRoute {
    /// Start dragging the divider.
    StartDrag,
    /// Stop dragging the divider.
    EndDrag,
    /// Focus `focus`; the editor gets the event when it is the one focused.
    Deliver { focus: Focus, focus_changed: bool },
}

/// The pane a click in a region focuses: the one it falls in, or, on the
/// divider, the one already focused.
pub open spec fn spec_focus_after_click(region: RegionKind, focus: Focus) -> Focus {
    match region {
        RegionKind::Editor => Focus::Editor,
        RegionKind::Terminal => Focus::Terminal,
        RegionKind::Divider => focus,
    }
}

/// What a mouse button event does: a left press on the divider starts a
/// drag; a release while dragging ends it; anything else focuses the pane
/// under the pointer.
pub open spec fn spec_route_mouse_button(
    pressed: bool,
    left_button: bool,
    on_divider: bool,
    dragging: bool,
    region: RegionKind,
    focus: Focus,
) -> MouseRoute {
    if pressed && left_button && on_divider {
        MouseRoute::StartDrag
    } else if !pressed && dragging {
        MouseRoute::EndDrag
    } else {
        let new_focus = spec_focus_after_click(region, focus);
        MouseRoute::Deliver { focus: new_focus, focus_changed: new_focus != focus }
    }
}

/// Where a mouse button event goes. `on_divider` says whether the pointer
/// is over the divider's grab area, `region` which region it is in.
pub fn route_mouse_button(
    pressed: bool,
    left_button: bool,
    on_divider: bool,
    dragging: bool,
    region: RegionKind,
    focus: Focus,
) -> (r: MouseRoute)
    ensures
        r == spec_route_mouse_button(pressed, left_button, on_divider, dragging, region, focus),
{
    // Divider drag
    if pressed && left_button && on_divider {
        return MouseRoute::StartDrag;
    }
    if !pressed && dragging {
        return MouseRoute::EndDrag;
    }
    // Focus + event routing
    let new_focus = match region {
        RegionKind::Editor => Focus::Editor,
        RegionKind::Terminal => Focus::Terminal,
        RegionKind::Divider => focus,
    };
    MouseRoute::Deliver { focus: new_focus, focus_changed: new_focus != focus }
}

/// The focus after the terminal pane is shown or hidden: a shown pane whose
/// terminal is running takes the keyboard, and hiding it gives the keyboard
/// back to the editor.
pub fn focus_after_toggle(visible: bool, pane_running: bool) -> (focus: Focus)
    ensures
        focus == (if visible && pane_running { Focus::Terminal } else { Focus::Editor }),
{
    if visible && pane_running {
        Focus::Terminal
    } else {
        Focus::Editor
    }
}

/// A click that neither starts nor ends a divider drag focuses the pane it
/// lands in, and a click on the divider leaves the focus where it was.
pub proof fn lemma_click_focuses_pane_under_pointer(
    pressed: bool,
    left_button: bool,
    on_divider: bool,
    dragging: bool,
    region: RegionKind,
    focus: Focus,
)
    requires
        !(pressed && left_button && on_divider),
        !(!pressed && dragging),
    ensures
        region == RegionKind::Editor ==> spec_route_mouse_button(pressed, left_button, on_divider, dragging, region, focus)
            == (MouseRoute::Deliver { focus: Focus::Editor, focus_changed: focus != Focus::Editor }),
        region == RegionKind::Terminal ==> spec_route_mouse_button(pressed, left_button, on_divider, dragging, region, focus)
            == (MouseRoute::Deliver { focus: Focus::Terminal, focus_changed: focus != Focus::Terminal }),
        region == RegionKind::Divider ==> spec_route_mouse_button(pressed, left_button, on_divider, dragging, region, focus)
            == (MouseRoute::Deliver { focus, focus_changed: false }),
{
}

/// What handling an editor event leads to.
#[derive(Debug, Clone, Copy, PartialEq, Eq, Structural)]
pub struct EventOutcome {
    /// Draw the editor again.
    pub render: bool,
    /// What the handler reports: whether the event was taken.
    pub handled: bool,
}

/// After the editor has seen an event: nothing is drawn once the editor is
/// closing (its views may be gone) and the handler reports whether the
/// compositor took the event; otherwise the editor is drawn when the event
/// was taken or the editor asked for a redraw, and the handler reports
/// whether it was drawn.
pub open spec fn spec_event_outcome(consumed: bool, should_close: bool, needs_redraw: bool) -> EventOutcome {
    if should_close {
        EventOutcome { render: false, handled: consumed }
    } else if consumed || needs_redraw {
        EventOutcome { render: true, handled: true }
    } else {
        EventOutcome { render: false, handled: false }
    }
}

/// What handling an editor event leads to.
pub fn event_outcome(consumed: bool, should_close: bool, needs_redraw: bool) -> (r: EventOutcome)
    ensures
        r == spec_event_outcome(consumed, should_close, needs_redraw),
{
    // Don't render if the editor is closing — the view tree may be empty
    if should_close {
        return EventOutcome { render: false, handled: consumed };
    }
    if consumed || needs_redraw {
        EventOutcome { render: true, handled: true }
    } else {
        EventOutcome { render: false, handled: false }
    }
}

/// On the periodic redraw: draw when the editor reported changes or the
/// terminal pane, if there is one, is dirty, unless the editor is closing.
pub fn redraw_needed(editor_changed: bool, pane_dirty: Option<bool>, should_close: bool) -> (r: bool)
    ensures
        r == ((editor_changed || pane_dirty == Some(true)) && !should_close),
{
    let mut needs_render = editor_changed;
    if let Some(dirty) = pane_dirty {
        if dirty {
            needs_render = true;
        }
    }
    needs_render && !should_close
}

/// Files of this size or larger are not opened when dropped on the window.
pub const MAX_DROPPED_FILE_SIZE: u64 = 33554432;

/// How many leading bytes of a dropped file are inspected.
pub const TEXT_SAMPLE_SIZE: usize = 8192;

/// `bytes` begins with `prefix`.
pub open spec fn begins_with(bytes: Seq<u8>, prefix: Seq<u8>) -> bool {
    prefix.len() <= bytes.len() && bytes.take(prefix.len() as int) == prefix
}

/// Whether the content inspector takes a buffer for text: one that begins
/// with a byte-order mark of UTF-8, UTF-32 or UTF-16 is text; any other is
/// text unless a NUL byte occurs among its first 1024 bytes or it begins
/// with the magic number of a PDF or a PNG file.
pub open spec fn inspected_as_text(bytes: Seq<u8>) -> bool {
    ||| begins_with(bytes, seq![0xEFu8, 0xBB, 0xBF])
    ||| begins_with(bytes, seq![0x00u8, 0x00, 0xFE, 0xFF])
    ||| begins_with(bytes, seq![0xFFu8, 0xFE, 0x00, 0x00])
    ||| begins_with(bytes, seq![0xFEu8, 0xFF])
    ||| begins_with(bytes, seq![0xFFu8, 0xFE])
    ||| {
        &&& forall|i: int| 0 <= i < bytes.len() && i < 1024 ==> bytes[i] != 0
        &&& !begins_with(bytes, seq![0x25u8, 0x50, 0x44, 0x46])
        &&& !begins_with(bytes, seq![0x89u8, 0x50, 0x4E, 0x47])
    }
}

/// Calls `content_inspector::inspect` and then `ContentType::is_text`. As
/// the crate's source shows, `inspect` returns the encoding of the first
/// byte-order mark the buffer begins with; failing that, `BINARY` when a
/// NUL byte occurs in the first 1024 bytes or the buffer begins with
/// `%PDF` or `\x89PNG`; else `UTF_8`. `is_text` holds of every result but
/// `BINARY`. The contract states that as `inspected_as_text`.
#[verifier::external_body]
fn inspect_is_text(bytes: &[u8]) -> (r: bool)
    ensures
        r == inspected_as_text(bytes@),
{
    content_inspector::inspect(bytes).is_text()
}

/// The leading bytes of a file that are inspected.
pub open spec fn spec_text_sample(bytes: Seq<u8>) -> Seq<u8> {
    bytes.take(if bytes.len() < TEXT_SAMPLE_SIZE { bytes.len() as int } else { TEXT_SAMPLE_SIZE as int })
}

/// Whether a file's contents look like text, judged from its first 8 KiB.
pub fn looks_like_text(bytes: &[u8]) -> (r: bool)
    ensures
        r == inspected_as_text(spec_text_sample(bytes@)),
{
    let n = if bytes.len() < TEXT_SAMPLE_SIZE { bytes.len() } else { TEXT_SAMPLE_SIZE };
    let sample = vstd::slice::slice_subrange(bytes, 0, n);
    assert(sample@ =~= spec_text_sample(bytes@));
    inspect_is_text(sample)
}

/// A file dropped on the window is opened when it is a regular file whose
/// size could be read and is under 32 MiB, and whose contents could be
/// read and look like text.
pub open spec fn spec_accepts_dropped_file(is_file: bool, size: Option<u64>, contents: Option<Seq<u8>>) -> bool {
    &&& is_file
    &&& size matches Some(s) && s < MAX_DROPPED_FILE_SIZE
    &&& contents matches Some(b) && inspected_as_text(spec_text_sample(b))
}

/// Whether a file dropped on the window is opened. `size` and `contents`
/// are `None` where reading them failed.
pub fn accepts_dropped_file(is_file: bool, size: Option<u64>, contents: Option<&[u8]>) -> (r: bool)
    ensures
        r == spec_accepts_dropped_file(
            is_file,
            size,
            match contents {
                Some(b) => Some(b@),
                None => None,
            },
        ),
{
    if !is_file {
        return false;
    }
    match size {
        Some(s) => if s >= MAX_DROPPED_FILE_SIZE {
            return false;
        },
        None => return false,
    }
    match contents {
        Some(bytes) => looks_like_text(bytes),
        None => false,
    }
}

/// A left press on the divider starts a drag; a release while dragging
/// that does not start one ends it.
pub proof fn lemma_divider_drags(
    pressed: bool,
    left_button: bool,
    on_divider: bool,
    dragging: bool,
    region: RegionKind,
    focus: Focus,
)
    ensures
        pressed && left_button && on_divider ==> spec_route_mouse_button(
            pressed,
            left_button,
            on_divider,
            dragging,
            region,
            focus,
        ) == MouseRoute::StartDrag,
        !pressed && dragging ==> spec_route_mouse_button(pressed, left_button, on_divider, dragging, region, focus)
            == MouseRoute::EndDrag,
{
}

/// Once the editor is closing nothing is drawn and the handler reports
/// whether the event was taken; before, the editor is drawn exactly when the
/// event was taken or a redraw was asked for, and the handler reports
/// exactly that.
pub proof fn lemma_event_outcome(consumed: bool, should_close: bool, needs_redraw: bool)
    ensures
        should_close ==> !spec_event_outcome(consumed, should_close, needs_redraw).render
            && spec_event_outcome(consumed, should_close, needs_redraw).handled == consumed,
        !should_close ==> spec_event_outcome(consumed, should_close, needs_redraw).render == (consumed
            || needs_redraw) && spec_event_outcome(consumed, should_close, needs_redraw).handled == (consumed
            || needs_redraw),
{
}

/// A dropped file is opened only when it is a regular file, smaller than
/// 32 MiB, whose contents could be read: a directory, a file of 32 MiB or
/// more, or one whose size or contents could not be read is never opened.
pub proof fn lemma_dropped_file_limits(is_file: bool, size: Option<u64>, contents: Option<Seq<u8>>)
    ensures
        spec_accepts_dropped_file(is_file, size, contents) ==> is_file && size is Some && size->0 < 0x200_0000
            && contents is Some,
        is_file && size is Some && size->0 < 0x200_0000 && contents is Some && contents->0.len() == 0
            ==> spec_accepts_dropped_file(is_file, size, contents),
{
}

} // verus!
