//! Translation of window-system input into the editor's key and mouse events.
use vstd::prelude::*;
use crate::event::{first_char, Key, KeyInput, Modifiers, MouseButton as PointerButton, NamedKey, PhysicalKey};

verus! {

/// The editor's key codes.
#[derive(Debug, Clone, Copy, PartialEq, Eq, Structural)]
pub enum KeyCode {
    Backspace,
    Enter,
    Left,
    Right,
    Up,
    Down,
    Home,
    End,
    PageUp,
    PageDown,
    Tab,
    Delete,
    Insert,
    Esc,
    CapsLock,
    ScrollLock,
    NumLock,
    PrintScreen,
    Pause,
    Menu,
    /// Function key `F(n)`.
    F(u8),
    Char(char),
}

/// The editor's key modifiers.
#[derive(Debug, Clone, Copy, PartialEq, Eq, Structural)]
pub struct KeyModifiers {
    pub shift: bool,
    pub control: bool,
    pub alt: bool,
    pub super_key: bool,
}

/// A key event for the editor.
#[derive(Debug, Clone, Copy, PartialEq, Eq, Structural)]
pub struct KeyEvent {
    pub code: KeyCode,
    pub modifiers: KeyModifiers,
}

/// The editor's mouse buttons.
#[derive(Debug, Clone, Copy, PartialEq, Eq, Structural)]
pub enum MouseButton {
    Left,
    Right,
    Middle,
}

/// What a mouse event reports.
#[derive(Debug, Clone, Copy, PartialEq, Eq, Structural)]
pub enum MouseEventKind {
    Down(MouseButton),
    Up(MouseButton),
    ScrollDown,
    ScrollUp,
    ScrollLeft,
    ScrollRight,
}

/// A mouse event for the editor, at a cell of its grid.
#[derive(Debug, Clone, Copy, PartialEq, Eq, Structural)]
pub struct MouseEvent {
    pub kind: MouseEventKind,
    pub column: u16,
    pub row: u16,
    pub modifiers: KeyModifiers,
}

/// An input event for the editor.
#[derive(Debug, Clone, Copy, PartialEq, Eq, Structural)]
pub enum Event {
    Key(KeyEvent),
    Mouse(MouseEvent),
    FocusGained,
    FocusLost,
}

/// Whether a character is alphabetic, as Unicode's `Alphabetic` property says.
pub uninterp spec fn unicode_alphabetic(c: char) -> bool;

/// Whether a character is lowercase, as Unicode's `Lowercase` property says.
pub uninterp spec fn unicode_lowercase(c: char) -> bool;

/// Calls `char::is_alphabetic`, which tells whether the character has
/// Unicode's `Alphabetic` property; its result is given the name
/// `unicode_alphabetic`.
#[verifier::external_body]
fn is_alphabetic(c: char) -> (r: bool)
    ensures
        r == unicode_alphabetic(c),
{
    c.is_alphabetic()
}

/// Calls `char::is_lowercase`, which tells whether the character has
/// Unicode's `Lowercase` property; its result is given the name
/// `unicode_lowercase`.
#[verifier::external_body]
fn is_lowercase(c: char) -> (r: bool)
    ensures
        r == unicode_lowercase(c),
{
    c.is_lowercase()
}

/// Ctrl+` toggles the terminal pane.
pub open spec fn spec_is_toggle_terminal(event: KeyInput, modifiers: Modifiers) -> bool {
    event.pressed && modifiers.control && event.physical_key == PhysicalKey::Backquote
}

/// Detect Ctrl+` (toggle terminal keybind).
pub fn is_toggle_terminal(event: &KeyInput, modifiers: &Modifiers) -> (r: bool)
    ensures
        r == spec_is_toggle_terminal(*event, *modifiers),
{
    if !event.pressed {
        return false;
    }
    let ctrl = modifiers.control;
    if !ctrl {
        return false;
    }
    matches!(event.physical_key, PhysicalKey::Backquote)
}

/// The editor key code of a named key, if it has one.
pub open spec fn spec_named_key_code(key: NamedKey) -> Option<KeyCode> {
    match key {
        NamedKey::Backspace => Some(KeyCode::Backspace),
        NamedKey::Enter => Some(KeyCode::Enter),
        NamedKey::ArrowLeft => Some(KeyCode::Left),
        NamedKey::ArrowRight => Some(KeyCode::Right),
        NamedKey::ArrowUp => Some(KeyCode::Up),
        NamedKey::ArrowDown => Some(KeyCode::Down),
        NamedKey::Home => Some(KeyCode::Home),
        NamedKey::End => Some(KeyCode::End),
        NamedKey::PageUp => Some(KeyCode::PageUp),
        NamedKey::PageDown => Some(KeyCode::PageDown),
        NamedKey::Tab => Some(KeyCode::Tab),
        NamedKey::Delete => Some(KeyCode::Delete),
        NamedKey::Insert => Some(KeyCode::Insert),
        NamedKey::Escape => Some(KeyCode::Esc),
        NamedKey::Space => Some(KeyCode::Char(' ')),
        NamedKey::CapsLock => Some(KeyCode::CapsLock),
        NamedKey::ScrollLock => Some(KeyCode::ScrollLock),
        NamedKey::NumLock => Some(KeyCode::NumLock),
        NamedKey::PrintScreen => Some(KeyCode::PrintScreen),
        NamedKey::Pause => Some(KeyCode::Pause),
        NamedKey::ContextMenu => Some(KeyCode::Menu),
        NamedKey::F1 => Some(KeyCode::F(1)),
        NamedKey::F2 => Some(KeyCode::F(2)),
        NamedKey::F3 => Some(KeyCode::F(3)),
        NamedKey::F4 => Some(KeyCode::F(4)),
        NamedKey::F5 => Some(KeyCode::F(5)),
        NamedKey::F6 => Some(KeyCode::F(6)),
        NamedKey::F7 => Some(KeyCode::F(7)),
        NamedKey::F8 => Some(KeyCode::F(8)),
        NamedKey::F9 => Some(KeyCode::F(9)),
        NamedKey::F10 => Some(KeyCode::F(10)),
        NamedKey::F11 => Some(KeyCode::F(11)),
        NamedKey::F12 => Some(KeyCode::F(12)),
        NamedKey::Other => None,
    }
}

/// The editor key code of a named key, if it has one.
pub fn named_key_code(key: NamedKey) -> (r: Option<KeyCode>)
    ensures
        r == spec_named_key_code(key),
{
    match key {
        NamedKey::Backspace => Some(KeyCode::Backspace),
        NamedKey::Enter => Some(KeyCode::Enter),
        NamedKey::ArrowLeft => Some(KeyCode::Left),
        NamedKey::ArrowRight => Some(KeyCode::Right),
        NamedKey::ArrowUp => Some(KeyCode::Up),
        NamedKey::ArrowDown => Some(KeyCode::Down),
        NamedKey::Home => Some(KeyCode::Home),
        NamedKey::End => Some(KeyCode::End),
        NamedKey::PageUp => Some(KeyCode::PageUp),
        NamedKey::PageDown => Some(KeyCode::PageDown),
        NamedKey::Tab => Some(KeyCode::Tab),
        NamedKey::Delete => Some(KeyCode::Delete),
        NamedKey::Insert => Some(KeyCode::Insert),
        NamedKey::Escape => Some(KeyCode::Esc),
        NamedKey::Space => Some(KeyCode::Char(' ')),
        NamedKey::CapsLock => Some(KeyCode::CapsLock),
        NamedKey::ScrollLock => Some(KeyCode::ScrollLock),
        NamedKey::NumLock => Some(KeyCode::NumLock),
        NamedKey::PrintScreen => Some(KeyCode::PrintScreen),
        NamedKey::Pause => Some(KeyCode::Pause),
        NamedKey::ContextMenu => Some(KeyCode::Menu),
        NamedKey::F1 => Some(KeyCode::F(1)),
        NamedKey::F2 => Some(KeyCode::F(2)),
        NamedKey::F3 => Some(KeyCode::F(3)),
        NamedKey::F4 => Some(KeyCode::F(4)),
        NamedKey::F5 => Some(KeyCode::F(5)),
        NamedKey::F6 => Some(KeyCode::F(6)),
        NamedKey::F7 => Some(KeyCode::F(7)),
        NamedKey::F8 => Some(KeyCode::F(8)),
        NamedKey::F9 => Some(KeyCode::F(9)),
        NamedKey::F10 => Some(KeyCode::F(10)),
        NamedKey::F11 => Some(KeyCode::F(11)),
        NamedKey::F12 => Some(KeyCode::F(12)),
        NamedKey::Other => None,
    }
}

/// Every named key is the editor key of the same name: the arrows are Left,
/// Right, Up and Down, Escape is Esc, Space is the character ' ', the
/// context-menu key is Menu, F1 to F12 are F(1) to F(12), and the other
/// keys keep their names; a key the window system does not name has none.
pub proof fn lemma_named_keys_keep_their_names(key: NamedKey)
    ensures
        ({
            let r = spec_named_key_code(key);
            &&& key == NamedKey::Backspace ==> r == Some(KeyCode::Backspace)
            &&& key == NamedKey::Enter ==> r == Some(KeyCode::Enter)
            &&& key == NamedKey::ArrowLeft ==> r == Some(KeyCode::Left)
            &&& key == NamedKey::ArrowRight ==> r == Some(KeyCode::Right)
            &&& key == NamedKey::ArrowUp ==> r == Some(KeyCode::Up)
            &&& key == NamedKey::ArrowDown ==> r == Some(KeyCode::Down)
            &&& key == NamedKey::Home ==> r == Some(KeyCode::Home)
            &&& key == NamedKey::End ==> r == Some(KeyCode::End)
            &&& key == NamedKey::PageUp ==> r == Some(KeyCode::PageUp)
            &&& key == NamedKey::PageDown ==> r == Some(KeyCode::PageDown)
            &&& key == NamedKey::Tab ==> r == Some(KeyCode::Tab)
            &&& key == NamedKey::Delete ==> r == Some(KeyCode::Delete)
            &&& key == NamedKey::Insert ==> r == Some(KeyCode::Insert)
            &&& key == NamedKey::Escape ==> r == Some(KeyCode::Esc)
            &&& key == NamedKey::Space ==> r == Some(KeyCode::Char(' '))
            &&& key == NamedKey::CapsLock ==> r == Some(KeyCode::CapsLock)
            &&& key == NamedKey::ScrollLock ==> r == Some(KeyCode::ScrollLock)
            &&& key == NamedKey::NumLock ==> r == Some(KeyCode::NumLock)
            &&& key == NamedKey::PrintScreen ==> r == Some(KeyCode::PrintScreen)
            &&& key == NamedKey::Pause ==> r == Some(KeyCode::Pause)
            &&& key == NamedKey::ContextMenu ==> r == Some(KeyCode::Menu)
            &&& key == NamedKey::F1 ==> r == Some(KeyCode::F(1))
            &&& key == NamedKey::F2 ==> r == Some(KeyCode::F(2))
            &&& key == NamedKey::F3 ==> r == Some(KeyCode::F(3))
            &&& key == NamedKey::F4 ==> r == Some(KeyCode::F(4))
            &&& key == NamedKey::F5 ==> r == Some(KeyCode::F(5))
            &&& key == NamedKey::F6 ==> r == Some(KeyCode::F(6))
            &&& key == NamedKey::F7 ==> r == Some(KeyCode::F(7))
            &&& key == NamedKey::F8 ==> r == Some(KeyCode::F(8))
            &&& key == NamedKey::F9 ==> r == Some(KeyCode::F(9))
            &&& key == NamedKey::F10 ==> r == Some(KeyCode::F(10))
            &&& key == NamedKey::F11 ==> r == Some(KeyCode::F(11))
            &&& key == NamedKey::F12 ==> r == Some(KeyCode::F(12))
            &&& key == NamedKey::Other ==> r is None
        }),
{
}

/// No two named keys give the same editor key.
pub proof fn lemma_named_key_codes_are_distinct(a: NamedKey, b: NamedKey)
    requires
        a != b,
        spec_named_key_code(a) is Some,
    ensures
        spec_named_key_code(a) != spec_named_key_code(b),
{
}

/// The key code a key event carries: a named key's code, or the first
/// character of typed text.
pub open spec fn spec_key_code(key: Key) -> Option<KeyCode> {
    match key {
        Key::Named(named) => spec_named_key_code(named),
        Key::Character(text) => if text@.len() > 0 {
            Some(KeyCode::Char(text@[0]))
        } else {
            None
        },
        _ => None,
    }
}

/// Whether Shift stays on a key event: it is dropped from a character that
/// is alphabetic and not lowercase, to which the layout has already applied
/// it ('A' not 'a'), and kept on every other key that has it.
pub open spec fn spec_shift_kept(code: KeyCode, shift: bool, alphabetic: bool, lowercase: bool) -> bool {
    shift && !(code is Char && alphabetic && !lowercase)
}

/// Whether Shift stays on a key event with this code, given whether its
/// character is `alphabetic` and `lowercase`.
pub fn shift_kept(code: KeyCode, shift: bool, alphabetic: bool, lowercase: bool) -> (r: bool)
    ensures
        r == spec_shift_kept(code, shift, alphabetic, lowercase),
{
    match code {
        KeyCode::Char(_) => shift && !(alphabetic && !lowercase),
        _ => shift,
    }
}

/// The editor key event for a key press: the key code with every held
/// modifier, except that Shift is dropped from an alphabetic character that
/// is not lowercase, since the layout has already applied it ('A' not 'a').
/// Releases, dead keys and keys with no code give nothing.
pub open spec fn spec_convert_key_event(event: KeyInput, modifiers: Modifiers) -> Option<Event> {
    if !event.pressed || spec_key_code(event.logical_key) is None {
        None
    } else {
        let code = spec_key_code(event.logical_key)->0;
        let (alphabetic, lowercase) = match code {
            KeyCode::Char(ch) => (unicode_alphabetic(ch), unicode_lowercase(ch)),
            _ => (false, false),
        };
        Some(
            Event::Key(
                KeyEvent {
                    code,
                    modifiers: KeyModifiers {
                        shift: spec_shift_kept(code, modifiers.shift, alphabetic, lowercase),
                        control: modifiers.control,
                        alt: modifiers.alt,
                        super_key: modifiers.super_key,
                    },
                },
            ),
        )
    }
}

/// Convert a window key event to an editor key event.
pub fn convert_key_event(event: &KeyInput, modifiers: &Modifiers) -> (r: Option<Event>)
    ensures
        r == spec_convert_key_event(*event, *modifiers),
{
    if !event.pressed {
        return None;
    }
    let code = match &event.logical_key {
        Key::Named(named) => match named_key_code(*named) {
            Some(code) => code,
            None => return None,
        },
        Key::Character(s) => match first_char(s.as_str()) {
            Some(ch) => KeyCode::Char(ch),
            None => return None,
        },
        _ => return None,
    };
    let mut mods = KeyModifiers {
        shift: modifiers.shift,
        control: modifiers.control,
        alt: modifiers.alt,
        super_key: modifiers.super_key,
    };
    let (alphabetic, lowercase) = match code {
        KeyCode::Char(ch) => (is_alphabetic(ch), is_lowercase(ch)),
        _ => (false, false),
    };
    mods.shift = shift_kept(code, mods.shift, alphabetic, lowercase);
    Some(Event::Key(KeyEvent { code, modifiers: mods }))
}

/// Pressing a named key other than Space gives the editor its key of the
/// same name with exactly the modifiers held, whatever the physical key.
pub proof fn lemma_pressed_named_key_keeps_modifiers(key: NamedKey, mods: Modifiers, physical: PhysicalKey)
    requires
        key != NamedKey::Space,
        key != NamedKey::Other,
    ensures
        spec_convert_key_event(
            KeyInput { pressed: true, logical_key: Key::Named(key), physical_key: physical },
            mods,
        ) == Some(
            Event::Key(
                KeyEvent {
                    code: spec_named_key_code(key)->0,
                    modifiers: KeyModifiers {
                        shift: mods.shift,
                        control: mods.control,
                        alt: mods.alt,
                        super_key: mods.super_key,
                    },
                },
            ),
        ),
{
}

/// The editor's button for a window mouse button; only the three main
/// buttons have one.
pub open spec fn spec_convert_mouse_button(button: PointerButton) -> Option<MouseButton> {
    match button {
        PointerButton::Left => Some(MouseButton::Left),
        PointerButton::Right => Some(MouseButton::Right),
        PointerButton::Middle => Some(MouseButton::Middle),
        _ => None,
    }
}

/// Convert a window mouse button to an editor mouse button.
pub fn convert_mouse_button(button: PointerButton) -> (r: Option<MouseButton>)
    ensures
        r == spec_convert_mouse_button(button),
{
    match button {
        PointerButton::Left => Some(MouseButton::Left),
        PointerButton::Right => Some(MouseButton::Right),
        PointerButton::Middle => Some(MouseButton::Middle),
        _ => None,
    }
}

/// The modifiers a mouse event carries: Shift, Ctrl and Alt, never Super.
pub open spec fn spec_pointer_modifiers(modifiers: Modifiers) -> KeyModifiers {
    KeyModifiers {
        shift: modifiers.shift,
        control: modifiers.control,
        alt: modifiers.alt,
        super_key: false,
    }
}

/// The modifiers a mouse event carries.
pub fn pointer_modifiers(modifiers: &Modifiers) -> (r: KeyModifiers)
    ensures
        r == spec_pointer_modifiers(*modifiers),
{
    KeyModifiers {
        shift: modifiers.shift,
        control: modifiers.control,
        alt: modifiers.alt,
        super_key: false,
    }
}

/// The editor event for a press or release of a window mouse button over
/// the grid cell (`column`, `row`): nothing for buttons the editor has no
/// name for.
pub open spec fn spec_convert_mouse_press(
    pressed: bool,
    button: PointerButton,
    column: u16,
    row: u16,
    modifiers: Modifiers,
) -> Option<Event> {
    match spec_convert_mouse_button(button) {
        Some(b) => Some(
            Event::Mouse(
                MouseEvent {
                    kind: if pressed {
                        MouseEventKind::Down(b)
                    } else {
                        MouseEventKind::Up(b)
                    },
                    column,
                    row,
                    modifiers: spec_pointer_modifiers(modifiers),
                },
            ),
        ),
        None => None,
    }
}

/// Convert a window mouse press or release over the grid cell (`column`,
/// `row`) to an editor mouse event.
pub fn convert_mouse_press(
    pressed: bool,
    button: PointerButton,
    column: u16,
    row: u16,
    modifiers: &Modifiers,
) -> (r: Option<Event>)
    ensures
        r == spec_convert_mouse_press(pressed, button, column, row, *modifiers),
{
    let hx_button = match convert_mouse_button(button) {
        Some(b) => b,
        None => return None,
    };
    let kind = if pressed {
        MouseEventKind::Down(hx_button)
    } else {
        MouseEventKind::Up(hx_button)
    };
    let mods = pointer_modifiers(modifiers);
    Some(Event::Mouse(MouseEvent { kind, column, row, modifiers: mods }))
}

/// How far the wheel turned along one axis, in whole scroll events: the
/// sign of the turn and how many events it makes.
#[derive(Debug, Clone, Copy, PartialEq, Eq, Structural)]
pub enum ScrollSteps {
    Still,
    Positive(usize),
    Negative(usize),
}

/// The number of scroll events of a turn.
pub open spec fn spec_step_count(steps: ScrollSteps) -> nat {
    match steps {
        ScrollSteps::Still => 0,
        ScrollSteps::Positive(n) => n as nat,
        ScrollSteps::Negative(n) => n as nat,
    }
}

/// A scroll event of the given kind at the pointer's cell.
pub open spec fn spec_scroll_event(
    kind: MouseEventKind,
    column: u16,
    row: u16,
    modifiers: Modifiers,
) -> Event {
    Event::Mouse(MouseEvent { kind, column, row, modifiers: spec_pointer_modifiers(modifiers) })
}

/// The scroll events of a wheel turn: first one per vertical step (up for a
/// positive turn, down for a negative one), then one per horizontal step
/// (right for positive, left for negative), all at the pointer's cell.
pub open spec fn spec_scroll_events(
    vertical: ScrollSteps,
    horizontal: ScrollSteps,
    column: u16,
    row: u16,
    modifiers: Modifiers,
) -> Seq<Event> {
    let kind_y = if vertical is Positive {
        MouseEventKind::ScrollUp
    } else {
        MouseEventKind::ScrollDown
    };
    let kind_x = if horizontal is Positive {
        MouseEventKind::ScrollRight
    } else {
        MouseEventKind::ScrollLeft
    };
    Seq::new(spec_step_count(vertical), |i: int| spec_scroll_event(kind_y, column, row, modifiers))
        + Seq::new(
        spec_step_count(horizontal),
        |i: int| spec_scroll_event(kind_x, column, row, modifiers),
    )
}

/// Append `count` copies of a scroll event.
fn push_scroll_events(events: &mut Vec<Event>, kind: MouseEventKind, count: usize, column: u16, row: u16, modifiers: &Modifiers)
    ensures
        final(events)@ == old(events)@ + Seq::new(
            count as nat,
            |i: int| spec_scroll_event(kind, column, row, *modifiers),
        ),
{
    let mods = pointer_modifiers(modifiers);
    let ghost start = events@;
    let mut i: usize = 0;
    while i < count
        invariant
            i <= count,
            mods == spec_pointer_modifiers(*modifiers),
            events@ == start + Seq::new(
                i as nat,
                |j: int| spec_scroll_event(kind, column, row, *modifiers),
            ),
        decreases count - i,
    {
        events.push(Event::Mouse(MouseEvent { kind, column, row, modifiers: mods }));
        i = i + 1;
        assert(events@ =~= start + Seq::new(
            i as nat,
            |j: int| spec_scroll_event(kind, column, row, *modifiers),
        ));
    }
}

/// The editor events for a wheel turn at the pointer's cell.
pub fn scroll_events(
    vertical: ScrollSteps,
    horizontal: ScrollSteps,
    column: u16,
    row: u16,
    modifiers: &Modifiers,
) -> (r: Vec<Event>)
    ensures
        r@ == spec_scroll_events(vertical, horizontal, column, row, *modifiers),
{
    let mut events: Vec<Event> = Vec::new();
    match vertical {
        ScrollSteps::Positive(n) => push_scroll_events(&mut events, MouseEventKind::ScrollUp, n, column, row, modifiers),
        ScrollSteps::Negative(n) => push_scroll_events(&mut events, MouseEventKind::ScrollDown, n, column, row, modifiers),
        ScrollSteps::Still => {},
    }
    let ghost after_vertical = events@;
    match horizontal {
        ScrollSteps::Positive(n) => push_scroll_events(&mut events, MouseEventKind::ScrollRight, n, column, row, modifiers),
        ScrollSteps::Negative(n) => push_scroll_events(&mut events, MouseEventKind::ScrollLeft, n, column, row, modifiers),
        ScrollSteps::Still => {},
    }
    proof {
        let kind_y = if vertical is Positive {
            MouseEventKind::ScrollUp
        } else {
            MouseEventKind::ScrollDown
        };
        assert(after_vertical =~= Seq::<Event>::empty() + Seq::new(
            spec_step_count(vertical),
            |i: int| spec_scroll_event(kind_y, column, row, *modifiers),
        ));
    }
    events
}

/// The editor event for the window gaining or losing focus.
pub fn focus_event(focused: bool) -> (r: Event)
    ensures
        r == (if focused { Event::FocusGained } else { Event::FocusLost }),
{
    if focused {
        Event::FocusGained
    } else {
        Event::FocusLost
    }
}

/// A press or release of the left, right or middle button is the editor's
/// button of the same name going down or up at the given cell, with the
/// Shift, Ctrl and Alt held and never Super; other buttons give nothing.
pub proof fn lemma_mouse_press_keeps_button_cell_and_modifiers(
    pressed: bool,
    button: PointerButton,
    column: u16,
    row: u16,
    mods: Modifiers,
)
    ensures
        ({
            let r = spec_convert_mouse_press(pressed, button, column, row, mods);
            let held = KeyModifiers { shift: mods.shift, control: mods.control, alt: mods.alt, super_key: false };
            let named = if button == PointerButton::Left {
                Some(MouseButton::Left)
            } else if button == PointerButton::Right {
                Some(MouseButton::Right)
            } else if button == PointerButton::Middle {
                Some(MouseButton::Middle)
            } else {
                None
            };
            &&& named is None ==> r is None
            &&& named matches Some(b) ==> r == Some(
                Event::Mouse(
                    MouseEvent {
                        kind: if pressed { MouseEventKind::Down(b) } else { MouseEventKind::Up(b) },
                        column,
                        row,
                        modifiers: held,
                    },
                ),
            )
        }),
{
}

/// A wheel turn gives one event per step: first the vertical steps, upward
/// for a positive turn and downward for a negative one, then the horizontal
/// steps, rightward for positive and leftward for negative; each at the
/// pointer's cell with the Shift, Ctrl and Alt held and never Super.
pub proof fn lemma_scroll_events_follow_the_turn(
    vertical: ScrollSteps,
    horizontal: ScrollSteps,
    column: u16,
    row: u16,
    mods: Modifiers,
    i: int,
)
    requires
        0 <= i < spec_scroll_events(vertical, horizontal, column, row, mods).len(),
    ensures
        ({
            let events = spec_scroll_events(vertical, horizontal, column, row, mods);
            let nv: int = match vertical {
                ScrollSteps::Still => 0,
                ScrollSteps::Positive(n) => n as int,
                ScrollSteps::Negative(n) => n as int,
            };
            let nh: int = match horizontal {
                ScrollSteps::Still => 0,
                ScrollSteps::Positive(n) => n as int,
                ScrollSteps::Negative(n) => n as int,
            };
            let kind = if i < nv {
                if vertical is Positive { MouseEventKind::ScrollUp } else { MouseEventKind::ScrollDown }
            } else {
                if horizontal is Positive { MouseEventKind::ScrollRight } else { MouseEventKind::ScrollLeft }
            };
            &&& events.len() == nv + nh
            &&& events[i] == Event::Mouse(
                MouseEvent {
                    kind,
                    column,
                    row,
                    modifiers: KeyModifiers {
                        shift: mods.shift,
                        control: mods.control,
                        alt: mods.alt,
                        super_key: false,
                    },
                },
            )
        }),
{
}

/// Ctrl+` toggles the terminal exactly when the key is pressed with Ctrl
/// held and is the backquote key by position, whatever it types.
pub proof fn lemma_toggle_is_ctrl_backquote(event: KeyInput, mods: Modifiers)
    ensures
        spec_is_toggle_terminal(event, mods) <==> (event.pressed && mods.control && event.physical_key
            == PhysicalKey::Backquote),
{
}

/// Typed text gives the editor its first character as the key; empty
/// text, an unidentified key and a dead key give no key.
pub proof fn lemma_typed_text_gives_its_first_character(text: String)
    ensures
        text@.len() > 0 ==> spec_key_code(Key::Character(text)) == Some(KeyCode::Char(text@[0])),
        text@.len() == 0 ==> spec_key_code(Key::Character(text)) is None,
        spec_key_code(Key::Unidentified) is None,
        spec_key_code(Key::Dead) is None,
{
}

} // verus!
