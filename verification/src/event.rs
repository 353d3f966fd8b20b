//! The window system's keyboard and mouse input, as plain values.
//!
//! The window front end fills these from the events it receives; the
//! translations in `input` and `terminal::input` read only these.
use vstd::prelude::*;

verus! {

/// Modifier keys held while an event happened.
#[derive(Debug, Clone, Copy, PartialEq, Eq, Structural)]
pub struct Modifiers {
    pub shift: bool,
    pub control: bool,
    pub alt: bool,
    pub super_key: bool,
}

/// Keys with a name rather than a character. `Other` stands for every named
/// key that nothing here translates.
#[derive(Debug, Clone, Copy, PartialEq, Eq, Structural)]
pub enum NamedKey {
    Backspace,
    Enter,
    ArrowLeft,
    ArrowRight,
    ArrowUp,
    ArrowDown,
    Home,
    End,
    PageUp,
    PageDown,
    Tab,
    Delete,
    Insert,
    Escape,
    Space,
    CapsLock,
    ScrollLock,
    NumLock,
    PrintScreen,
    Pause,
    ContextMenu,
    F1,
    F2,
    F3,
    F4,
    F5,
    F6,
    F7,
    F8,
    F9,
    F10,
    F11,
    F12,
    Other,
}

/// The key as the keyboard layout sees it.
#[derive(Debug, Clone, PartialEq, Eq)]
pub enum Key {
    Named(NamedKey),
    /// The text the key produces.
    Character(String),
    Unidentified,
    Dead,
}

/// The key's position on the keyboard; `Other` stands for every position
/// that nothing here reads.
#[derive(Debug, Clone, Copy, PartialEq, Eq, Structural)]
pub enum PhysicalKey {
    KeyA,
    KeyB,
    KeyC,
    KeyD,
    KeyE,
    KeyF,
    KeyG,
    KeyH,
    KeyI,
    KeyJ,
    KeyK,
    KeyL,
    KeyM,
    KeyN,
    KeyO,
    KeyP,
    KeyQ,
    KeyR,
    KeyS,
    KeyT,
    KeyU,
    KeyV,
    KeyW,
    KeyX,
    KeyY,
    KeyZ,
    Backquote,
    Other,
}

/// A keyboard event: whether the key went down, and which key it was.
#[derive(Debug, Clone, PartialEq, Eq)]
pub struct KeyInput {
    pub pressed: bool,
    pub logical_key: Key,
    pub physical_key: PhysicalKey,
}

/// Mouse buttons.
#[derive(Debug, Clone, Copy, PartialEq, Eq, Structural)]
pub enum MouseButton {
    Left,
    Right,
    Middle,
    Back,
    Forward,
    Other(u16),
}

/// The position of a letter key in the alphabet, `KeyA` being 0.
pub open spec fn spec_letter_index(key: PhysicalKey) -> Option<u8> {
    match key {
        PhysicalKey::KeyA => Some(0u8),
        PhysicalKey::KeyB => Some(1u8),
        PhysicalKey::KeyC => Some(2u8),
        PhysicalKey::KeyD => Some(3u8),
        PhysicalKey::KeyE => Some(4u8),
        PhysicalKey::KeyF => Some(5u8),
        PhysicalKey::KeyG => Some(6u8),
        PhysicalKey::KeyH => Some(7u8),
        PhysicalKey::KeyI => Some(8u8),
        PhysicalKey::KeyJ => Some(9u8),
        PhysicalKey::KeyK => Some(10u8),
        PhysicalKey::KeyL => Some(11u8),
        PhysicalKey::KeyM => Some(12u8),
        PhysicalKey::KeyN => Some(13u8),
        PhysicalKey::KeyO => Some(14u8),
        PhysicalKey::KeyP => Some(15u8),
        PhysicalKey::KeyQ => Some(16u8),
        PhysicalKey::KeyR => Some(17u8),
        PhysicalKey::KeyS => Some(18u8),
        PhysicalKey::KeyT => Some(19u8),
        PhysicalKey::KeyU => Some(20u8),
        PhysicalKey::KeyV => Some(21u8),
        PhysicalKey::KeyW => Some(22u8),
        PhysicalKey::KeyX => Some(23u8),
        PhysicalKey::KeyY => Some(24u8),
        PhysicalKey::KeyZ => Some(25u8),
        _ => None,
    }
}

/// The position of a letter key in the alphabet, `KeyA` being 0, or `None`
/// for any other key.
pub fn letter_index(key: PhysicalKey) -> (r: Option<u8>)
    ensures
        r == spec_letter_index(key),
        r matches Some(i) ==> i < 26,
{
    match key {
        PhysicalKey::KeyA => Some(0),
        PhysicalKey::KeyB => Some(1),
        PhysicalKey::KeyC => Some(2),
        PhysicalKey::KeyD => Some(3),
        PhysicalKey::KeyE => Some(4),
        PhysicalKey::KeyF => Some(5),
        PhysicalKey::KeyG => Some(6),
        PhysicalKey::KeyH => Some(7),
        PhysicalKey::KeyI => Some(8),
        PhysicalKey::KeyJ => Some(9),
        PhysicalKey::KeyK => Some(10),
        PhysicalKey::KeyL => Some(11),
        PhysicalKey::KeyM => Some(12),
        PhysicalKey::KeyN => Some(13),
        PhysicalKey::KeyO => Some(14),
        PhysicalKey::KeyP => Some(15),
        PhysicalKey::KeyQ => Some(16),
        PhysicalKey::KeyR => Some(17),
        PhysicalKey::KeyS => Some(18),
        PhysicalKey::KeyT => Some(19),
        PhysicalKey::KeyU => Some(20),
        PhysicalKey::KeyV => Some(21),
        PhysicalKey::KeyW => Some(22),
        PhysicalKey::KeyX => Some(23),
        PhysicalKey::KeyY => Some(24),
        PhysicalKey::KeyZ => Some(25),
        _ => None,
    }
}

/// The first character of a text, if it has one.
pub fn first_char(text: &str) -> (r: Option<char>)
    ensures
        r == (if text@.len() > 0 { Some(text@[0]) } else { None::<char> }),
{
    broadcast use vstd::string::axiom_spec_iter, vstd::string::next_postcondition;
    let mut chars = text.chars();
    chars.next()
}

} // verus!
