//! Encoding of keyboard input as the byte sequences a terminal program reads.
use vstd::prelude::*;
use vstd::utf8::encode_utf8;
use crate::event::{first_char, letter_index, spec_letter_index, Key, KeyInput, Modifiers, NamedKey, PhysicalKey};

verus! {

/// The bytes a named key sends, given which of Ctrl, Alt and Shift are held.
pub open spec fn spec_named_key_bytes(key: NamedKey, ctrl: bool, alt: bool, shift: bool) -> Option<
    Seq<u8>,
> {
    // Arrow keys: CSI 1;5 with Ctrl, CSI 1;3 with Alt, CSI 1;2 with Shift.
    let arrow = |c: u8|
        if ctrl {
            seq![0x1bu8, 0x5b, 0x31, 0x3b, 0x35, c]
        } else if alt {
            seq![0x1bu8, 0x5b, 0x31, 0x3b, 0x33, c]
        } else if shift {
            seq![0x1bu8, 0x5b, 0x31, 0x3b, 0x32, c]
        } else {
            seq![0x1bu8, 0x5b, c]
        };
    match key {
        NamedKey::Enter => Some(seq![0x0du8]),
        NamedKey::Backspace => Some(if alt { seq![0x1bu8, 0x7f] } else { seq![0x7fu8] }),
        NamedKey::Tab => Some(if shift { seq![0x1bu8, 0x5b, 0x5a] } else { seq![0x09u8] }),
        NamedKey::Escape => Some(seq![0x1bu8]),
        NamedKey::ArrowUp => Some(arrow(0x41)),
        NamedKey::ArrowDown => Some(arrow(0x42)),
        NamedKey::ArrowRight => Some(arrow(0x43)),
        NamedKey::ArrowLeft => Some(arrow(0x44)),
        NamedKey::Home => Some(
            if ctrl { seq![0x1bu8, 0x5b, 0x31, 0x3b, 0x35, 0x48] } else { seq![0x1bu8, 0x5b, 0x48] },
        ),
        NamedKey::End => Some(
            if ctrl { seq![0x1bu8, 0x5b, 0x31, 0x3b, 0x35, 0x46] } else { seq![0x1bu8, 0x5b, 0x46] },
        ),
        NamedKey::PageUp => Some(seq![0x1bu8, 0x5b, 0x35, 0x7e]),
        NamedKey::PageDown => Some(seq![0x1bu8, 0x5b, 0x36, 0x7e]),
        NamedKey::Insert => Some(seq![0x1bu8, 0x5b, 0x32, 0x7e]),
        NamedKey::Delete => Some(
            if alt {
                seq![0x1bu8, 0x5b, 0x33, 0x3b, 0x33, 0x7e]
            } else if ctrl {
                seq![0x1bu8, 0x5b, 0x33, 0x3b, 0x35, 0x7e]
            } else {
                seq![0x1bu8, 0x5b, 0x33, 0x7e]
            },
        ),
        NamedKey::F1 => Some(seq![0x1bu8, 0x4f, 0x50]),
        NamedKey::F2 => Some(seq![0x1bu8, 0x4f, 0x51]),
        NamedKey::F3 => Some(seq![0x1bu8, 0x4f, 0x52]),
        NamedKey::F4 => Some(seq![0x1bu8, 0x4f, 0x53]),
        NamedKey::F5 => Some(seq![0x1bu8, 0x5b, 0x31, 0x35, 0x7e]),
        NamedKey::F6 => Some(seq![0x1bu8, 0x5b, 0x31, 0x37, 0x7e]),
        NamedKey::F7 => Some(seq![0x1bu8, 0x5b, 0x31, 0x38, 0x7e]),
        NamedKey::F8 => Some(seq![0x1bu8, 0x5b, 0x31, 0x39, 0x7e]),
        NamedKey::F9 => Some(seq![0x1bu8, 0x5b, 0x32, 0x30, 0x7e]),
        NamedKey::F10 => Some(seq![0x1bu8, 0x5b, 0x32, 0x31, 0x7e]),
        NamedKey::F11 => Some(seq![0x1bu8, 0x5b, 0x32, 0x33, 0x7e]),
        NamedKey::F12 => Some(seq![0x1bu8, 0x5b, 0x32, 0x34, 0x7e]),
        NamedKey::Space => Some(if ctrl { seq![0x00u8] } else { seq![0x20u8] }),
        _ => None,
    }
}

/// The control code that Ctrl plus a character sends, if it has one: Ctrl
/// with an ASCII letter sends the letter's place in the alphabet (1 to 26),
/// and a few punctuation and digit keys send the other C0 codes.
pub open spec fn spec_control_code(c: char) -> Option<u8> {
    if 'a' <= c <= 'z' {
        Some((c as int - 'a' as int + 1) as u8)
    } else if 'A' <= c <= 'Z' {
        Some((c as int - 'A' as int + 1) as u8)
    } else if c == '[' || c == '3' {
        Some(0x1bu8)
    } else if c == '\\' || c == '4' {
        Some(0x1cu8)
    } else if c == ']' || c == '5' {
        Some(0x1du8)
    } else if c == '^' || c == '6' {
        Some(0x1eu8)
    } else if c == '_' || c == '7' {
        Some(0x1fu8)
    } else if c == '2' || c == '@' {
        Some(0x00u8)
    } else if c == '8' {
        Some(0x7fu8)
    } else {
        None
    }
}

/// The bytes that typed text sends: Ctrl alone turns the first character
/// into a control code where it has one (and sends nothing for empty text);
/// Alt without Ctrl prefixes the text with ESC; otherwise the text itself,
/// UTF-8 encoded, unless it is empty.
pub open spec fn spec_text_bytes(text: Seq<char>, ctrl: bool, alt: bool, shift: bool) -> Option<
    Seq<u8>,
> {
    let ctrl_only = ctrl && !alt && !shift;
    if ctrl_only && text.len() == 0 {
        None
    } else if ctrl_only && spec_control_code(text[0]) is Some {
        Some(seq![spec_control_code(text[0])->0])
    } else if alt && !ctrl {
        Some(seq![0x1bu8] + encode_utf8(text))
    } else if text.len() > 0 {
        Some(encode_utf8(text))
    } else {
        None
    }
}

/// The bytes a key press sends to the terminal, or `None` when it sends
/// nothing: key releases, dead keys, and keys that have no encoding.
/// A key the layout cannot identify sends, with Ctrl held, the control code
/// of the letter at its position.
pub open spec fn spec_encode_key(event: KeyInput, mods: Modifiers) -> Option<Seq<u8>> {
    if !event.pressed {
        None
    } else {
        match event.logical_key {
            Key::Named(named) => spec_named_key_bytes(named, mods.control, mods.alt, mods.shift),
            Key::Character(text) => spec_text_bytes(text@, mods.control, mods.alt, mods.shift),
            Key::Unidentified => if mods.control && spec_letter_index(event.physical_key) is Some {
                Some(seq![(spec_letter_index(event.physical_key)->0 + 1) as u8])
            } else {
                None
            },
            Key::Dead => None,
        }
    }
}

/// Arrow key sequence with the modifier parameter Ctrl (5), Alt (3) or Shift (2).
fn arrow_bytes(c: u8, ctrl: bool, alt: bool, shift: bool) -> (r: Vec<u8>)
    ensures
        r@ == (if ctrl {
            seq![0x1bu8, 0x5b, 0x31, 0x3b, 0x35, c]
        } else if alt {
            seq![0x1bu8, 0x5b, 0x31, 0x3b, 0x33, c]
        } else if shift {
            seq![0x1bu8, 0x5b, 0x31, 0x3b, 0x32, c]
        } else {
            seq![0x1bu8, 0x5b, c]
        }),
{
    if ctrl {
        vec![0x1b, 0x5b, 0x31, 0x3b, 0x35, c]
    } else if alt {
        vec![0x1b, 0x5b, 0x31, 0x3b, 0x33, c]
    } else if shift {
        vec![0x1b, 0x5b, 0x31, 0x3b, 0x32, c]
    } else {
        vec![0x1b, 0x5b, c]
    }
}

/// The bytes a named key sends.
pub fn named_key_bytes(key: NamedKey, ctrl: bool, alt: bool, shift: bool) -> (r: Option<Vec<u8>>)
    ensures
        r matches Some(v) ==> spec_named_key_bytes(key, ctrl, alt, shift) == Some(v@),
        r is None ==> spec_named_key_bytes(key, ctrl, alt, shift) is None,
{
    match key {
        NamedKey::Enter => Some(vec![0x0d]),
        NamedKey::Backspace => {
            if alt {
                Some(vec![0x1b, 0x7f])
            } else {
                Some(vec![0x7f])
            }
        },
        NamedKey::Tab => {
            if shift {
                Some(vec![0x1b, 0x5b, 0x5a])
            } else {
                Some(vec![0x09])
            }
        },
        NamedKey::Escape => Some(vec![0x1b]),
        NamedKey::ArrowUp => Some(arrow_bytes(0x41, ctrl, alt, shift)),
        NamedKey::ArrowDown => Some(arrow_bytes(0x42, ctrl, alt, shift)),
        NamedKey::ArrowRight => Some(arrow_bytes(0x43, ctrl, alt, shift)),
        NamedKey::ArrowLeft => Some(arrow_bytes(0x44, ctrl, alt, shift)),
        NamedKey::Home => {
            if ctrl {
                Some(vec![0x1b, 0x5b, 0x31, 0x3b, 0x35, 0x48])
            } else {
                Some(vec![0x1b, 0x5b, 0x48])
            }
        },
        NamedKey::End => {
            if ctrl {
                Some(vec![0x1b, 0x5b, 0x31, 0x3b, 0x35, 0x46])
            } else {
                Some(vec![0x1b, 0x5b, 0x46])
            }
        },
        NamedKey::PageUp => Some(vec![0x1b, 0x5b, 0x35, 0x7e]),
        NamedKey::PageDown => Some(vec![0x1b, 0x5b, 0x36, 0x7e]),
        NamedKey::Insert => Some(vec![0x1b, 0x5b, 0x32, 0x7e]),
        NamedKey::Delete => {
            if alt {
                Some(vec![0x1b, 0x5b, 0x33, 0x3b, 0x33, 0x7e])
            } else if ctrl {
                Some(vec![0x1b, 0x5b, 0x33, 0x3b, 0x35, 0x7e])
            } else {
                Some(vec![0x1b, 0x5b, 0x33, 0x7e])
            }
        },
        NamedKey::F1 => Some(vec![0x1b, 0x4f, 0x50]),
        NamedKey::F2 => Some(vec![0x1b, 0x4f, 0x51]),
        NamedKey::F3 => Some(vec![0x1b, 0x4f, 0x52]),
        NamedKey::F4 => Some(vec![0x1b, 0x4f, 0x53]),
        NamedKey::F5 => Some(vec![0x1b, 0x5b, 0x31, 0x35, 0x7e]),
        NamedKey::F6 => Some(vec![0x1b, 0x5b, 0x31, 0x37, 0x7e]),
        NamedKey::F7 => Some(vec![0x1b, 0x5b, 0x31, 0x38, 0x7e]),
        NamedKey::F8 => Some(vec![0x1b, 0x5b, 0x31, 0x39, 0x7e]),
        NamedKey::F9 => Some(vec![0x1b, 0x5b, 0x32, 0x30, 0x7e]),
        NamedKey::F10 => Some(vec![0x1b, 0x5b, 0x32, 0x31, 0x7e]),
        NamedKey::F11 => Some(vec![0x1b, 0x5b, 0x32, 0x33, 0x7e]),
        NamedKey::F12 => Some(vec![0x1b, 0x5b, 0x32, 0x34, 0x7e]),
        NamedKey::Space => {
            if ctrl {
                // Ctrl+Space sends NUL
                Some(vec![0x00])
            } else {
                Some(vec![0x20])
            }
        },
        _ => None,
    }
}

/// The control code of Ctrl plus a character, if it has one.
pub fn control_code(c: char) -> (r: Option<u8>)
    ensures
        r == spec_control_code(c),
{
    if 'a' <= c && c <= 'z' {
        Some((c as u32 - 'a' as u32 + 1) as u8)
    } else if 'A' <= c && c <= 'Z' {
        Some((c as u32 - 'A' as u32 + 1) as u8)
    } else if c == '[' || c == '3' {
        Some(0x1b)
    } else if c == '\\' || c == '4' {
        Some(0x1c)
    } else if c == ']' || c == '5' {
        Some(0x1d)
    } else if c == '^' || c == '6' {
        Some(0x1e)
    } else if c == '_' || c == '7' {
        Some(0x1f)
    } else if c == '2' || c == '@' {
        Some(0x00)
    } else if c == '8' {
        Some(0x7f)
    } else {
        None
    }
}

/// The bytes that typed text sends.
pub fn text_bytes(text: &str, ctrl: bool, alt: bool, shift: bool) -> (r: Option<Vec<u8>>)
    ensures
        r matches Some(v) ==> spec_text_bytes(text@, ctrl, alt, shift) == Some(v@),
        r is None ==> spec_text_bytes(text@, ctrl, alt, shift) is None,
{
    // Ctrl+letter → control code (0x01-0x1a)
    if ctrl && !alt && !shift {
        let ch = match first_char(text) {
            Some(ch) => ch,
            None => return None,
        };
        if let Some(code) = control_code(ch) {
            return Some(vec![code]);
        }
    }
    // Alt+key → ESC prefix
    if alt && !ctrl {
        let mut bytes: Vec<u8> = vec![0x1b];
        bytes.extend_from_slice(text.as_bytes());
        return Some(bytes);
    }
    // Plain text input
    if !text.is_empty() {
        return Some(vstd::slice::slice_to_vec(text.as_bytes()));
    }
    None
}

/// Encode a key event as terminal escape sequence bytes.
pub fn encode_key(key_event: &KeyInput, modifiers: &Modifiers) -> (r: Option<Vec<u8>>)
    ensures
        r matches Some(v) ==> spec_encode_key(*key_event, *modifiers) == Some(v@),
        r is None ==> spec_encode_key(*key_event, *modifiers) is None,
{
    // Only handle key press events
    if !key_event.pressed {
        return None;
    }
    let ctrl = modifiers.control;
    let alt = modifiers.alt;
    let shift = modifiers.shift;
    match &key_event.logical_key {
        Key::Named(named) => named_key_bytes(*named, ctrl, alt, shift),
        Key::Character(text) => text_bytes(text.as_str(), ctrl, alt, shift),
        Key::Unidentified => {
            // Try physical key for Ctrl combinations
            if ctrl {
                if let Some(i) = letter_index(key_event.physical_key) {
                    return Some(vec![i + 1]);
                }
            }
            None
        },
        Key::Dead => None,
    }
}

/// Ctrl with a letter sends the letter's place in the alphabet, a C0
/// control code from 1 to 26, whichever its case.
pub proof fn lemma_ctrl_letters_are_c0_codes(c: char)
    requires
        'a' <= c <= 'z',
    ensures
        ({
            let upper = ((c as u32) - 32) as char;
            &&& spec_control_code(c) == spec_control_code(upper)
            &&& spec_control_code(c) matches Some(code) && 1 <= code <= 26
            &&& spec_text_bytes(seq![c], true, false, false) == Some(seq![spec_control_code(c)->0])
        }),
{
}

/// Alt without Ctrl sends what the text alone sends, preceded by ESC.
pub proof fn lemma_alt_prefixes_escape(text: Seq<char>, shift: bool)
    requires
        text.len() > 0,
    ensures
        spec_text_bytes(text, false, true, shift) == Some(
            seq![0x1bu8] + spec_text_bytes(text, false, false, shift)->0,
        ),
{
}

/// A released key sends nothing, whatever it is and whatever is held.
pub proof fn lemma_release_sends_nothing(event: KeyInput, mods: Modifiers)
    requires
        !event.pressed,
    ensures
        spec_encode_key(event, mods) is None,
{
}

/// The number of a function key: 1 for F1 up to 12 for F12.
pub open spec fn function_key_number(key: NamedKey) -> Option<int> {
    match key {
        NamedKey::F1 => Some(1int),
        NamedKey::F2 => Some(2int),
        NamedKey::F3 => Some(3int),
        NamedKey::F4 => Some(4int),
        NamedKey::F5 => Some(5int),
        NamedKey::F6 => Some(6int),
        NamedKey::F7 => Some(7int),
        NamedKey::F8 => Some(8int),
        NamedKey::F9 => Some(9int),
        NamedKey::F10 => Some(10int),
        NamedKey::F11 => Some(11int),
        NamedKey::F12 => Some(12int),
        _ => None,
    }
}

/// xterm's sequence for function key `n`: F1 to F4 are SS3 `P` to `S`; F5
/// on are CSI `n ~` with the codes 15 and 17 to 21 and 23 to 24 (16 and 22
/// are skipped), written in two decimal digits.
pub open spec fn xterm_function_key(n: int) -> Seq<u8> {
    if n <= 4 {
        seq![0x1bu8, 0x4f, (0x4f + n) as u8]
    } else {
        let code = 10 + n + (if n >= 6 { 1int } else { 0 }) + (if n >= 11 { 1int } else { 0 });
        seq![0x1bu8, 0x5b, (0x30 + code / 10) as u8, (0x30 + code % 10) as u8, 0x7e]
    }
}

/// Each function key sends its xterm sequence, whatever modifiers are held:
/// F1 to F4 ESC O P to ESC O S, F5 ESC [15~, F6 ESC [17~, F7 ESC [18~,
/// F8 ESC [19~, F9 ESC [20~, F10 ESC [21~, F11 ESC [23~, F12 ESC [24~.
pub proof fn lemma_function_keys_send_xterm_sequences(key: NamedKey, mods: Modifiers, physical: PhysicalKey)
    requires
        function_key_number(key) is Some,
    ensures
        spec_encode_key(KeyInput { pressed: true, logical_key: Key::Named(key), physical_key: physical }, mods)
            == Some(xterm_function_key(function_key_number(key)->0)),
{
    let n = function_key_number(key)->0;
    assert(xterm_function_key(n) =~= spec_named_key_bytes(key, mods.control, mods.alt, mods.shift)->0);
}

/// The xterm sequences of the other named keys. The cursor keys send
/// CSI A (up), B (down), C (right) or D (left), or with a modifier CSI 1;m
/// and the letter, where m is 5 for Ctrl, else 3 for Alt, else 2 for Shift;
/// Home and End CSI H and CSI F (CSI 1;5 H and F with Ctrl); Page Up and
/// Page Down CSI 5~ and CSI 6~; Insert CSI 2~; Delete CSI 3~ (CSI 3;3~ with
/// Alt, else CSI 3;5~ with Ctrl); Enter CR; Escape ESC; Tab HT, or CSI Z
/// with Shift; Backspace DEL, ESC DEL with Alt; Space a space, NUL with
/// Ctrl. The remaining keys send nothing.
pub proof fn lemma_named_keys_send_xterm_sequences(key: NamedKey, ctrl: bool, alt: bool, shift: bool)
    ensures
        ({
            let r = spec_named_key_bytes(key, ctrl, alt, shift);
            let m: u8 = if ctrl { 0x35 } else if alt { 0x33 } else { 0x32 };
            let cursor = |c: u8| if ctrl || alt || shift {
                seq![0x1bu8, 0x5b, 0x31, 0x3b, m, c]
            } else {
                seq![0x1bu8, 0x5b, c]
            };
            &&& key == NamedKey::ArrowUp ==> r == Some(cursor(0x41))
            &&& key == NamedKey::ArrowDown ==> r == Some(cursor(0x42))
            &&& key == NamedKey::ArrowRight ==> r == Some(cursor(0x43))
            &&& key == NamedKey::ArrowLeft ==> r == Some(cursor(0x44))
            &&& key == NamedKey::Home ==> r == Some(
                if ctrl { seq![0x1bu8, 0x5b, 0x31, 0x3b, 0x35, 0x48] } else { seq![0x1bu8, 0x5b, 0x48] },
            )
            &&& key == NamedKey::End ==> r == Some(
                if ctrl { seq![0x1bu8, 0x5b, 0x31, 0x3b, 0x35, 0x46] } else { seq![0x1bu8, 0x5b, 0x46] },
            )
            &&& key == NamedKey::PageUp ==> r == Some(seq![0x1bu8, 0x5b, 0x35, 0x7e])
            &&& key == NamedKey::PageDown ==> r == Some(seq![0x1bu8, 0x5b, 0x36, 0x7e])
            &&& key == NamedKey::Insert ==> r == Some(seq![0x1bu8, 0x5b, 0x32, 0x7e])
            &&& key == NamedKey::Delete ==> r == Some(
                if alt {
                    seq![0x1bu8, 0x5b, 0x33, 0x3b, 0x33, 0x7e]
                } else if ctrl {
                    seq![0x1bu8, 0x5b, 0x33, 0x3b, 0x35, 0x7e]
                } else {
                    seq![0x1bu8, 0x5b, 0x33, 0x7e]
                },
            )
            &&& key == NamedKey::Enter ==> r == Some(seq![0x0du8])
            &&& key == NamedKey::Escape ==> r == Some(seq![0x1bu8])
            &&& key == NamedKey::Tab ==> r == Some(if shift { seq![0x1bu8, 0x5b, 0x5a] } else { seq![0x09u8] })
            &&& key == NamedKey::Backspace ==> r == Some(if alt { seq![0x1bu8, 0x7f] } else { seq![0x7fu8] })
            &&& key == NamedKey::Space ==> r == Some(if ctrl { seq![0x00u8] } else { seq![0x20u8] })
            &&& (key == NamedKey::CapsLock || key == NamedKey::ScrollLock || key == NamedKey::NumLock
                || key == NamedKey::PrintScreen || key == NamedKey::Pause || key == NamedKey::ContextMenu
                || key == NamedKey::Other) ==> r is None
        }),
{
}

/// Ctrl with an ASCII letter sends the letter's place in the alphabet, 1 for
/// a or A up to 26 for z or Z.
pub proof fn lemma_ctrl_letter_codes(c: char)
    requires
        'a' <= c <= 'z' || 'A' <= c <= 'Z',
    ensures
        spec_text_bytes(seq![c], true, false, false) == Some(
            seq![(if c <= 'Z' { c as int - 0x40 } else { c as int - 0x60 }) as u8],
        ),
{
}

/// Text typed with no modifier, or with only Shift, is sent as its UTF-8
/// encoding; with Alt alone as ESC and that encoding.
pub proof fn lemma_plain_text_is_sent_as_utf8(text: Seq<char>, shift: bool)
    requires
        text.len() > 0,
    ensures
        spec_text_bytes(text, false, false, shift) == Some(encode_utf8(text)),
        spec_text_bytes(text, false, true, shift) == Some(seq![0x1bu8] + encode_utf8(text)),
{
}

/// A key the layout cannot identify, pressed with Ctrl alone, sends what
/// Ctrl with the letter at its position sends: A's position sends Ctrl+a's
/// code, and so on to Z.
pub proof fn lemma_unidentified_letters_send_their_control_codes()
    ensures
        ({
            let ctrl_only = Modifiers { shift: false, control: true, alt: false, super_key: false };
            &&& spec_encode_key(KeyInput { pressed: true, logical_key: Key::Unidentified, physical_key: PhysicalKey::Other }, ctrl_only) is None
            &&& spec_encode_key(KeyInput { pressed: true, logical_key: Key::Unidentified, physical_key: PhysicalKey::Backquote }, ctrl_only) is None
        }),
        spec_encode_key(
            KeyInput { pressed: true, logical_key: Key::Unidentified, physical_key: PhysicalKey::KeyA },
            Modifiers { shift: false, control: true, alt: false, super_key: false },
        ) == spec_text_bytes(seq!['a'], true, false, false),
        spec_encode_key(
            KeyInput { pressed: true, logical_key: Key::Unidentified, physical_key: PhysicalKey::KeyB },
            Modifiers { shift: false, control: true, alt: false, super_key: false },
        ) == spec_text_bytes(seq!['b'], true, false, false),
        spec_encode_key(
            KeyInput { pressed: true, logical_key: Key::Unidentified, physical_key: PhysicalKey::KeyC },
            Modifiers { shift: false, control: true, alt: false, super_key: false },
        ) == spec_text_bytes(seq!['c'], true, false, false),
        spec_encode_key(
            KeyInput { pressed: true, logical_key: Key::Unidentified, physical_key: PhysicalKey::KeyD },
            Modifiers { shift: false, control: true, alt: false, super_key: false },
        ) == spec_text_bytes(seq!['d'], true, false, false),
        spec_encode_key(
            KeyInput { pressed: true, logical_key: Key::Unidentified, physical_key: PhysicalKey::KeyE },
            Modifiers { shift: false, control: true, alt: false, super_key: false },
        ) == spec_text_bytes(seq!['e'], true, false, false),
        spec_encode_key(
            KeyInput { pressed: true, logical_key: Key::Unidentified, physical_key: PhysicalKey::KeyF },
            Modifiers { shift: false, control: true, alt: false, super_key: false },
        ) == spec_text_bytes(seq!['f'], true, false, false),
        spec_encode_key(
            KeyInput { pressed: true, logical_key: Key::Unidentified, physical_key: PhysicalKey::KeyG },
            Modifiers { shift: false, control: true, alt: false, super_key: false },
        ) == spec_text_bytes(seq!['g'], true, false, false),
        spec_encode_key(
            KeyInput { pressed: true, logical_key: Key::Unidentified, physical_key: PhysicalKey::KeyH },
            Modifiers { shift: false, control: true, alt: false, super_key: false },
        ) == spec_text_bytes(seq!['h'], true, false, false),
        spec_encode_key(
            KeyInput { pressed: true, logical_key: Key::Unidentified, physical_key: PhysicalKey::KeyI },
            Modifiers { shift: false, control: true, alt: false, super_key: false },
        ) == spec_text_bytes(seq!['i'], true, false, false),
        spec_encode_key(
            KeyInput { pressed: true, logical_key: Key::Unidentified, physical_key: PhysicalKey::KeyJ },
            Modifiers { shift: false, control: true, alt: false, super_key: false },
        ) == spec_text_bytes(seq!['j'], true, false, false),
        spec_encode_key(
            KeyInput { pressed: true, logical_key: Key::Unidentified, physical_key: PhysicalKey::KeyK },
            Modifiers { shift: false, control: true, alt: false, super_key: false },
        ) == spec_text_bytes(seq!['k'], true, false, false),
        spec_encode_key(
            KeyInput { pressed: true, logical_key: Key::Unidentified, physical_key: PhysicalKey::KeyL },
            Modifiers { shift: false, control: true, alt: false, super_key: false },
        ) == spec_text_bytes(seq!['l'], true, false, false),
        spec_encode_key(
            KeyInput { pressed: true, logical_key: Key::Unidentified, physical_key: PhysicalKey::KeyM },
            Modifiers { shift: false, control: true, alt: false, super_key: false },
        ) == spec_text_bytes(seq!['m'], true, false, false),
        spec_encode_key(
            KeyInput { pressed: true, logical_key: Key::Unidentified, physical_key: PhysicalKey::KeyN },
            Modifiers { shift: false, control: true, alt: false, super_key: false },
        ) == spec_text_bytes(seq!['n'], true, false, false),
        spec_encode_key(
            KeyInput { pressed: true, logical_key: Key::Unidentified, physical_key: PhysicalKey::KeyO },
            Modifiers { shift: false, control: true, alt: false, super_key: false },
        ) == spec_text_bytes(seq!['o'], true, false, false),
        spec_encode_key(
            KeyInput { pressed: true, logical_key: Key::Unidentified, physical_key: PhysicalKey::KeyP },
            Modifiers { shift: false, control: true, alt: false, super_key: false },
        ) == spec_text_bytes(seq!['p'], true, false, false),
        spec_encode_key(
            KeyInput { pressed: true, logical_key: Key::Unidentified, physical_key: PhysicalKey::KeyQ },
            Modifiers { shift: false, control: true, alt: false, super_key: false },
        ) == spec_text_bytes(seq!['q'], true, false, false),
        spec_encode_key(
            KeyInput { pressed: true, logical_key: Key::Unidentified, physical_key: PhysicalKey::KeyR },
            Modifiers { shift: false, control: true, alt: false, super_key: false },
        ) == spec_text_bytes(seq!['r'], true, false, false),
        spec_encode_key(
            KeyInput { pressed: true, logical_key: Key::Unidentified, physical_key: PhysicalKey::KeyS },
            Modifiers { shift: false, control: true, alt: false, super_key: false },
        ) == spec_text_bytes(seq!['s'], true, false, false),
        spec_encode_key(
            KeyInput { pressed: true, logical_key: Key::Unidentified, physical_key: PhysicalKey::KeyT },
            Modifiers { shift: false, control: true, alt: false, super_key: false },
        ) == spec_text_bytes(seq!['t'], true, false, false),
        spec_encode_key(
            KeyInput { pressed: true, logical_key: Key::Unidentified, physical_key: PhysicalKey::KeyU },
            Modifiers { shift: false, control: true, alt: false, super_key: false },
        ) == spec_text_bytes(seq!['u'], true, false, false),
        spec_encode_key(
            KeyInput { pressed: true, logical_key: Key::Unidentified, physical_key: PhysicalKey::KeyV },
            Modifiers { shift: false, control: true, alt: false, super_key: false },
        ) == spec_text_bytes(seq!['v'], true, false, false),
        spec_encode_key(
            KeyInput { pressed: true, logical_key: Key::Unidentified, physical_key: PhysicalKey::KeyW },
            Modifiers { shift: false, control: true, alt: false, super_key: false },
        ) == spec_text_bytes(seq!['w'], true, false, false),
        spec_encode_key(
            KeyInput { pressed: true, logical_key: Key::Unidentified, physical_key: PhysicalKey::KeyX },
            Modifiers { shift: false, control: true, alt: false, super_key: false },
        ) == spec_text_bytes(seq!['x'], true, false, false),
        spec_encode_key(
            KeyInput { pressed: true, logical_key: Key::Unidentified, physical_key: PhysicalKey::KeyY },
            Modifiers { shift: false, control: true, alt: false, super_key: false },
        ) == spec_text_bytes(seq!['y'], true, false, false),
        spec_encode_key(
            KeyInput { pressed: true, logical_key: Key::Unidentified, physical_key: PhysicalKey::KeyZ },
            Modifiers { shift: false, control: true, alt: false, super_key: false },
        ) == spec_text_bytes(seq!['z'], true, false, false),
{
}

/// Ctrl with a character of the row `@` to `_` (capital letters and
/// `@ [ \ ] ^ _`) sends that character less 0x40, and with a small letter
/// the letter less 0x60: the C0 code of the same row. The digits stand in
/// for the punctuation: Ctrl+2 sends NUL, Ctrl+3 to Ctrl+7 ESC to 0x1f, and
/// Ctrl+8 DEL.
pub proof fn lemma_control_codes_are_c0_rows(c: char)
    ensures
        0x40 <= (c as int) <= 0x5f ==> spec_control_code(c) == Some((c as int - 0x40) as u8),
        0x61 <= (c as int) <= 0x7a ==> spec_control_code(c) == Some((c as int - 0x60) as u8),
        '3' <= c <= '7' ==> spec_control_code(c) == Some((c as int - 0x18) as u8),
        c == '2' ==> spec_control_code(c) == Some(0u8),
        c == '8' ==> spec_control_code(c) == Some(0x7fu8),
{
}

} // verus!
