use helide::event::{Key, KeyInput, Modifiers, NamedKey, PhysicalKey};
use helide::terminal::input::{control_code, encode_key};

fn mods(shift: bool, control: bool, alt: bool) -> Modifiers {
    Modifiers { shift, control, alt, super_key: false }
}

fn none() -> Modifiers {
    mods(false, false, false)
}

fn press(key: Key) -> KeyInput {
    KeyInput { pressed: true, logical_key: key, physical_key: PhysicalKey::Other }
}

fn named(k: NamedKey) -> KeyInput {
    press(Key::Named(k))
}

fn text(s: &str) -> KeyInput {
    press(Key::Character(s.to_string()))
}

#[test]
fn enter_sends_carriage_return() {
    assert_eq!(encode_key(&named(NamedKey::Enter), &none()), Some(b"\r".to_vec()));
}

#[test]
fn release_sends_nothing() {
    let mut e = named(NamedKey::Enter);
    e.pressed = false;
    assert_eq!(encode_key(&e, &none()), None);
}

#[test]
fn backspace_with_and_without_alt() {
    assert_eq!(encode_key(&named(NamedKey::Backspace), &none()), Some(vec![0x7f]));
    assert_eq!(encode_key(&named(NamedKey::Backspace), &mods(false, false, true)), Some(b"\x1b\x7f".to_vec()));
}

#[test]
fn tab_and_reverse_tab() {
    assert_eq!(encode_key(&named(NamedKey::Tab), &none()), Some(b"\t".to_vec()));
    assert_eq!(encode_key(&named(NamedKey::Tab), &mods(true, false, false)), Some(b"\x1b[Z".to_vec()));
}

#[test]
fn arrows_take_modifier_parameters_in_priority_order() {
    assert_eq!(encode_key(&named(NamedKey::ArrowUp), &none()), Some(b"\x1b[A".to_vec()));
    assert_eq!(encode_key(&named(NamedKey::ArrowDown), &mods(true, false, false)), Some(b"\x1b[1;2B".to_vec()));
    assert_eq!(encode_key(&named(NamedKey::ArrowRight), &mods(false, false, true)), Some(b"\x1b[1;3C".to_vec()));
    assert_eq!(encode_key(&named(NamedKey::ArrowLeft), &mods(true, true, true)), Some(b"\x1b[1;5D".to_vec()));
}

#[test]
fn home_end_and_paging_keys() {
    assert_eq!(encode_key(&named(NamedKey::Home), &none()), Some(b"\x1b[H".to_vec()));
    assert_eq!(encode_key(&named(NamedKey::Home), &mods(false, true, false)), Some(b"\x1b[1;5H".to_vec()));
    assert_eq!(encode_key(&named(NamedKey::End), &none()), Some(b"\x1b[F".to_vec()));
    assert_eq!(encode_key(&named(NamedKey::End), &mods(false, true, false)), Some(b"\x1b[1;5F".to_vec()));
    assert_eq!(encode_key(&named(NamedKey::PageUp), &none()), Some(b"\x1b[5~".to_vec()));
    assert_eq!(encode_key(&named(NamedKey::PageDown), &none()), Some(b"\x1b[6~".to_vec()));
    assert_eq!(encode_key(&named(NamedKey::Insert), &none()), Some(b"\x1b[2~".to_vec()));
}

#[test]
fn delete_prefers_alt_over_ctrl() {
    assert_eq!(encode_key(&named(NamedKey::Delete), &none()), Some(b"\x1b[3~".to_vec()));
    assert_eq!(encode_key(&named(NamedKey::Delete), &mods(false, true, false)), Some(b"\x1b[3;5~".to_vec()));
    assert_eq!(encode_key(&named(NamedKey::Delete), &mods(false, true, true)), Some(b"\x1b[3;3~".to_vec()));
}

#[test]
fn function_keys() {
    assert_eq!(encode_key(&named(NamedKey::F1), &none()), Some(b"\x1bOP".to_vec()));
    assert_eq!(encode_key(&named(NamedKey::F4), &none()), Some(b"\x1bOS".to_vec()));
    assert_eq!(encode_key(&named(NamedKey::F5), &none()), Some(b"\x1b[15~".to_vec()));
    assert_eq!(encode_key(&named(NamedKey::F10), &none()), Some(b"\x1b[21~".to_vec()));
    assert_eq!(encode_key(&named(NamedKey::F11), &none()), Some(b"\x1b[23~".to_vec()));
    assert_eq!(encode_key(&named(NamedKey::F12), &none()), Some(b"\x1b[24~".to_vec()));
}

#[test]
fn space_and_ctrl_space() {
    assert_eq!(encode_key(&named(NamedKey::Space), &none()), Some(b" ".to_vec()));
    assert_eq!(encode_key(&named(NamedKey::Space), &mods(false, true, false)), Some(vec![0x00]));
}

#[test]
fn escape_and_unencoded_named_keys() {
    assert_eq!(encode_key(&named(NamedKey::Escape), &none()), Some(vec![0x1b]));
    assert_eq!(encode_key(&named(NamedKey::CapsLock), &none()), None);
    assert_eq!(encode_key(&named(NamedKey::Other), &none()), None);
}

#[test]
fn ctrl_letters_send_control_codes() {
    assert_eq!(encode_key(&text("c"), &mods(false, true, false)), Some(vec![0x03]));
    assert_eq!(encode_key(&text("A"), &mods(false, true, false)), Some(vec![0x01]));
    assert_eq!(encode_key(&text("z"), &mods(false, true, false)), Some(vec![0x1a]));
}

#[test]
fn ctrl_punctuation_sends_c0_codes() {
    let ctrl = mods(false, true, false);
    assert_eq!(encode_key(&text("["), &ctrl), Some(vec![0x1b]));
    assert_eq!(encode_key(&text("3"), &ctrl), Some(vec![0x1b]));
    assert_eq!(encode_key(&text("\\"), &ctrl), Some(vec![0x1c]));
    assert_eq!(encode_key(&text("]"), &ctrl), Some(vec![0x1d]));
    assert_eq!(encode_key(&text("^"), &ctrl), Some(vec![0x1e]));
    assert_eq!(encode_key(&text("_"), &ctrl), Some(vec![0x1f]));
    assert_eq!(encode_key(&text("@"), &ctrl), Some(vec![0x00]));
    assert_eq!(encode_key(&text("2"), &ctrl), Some(vec![0x00]));
    assert_eq!(encode_key(&text("8"), &ctrl), Some(vec![0x7f]));
}

#[test]
fn ctrl_with_other_text_sends_the_text() {
    assert_eq!(encode_key(&text("9"), &mods(false, true, false)), Some(b"9".to_vec()));
    assert_eq!(encode_key(&text("é"), &mods(false, true, false)), Some("é".as_bytes().to_vec()));
}

#[test]
fn ctrl_with_empty_text_sends_nothing() {
    assert_eq!(encode_key(&text(""), &mods(false, true, false)), None);
    assert_eq!(encode_key(&text(""), &none()), None);
}

#[test]
fn ctrl_shift_letter_is_plain_text() {
    assert_eq!(encode_key(&text("C"), &mods(true, true, false)), Some(b"C".to_vec()));
}

#[test]
fn alt_prefixes_escape() {
    assert_eq!(encode_key(&text("x"), &mods(false, false, true)), Some(b"\x1bx".to_vec()));
    assert_eq!(encode_key(&text(""), &mods(false, false, true)), Some(vec![0x1b]));
    assert_eq!(encode_key(&text("ж"), &mods(false, false, true)), Some([&[0x1bu8][..], "ж".as_bytes()].concat()));
}

#[test]
fn ctrl_alt_text_is_plain_text() {
    assert_eq!(encode_key(&text("x"), &mods(false, true, true)), Some(b"x".to_vec()));
}

#[test]
fn plain_text_is_utf8() {
    assert_eq!(encode_key(&text("hé"), &none()), Some("hé".as_bytes().to_vec()));
}

#[test]
fn unidentified_key_uses_physical_letter_with_ctrl() {
    let mut e = press(Key::Unidentified);
    e.physical_key = PhysicalKey::KeyD;
    assert_eq!(encode_key(&e, &mods(false, true, false)), Some(vec![4]));
    assert_eq!(encode_key(&e, &none()), None);
    e.physical_key = PhysicalKey::KeyZ;
    assert_eq!(encode_key(&e, &mods(false, true, true)), Some(vec![26]));
    e.physical_key = PhysicalKey::Backquote;
    assert_eq!(encode_key(&e, &mods(false, true, false)), None);
}

#[test]
fn dead_keys_send_nothing() {
    assert_eq!(encode_key(&press(Key::Dead), &mods(false, true, false)), None);
}

#[test]
fn control_code_table() {
    assert_eq!(control_code('a'), Some(1));
    assert_eq!(control_code('Q'), Some(17));
    assert_eq!(control_code('7'), Some(0x1f));
    assert_eq!(control_code('!'), None);
}
