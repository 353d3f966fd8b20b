use helide::event::{Key, KeyInput, Modifiers, MouseButton as Button, NamedKey, PhysicalKey};
use helide::input::{
    convert_key_event, convert_mouse_button, convert_mouse_press, focus_event, is_toggle_terminal,
    named_key_code, pointer_modifiers, scroll_events, shift_kept, Event, KeyCode, KeyEvent, KeyModifiers,
    MouseButton, MouseEvent, MouseEventKind, ScrollSteps,
};

fn mods(shift: bool, control: bool, alt: bool, super_key: bool) -> Modifiers {
    Modifiers { shift, control, alt, super_key }
}

fn kmods(shift: bool, control: bool, alt: bool, super_key: bool) -> KeyModifiers {
    KeyModifiers { shift, control, alt, super_key }
}

fn press(key: Key) -> KeyInput {
    KeyInput { pressed: true, logical_key: key, physical_key: PhysicalKey::Other }
}

fn key(code: KeyCode, modifiers: KeyModifiers) -> Option<Event> {
    Some(Event::Key(KeyEvent { code, modifiers }))
}

#[test]
fn toggle_terminal_is_ctrl_backquote_press() {
    let mut e = press(Key::Character("`".to_string()));
    e.physical_key = PhysicalKey::Backquote;
    assert!(is_toggle_terminal(&e, &mods(false, true, false, false)));
    assert!(!is_toggle_terminal(&e, &mods(false, false, false, false)));
    e.pressed = false;
    assert!(!is_toggle_terminal(&e, &mods(false, true, false, false)));
    let mut other = press(Key::Character("`".to_string()));
    other.physical_key = PhysicalKey::KeyA;
    assert!(!is_toggle_terminal(&other, &mods(false, true, false, false)));
}

#[test]
fn named_keys_translate() {
    let e = press(Key::Named(NamedKey::ArrowLeft));
    assert_eq!(convert_key_event(&e, &mods(false, true, false, false)), key(KeyCode::Left, kmods(false, true, false, false)));
    assert_eq!(named_key_code(NamedKey::F7), Some(KeyCode::F(7)));
    assert_eq!(named_key_code(NamedKey::Escape), Some(KeyCode::Esc));
    assert_eq!(named_key_code(NamedKey::ContextMenu), Some(KeyCode::Menu));
    assert_eq!(named_key_code(NamedKey::Space), Some(KeyCode::Char(' ')));
    assert_eq!(named_key_code(NamedKey::Other), None);
}

#[test]
fn release_and_unnamed_keys_give_nothing() {
    let mut e = press(Key::Named(NamedKey::Enter));
    e.pressed = false;
    assert_eq!(convert_key_event(&e, &mods(false, false, false, false)), None);
    assert_eq!(convert_key_event(&press(Key::Named(NamedKey::Other)), &mods(false, false, false, false)), None);
    assert_eq!(convert_key_event(&press(Key::Dead), &mods(false, false, false, false)), None);
    assert_eq!(convert_key_event(&press(Key::Unidentified), &mods(false, false, false, false)), None);
    assert_eq!(convert_key_event(&press(Key::Character(String::new())), &mods(false, false, false, false)), None);
}

#[test]
fn shift_is_dropped_from_uppercase_letters() {
    let e = press(Key::Character("A".to_string()));
    assert_eq!(convert_key_event(&e, &mods(true, false, false, false)), key(KeyCode::Char('A'), kmods(false, false, false, false)));
    let e = press(Key::Character("Ж".to_string()));
    assert_eq!(convert_key_event(&e, &mods(true, true, false, false)), key(KeyCode::Char('Ж'), kmods(false, true, false, false)));
}

#[test]
fn shift_is_kept_for_lowercase_and_non_letters() {
    let e = press(Key::Character("a".to_string()));
    assert_eq!(convert_key_event(&e, &mods(true, false, false, false)), key(KeyCode::Char('a'), kmods(true, false, false, false)));
    let e = press(Key::Character("!".to_string()));
    assert_eq!(convert_key_event(&e, &mods(true, false, true, true)), key(KeyCode::Char('!'), kmods(true, false, true, true)));
}

#[test]
fn only_the_first_character_is_kept() {
    let e = press(Key::Character("xy".to_string()));
    assert_eq!(convert_key_event(&e, &mods(false, false, false, false)), key(KeyCode::Char('x'), kmods(false, false, false, false)));
}

#[test]
fn mouse_buttons() {
    assert_eq!(convert_mouse_button(Button::Left), Some(MouseButton::Left));
    assert_eq!(convert_mouse_button(Button::Right), Some(MouseButton::Right));
    assert_eq!(convert_mouse_button(Button::Middle), Some(MouseButton::Middle));
    assert_eq!(convert_mouse_button(Button::Back), None);
    assert_eq!(convert_mouse_button(Button::Other(7)), None);
}

#[test]
fn mouse_press_and_release() {
    let m = mods(true, true, true, true);
    assert_eq!(
        convert_mouse_press(true, Button::Right, 3, 4, &m),
        Some(Event::Mouse(MouseEvent { kind: MouseEventKind::Down(MouseButton::Right), column: 3, row: 4, modifiers: kmods(true, true, true, false) }))
    );
    assert_eq!(
        convert_mouse_press(false, Button::Left, 0, 9, &mods(false, false, false, false)),
        Some(Event::Mouse(MouseEvent { kind: MouseEventKind::Up(MouseButton::Left), column: 0, row: 9, modifiers: kmods(false, false, false, false) }))
    );
    assert_eq!(convert_mouse_press(true, Button::Forward, 1, 1, &m), None);
}

#[test]
fn pointer_modifiers_never_carry_super() {
    assert_eq!(pointer_modifiers(&mods(false, true, false, true)), kmods(false, true, false, false));
}

#[test]
fn scroll_events_vertical_then_horizontal() {
    let m = mods(false, false, true, false);
    let ev = |kind| Event::Mouse(MouseEvent { kind, column: 2, row: 5, modifiers: kmods(false, false, true, false) });
    let events = scroll_events(ScrollSteps::Positive(2), ScrollSteps::Negative(1), 2, 5, &m);
    assert_eq!(events, vec![ev(MouseEventKind::ScrollUp), ev(MouseEventKind::ScrollUp), ev(MouseEventKind::ScrollLeft)]);
    let events = scroll_events(ScrollSteps::Negative(1), ScrollSteps::Positive(2), 2, 5, &m);
    assert_eq!(events, vec![ev(MouseEventKind::ScrollDown), ev(MouseEventKind::ScrollRight), ev(MouseEventKind::ScrollRight)]);
    assert!(scroll_events(ScrollSteps::Still, ScrollSteps::Positive(0), 2, 5, &m).is_empty());
}

#[test]
fn focus_events() {
    assert_eq!(focus_event(true), Event::FocusGained);
    assert_eq!(focus_event(false), Event::FocusLost);
}

#[test]
fn shift_is_dropped_only_from_upper_case_letters() {
    assert!(!shift_kept(KeyCode::Char('A'), true, true, false));
    assert!(shift_kept(KeyCode::Char('a'), true, true, true));
    assert!(shift_kept(KeyCode::Char('!'), true, false, false));
    assert!(shift_kept(KeyCode::Enter, true, true, false));
    assert!(!shift_kept(KeyCode::Char('a'), false, true, true));
    assert!(!shift_kept(KeyCode::Tab, false, false, false));
}
