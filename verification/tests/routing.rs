use helide::app::{
    accepts_dropped_file, event_outcome, looks_like_text, redraw_needed, route_key, route_mouse_button,
    EventOutcome, Focus, KeyAction, MouseRoute, MAX_DROPPED_FILE_SIZE,
};
use helide::event::{Key, KeyInput, Modifiers, PhysicalKey};
use helide::events::{send_event, UserEvent};
use helide::input::{Event, KeyCode, KeyEvent, KeyModifiers};
use helide::layout::RegionKind;

fn ctrl() -> Modifiers {
    Modifiers { shift: false, control: true, alt: false, super_key: false }
}

#[test]
fn ctrl_backquote_toggles_from_any_pane() {
    let e = KeyInput { pressed: true, logical_key: Key::Character("`".to_string()), physical_key: PhysicalKey::Backquote };
    assert_eq!(route_key(&e, &ctrl(), Focus::Editor), KeyAction::ToggleTerminal);
    assert_eq!(route_key(&e, &ctrl(), Focus::Terminal), KeyAction::ToggleTerminal);
}

#[test]
fn keys_go_to_the_focused_pane() {
    let e = KeyInput { pressed: true, logical_key: Key::Character("c".to_string()), physical_key: PhysicalKey::KeyC };
    assert_eq!(route_key(&e, &ctrl(), Focus::Terminal), KeyAction::Terminal(Some(vec![3])));
    assert_eq!(
        route_key(&e, &ctrl(), Focus::Editor),
        KeyAction::Editor(Some(Event::Key(KeyEvent {
            code: KeyCode::Char('c'),
            modifiers: KeyModifiers { shift: false, control: true, alt: false, super_key: false },
        })))
    );
    let dead = KeyInput { pressed: true, logical_key: Key::Dead, physical_key: PhysicalKey::Other };
    assert_eq!(route_key(&dead, &ctrl(), Focus::Terminal), KeyAction::Terminal(None));
}

#[test]
fn divider_drag() {
    let r = route_mouse_button(true, true, true, false, RegionKind::Divider, Focus::Editor);
    assert_eq!(r, MouseRoute::StartDrag);
    let r = route_mouse_button(false, true, true, true, RegionKind::Divider, Focus::Editor);
    assert_eq!(r, MouseRoute::EndDrag);
    // A right press on the divider does not drag.
    let r = route_mouse_button(true, false, true, false, RegionKind::Divider, Focus::Terminal);
    assert_eq!(r, MouseRoute::Deliver { focus: Focus::Terminal, focus_changed: false });
}

#[test]
fn clicks_focus_the_pane_under_the_pointer() {
    let r = route_mouse_button(true, true, false, false, RegionKind::Terminal, Focus::Editor);
    assert_eq!(r, MouseRoute::Deliver { focus: Focus::Terminal, focus_changed: true });
    let r = route_mouse_button(false, true, false, false, RegionKind::Editor, Focus::Terminal);
    assert_eq!(r, MouseRoute::Deliver { focus: Focus::Editor, focus_changed: true });
    let r = route_mouse_button(true, true, false, false, RegionKind::Editor, Focus::Editor);
    assert_eq!(r, MouseRoute::Deliver { focus: Focus::Editor, focus_changed: false });
}

#[test]
fn outcome_of_an_event() {
    assert_eq!(event_outcome(true, true, true), EventOutcome { render: false, handled: true });
    assert_eq!(event_outcome(false, true, true), EventOutcome { render: false, handled: false });
    assert_eq!(event_outcome(false, false, true), EventOutcome { render: true, handled: true });
    assert_eq!(event_outcome(true, false, false), EventOutcome { render: true, handled: true });
    assert_eq!(event_outcome(false, false, false), EventOutcome { render: false, handled: false });
}

#[test]
fn periodic_redraw() {
    assert!(redraw_needed(true, None, false));
    assert!(redraw_needed(false, Some(true), false));
    assert!(!redraw_needed(false, Some(false), false));
    assert!(!redraw_needed(true, Some(true), true));
}

#[test]
fn dropped_files() {
    let text = b"fn main() {}\n".to_vec();
    assert!(accepts_dropped_file(true, Some(13), Some(&text)));
    assert!(!accepts_dropped_file(false, Some(13), Some(&text)));
    assert!(!accepts_dropped_file(true, None, Some(&text)));
    assert!(!accepts_dropped_file(true, Some(MAX_DROPPED_FILE_SIZE), Some(&text)));
    assert!(accepts_dropped_file(true, Some(MAX_DROPPED_FILE_SIZE - 1), Some(&text)));
    assert!(!accepts_dropped_file(true, Some(13), None));
    let binary = vec![0x7f, b'E', b'L', b'F', 0, 1];
    assert!(!accepts_dropped_file(true, Some(6), Some(&binary)));
}

#[test]
fn text_sample_is_the_first_8k() {
    let mut late_nul = vec![b'a'; 9000];
    late_nul[8500] = 0;
    assert!(looks_like_text(&late_nul));
    assert!(looks_like_text(&[]));
    assert!(looks_like_text(&[0xef, 0xbb, 0xbf, 0, 0]));
    assert!(!looks_like_text(b"%PDF-1.4"));
}

#[test]
fn inspector_verdicts_follow_marks_nuls_and_magic_numbers() {
    // A NUL within the first 1024 bytes makes binary; one after it does not.
    let mut early = vec![b'a'; 2000];
    early[1023] = 0;
    assert!(!looks_like_text(&early));
    let mut after = vec![b'a'; 2000];
    after[1024] = 0;
    assert!(looks_like_text(&after));
    // Byte-order marks of UTF-16 and UTF-32 make text despite NUL bytes.
    assert!(looks_like_text(&[0xff, 0xfe, b'a', 0]));
    assert!(looks_like_text(&[0xfe, 0xff, 0, b'a']));
    assert!(looks_like_text(&[0, 0, 0xfe, 0xff, 0, 0, 0, b'a']));
    // PNG's magic number makes binary; a plain line is text.
    assert!(!looks_like_text(b"\x89PNG\r\n"));
    assert!(looks_like_text(b"fn main() {}\n"));
    assert!(!looks_like_text(&[b'a', 0]));
}

#[test]
fn sending_without_a_proxy_drops_the_event() {
    let mut none = None;
    assert!(!send_event(&mut none, UserEvent::Redraw));
    assert!(none.is_none());
    assert!(!send_event(&mut None, UserEvent::OpenFile(std::path::PathBuf::from("/tmp/x"))));
}

use helide::app::focus_after_toggle;
use helide::config::first_qualifying;

#[test]
fn toggling_moves_focus_with_visibility() {
    assert_eq!(focus_after_toggle(true, true), Focus::Terminal);
    assert_eq!(focus_after_toggle(true, false), Focus::Editor);
    assert_eq!(focus_after_toggle(false, true), Focus::Editor);
}

#[test]
fn first_qualifying_candidate_wins() {
    assert_eq!(first_qualifying(&[false, true, true]), Some(1));
    assert_eq!(first_qualifying(&[true]), Some(0));
    assert_eq!(first_qualifying(&[false, false]), None);
    assert_eq!(first_qualifying(&[]), None);
}
