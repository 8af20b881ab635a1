use miden_code::chat::input::CONTROL;
use miden_code::chat::{InputEvent, Key, KeyPress};

const SHIFT: u8 = 0b0000_0001;
const ALT: u8 = 0b0000_0100;

fn press(code: Key, modifiers: u8) -> InputEvent {
    KeyPress { code, modifiers }.to_event()
}

#[test]
fn control_c_interrupts() {
    assert_eq!(CONTROL, 2);
    assert_eq!(press(Key::Char('c'), CONTROL), InputEvent::Interrupt);
}

#[test]
fn c_with_other_modifiers_is_typed() {
    assert_eq!(press(Key::Char('c'), 0), InputEvent::Char('c'));
    assert_eq!(press(Key::Char('c'), CONTROL | SHIFT), InputEvent::Char('c'));
    assert_eq!(press(Key::Char('c'), ALT), InputEvent::Char('c'));
    assert_eq!(press(Key::Char('C'), CONTROL), InputEvent::Char('C'));
}

#[test]
fn characters_are_typed_whatever_is_held() {
    assert_eq!(press(Key::Char('x'), 0), InputEvent::Char('x'));
    assert_eq!(press(Key::Char('x'), CONTROL), InputEvent::Char('x'));
    assert_eq!(press(Key::Char('é'), SHIFT), InputEvent::Char('é'));
}

#[test]
fn named_keys_map_to_their_events() {
    assert_eq!(press(Key::Enter, 0), InputEvent::Submit);
    assert_eq!(press(Key::Enter, CONTROL), InputEvent::Submit);
    assert_eq!(press(Key::Backspace, 0), InputEvent::Backspace);
    assert_eq!(press(Key::Backspace, CONTROL), InputEvent::Backspace);
    assert_eq!(press(Key::Up, 0), InputEvent::ScrollUp);
    assert_eq!(press(Key::Down, SHIFT), InputEvent::ScrollDown);
    assert_eq!(press(Key::Other, 0), InputEvent::Other);
    assert_eq!(press(Key::Other, CONTROL), InputEvent::Other);
}
