//! From keys to the events that drive a session.

use vstd::prelude::*;
use crate::chat::session::InputEvent;

verus! {

/// The modifier bit of the control key.
pub const CONTROL: u8 = 0b0000_0010;

/// A key, as far as a session tells keys apart.
#[derive(Clone, Copy, Debug, PartialEq, Eq, Structural)]
pub enum Key {
    /// A key that stands for a character.
    Char(char),
    Enter,
    Backspace,
    Up,
    Down,
    /// Any other key.
    Other,
}

/// A key together with the modifier keys held with it, one bit each.
#[derive(Clone, Copy, Debug, PartialEq, Eq, Structural)]
pub struct KeyPress {
    pub code: Key,
    pub modifiers: u8,
}

impl KeyPress {
    /// Whether this is the letter c with the control key and no other
    /// modifier.
    pub open spec fn is_interrupt(self) -> bool {
        self.code == Key::Char('c') && self.modifiers == CONTROL
    }

    /// The event that the key press stands for.
    ///
    /// The letter c with the control key alone asks to leave. The other keys
    /// mean the same whatever is held with them: a character is typed, enter
    /// submits, backspace deletes, the arrows scroll.
    pub open spec fn event(self) -> InputEvent {
        if self.is_interrupt() {
            InputEvent::Interrupt
        } else {
            match self.code {
                Key::Char(c) => InputEvent::Char(c),
                Key::Enter => InputEvent::Submit,
                Key::Backspace => InputEvent::Backspace,
                Key::Up => InputEvent::ScrollUp,
                Key::Down => InputEvent::ScrollDown,
                Key::Other => InputEvent::Other,
            }
        }
    }

    /// The event that the key press stands for.
    pub fn to_event(&self) -> (event: InputEvent)
        ensures
            event == self.event(),
    {
        match self.code {
            Key::Char(c) => {
                if c == 'c' && self.modifiers == CONTROL {
                    InputEvent::Interrupt
                } else {
                    InputEvent::Char(c)
                }
            },
            Key::Enter => InputEvent::Submit,
            Key::Backspace => InputEvent::Backspace,
            Key::Up => InputEvent::ScrollUp,
            Key::Down => InputEvent::ScrollDown,
            Key::Other => InputEvent::Other,
        }
    }
}

/// Only the letter c with the control key alone asks to leave, and a key that
/// stands for a character types that character unless it asks to leave.
pub proof fn lemma_only_control_c_interrupts(key: KeyPress)
    ensures
        key.event() == InputEvent::Interrupt <==> key.is_interrupt(),
        !key.is_interrupt() ==> (key.event() is Char <==> key.code is Char),
        key.event() is Char ==> key.code == Key::Char(key.event()->Char_0),
{
}

} // verus!
