//! The key combination that triggers a capture while the program waits in
//! the background: Ctrl+Alt+X.

use vstd::prelude::*;

verus! {

/// A key, as far as the combination is concerned.
#[derive(Clone, Copy, Debug, PartialEq, Eq, Structural)]
pub enum HotkeyKey {
    /// Either control key.
    Control,
    /// Either alt key.
    Alt,
    /// The letter X.
    KeyX,
    /// Any other key.
    Other,
}

/// What happened on the keyboard.
#[derive(Clone, Copy, Debug, PartialEq, Eq, Structural)]
pub enum KeyEvent {
    /// A key went down.
    Press(HotkeyKey),
    /// A key came up.
    Release(HotkeyKey),
    /// Anything else, such as pointer movement.
    Ignored,
}

/// Which of the modifier keys are held.
#[derive(Clone, Copy, Debug, PartialEq, Eq, Structural)]
pub struct HotkeyState {
    pub ctrl_pressed: bool,
    pub alt_pressed: bool,
}

impl HotkeyState {
    /// The modifiers after an event: pressing one holds it, releasing one
    /// lets it go, and nothing else matters.
    pub open spec fn after(self, event: KeyEvent) -> HotkeyState {
        match event {
            KeyEvent::Press(HotkeyKey::Control) => HotkeyState { ctrl_pressed: true, ..self },
            KeyEvent::Press(HotkeyKey::Alt) => HotkeyState { alt_pressed: true, ..self },
            KeyEvent::Release(HotkeyKey::Control) => HotkeyState { ctrl_pressed: false, ..self },
            KeyEvent::Release(HotkeyKey::Alt) => HotkeyState { alt_pressed: false, ..self },
            _ => self,
        }
    }

    /// Whether an event completes the combination: X goes down while both
    /// modifiers are held.
    pub open spec fn triggers(self, event: KeyEvent) -> bool {
        event == KeyEvent::Press(HotkeyKey::KeyX) && self.ctrl_pressed && self.alt_pressed
    }

    /// No key is held.
    pub fn new() -> (s: HotkeyState)
        ensures
            s == (HotkeyState { ctrl_pressed: false, alt_pressed: false }),
    {
        HotkeyState { ctrl_pressed: false, alt_pressed: false }
    }

    /// Takes note of a keyboard event and says whether a capture is due.
    pub fn on_event(&mut self, event: KeyEvent) -> (capture: bool)
        ensures
            *final(self) == old(self).after(event),
            capture == old(self).triggers(event),
    {
        match event {
            KeyEvent::Press(key) => {
                match key {
                    HotkeyKey::Control => {
                        self.ctrl_pressed = true;
                        false
                    },
                    HotkeyKey::Alt => {
                        self.alt_pressed = true;
                        false
                    },
                    HotkeyKey::KeyX => self.ctrl_pressed && self.alt_pressed,
                    HotkeyKey::Other => false,
                }
            },
            KeyEvent::Release(key) => {
                match key {
                    HotkeyKey::Control => {
                        self.ctrl_pressed = false;
                    },
                    HotkeyKey::Alt => {
                        self.alt_pressed = false;
                    },
                    _ => {},
                }
                false
            },
            KeyEvent::Ignored => false,
        }
    }
}

} // verus!
