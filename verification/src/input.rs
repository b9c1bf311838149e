//! Input events as a global hook reports them.
//!
//! The types here carry exactly what the widget reads from an event: which key
//! or button it is about and whether it went down or up. Pointer coordinates
//! are not kept, since nothing is decided from them.
use vstd::prelude::*;

verus! {

/// A physical key, named after its place on a standard QWERTY board.
#[derive(Clone, Copy, Debug, PartialEq, Eq, Hash, Structural)]
pub enum Key {
    Alt,
    AltGr,
    Backspace,
    CapsLock,
    ControlLeft,
    ControlRight,
    Delete,
    DownArrow,
    End,
    Escape,
    F1,
    F10,
    F11,
    F12,
    F2,
    F3,
    F4,
    F5,
    F6,
    F7,
    F8,
    F9,
    Home,
    LeftArrow,
    MetaLeft,
    MetaRight,
    PageDown,
    PageUp,
    Return,
    RightArrow,
    ShiftLeft,
    ShiftRight,
    Space,
    Tab,
    UpArrow,
    PrintScreen,
    ScrollLock,
    Pause,
    NumLock,
    BackQuote,
    Num1,
    Num2,
    Num3,
    Num4,
    Num5,
    Num6,
    Num7,
    Num8,
    Num9,
    Num0,
    Minus,
    Equal,
    KeyQ,
    KeyW,
    KeyE,
    KeyR,
    KeyT,
    KeyY,
    KeyU,
    KeyI,
    KeyO,
    KeyP,
    LeftBracket,
    RightBracket,
    KeyA,
    KeyS,
    KeyD,
    KeyF,
    KeyG,
    KeyH,
    KeyJ,
    KeyK,
    KeyL,
    SemiColon,
    Quote,
    BackSlash,
    IntlBackslash,
    KeyZ,
    KeyX,
    KeyC,
    KeyV,
    KeyB,
    KeyN,
    KeyM,
    Comma,
    Dot,
    Slash,
    Insert,
    KpReturn,
    KpMinus,
    KpPlus,
    KpMultiply,
    KpDivide,
    Kp0,
    Kp1,
    Kp2,
    Kp3,
    Kp4,
    Kp5,
    Kp6,
    Kp7,
    Kp8,
    Kp9,
    KpDelete,
    Function,
    /// A key the hook could not name, with the platform's code for it.
    Unknown(u32),
}

/// A mouse button.
#[derive(Clone, Copy, Debug, PartialEq, Eq, Hash, Structural)]
pub enum Button {
    Left,
    Right,
    Middle,
    /// A button the hook could not name, with the platform's code for it.
    Unknown(u8),
}

/// One event from the input hook.
#[derive(Clone, Copy, Debug, PartialEq, Eq, Hash, Structural)]
pub enum InputEvent {
    KeyPress(Key),
    KeyRelease(Key),
    ButtonPress(Button),
    ButtonRelease(Button),
    /// The pointer moved.
    MouseMove,
    /// The wheel turned; positive is up or right.
    Wheel { delta_x: i64, delta_y: i64 },
}

impl Key {
    /// Whether the key occurs in `keys`.
    pub fn is_in(self, keys: &Vec<Key>) -> (found: bool)
        ensures
            found == keys@.contains(self),
    {
        let mut i: usize = 0;
        while i < keys.len()
            invariant
                i <= keys.len(),
                forall|j: int| 0 <= j < i ==> keys@[j] != self,
            decreases keys.len() - i,
        {
            if keys[i] == self {
                return true;
            }
            i += 1;
        }
        false
    }
}

impl InputEvent {
    /// Whether the event reports a key or a button going down or up.
    pub open spec fn is_press_or_release(self) -> bool {
        self is KeyPress || self is KeyRelease || self is ButtonPress || self is ButtonRelease
    }

    /// Whether the listener hands the event on to the widget. Presses and
    /// releases pass; pointer motion and wheel turns are dropped at the hook.
    pub fn is_forwarded(&self) -> (forwarded: bool)
        ensures
            forwarded == self.is_press_or_release(),
    {
        match self {
            InputEvent::KeyPress(_) => true,
            InputEvent::KeyRelease(_) => true,
            InputEvent::ButtonPress(_) => true,
            InputEvent::ButtonRelease(_) => true,
            _ => false,
        }
    }
}

} // verus!
