//! The host's own vocabulary: the keys, buttons and events that the input
//! layer of the platform reports and accepts.

use vstd::prelude::*;

verus! {

/// A key as the host input layer names it.
#[derive(Clone, Copy, Debug, PartialEq, Eq, Structural, Hash)]
pub enum NativeKey {
    Alt,
    AltGr,
    Backspace,
    CapsLock,
    ControlLeft,
    ControlRight,
    Delete,
    DownArrow,
    End,
    Escape,
    F1,
    F10,
    F11,
    F12,
    F2,
    F3,
    F4,
    F5,
    F6,
    F7,
    F8,
    F9,
    Home,
    LeftArrow,
    MetaLeft,
    MetaRight,
    PageDown,
    PageUp,
    Return,
    RightArrow,
    ShiftLeft,
    ShiftRight,
    Space,
    Tab,
    UpArrow,
    PrintScreen,
    ScrollLock,
    Pause,
    NumLock,
    BackQuote,
    Num1,
    Num2,
    Num3,
    Num4,
    Num5,
    Num6,
    Num7,
    Num8,
    Num9,
    Num0,
    Minus,
    Equal,
    KeyQ,
    KeyW,
    KeyE,
    KeyR,
    KeyT,
    KeyY,
    KeyU,
    KeyI,
    KeyO,
    KeyP,
    LeftBracket,
    RightBracket,
    KeyA,
    KeyS,
    KeyD,
    KeyF,
    KeyG,
    KeyH,
    KeyJ,
    KeyK,
    KeyL,
    SemiColon,
    Quote,
    BackSlash,
    IntlBackslash,
    KeyZ,
    KeyX,
    KeyC,
    KeyV,
    KeyB,
    KeyN,
    KeyM,
    Comma,
    Dot,
    Slash,
    Insert,
    KpReturn,
    KpMinus,
    KpPlus,
    KpMultiply,
    KpDivide,
    Kp0,
    Kp1,
    Kp2,
    Kp3,
    Kp4,
    Kp5,
    Kp6,
    Kp7,
    Kp8,
    Kp9,
    KpDelete,
    Function,
    /// A key that the host has no name for, with the number it reported.
    Unknown(u32),
}

/// A mouse button as the host input layer names it.
#[derive(Clone, Copy, Debug, PartialEq, Eq, Structural, Hash)]
pub enum NativeButton {
    Left,
    Right,
    Middle,
    Unknown(u8),
}

/// An input event of the host, without the pointer's position, which nothing
/// here reads.
#[derive(Clone, Copy, Debug, PartialEq, Eq, Structural, Hash)]
pub enum NativeEvent {
    KeyPress(NativeKey),
    KeyRelease(NativeKey),
    ButtonPress(NativeButton),
    ButtonRelease(NativeButton),
    MouseMove,
    Wheel { delta_x: i64, delta_y: i64 },
}

impl NativeEvent {
    /// The key of a key event.
    pub open spec fn key(self) -> Option<NativeKey> {
        match self {
            NativeEvent::KeyPress(k) => Some(k),
            NativeEvent::KeyRelease(k) => Some(k),
            _ => None,
        }
    }
}

} // verus!
