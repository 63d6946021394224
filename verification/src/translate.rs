//! Translation between the canonical codes, the native keys and the raw scan
//! codes.
//!
//! The three vocabularies are not isomorphic. Several native keys may share
//! one canonical code, some canonical codes have no native key, and a key that
//! goes through both tables need not come back as itself.

use vstd::prelude::*;
use crate::keycodes;
use crate::keycodes::{code_from_key, scan_code};
use crate::keys::{KeyEvent, KeyValue, OsCode};
use crate::native::{NativeEvent, NativeKey};

verus! {

impl OsCode {
    /// The canonical code of a native key, where it has one.
    pub open spec fn of_native(key: NativeKey) -> Option<OsCode> {
        match key {
            NativeKey::Kp0 => Some(OsCode::KEY_0),
            NativeKey::Kp1 => Some(OsCode::KEY_1),
            NativeKey::Kp2 => Some(OsCode::KEY_2),
            NativeKey::Kp3 => Some(OsCode::KEY_3),
            NativeKey::Kp4 => Some(OsCode::KEY_4),
            NativeKey::Kp5 => Some(OsCode::KEY_5),
            NativeKey::Kp6 => Some(OsCode::KEY_6),
            NativeKey::Kp7 => Some(OsCode::KEY_7),
            NativeKey::Kp8 => Some(OsCode::KEY_8),
            NativeKey::Kp9 => Some(OsCode::KEY_9),
            NativeKey::KeyA => Some(OsCode::KEY_A),
            NativeKey::KeyB => Some(OsCode::KEY_B),
            NativeKey::KeyC => Some(OsCode::KEY_C),
            NativeKey::KeyD => Some(OsCode::KEY_D),
            NativeKey::KeyE => Some(OsCode::KEY_E),
            NativeKey::KeyF => Some(OsCode::KEY_F),
            NativeKey::KeyG => Some(OsCode::KEY_G),
            NativeKey::KeyH => Some(OsCode::KEY_H),
            NativeKey::KeyI => Some(OsCode::KEY_I),
            NativeKey::KeyJ => Some(OsCode::KEY_J),
            NativeKey::KeyK => Some(OsCode::KEY_K),
            NativeKey::KeyL => Some(OsCode::KEY_L),
            NativeKey::KeyM => Some(OsCode::KEY_M),
            NativeKey::KeyN => Some(OsCode::KEY_N),
            NativeKey::KeyO => Some(OsCode::KEY_O),
            NativeKey::KeyP => Some(OsCode::KEY_P),
            NativeKey::KeyQ => Some(OsCode::KEY_Q),
            NativeKey::KeyR => Some(OsCode::KEY_R),
            NativeKey::KeyS => Some(OsCode::KEY_S),
            NativeKey::KeyT => Some(OsCode::KEY_T),
            NativeKey::KeyU => Some(OsCode::KEY_U),
            NativeKey::KeyV => Some(OsCode::KEY_V),
            NativeKey::KeyW => Some(OsCode::KEY_W),
            NativeKey::KeyX => Some(OsCode::KEY_X),
            NativeKey::KeyY => Some(OsCode::KEY_Y),
            NativeKey::KeyZ => Some(OsCode::KEY_Z),
            NativeKey::SemiColon => Some(OsCode::KEY_SEMICOLON),
            NativeKey::Slash => Some(OsCode::KEY_SLASH),
            NativeKey::BackQuote => Some(OsCode::KEY_GRAVE),
            NativeKey::LeftBracket => Some(OsCode::KEY_LEFTBRACE),
            NativeKey::BackSlash => Some(OsCode::KEY_BACKSLASH),
            NativeKey::RightBracket => Some(OsCode::KEY_RIGHTBRACE),
            NativeKey::Pause => Some(OsCode::KEY_APOSTROPHE),
            NativeKey::Minus => Some(OsCode::KEY_MINUS),
            NativeKey::Dot => Some(OsCode::KEY_DOT),
            NativeKey::Equal => Some(OsCode::KEY_EQUAL),
            NativeKey::Backspace => Some(OsCode::KEY_BACKSPACE),
            NativeKey::Escape => Some(OsCode::KEY_ESC),
            NativeKey::Tab => Some(OsCode::KEY_TAB),
            NativeKey::Return => Some(OsCode::KEY_ENTER),
            NativeKey::ControlLeft => Some(OsCode::KEY_LEFTCTRL),
            NativeKey::ShiftLeft => Some(OsCode::KEY_LEFTSHIFT),
            NativeKey::Comma => Some(OsCode::KEY_COMMA),
            NativeKey::ShiftRight => Some(OsCode::KEY_RIGHTSHIFT),
            NativeKey::Alt => Some(OsCode::KEY_LEFTALT),
            NativeKey::AltGr => Some(OsCode::KEY_RIGHTALT),
            NativeKey::Space => Some(OsCode::KEY_SPACE),
            NativeKey::CapsLock => Some(OsCode::KEY_CAPSLOCK),
            NativeKey::F1 => Some(OsCode::KEY_F1),
            NativeKey::F2 => Some(OsCode::KEY_F2),
            NativeKey::F3 => Some(OsCode::KEY_F3),
            NativeKey::F4 => Some(OsCode::KEY_F4),
            NativeKey::F5 => Some(OsCode::KEY_F5),
            NativeKey::F6 => Some(OsCode::KEY_F6),
            NativeKey::F7 => Some(OsCode::KEY_F7),
            NativeKey::F8 => Some(OsCode::KEY_F8),
            NativeKey::F9 => Some(OsCode::KEY_F9),
            NativeKey::F10 => Some(OsCode::KEY_F10),
            NativeKey::F11 => Some(OsCode::KEY_F11),
            NativeKey::F12 => Some(OsCode::KEY_F12),
            NativeKey::ScrollLock => Some(OsCode::KEY_SCROLLLOCK),
            NativeKey::Num0 => Some(OsCode::KEY_KP0),
            NativeKey::Num1 => Some(OsCode::KEY_KP1),
            NativeKey::Num2 => Some(OsCode::KEY_KP2),
            NativeKey::Num3 => Some(OsCode::KEY_KP3),
            NativeKey::Num4 => Some(OsCode::KEY_KP4),
            NativeKey::Num5 => Some(OsCode::KEY_KP5),
            NativeKey::Num6 => Some(OsCode::KEY_KP6),
            NativeKey::Num7 => Some(OsCode::KEY_KP7),
            NativeKey::Num8 => Some(OsCode::KEY_KP8),
            NativeKey::Num9 => Some(OsCode::KEY_KP9),
            NativeKey::KpMinus => Some(OsCode::KEY_KPMINUS),
            NativeKey::KpPlus => Some(OsCode::KEY_KPPLUS),
            NativeKey::UpArrow => Some(OsCode::KEY_UP),
            NativeKey::PageUp => Some(OsCode::KEY_PAGEUP),
            NativeKey::LeftArrow => Some(OsCode::KEY_LEFT),
            NativeKey::RightArrow => Some(OsCode::KEY_RIGHT),
            NativeKey::End => Some(OsCode::KEY_END),
            NativeKey::DownArrow => Some(OsCode::KEY_DOWN),
            NativeKey::PageDown => Some(OsCode::KEY_PAGEDOWN),
            NativeKey::Insert => Some(OsCode::KEY_INSERT),
            NativeKey::Delete => Some(OsCode::KEY_DELETE),
            NativeKey::MetaLeft => Some(OsCode::KEY_LEFTMETA),
            NativeKey::MetaRight => Some(OsCode::KEY_RIGHTMETA),
            NativeKey::ControlRight => Some(OsCode::KEY_RIGHTCTRL),
            NativeKey::Home => Some(OsCode::KEY_HOME),
            NativeKey::PrintScreen => Some(OsCode::KEY_HOME),
            NativeKey::NumLock => Some(OsCode::KEY_NUMLOCK),
            NativeKey::Quote => None,
            NativeKey::IntlBackslash => Some(OsCode::KEY_HOME),
            NativeKey::KpReturn => Some(OsCode::KEY_ENTER),
            NativeKey::KpMultiply => None,
            NativeKey::KpDivide => None,
            NativeKey::KpDelete => Some(OsCode::KEY_DELETE),
            NativeKey::Function => None,
            NativeKey::Unknown(_) => None,
        }
    }

    /// The native key that stands for a canonical code when an event is
    /// synthesized: `Unknown(0)` where the code has no native key.
    pub open spec fn native(self) -> NativeKey {
        match self {
            OsCode::KEY_0 => NativeKey::Kp0,
            OsCode::KEY_1 => NativeKey::Kp1,
            OsCode::KEY_2 => NativeKey::Kp2,
            OsCode::KEY_3 => NativeKey::Kp3,
            OsCode::KEY_4 => NativeKey::Kp4,
            OsCode::KEY_5 => NativeKey::Kp5,
            OsCode::KEY_6 => NativeKey::Kp6,
            OsCode::KEY_7 => NativeKey::Kp7,
            OsCode::KEY_8 => NativeKey::Kp8,
            OsCode::KEY_9 => NativeKey::Kp9,
            OsCode::KEY_A => NativeKey::KeyA,
            OsCode::KEY_B => NativeKey::KeyB,
            OsCode::KEY_C => NativeKey::KeyC,
            OsCode::KEY_D => NativeKey::KeyD,
            OsCode::KEY_E => NativeKey::KeyE,
            OsCode::KEY_F => NativeKey::KeyF,
            OsCode::KEY_G => NativeKey::KeyG,
            OsCode::KEY_H => NativeKey::KeyH,
            OsCode::KEY_I => NativeKey::KeyI,
            OsCode::KEY_J => NativeKey::KeyJ,
            OsCode::KEY_K => NativeKey::KeyK,
            OsCode::KEY_L => NativeKey::KeyL,
            OsCode::KEY_M => NativeKey::KeyM,
            OsCode::KEY_N => NativeKey::KeyN,
            OsCode::KEY_O => NativeKey::KeyO,
            OsCode::KEY_P => NativeKey::KeyP,
            OsCode::KEY_Q => NativeKey::KeyQ,
            OsCode::KEY_R => NativeKey::KeyR,
            OsCode::KEY_S => NativeKey::KeyS,
            OsCode::KEY_T => NativeKey::KeyT,
            OsCode::KEY_U => NativeKey::KeyU,
            OsCode::KEY_V => NativeKey::KeyV,
            OsCode::KEY_W => NativeKey::KeyW,
            OsCode::KEY_X => NativeKey::KeyX,
            OsCode::KEY_Y => NativeKey::KeyY,
            OsCode::KEY_Z => NativeKey::KeyZ,
            OsCode::KEY_SEMICOLON => NativeKey::SemiColon,
            OsCode::KEY_SLASH => NativeKey::Slash,
            OsCode::KEY_GRAVE => NativeKey::AltGr,
            OsCode::KEY_LEFTBRACE => NativeKey::LeftBracket,
            OsCode::KEY_BACKSLASH => NativeKey::BackSlash,
            OsCode::KEY_RIGHTBRACE => NativeKey::RightBracket,
            OsCode::KEY_APOSTROPHE => NativeKey::Quote,
            OsCode::KEY_MINUS => NativeKey::Minus,
            OsCode::KEY_DOT => NativeKey::Dot,
            OsCode::KEY_EQUAL => NativeKey::Equal,
            OsCode::KEY_BACKSPACE => NativeKey::Backspace,
            OsCode::KEY_ESC => NativeKey::Escape,
            OsCode::KEY_TAB => NativeKey::Tab,
            OsCode::KEY_ENTER => NativeKey::Return,
            OsCode::KEY_LEFTCTRL => NativeKey::ControlLeft,
            OsCode::KEY_LEFTSHIFT => NativeKey::ShiftLeft,
            OsCode::KEY_COMMA => NativeKey::Comma,
            OsCode::KEY_RIGHTSHIFT => NativeKey::ShiftRight,
            OsCode::KEY_KPASTERISK => NativeKey::Quote,
            OsCode::KEY_LEFTALT => NativeKey::Alt,
            OsCode::KEY_SPACE => NativeKey::Space,
            OsCode::KEY_CAPSLOCK => NativeKey::CapsLock,
            OsCode::KEY_F1 => NativeKey::F1,
            OsCode::KEY_F2 => NativeKey::F2,
            OsCode::KEY_F3 => NativeKey::F3,
            OsCode::KEY_F4 => NativeKey::F4,
            OsCode::KEY_F5 => NativeKey::F5,
            OsCode::KEY_F6 => NativeKey::F6,
            OsCode::KEY_F7 => NativeKey::F7,
            OsCode::KEY_F8 => NativeKey::F8,
            OsCode::KEY_F9 => NativeKey::F9,
            OsCode::KEY_F10 => NativeKey::F10,
            OsCode::KEY_F11 => NativeKey::F11,
            OsCode::KEY_F12 => NativeKey::F12,
            OsCode::KEY_KP0 => NativeKey::Num0,
            OsCode::KEY_KP1 => NativeKey::Num1,
            OsCode::KEY_KP2 => NativeKey::Num2,
            OsCode::KEY_KP3 => NativeKey::Num3,
            OsCode::KEY_KP4 => NativeKey::Num4,
            OsCode::KEY_KP5 => NativeKey::Num5,
            OsCode::KEY_KP6 => NativeKey::Num6,
            OsCode::KEY_KP7 => NativeKey::Num7,
            OsCode::KEY_KP8 => NativeKey::Num8,
            OsCode::KEY_KP9 => NativeKey::Num9,
            OsCode::KEY_KPMINUS => NativeKey::KpMinus,
            OsCode::KEY_KPPLUS => NativeKey::KpPlus,
            OsCode::KEY_KPDOT => NativeKey::Dot,
            OsCode::KEY_RIGHTCTRL => NativeKey::ControlRight,
            OsCode::KEY_KPSLASH => NativeKey::Slash,
            OsCode::KEY_RIGHTALT => NativeKey::AltGr,
            OsCode::KEY_HOME => NativeKey::Home,
            OsCode::KEY_UP => NativeKey::UpArrow,
            OsCode::KEY_PAGEUP => NativeKey::PageUp,
            OsCode::KEY_LEFT => NativeKey::UpArrow,
            OsCode::KEY_RIGHT => NativeKey::RightArrow,
            OsCode::KEY_END => NativeKey::End,
            OsCode::KEY_DOWN => NativeKey::DownArrow,
            OsCode::KEY_PAGEDOWN => NativeKey::PageDown,
            OsCode::KEY_INSERT => NativeKey::Insert,
            OsCode::KEY_DELETE => NativeKey::Delete,
            OsCode::KEY_LEFTMETA => NativeKey::MetaLeft,
            OsCode::KEY_RIGHTMETA => NativeKey::MetaRight,
            OsCode::KEY_NUMLOCK => NativeKey::NumLock,
            OsCode::KEY_SCROLLLOCK => NativeKey::ScrollLock,
            _ => NativeKey::Unknown(0),
        }
    }

    /// The canonical code that a raw scan code stands for, where it has one.
    pub open spec fn of_scan_code(code: u16) -> Option<OsCode> {
        match code {
            keycodes::ALT => Some(OsCode::KEY_LEFTALT),
            keycodes::ALT_GR => Some(OsCode::KEY_RIGHTALT),
            keycodes::BACKSPACE => Some(OsCode::KEY_BACKSPACE),
            keycodes::CAPS_LOCK => Some(OsCode::KEY_CAPSLOCK),
            keycodes::CONTROL_LEFT => Some(OsCode::KEY_LEFTCTRL),
            keycodes::DOWN_ARROW => Some(OsCode::KEY_DOWN),
            keycodes::ESCAPE => Some(OsCode::KEY_ESC),
            keycodes::F1 => Some(OsCode::KEY_F1),
            keycodes::F10 => Some(OsCode::KEY_F10),
            keycodes::F11 => Some(OsCode::KEY_F11),
            keycodes::F12 => Some(OsCode::KEY_F12),
            keycodes::F2 => Some(OsCode::KEY_F2),
            keycodes::F3 => Some(OsCode::KEY_F3),
            keycodes::F4 => Some(OsCode::KEY_F4),
            keycodes::F5 => Some(OsCode::KEY_F5),
            keycodes::F6 => Some(OsCode::KEY_F6),
            keycodes::F7 => Some(OsCode::KEY_F7),
            keycodes::F8 => Some(OsCode::KEY_F8),
            keycodes::F9 => Some(OsCode::KEY_F9),
            keycodes::LEFT_ARROW => Some(OsCode::BTN_LEFT),
            keycodes::META_LEFT => Some(OsCode::KEY_LEFTMETA),
            keycodes::META_RIGHT => Some(OsCode::KEY_RIGHTMETA),
            keycodes::RETURN => Some(OsCode::KEY_ENTER),
            keycodes::RIGHT_ARROW => Some(OsCode::BTN_RIGHT),
            keycodes::SHIFT_LEFT => Some(OsCode::KEY_LEFTSHIFT),
            keycodes::SHIFT_RIGHT => Some(OsCode::KEY_RIGHTSHIFT),
            keycodes::SPACE => Some(OsCode::KEY_SPACE),
            keycodes::TAB => Some(OsCode::KEY_TAB),
            keycodes::UP_ARROW => Some(OsCode::KEY_UP),
            keycodes::BACK_QUOTE => Some(OsCode::KEY_APOSTROPHE),
            keycodes::NUM1 => Some(OsCode::KEY_NUMERIC_0),
            keycodes::NUM2 => Some(OsCode::KEY_NUMERIC_2),
            keycodes::NUM3 => Some(OsCode::KEY_NUMERIC_3),
            keycodes::NUM4 => Some(OsCode::KEY_NUMERIC_4),
            keycodes::NUM5 => Some(OsCode::KEY_NUMERIC_5),
            keycodes::NUM6 => Some(OsCode::KEY_NUMERIC_6),
            keycodes::NUM7 => Some(OsCode::KEY_NUMERIC_7),
            keycodes::NUM8 => Some(OsCode::KEY_NUMERIC_8),
            keycodes::NUM9 => Some(OsCode::KEY_NUMERIC_9),
            keycodes::NUM0 => Some(OsCode::KEY_NUMERIC_0),
            keycodes::MINUS => Some(OsCode::KEY_MINUS),
            keycodes::EQUAL => Some(OsCode::KEY_EQUAL),
            keycodes::KEY_Q => Some(OsCode::KEY_Q),
            keycodes::KEY_W => Some(OsCode::KEY_W),
            keycodes::KEY_E => Some(OsCode::KEY_E),
            keycodes::KEY_R => Some(OsCode::KEY_R),
            keycodes::KEY_T => Some(OsCode::KEY_T),
            keycodes::KEY_Y => Some(OsCode::KEY_Y),
            keycodes::KEY_U => Some(OsCode::KEY_U),
            keycodes::KEY_I => Some(OsCode::KEY_I),
            keycodes::KEY_O => Some(OsCode::KEY_O),
            keycodes::KEY_P => Some(OsCode::KEY_P),
            keycodes::LEFT_BRACKET => Some(OsCode::KEY_LEFTBRACE),
            keycodes::RIGHT_BRACKET => Some(OsCode::KEY_RIGHTBRACE),
            keycodes::KEY_A => Some(OsCode::KEY_A),
            keycodes::KEY_S => Some(OsCode::KEY_S),
            keycodes::KEY_D => Some(OsCode::KEY_D),
            keycodes::KEY_F => Some(OsCode::KEY_F),
            keycodes::KEY_G => Some(OsCode::KEY_G),
            keycodes::KEY_H => Some(OsCode::KEY_H),
            keycodes::KEY_J => Some(OsCode::KEY_J),
            keycodes::KEY_K => Some(OsCode::KEY_K),
            keycodes::KEY_L => Some(OsCode::KEY_L),
            keycodes::SEMI_COLON => Some(OsCode::KEY_SEMICOLON),
            keycodes::QUOTE => Some(OsCode::KEY_APOSTROPHE),
            keycodes::BACK_SLASH => Some(OsCode::KEY_BACKSLASH),
            keycodes::KEY_Z => Some(OsCode::KEY_Z),
            keycodes::KEY_X => Some(OsCode::KEY_X),
            keycodes::KEY_C => Some(OsCode::KEY_C),
            keycodes::KEY_V => Some(OsCode::KEY_V),
            keycodes::KEY_B => Some(OsCode::KEY_B),
            keycodes::KEY_N => Some(OsCode::KEY_N),
            keycodes::KEY_M => Some(OsCode::KEY_M),
            keycodes::COMMA => Some(OsCode::KEY_COMMA),
            keycodes::DOT => Some(OsCode::KEY_DOT),
            keycodes::SLASH => Some(OsCode::KEY_SLASH),
            keycodes::FUNCTION => Some(OsCode::KEY_FN),
            _ => None,
        }
    }

    /// The raw scan code under which a canonical code is synthesized.
    pub open spec fn scan_code(self) -> int {
        scan_code(self.native())
    }

    /// The raw scan code under which this code is synthesized.
    pub fn as_u16(self) -> (code: u16)
        ensures
            code == self.scan_code(),
            code <= keycodes::MAX_NAMED,
    {
        code_from_key(self.as_key())
    }

    /// The canonical code that a raw scan code stands for, or `None` for a
    /// scan code that names no key known here.
    pub fn from_u16(code: u16) -> (found: Option<Self>)
        ensures
            found == Self::of_scan_code(code),
    {
        match code {
            keycodes::ALT => Some(OsCode::KEY_LEFTALT),
            keycodes::ALT_GR => Some(OsCode::KEY_RIGHTALT),
            keycodes::BACKSPACE => Some(OsCode::KEY_BACKSPACE),
            keycodes::CAPS_LOCK => Some(OsCode::KEY_CAPSLOCK),
            keycodes::CONTROL_LEFT => Some(OsCode::KEY_LEFTCTRL),
            keycodes::DOWN_ARROW => Some(OsCode::KEY_DOWN),
            keycodes::ESCAPE => Some(OsCode::KEY_ESC),
            keycodes::F1 => Some(OsCode::KEY_F1),
            keycodes::F10 => Some(OsCode::KEY_F10),
            keycodes::F11 => Some(OsCode::KEY_F11),
            keycodes::F12 => Some(OsCode::KEY_F12),
            keycodes::F2 => Some(OsCode::KEY_F2),
            keycodes::F3 => Some(OsCode::KEY_F3),
            keycodes::F4 => Some(OsCode::KEY_F4),
            keycodes::F5 => Some(OsCode::KEY_F5),
            keycodes::F6 => Some(OsCode::KEY_F6),
            keycodes::F7 => Some(OsCode::KEY_F7),
            keycodes::F8 => Some(OsCode::KEY_F8),
            keycodes::F9 => Some(OsCode::KEY_F9),
            keycodes::LEFT_ARROW => Some(OsCode::BTN_LEFT),
            keycodes::META_LEFT => Some(OsCode::KEY_LEFTMETA),
            keycodes::META_RIGHT => Some(OsCode::KEY_RIGHTMETA),
            keycodes::RETURN => Some(OsCode::KEY_ENTER),
            keycodes::RIGHT_ARROW => Some(OsCode::BTN_RIGHT),
            keycodes::SHIFT_LEFT => Some(OsCode::KEY_LEFTSHIFT),
            keycodes::SHIFT_RIGHT => Some(OsCode::KEY_RIGHTSHIFT),
            keycodes::SPACE => Some(OsCode::KEY_SPACE),
            keycodes::TAB => Some(OsCode::KEY_TAB),
            keycodes::UP_ARROW => Some(OsCode::KEY_UP),
            keycodes::BACK_QUOTE => Some(OsCode::KEY_APOSTROPHE),
            keycodes::NUM1 => Some(OsCode::KEY_NUMERIC_0),
            keycodes::NUM2 => Some(OsCode::KEY_NUMERIC_2),
            keycodes::NUM3 => Some(OsCode::KEY_NUMERIC_3),
            keycodes::NUM4 => Some(OsCode::KEY_NUMERIC_4),
            keycodes::NUM5 => Some(OsCode::KEY_NUMERIC_5),
            keycodes::NUM6 => Some(OsCode::KEY_NUMERIC_6),
            keycodes::NUM7 => Some(OsCode::KEY_NUMERIC_7),
            keycodes::NUM8 => Some(OsCode::KEY_NUMERIC_8),
            keycodes::NUM9 => Some(OsCode::KEY_NUMERIC_9),
            keycodes::NUM0 => Some(OsCode::KEY_NUMERIC_0),
            keycodes::MINUS => Some(OsCode::KEY_MINUS),
            keycodes::EQUAL => Some(OsCode::KEY_EQUAL),
            keycodes::KEY_Q => Some(OsCode::KEY_Q),
            keycodes::KEY_W => Some(OsCode::KEY_W),
            keycodes::KEY_E => Some(OsCode::KEY_E),
            keycodes::KEY_R => Some(OsCode::KEY_R),
            keycodes::KEY_T => Some(OsCode::KEY_T),
            keycodes::KEY_Y => Some(OsCode::KEY_Y),
            keycodes::KEY_U => Some(OsCode::KEY_U),
            keycodes::KEY_I => Some(OsCode::KEY_I),
            keycodes::KEY_O => Some(OsCode::KEY_O),
            keycodes::KEY_P => Some(OsCode::KEY_P),
            keycodes::LEFT_BRACKET => Some(OsCode::KEY_LEFTBRACE),
            keycodes::RIGHT_BRACKET => Some(OsCode::KEY_RIGHTBRACE),
            keycodes::KEY_A => Some(OsCode::KEY_A),
            keycodes::KEY_S => Some(OsCode::KEY_S),
            keycodes::KEY_D => Some(OsCode::KEY_D),
            keycodes::KEY_F => Some(OsCode::KEY_F),
            keycodes::KEY_G => Some(OsCode::KEY_G),
            keycodes::KEY_H => Some(OsCode::KEY_H),
            keycodes::KEY_J => Some(OsCode::KEY_J),
            keycodes::KEY_K => Some(OsCode::KEY_K),
            keycodes::KEY_L => Some(OsCode::KEY_L),
            keycodes::SEMI_COLON => Some(OsCode::KEY_SEMICOLON),
            keycodes::QUOTE => Some(OsCode::KEY_APOSTROPHE),
            keycodes::BACK_SLASH => Some(OsCode::KEY_BACKSLASH),
            keycodes::KEY_Z => Some(OsCode::KEY_Z),
            keycodes::KEY_X => Some(OsCode::KEY_X),
            keycodes::KEY_C => Some(OsCode::KEY_C),
            keycodes::KEY_V => Some(OsCode::KEY_V),
            keycodes::KEY_B => Some(OsCode::KEY_B),
            keycodes::KEY_N => Some(OsCode::KEY_N),
            keycodes::KEY_M => Some(OsCode::KEY_M),
            keycodes::COMMA => Some(OsCode::KEY_COMMA),
            keycodes::DOT => Some(OsCode::KEY_DOT),
            keycodes::SLASH => Some(OsCode::KEY_SLASH),
            keycodes::FUNCTION => Some(OsCode::KEY_FN),
            _ => None,
        }
    }

    /// The canonical code of a native key, or `None` for a key that has none.
    /// The result depends on `key` alone.
    pub fn from_key(key: NativeKey) -> (found: Option<Self>)
        ensures
            found == Self::of_native(key),
    {
        match key {
            NativeKey::Kp0 => Some(OsCode::KEY_0),
            NativeKey::Kp1 => Some(OsCode::KEY_1),
            NativeKey::Kp2 => Some(OsCode::KEY_2),
            NativeKey::Kp3 => Some(OsCode::KEY_3),
            NativeKey::Kp4 => Some(OsCode::KEY_4),
            NativeKey::Kp5 => Some(OsCode::KEY_5),
            NativeKey::Kp6 => Some(OsCode::KEY_6),
            NativeKey::Kp7 => Some(OsCode::KEY_7),
            NativeKey::Kp8 => Some(OsCode::KEY_8),
            NativeKey::Kp9 => Some(OsCode::KEY_9),
            NativeKey::KeyA => Some(OsCode::KEY_A),
            NativeKey::KeyB => Some(OsCode::KEY_B),
            NativeKey::KeyC => Some(OsCode::KEY_C),
            NativeKey::KeyD => Some(OsCode::KEY_D),
            NativeKey::KeyE => Some(OsCode::KEY_E),
            NativeKey::KeyF => Some(OsCode::KEY_F),
            NativeKey::KeyG => Some(OsCode::KEY_G),
            NativeKey::KeyH => Some(OsCode::KEY_H),
            NativeKey::KeyI => Some(OsCode::KEY_I),
            NativeKey::KeyJ => Some(OsCode::KEY_J),
            NativeKey::KeyK => Some(OsCode::KEY_K),
            NativeKey::KeyL => Some(OsCode::KEY_L),
            NativeKey::KeyM => Some(OsCode::KEY_M),
            NativeKey::KeyN => Some(OsCode::KEY_N),
            NativeKey::KeyO => Some(OsCode::KEY_O),
            NativeKey::KeyP => Some(OsCode::KEY_P),
            NativeKey::KeyQ => Some(OsCode::KEY_Q),
            NativeKey::KeyR => Some(OsCode::KEY_R),
            NativeKey::KeyS => Some(OsCode::KEY_S),
            NativeKey::KeyT => Some(OsCode::KEY_T),
            NativeKey::KeyU => Some(OsCode::KEY_U),
            NativeKey::KeyV => Some(OsCode::KEY_V),
            NativeKey::KeyW => Some(OsCode::KEY_W),
            NativeKey::KeyX => Some(OsCode::KEY_X),
            NativeKey::KeyY => Some(OsCode::KEY_Y),
            NativeKey::KeyZ => Some(OsCode::KEY_Z),
            NativeKey::SemiColon => Some(OsCode::KEY_SEMICOLON),
            NativeKey::Slash => Some(OsCode::KEY_SLASH),
            NativeKey::BackQuote => Some(OsCode::KEY_GRAVE),
            NativeKey::LeftBracket => Some(OsCode::KEY_LEFTBRACE),
            NativeKey::BackSlash => Some(OsCode::KEY_BACKSLASH),
            NativeKey::RightBracket => Some(OsCode::KEY_RIGHTBRACE),
            NativeKey::Pause => Some(OsCode::KEY_APOSTROPHE),
            NativeKey::Minus => Some(OsCode::KEY_MINUS),
            NativeKey::Dot => Some(OsCode::KEY_DOT),
            NativeKey::Equal => Some(OsCode::KEY_EQUAL),
            NativeKey::Backspace => Some(OsCode::KEY_BACKSPACE),
            NativeKey::Escape => Some(OsCode::KEY_ESC),
            NativeKey::Tab => Some(OsCode::KEY_TAB),
            NativeKey::Return => Some(OsCode::KEY_ENTER),
            NativeKey::ControlLeft => Some(OsCode::KEY_LEFTCTRL),
            NativeKey::ShiftLeft => Some(OsCode::KEY_LEFTSHIFT),
            NativeKey::Comma => Some(OsCode::KEY_COMMA),
            NativeKey::ShiftRight => Some(OsCode::KEY_RIGHTSHIFT),
            NativeKey::Alt => Some(OsCode::KEY_LEFTALT),
            NativeKey::AltGr => Some(OsCode::KEY_RIGHTALT),
            NativeKey::Space => Some(OsCode::KEY_SPACE),
            NativeKey::CapsLock => Some(OsCode::KEY_CAPSLOCK),
            NativeKey::F1 => Some(OsCode::KEY_F1),
            NativeKey::F2 => Some(OsCode::KEY_F2),
            NativeKey::F3 => Some(OsCode::KEY_F3),
            NativeKey::F4 => Some(OsCode::KEY_F4),
            NativeKey::F5 => Some(OsCode::KEY_F5),
            NativeKey::F6 => Some(OsCode::KEY_F6),
            NativeKey::F7 => Some(OsCode::KEY_F7),
            NativeKey::F8 => Some(OsCode::KEY_F8),
            NativeKey::F9 => Some(OsCode::KEY_F9),
            NativeKey::F10 => Some(OsCode::KEY_F10),
            NativeKey::F11 => Some(OsCode::KEY_F11),
            NativeKey::F12 => Some(OsCode::KEY_F12),
            NativeKey::ScrollLock => Some(OsCode::KEY_SCROLLLOCK),
            NativeKey::Num0 => Some(OsCode::KEY_KP0),
            NativeKey::Num1 => Some(OsCode::KEY_KP1),
            NativeKey::Num2 => Some(OsCode::KEY_KP2),
            NativeKey::Num3 => Some(OsCode::KEY_KP3),
            NativeKey::Num4 => Some(OsCode::KEY_KP4),
            NativeKey::Num5 => Some(OsCode::KEY_KP5),
            NativeKey::Num6 => Some(OsCode::KEY_KP6),
            NativeKey::Num7 => Some(OsCode::KEY_KP7),
            NativeKey::Num8 => Some(OsCode::KEY_KP8),
            NativeKey::Num9 => Some(OsCode::KEY_KP9),
            NativeKey::KpMinus => Some(OsCode::KEY_KPMINUS),
            NativeKey::KpPlus => Some(OsCode::KEY_KPPLUS),
            NativeKey::UpArrow => Some(OsCode::KEY_UP),
            NativeKey::PageUp => Some(OsCode::KEY_PAGEUP),
            NativeKey::LeftArrow => Some(OsCode::KEY_LEFT),
            NativeKey::RightArrow => Some(OsCode::KEY_RIGHT),
            NativeKey::End => Some(OsCode::KEY_END),
            NativeKey::DownArrow => Some(OsCode::KEY_DOWN),
            NativeKey::PageDown => Some(OsCode::KEY_PAGEDOWN),
            NativeKey::Insert => Some(OsCode::KEY_INSERT),
            NativeKey::Delete => Some(OsCode::KEY_DELETE),
            NativeKey::MetaLeft => Some(OsCode::KEY_LEFTMETA),
            NativeKey::MetaRight => Some(OsCode::KEY_RIGHTMETA),
            NativeKey::ControlRight => Some(OsCode::KEY_RIGHTCTRL),
            NativeKey::Home => Some(OsCode::KEY_HOME),
            NativeKey::PrintScreen => Some(OsCode::KEY_HOME),
            NativeKey::NumLock => Some(OsCode::KEY_NUMLOCK),
            NativeKey::Quote => None,
            NativeKey::IntlBackslash => Some(OsCode::KEY_HOME),
            NativeKey::KpReturn => Some(OsCode::KEY_ENTER),
            NativeKey::KpMultiply => None,
            NativeKey::KpDivide => None,
            NativeKey::KpDelete => Some(OsCode::KEY_DELETE),
            NativeKey::Function => None,
            NativeKey::Unknown(_) => None,
        }
    }

    /// The native key that stands for this code, or `Unknown(0)` where it
    /// has none.
    pub fn as_key(self) -> (key: NativeKey)
        ensures
            key == self.native(),
            key is Unknown ==> key == NativeKey::Unknown(0),
    {
        match self {
            OsCode::KEY_0 => NativeKey::Kp0,
            OsCode::KEY_1 => NativeKey::Kp1,
            OsCode::KEY_2 => NativeKey::Kp2,
            OsCode::KEY_3 => NativeKey::Kp3,
            OsCode::KEY_4 => NativeKey::Kp4,
            OsCode::KEY_5 => NativeKey::Kp5,
            OsCode::KEY_6 => NativeKey::Kp6,
            OsCode::KEY_7 => NativeKey::Kp7,
            OsCode::KEY_8 => NativeKey::Kp8,
            OsCode::KEY_9 => NativeKey::Kp9,
            OsCode::KEY_A => NativeKey::KeyA,
            OsCode::KEY_B => NativeKey::KeyB,
            OsCode::KEY_C => NativeKey::KeyC,
            OsCode::KEY_D => NativeKey::KeyD,
            OsCode::KEY_E => NativeKey::KeyE,
            OsCode::KEY_F => NativeKey::KeyF,
            OsCode::KEY_G => NativeKey::KeyG,
            OsCode::KEY_H => NativeKey::KeyH,
            OsCode::KEY_I => NativeKey::KeyI,
            OsCode::KEY_J => NativeKey::KeyJ,
            OsCode::KEY_K => NativeKey::KeyK,
            OsCode::KEY_L => NativeKey::KeyL,
            OsCode::KEY_M => NativeKey::KeyM,
            OsCode::KEY_N => NativeKey::KeyN,
            OsCode::KEY_O => NativeKey::KeyO,
            OsCode::KEY_P => NativeKey::KeyP,
            OsCode::KEY_Q => NativeKey::KeyQ,
            OsCode::KEY_R => NativeKey::KeyR,
            OsCode::KEY_S => NativeKey::KeyS,
            OsCode::KEY_T => NativeKey::KeyT,
            OsCode::KEY_U => NativeKey::KeyU,
            OsCode::KEY_V => NativeKey::KeyV,
            OsCode::KEY_W => NativeKey::KeyW,
            OsCode::KEY_X => NativeKey::KeyX,
            OsCode::KEY_Y => NativeKey::KeyY,
            OsCode::KEY_Z => NativeKey::KeyZ,
            OsCode::KEY_SEMICOLON => NativeKey::SemiColon,
            OsCode::KEY_SLASH => NativeKey::Slash,
            OsCode::KEY_GRAVE => NativeKey::AltGr,
            OsCode::KEY_LEFTBRACE => NativeKey::LeftBracket,
            OsCode::KEY_BACKSLASH => NativeKey::BackSlash,
            OsCode::KEY_RIGHTBRACE => NativeKey::RightBracket,
            OsCode::KEY_APOSTROPHE => NativeKey::Quote,
            OsCode::KEY_MINUS => NativeKey::Minus,
            OsCode::KEY_DOT => NativeKey::Dot,
            OsCode::KEY_EQUAL => NativeKey::Equal,
            OsCode::KEY_BACKSPACE => NativeKey::Backspace,
            OsCode::KEY_ESC => NativeKey::Escape,
            OsCode::KEY_TAB => NativeKey::Tab,
            OsCode::KEY_ENTER => NativeKey::Return,
            OsCode::KEY_LEFTCTRL => NativeKey::ControlLeft,
            OsCode::KEY_LEFTSHIFT => NativeKey::ShiftLeft,
            OsCode::KEY_COMMA => NativeKey::Comma,
            OsCode::KEY_RIGHTSHIFT => NativeKey::ShiftRight,
            OsCode::KEY_KPASTERISK => NativeKey::Quote,
            OsCode::KEY_LEFTALT => NativeKey::Alt,
            OsCode::KEY_SPACE => NativeKey::Space,
            OsCode::KEY_CAPSLOCK => NativeKey::CapsLock,
            OsCode::KEY_F1 => NativeKey::F1,
            OsCode::KEY_F2 => NativeKey::F2,
            OsCode::KEY_F3 => NativeKey::F3,
            OsCode::KEY_F4 => NativeKey::F4,
            OsCode::KEY_F5 => NativeKey::F5,
            OsCode::KEY_F6 => NativeKey::F6,
            OsCode::KEY_F7 => NativeKey::F7,
            OsCode::KEY_F8 => NativeKey::F8,
            OsCode::KEY_F9 => NativeKey::F9,
            OsCode::KEY_F10 => NativeKey::F10,
            OsCode::KEY_F11 => NativeKey::F11,
            OsCode::KEY_F12 => NativeKey::F12,
            OsCode::KEY_KP0 => NativeKey::Num0,
            OsCode::KEY_KP1 => NativeKey::Num1,
            OsCode::KEY_KP2 => NativeKey::Num2,
            OsCode::KEY_KP3 => NativeKey::Num3,
            OsCode::KEY_KP4 => NativeKey::Num4,
            OsCode::KEY_KP5 => NativeKey::Num5,
            OsCode::KEY_KP6 => NativeKey::Num6,
            OsCode::KEY_KP7 => NativeKey::Num7,
            OsCode::KEY_KP8 => NativeKey::Num8,
            OsCode::KEY_KP9 => NativeKey::Num9,
            OsCode::KEY_KPMINUS => NativeKey::KpMinus,
            OsCode::KEY_KPPLUS => NativeKey::KpPlus,
            OsCode::KEY_KPDOT => NativeKey::Dot,
            OsCode::KEY_RIGHTCTRL => NativeKey::ControlRight,
            OsCode::KEY_KPSLASH => NativeKey::Slash,
            OsCode::KEY_RIGHTALT => NativeKey::AltGr,
            OsCode::KEY_HOME => NativeKey::Home,
            OsCode::KEY_UP => NativeKey::UpArrow,
            OsCode::KEY_PAGEUP => NativeKey::PageUp,
            OsCode::KEY_LEFT => NativeKey::UpArrow,
            OsCode::KEY_RIGHT => NativeKey::RightArrow,
            OsCode::KEY_END => NativeKey::End,
            OsCode::KEY_DOWN => NativeKey::DownArrow,
            OsCode::KEY_PAGEDOWN => NativeKey::PageDown,
            OsCode::KEY_INSERT => NativeKey::Insert,
            OsCode::KEY_DELETE => NativeKey::Delete,
            OsCode::KEY_LEFTMETA => NativeKey::MetaLeft,
            OsCode::KEY_RIGHTMETA => NativeKey::MetaRight,
            OsCode::KEY_NUMLOCK => NativeKey::NumLock,
            OsCode::KEY_SCROLLLOCK => NativeKey::ScrollLock,
            _ => NativeKey::Unknown(0),
        }
    }
}

impl KeyEvent {
    /// The logical event that a native event stands for: a press or a
    /// release of a key that has a canonical code. Every other native event
    /// stands for none.
    pub open spec fn of_native(event: NativeEvent) -> Option<KeyEvent> {
        match event {
            NativeEvent::KeyPress(key) => match OsCode::of_native(key) {
                Some(code) => Some(KeyEvent { code, value: KeyValue::Press }),
                None => None,
            },
            NativeEvent::KeyRelease(key) => match OsCode::of_native(key) {
                Some(code) => Some(KeyEvent { code, value: KeyValue::Release }),
                None => None,
            },
            _ => None,
        }
    }

    /// Translates a native event. `Err` says that the event is none of this
    /// layer's business and belongs to the host unchanged.
    pub fn try_from(item: NativeEvent) -> (translated: Result<KeyEvent, ()>)
        ensures
            translated is Ok <==> Self::of_native(item) is Some,
            translated matches Ok(event) ==> Self::of_native(item) == Some(event),
    {
        match item {
            NativeEvent::KeyPress(key) => match OsCode::from_key(key) {
                Some(code) => Ok(KeyEvent { code, value: KeyValue::Press }),
                None => Err(()),
            },
            NativeEvent::KeyRelease(key) => match OsCode::from_key(key) {
                Some(code) => Ok(KeyEvent { code, value: KeyValue::Release }),
                None => Err(()),
            },
            _ => Err(()),
        }
    }
}

/// A translated event is a press or a release of the native event's own key,
/// never a repeat: the platform reports none.
pub proof fn lemma_translated_event(event: NativeEvent)
    requires
        KeyEvent::of_native(event) is Some,
    ensures
        event.key() is Some,
        OsCode::of_native(event.key().unwrap()) == Some(KeyEvent::of_native(event).unwrap().code),
        event is KeyPress ==> KeyEvent::of_native(event).unwrap().value == KeyValue::Press,
        event is KeyRelease ==> KeyEvent::of_native(event).unwrap().value == KeyValue::Release,
        KeyEvent::of_native(event).unwrap().value != KeyValue::Repeat,
{
}

/// A key that the host could not name has no canonical code, whatever number
/// it came with.
pub proof fn lemma_unnamed_key_has_no_code(number: u32)
    ensures
        OsCode::of_native(NativeKey::Unknown(number)) is None,
{
}

/// Every code that a native key translates to has a native key of its own:
/// the unnamed key stands only for codes that no native key gives.
pub proof fn lemma_translated_code_has_native_key(key: NativeKey)
    ensures
        OsCode::of_native(key) is Some ==> !(OsCode::of_native(key).unwrap().native() is Unknown),
{
}

/// The two tables are not inverse to each other: there is a native key with a
/// canonical code whose native key is another one. The arrow keys show it:
/// the left arrow comes back as the up arrow.
pub proof fn lemma_round_trip_not_identity()
    ensures
        exists|key: NativeKey|
            OsCode::of_native(key) is Some && (#[trigger] OsCode::of_native(key)).unwrap().native()
                != key,
{
    let key = NativeKey::LeftArrow;
    assert(OsCode::of_native(key) == Some(OsCode::KEY_LEFT));
    assert(OsCode::KEY_LEFT.native() == NativeKey::UpArrow);
}

/// Several native keys may share one canonical code, so the code does not
/// tell which key was pressed.
pub proof fn lemma_native_keys_collapse()
    ensures
        exists|a: NativeKey, b: NativeKey|
            a != b && OsCode::of_native(a) is Some && #[trigger] OsCode::of_native(a)
                == #[trigger] OsCode::of_native(b),
{
    assert(OsCode::of_native(NativeKey::Home) == OsCode::of_native(NativeKey::PrintScreen));
}

/// Every canonical code is synthesized under a scan code of a named key or
/// under 0, so its scan code always fits 16 bits.
pub proof fn lemma_scan_code_of_code(code: OsCode)
    ensures
        keycodes::has_scan_code(code.native()),
        0 <= code.scan_code() <= keycodes::MAX_NAMED,
{
}

/// The scan codes that stand for a canonical code are the scan codes that
/// name a native key. The code need not be the one of that key: the scan
/// codes of the left and right arrows stand for the two mouse buttons.
pub proof fn lemma_scan_codes_agree(code: u16)
    ensures
        OsCode::of_scan_code(code) is Some <==> keycodes::key_of_scan_code(code) is Some,
        OsCode::of_scan_code(keycodes::LEFT_ARROW) == Some(OsCode::BTN_LEFT),
        OsCode::of_native(keycodes::key_of_scan_code(keycodes::LEFT_ARROW).unwrap()) == Some(
            OsCode::KEY_LEFT,
        ),
{
}

} // verus!
