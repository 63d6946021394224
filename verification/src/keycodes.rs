//! The raw scan codes of the platform, and the native key that each stands for.

use vstd::prelude::*;
use crate::native::NativeKey;

verus! {

/// Option.
pub const ALT: u16 = 58;
/// The right Option key.
pub const ALT_GR: u16 = 61;
pub const BACKSPACE: u16 = 51;
pub const CAPS_LOCK: u16 = 57;
/// The one Control key that the platform tells apart.
pub const CONTROL_LEFT: u16 = 59;
pub const DOWN_ARROW: u16 = 125;
pub const ESCAPE: u16 = 53;
pub const F1: u16 = 122;
pub const F10: u16 = 109;
pub const F11: u16 = 103;
pub const F12: u16 = 111;
pub const F2: u16 = 120;
pub const F3: u16 = 99;
pub const F4: u16 = 118;
pub const F5: u16 = 96;
pub const F6: u16 = 97;
pub const F7: u16 = 98;
pub const F8: u16 = 100;
pub const F9: u16 = 101;
pub const FUNCTION: u16 = 63;
pub const LEFT_ARROW: u16 = 123;
pub const META_LEFT: u16 = 55;
pub const META_RIGHT: u16 = 54;
pub const RETURN: u16 = 36;
pub const RIGHT_ARROW: u16 = 124;
pub const SHIFT_LEFT: u16 = 56;
pub const SHIFT_RIGHT: u16 = 60;
pub const SPACE: u16 = 49;
pub const TAB: u16 = 48;
pub const UP_ARROW: u16 = 126;
pub const BACK_QUOTE: u16 = 50;
pub const NUM1: u16 = 18;
pub const NUM2: u16 = 19;
pub const NUM3: u16 = 20;
pub const NUM4: u16 = 21;
pub const NUM5: u16 = 23;
pub const NUM6: u16 = 22;
pub const NUM7: u16 = 26;
pub const NUM8: u16 = 28;
pub const NUM9: u16 = 25;
pub const NUM0: u16 = 29;
pub const MINUS: u16 = 27;
pub const EQUAL: u16 = 24;
pub const KEY_Q: u16 = 12;
pub const KEY_W: u16 = 13;
pub const KEY_E: u16 = 14;
pub const KEY_R: u16 = 15;
pub const KEY_T: u16 = 17;
pub const KEY_Y: u16 = 16;
pub const KEY_U: u16 = 32;
pub const KEY_I: u16 = 34;
pub const KEY_O: u16 = 31;
pub const KEY_P: u16 = 35;
pub const LEFT_BRACKET: u16 = 33;
pub const RIGHT_BRACKET: u16 = 30;
pub const KEY_A: u16 = 0;
pub const KEY_S: u16 = 1;
pub const KEY_D: u16 = 2;
pub const KEY_F: u16 = 3;
pub const KEY_G: u16 = 5;
pub const KEY_H: u16 = 4;
pub const KEY_J: u16 = 38;
pub const KEY_K: u16 = 40;
pub const KEY_L: u16 = 37;
pub const SEMI_COLON: u16 = 41;
pub const QUOTE: u16 = 39;
pub const BACK_SLASH: u16 = 42;
pub const KEY_Z: u16 = 6;
pub const KEY_X: u16 = 7;
pub const KEY_C: u16 = 8;
pub const KEY_V: u16 = 9;
pub const KEY_B: u16 = 11;
pub const KEY_N: u16 = 45;
pub const KEY_M: u16 = 46;
pub const COMMA: u16 = 43;
pub const DOT: u16 = 47;
pub const SLASH: u16 = 44;

/// The largest scan code that names a key.
pub const MAX_NAMED: u16 = 126;

/// The raw scan code of a native key.
///
/// A key that the platform gives no code of its own has the code 0, and a key
/// that the host could not name keeps the number it was reported with.
pub open spec fn scan_code(key: NativeKey) -> int {
    match key {
        NativeKey::Alt => ALT as int,
        NativeKey::AltGr => ALT_GR as int,
        NativeKey::Backspace => BACKSPACE as int,
        NativeKey::CapsLock => CAPS_LOCK as int,
        NativeKey::ControlLeft => CONTROL_LEFT as int,
        NativeKey::DownArrow => DOWN_ARROW as int,
        NativeKey::Escape => ESCAPE as int,
        NativeKey::F1 => F1 as int,
        NativeKey::F10 => F10 as int,
        NativeKey::F11 => F11 as int,
        NativeKey::F12 => F12 as int,
        NativeKey::F2 => F2 as int,
        NativeKey::F3 => F3 as int,
        NativeKey::F4 => F4 as int,
        NativeKey::F5 => F5 as int,
        NativeKey::F6 => F6 as int,
        NativeKey::F7 => F7 as int,
        NativeKey::F8 => F8 as int,
        NativeKey::F9 => F9 as int,
        NativeKey::LeftArrow => LEFT_ARROW as int,
        NativeKey::MetaLeft => META_LEFT as int,
        NativeKey::MetaRight => META_RIGHT as int,
        NativeKey::Return => RETURN as int,
        NativeKey::RightArrow => RIGHT_ARROW as int,
        NativeKey::ShiftLeft => SHIFT_LEFT as int,
        NativeKey::ShiftRight => SHIFT_RIGHT as int,
        NativeKey::Space => SPACE as int,
        NativeKey::Tab => TAB as int,
        NativeKey::UpArrow => UP_ARROW as int,
        NativeKey::BackQuote => BACK_QUOTE as int,
        NativeKey::Num1 => NUM1 as int,
        NativeKey::Num2 => NUM2 as int,
        NativeKey::Num3 => NUM3 as int,
        NativeKey::Num4 => NUM4 as int,
        NativeKey::Num5 => NUM5 as int,
        NativeKey::Num6 => NUM6 as int,
        NativeKey::Num7 => NUM7 as int,
        NativeKey::Num8 => NUM8 as int,
        NativeKey::Num9 => NUM9 as int,
        NativeKey::Num0 => NUM0 as int,
        NativeKey::Minus => MINUS as int,
        NativeKey::Equal => EQUAL as int,
        NativeKey::KeyQ => KEY_Q as int,
        NativeKey::KeyW => KEY_W as int,
        NativeKey::KeyE => KEY_E as int,
        NativeKey::KeyR => KEY_R as int,
        NativeKey::KeyT => KEY_T as int,
        NativeKey::KeyY => KEY_Y as int,
        NativeKey::KeyU => KEY_U as int,
        NativeKey::KeyI => KEY_I as int,
        NativeKey::KeyO => KEY_O as int,
        NativeKey::KeyP => KEY_P as int,
        NativeKey::LeftBracket => LEFT_BRACKET as int,
        NativeKey::RightBracket => RIGHT_BRACKET as int,
        NativeKey::KeyA => KEY_A as int,
        NativeKey::KeyS => KEY_S as int,
        NativeKey::KeyD => KEY_D as int,
        NativeKey::KeyF => KEY_F as int,
        NativeKey::KeyG => KEY_G as int,
        NativeKey::KeyH => KEY_H as int,
        NativeKey::KeyJ => KEY_J as int,
        NativeKey::KeyK => KEY_K as int,
        NativeKey::KeyL => KEY_L as int,
        NativeKey::SemiColon => SEMI_COLON as int,
        NativeKey::Quote => QUOTE as int,
        NativeKey::BackSlash => BACK_SLASH as int,
        NativeKey::KeyZ => KEY_Z as int,
        NativeKey::KeyX => KEY_X as int,
        NativeKey::KeyC => KEY_C as int,
        NativeKey::KeyV => KEY_V as int,
        NativeKey::KeyB => KEY_B as int,
        NativeKey::KeyN => KEY_N as int,
        NativeKey::KeyM => KEY_M as int,
        NativeKey::Comma => COMMA as int,
        NativeKey::Dot => DOT as int,
        NativeKey::Slash => SLASH as int,
        NativeKey::Function => FUNCTION as int,
        NativeKey::Unknown(code) => code as int,
        _ => 0,
    }
}

/// Whether the scan code of `key` fits the platform's 16 bits: every named key
/// does, and an unnamed one where its number does.
pub open spec fn has_scan_code(key: NativeKey) -> bool {
    key matches NativeKey::Unknown(code) ==> code <= u16::MAX
}

/// The raw scan code of a native key.
pub fn code_from_key(key: NativeKey) -> (code: u16)
    requires
        has_scan_code(key),
    ensures
        code == scan_code(key),
{
    match key {
        NativeKey::Alt => ALT,
        NativeKey::AltGr => ALT_GR,
        NativeKey::Backspace => BACKSPACE,
        NativeKey::CapsLock => CAPS_LOCK,
        NativeKey::ControlLeft => CONTROL_LEFT,
        NativeKey::DownArrow => DOWN_ARROW,
        NativeKey::Escape => ESCAPE,
        NativeKey::F1 => F1,
        NativeKey::F10 => F10,
        NativeKey::F11 => F11,
        NativeKey::F12 => F12,
        NativeKey::F2 => F2,
        NativeKey::F3 => F3,
        NativeKey::F4 => F4,
        NativeKey::F5 => F5,
        NativeKey::F6 => F6,
        NativeKey::F7 => F7,
        NativeKey::F8 => F8,
        NativeKey::F9 => F9,
        NativeKey::LeftArrow => LEFT_ARROW,
        NativeKey::MetaLeft => META_LEFT,
        NativeKey::MetaRight => META_RIGHT,
        NativeKey::Return => RETURN,
        NativeKey::RightArrow => RIGHT_ARROW,
        NativeKey::ShiftLeft => SHIFT_LEFT,
        NativeKey::ShiftRight => SHIFT_RIGHT,
        NativeKey::Space => SPACE,
        NativeKey::Tab => TAB,
        NativeKey::UpArrow => UP_ARROW,
        NativeKey::BackQuote => BACK_QUOTE,
        NativeKey::Num1 => NUM1,
        NativeKey::Num2 => NUM2,
        NativeKey::Num3 => NUM3,
        NativeKey::Num4 => NUM4,
        NativeKey::Num5 => NUM5,
        NativeKey::Num6 => NUM6,
        NativeKey::Num7 => NUM7,
        NativeKey::Num8 => NUM8,
        NativeKey::Num9 => NUM9,
        NativeKey::Num0 => NUM0,
        NativeKey::Minus => MINUS,
        NativeKey::Equal => EQUAL,
        NativeKey::KeyQ => KEY_Q,
        NativeKey::KeyW => KEY_W,
        NativeKey::KeyE => KEY_E,
        NativeKey::KeyR => KEY_R,
        NativeKey::KeyT => KEY_T,
        NativeKey::KeyY => KEY_Y,
        NativeKey::KeyU => KEY_U,
        NativeKey::KeyI => KEY_I,
        NativeKey::KeyO => KEY_O,
        NativeKey::KeyP => KEY_P,
        NativeKey::LeftBracket => LEFT_BRACKET,
        NativeKey::RightBracket => RIGHT_BRACKET,
        NativeKey::KeyA => KEY_A,
        NativeKey::KeyS => KEY_S,
        NativeKey::KeyD => KEY_D,
        NativeKey::KeyF => KEY_F,
        NativeKey::KeyG => KEY_G,
        NativeKey::KeyH => KEY_H,
        NativeKey::KeyJ => KEY_J,
        NativeKey::KeyK => KEY_K,
        NativeKey::KeyL => KEY_L,
        NativeKey::SemiColon => SEMI_COLON,
        NativeKey::Quote => QUOTE,
        NativeKey::BackSlash => BACK_SLASH,
        NativeKey::KeyZ => KEY_Z,
        NativeKey::KeyX => KEY_X,
        NativeKey::KeyC => KEY_C,
        NativeKey::KeyV => KEY_V,
        NativeKey::KeyB => KEY_B,
        NativeKey::KeyN => KEY_N,
        NativeKey::KeyM => KEY_M,
        NativeKey::Comma => COMMA,
        NativeKey::Dot => DOT,
        NativeKey::Slash => SLASH,
        NativeKey::Function => FUNCTION,
        NativeKey::Unknown(code) => code as u16,
        _ => 0,
    }
}

/// The native key that a raw scan code names, where it names one.
pub open spec fn key_of_scan_code(code: u16) -> Option<NativeKey> {
    match code {
        ALT => Some(NativeKey::Alt),
        ALT_GR => Some(NativeKey::AltGr),
        BACKSPACE => Some(NativeKey::Backspace),
        CAPS_LOCK => Some(NativeKey::CapsLock),
        CONTROL_LEFT => Some(NativeKey::ControlLeft),
        DOWN_ARROW => Some(NativeKey::DownArrow),
        ESCAPE => Some(NativeKey::Escape),
        F1 => Some(NativeKey::F1),
        F10 => Some(NativeKey::F10),
        F11 => Some(NativeKey::F11),
        F12 => Some(NativeKey::F12),
        F2 => Some(NativeKey::F2),
        F3 => Some(NativeKey::F3),
        F4 => Some(NativeKey::F4),
        F5 => Some(NativeKey::F5),
        F6 => Some(NativeKey::F6),
        F7 => Some(NativeKey::F7),
        F8 => Some(NativeKey::F8),
        F9 => Some(NativeKey::F9),
        LEFT_ARROW => Some(NativeKey::LeftArrow),
        META_LEFT => Some(NativeKey::MetaLeft),
        META_RIGHT => Some(NativeKey::MetaRight),
        RETURN => Some(NativeKey::Return),
        RIGHT_ARROW => Some(NativeKey::RightArrow),
        SHIFT_LEFT => Some(NativeKey::ShiftLeft),
        SHIFT_RIGHT => Some(NativeKey::ShiftRight),
        SPACE => Some(NativeKey::Space),
        TAB => Some(NativeKey::Tab),
        UP_ARROW => Some(NativeKey::UpArrow),
        BACK_QUOTE => Some(NativeKey::BackQuote),
        NUM1 => Some(NativeKey::Num1),
        NUM2 => Some(NativeKey::Num2),
        NUM3 => Some(NativeKey::Num3),
        NUM4 => Some(NativeKey::Num4),
        NUM5 => Some(NativeKey::Num5),
        NUM6 => Some(NativeKey::Num6),
        NUM7 => Some(NativeKey::Num7),
        NUM8 => Some(NativeKey::Num8),
        NUM9 => Some(NativeKey::Num9),
        NUM0 => Some(NativeKey::Num0),
        MINUS => Some(NativeKey::Minus),
        EQUAL => Some(NativeKey::Equal),
        KEY_Q => Some(NativeKey::KeyQ),
        KEY_W => Some(NativeKey::KeyW),
        KEY_E => Some(NativeKey::KeyE),
        KEY_R => Some(NativeKey::KeyR),
        KEY_T => Some(NativeKey::KeyT),
        KEY_Y => Some(NativeKey::KeyY),
        KEY_U => Some(NativeKey::KeyU),
        KEY_I => Some(NativeKey::KeyI),
        KEY_O => Some(NativeKey::KeyO),
        KEY_P => Some(NativeKey::KeyP),
        LEFT_BRACKET => Some(NativeKey::LeftBracket),
        RIGHT_BRACKET => Some(NativeKey::RightBracket),
        KEY_A => Some(NativeKey::KeyA),
        KEY_S => Some(NativeKey::KeyS),
        KEY_D => Some(NativeKey::KeyD),
        KEY_F => Some(NativeKey::KeyF),
        KEY_G => Some(NativeKey::KeyG),
        KEY_H => Some(NativeKey::KeyH),
        KEY_J => Some(NativeKey::KeyJ),
        KEY_K => Some(NativeKey::KeyK),
        KEY_L => Some(NativeKey::KeyL),
        SEMI_COLON => Some(NativeKey::SemiColon),
        QUOTE => Some(NativeKey::Quote),
        BACK_SLASH => Some(NativeKey::BackSlash),
        KEY_Z => Some(NativeKey::KeyZ),
        KEY_X => Some(NativeKey::KeyX),
        KEY_C => Some(NativeKey::KeyC),
        KEY_V => Some(NativeKey::KeyV),
        KEY_B => Some(NativeKey::KeyB),
        KEY_N => Some(NativeKey::KeyN),
        KEY_M => Some(NativeKey::KeyM),
        COMMA => Some(NativeKey::Comma),
        DOT => Some(NativeKey::Dot),
        SLASH => Some(NativeKey::Slash),
        FUNCTION => Some(NativeKey::Function),
        _ => None,
    }
}

/// The native key that a raw scan code names, or `None` for a number that
/// names no key.
pub fn key_from_code(code: u16) -> (found: Option<NativeKey>)
    ensures
        found == key_of_scan_code(code),
        found matches Some(key) ==> scan_code(key) == code && !(key is Unknown),
{
    match code {
        ALT => Some(NativeKey::Alt),
        ALT_GR => Some(NativeKey::AltGr),
        BACKSPACE => Some(NativeKey::Backspace),
        CAPS_LOCK => Some(NativeKey::CapsLock),
        CONTROL_LEFT => Some(NativeKey::ControlLeft),
        DOWN_ARROW => Some(NativeKey::DownArrow),
        ESCAPE => Some(NativeKey::Escape),
        F1 => Some(NativeKey::F1),
        F10 => Some(NativeKey::F10),
        F11 => Some(NativeKey::F11),
        F12 => Some(NativeKey::F12),
        F2 => Some(NativeKey::F2),
        F3 => Some(NativeKey::F3),
        F4 => Some(NativeKey::F4),
        F5 => Some(NativeKey::F5),
        F6 => Some(NativeKey::F6),
        F7 => Some(NativeKey::F7),
        F8 => Some(NativeKey::F8),
        F9 => Some(NativeKey::F9),
        LEFT_ARROW => Some(NativeKey::LeftArrow),
        META_LEFT => Some(NativeKey::MetaLeft),
        META_RIGHT => Some(NativeKey::MetaRight),
        RETURN => Some(NativeKey::Return),
        RIGHT_ARROW => Some(NativeKey::RightArrow),
        SHIFT_LEFT => Some(NativeKey::ShiftLeft),
        SHIFT_RIGHT => Some(NativeKey::ShiftRight),
        SPACE => Some(NativeKey::Space),
        TAB => Some(NativeKey::Tab),
        UP_ARROW => Some(NativeKey::UpArrow),
        BACK_QUOTE => Some(NativeKey::BackQuote),
        NUM1 => Some(NativeKey::Num1),
        NUM2 => Some(NativeKey::Num2),
        NUM3 => Some(NativeKey::Num3),
        NUM4 => Some(NativeKey::Num4),
        NUM5 => Some(NativeKey::Num5),
        NUM6 => Some(NativeKey::Num6),
        NUM7 => Some(NativeKey::Num7),
        NUM8 => Some(NativeKey::Num8),
        NUM9 => Some(NativeKey::Num9),
        NUM0 => Some(NativeKey::Num0),
        MINUS => Some(NativeKey::Minus),
        EQUAL => Some(NativeKey::Equal),
        KEY_Q => Some(NativeKey::KeyQ),
        KEY_W => Some(NativeKey::KeyW),
        KEY_E => Some(NativeKey::KeyE),
        KEY_R => Some(NativeKey::KeyR),
        KEY_T => Some(NativeKey::KeyT),
        KEY_Y => Some(NativeKey::KeyY),
        KEY_U => Some(NativeKey::KeyU),
        KEY_I => Some(NativeKey::KeyI),
        KEY_O => Some(NativeKey::KeyO),
        KEY_P => Some(NativeKey::KeyP),
        LEFT_BRACKET => Some(NativeKey::LeftBracket),
        RIGHT_BRACKET => Some(NativeKey::RightBracket),
        KEY_A => Some(NativeKey::KeyA),
        KEY_S => Some(NativeKey::KeyS),
        KEY_D => Some(NativeKey::KeyD),
        KEY_F => Some(NativeKey::KeyF),
        KEY_G => Some(NativeKey::KeyG),
        KEY_H => Some(NativeKey::KeyH),
        KEY_J => Some(NativeKey::KeyJ),
        KEY_K => Some(NativeKey::KeyK),
        KEY_L => Some(NativeKey::KeyL),
        SEMI_COLON => Some(NativeKey::SemiColon),
        QUOTE => Some(NativeKey::Quote),
        BACK_SLASH => Some(NativeKey::BackSlash),
        KEY_Z => Some(NativeKey::KeyZ),
        KEY_X => Some(NativeKey::KeyX),
        KEY_C => Some(NativeKey::KeyC),
        KEY_V => Some(NativeKey::KeyV),
        KEY_B => Some(NativeKey::KeyB),
        KEY_N => Some(NativeKey::KeyN),
        KEY_M => Some(NativeKey::KeyM),
        COMMA => Some(NativeKey::Comma),
        DOT => Some(NativeKey::Dot),
        SLASH => Some(NativeKey::Slash),
        FUNCTION => Some(NativeKey::Function),
        _ => None,
    }
}

/// A named key's scan code is one of the platform's, and so at most 126.
pub proof fn lemma_named_code_bound(key: NativeKey)
    requires
        !(key is Unknown),
    ensures
        0 <= scan_code(key) <= MAX_NAMED,
{
}

/// The key that a scan code names has that scan code.
pub proof fn lemma_key_of_scan_code(code: u16)
    requires
        key_of_scan_code(code) is Some,
    ensures
        scan_code(key_of_scan_code(code).unwrap()) == code,
        !(key_of_scan_code(code).unwrap() is Unknown),
{
}

/// A named key with a scan code of its own is the key that its scan code
/// names. The code 0 is the fallback of the keys that have none, and names
/// the one key whose own code it is.
pub proof fn lemma_scan_code_names_key(key: NativeKey)
    requires
        !(key is Unknown),
    ensures
        scan_code(key) != 0 ==> key_of_scan_code(scan_code(key) as u16) == Some(key),
        key_of_scan_code(0) == Some(NativeKey::KeyA),
        key_of_scan_code(scan_code(key) as u16) is Some,
{
}

} // verus!
