use kanata::keycodes;
use kanata::keycodes::code_from_key;
use kanata::keys::{KeyEvent, KeyValue, OsCode};
use kanata::native::{NativeButton, NativeEvent, NativeKey};

#[test]
fn from_key_gives_the_canonical_code() {
    assert_eq!(OsCode::from_key(NativeKey::KeyA), Some(OsCode::KEY_A));
    assert_eq!(OsCode::from_key(NativeKey::Kp0), Some(OsCode::KEY_0));
    assert_eq!(OsCode::from_key(NativeKey::Num0), Some(OsCode::KEY_KP0));
    assert_eq!(OsCode::from_key(NativeKey::Escape), Some(OsCode::KEY_ESC));
    assert_eq!(OsCode::from_key(NativeKey::BackQuote), Some(OsCode::KEY_GRAVE));
    assert_eq!(OsCode::from_key(NativeKey::Pause), Some(OsCode::KEY_APOSTROPHE));
    assert_eq!(OsCode::from_key(NativeKey::ScrollLock), Some(OsCode::KEY_SCROLLLOCK));
    assert_eq!(OsCode::from_key(NativeKey::LeftArrow), Some(OsCode::KEY_LEFT));
}

#[test]
fn from_key_knows_no_code_for_some_keys() {
    assert_eq!(OsCode::from_key(NativeKey::Quote), None);
    assert_eq!(OsCode::from_key(NativeKey::KpMultiply), None);
    assert_eq!(OsCode::from_key(NativeKey::KpDivide), None);
    assert_eq!(OsCode::from_key(NativeKey::Function), None);
    assert_eq!(OsCode::from_key(NativeKey::Unknown(0)), None);
    assert_eq!(OsCode::from_key(NativeKey::Unknown(4_000_000_000)), None);
}

#[test]
fn from_key_is_a_function_of_the_key() {
    let keys = [NativeKey::KeyQ, NativeKey::Home, NativeKey::Quote, NativeKey::Unknown(7)];
    for key in keys {
        assert_eq!(OsCode::from_key(key), OsCode::from_key(key));
    }
}

#[test]
fn several_native_keys_share_a_code() {
    assert_eq!(OsCode::from_key(NativeKey::Home), Some(OsCode::KEY_HOME));
    assert_eq!(OsCode::from_key(NativeKey::PrintScreen), Some(OsCode::KEY_HOME));
    assert_eq!(OsCode::from_key(NativeKey::IntlBackslash), Some(OsCode::KEY_HOME));
    assert_eq!(OsCode::from_key(NativeKey::Return), Some(OsCode::KEY_ENTER));
    assert_eq!(OsCode::from_key(NativeKey::KpReturn), Some(OsCode::KEY_ENTER));
    assert_eq!(OsCode::from_key(NativeKey::Delete), Some(OsCode::KEY_DELETE));
    assert_eq!(OsCode::from_key(NativeKey::KpDelete), Some(OsCode::KEY_DELETE));
}

#[test]
fn as_key_gives_the_native_key() {
    assert_eq!(OsCode::KEY_A.as_key(), NativeKey::KeyA);
    assert_eq!(OsCode::KEY_0.as_key(), NativeKey::Kp0);
    assert_eq!(OsCode::KEY_KP0.as_key(), NativeKey::Num0);
    assert_eq!(OsCode::KEY_GRAVE.as_key(), NativeKey::AltGr);
    assert_eq!(OsCode::KEY_RIGHTALT.as_key(), NativeKey::AltGr);
    assert_eq!(OsCode::KEY_APOSTROPHE.as_key(), NativeKey::Quote);
    assert_eq!(OsCode::KEY_KPASTERISK.as_key(), NativeKey::Quote);
    assert_eq!(OsCode::KEY_KPDOT.as_key(), NativeKey::Dot);
    assert_eq!(OsCode::KEY_KPSLASH.as_key(), NativeKey::Slash);
    assert_eq!(OsCode::KEY_LEFT.as_key(), NativeKey::UpArrow);
    assert_eq!(OsCode::KEY_RIGHT.as_key(), NativeKey::RightArrow);
}

#[test]
fn as_key_falls_back_to_the_unnamed_key() {
    assert_eq!(OsCode::BTN_LEFT.as_key(), NativeKey::Unknown(0));
    assert_eq!(OsCode::BTN_RIGHT.as_key(), NativeKey::Unknown(0));
    assert_eq!(OsCode::KEY_FN.as_key(), NativeKey::Unknown(0));
    assert_eq!(OsCode::KEY_NUMERIC_1.as_key(), NativeKey::Unknown(0));
}

#[test]
fn round_trip_need_not_give_the_key_back() {
    // Some keys come back as themselves.
    let same = OsCode::from_key(NativeKey::KeyA).unwrap().as_key();
    assert_eq!(same, NativeKey::KeyA);
    // Others do not, and that is how the tables are meant to be.
    let left = OsCode::from_key(NativeKey::LeftArrow).unwrap().as_key();
    assert_eq!(left, NativeKey::UpArrow);
    assert_ne!(left, NativeKey::LeftArrow);
    let back_quote = OsCode::from_key(NativeKey::BackQuote).unwrap().as_key();
    assert_eq!(back_quote, NativeKey::AltGr);
    let pause = OsCode::from_key(NativeKey::Pause).unwrap().as_key();
    assert_eq!(pause, NativeKey::Quote);
    let print_screen = OsCode::from_key(NativeKey::PrintScreen).unwrap().as_key();
    assert_eq!(print_screen, NativeKey::Home);
}

#[test]
fn every_translated_code_has_a_native_key() {
    assert_eq!(OsCode::KEY_SCROLLLOCK.as_key(), NativeKey::ScrollLock);
    assert_eq!(OsCode::KEY_NUMLOCK.as_key(), NativeKey::NumLock);
    let keys = [
        NativeKey::ScrollLock,
        NativeKey::NumLock,
        NativeKey::Pause,
        NativeKey::PrintScreen,
        NativeKey::IntlBackslash,
        NativeKey::KpReturn,
        NativeKey::KpDelete,
        NativeKey::LeftArrow,
        NativeKey::BackQuote,
        NativeKey::KeyA,
        NativeKey::Kp5,
        NativeKey::Num5,
        NativeKey::F12,
    ];
    for key in keys {
        let back = OsCode::from_key(key).unwrap().as_key();
        assert!(!matches!(back, NativeKey::Unknown(_)));
    }
}

#[test]
fn code_from_key_gives_the_scan_code() {
    assert_eq!(code_from_key(NativeKey::KeyA), 0);
    assert_eq!(code_from_key(NativeKey::KeyS), 1);
    assert_eq!(code_from_key(NativeKey::Alt), 58);
    assert_eq!(code_from_key(NativeKey::AltGr), 61);
    assert_eq!(code_from_key(NativeKey::Escape), 53);
    assert_eq!(code_from_key(NativeKey::UpArrow), 126);
    assert_eq!(code_from_key(NativeKey::Function), 63);
    assert_eq!(code_from_key(NativeKey::Num1), 18);
    assert_eq!(code_from_key(NativeKey::Space), keycodes::SPACE);
    assert_eq!(keycodes::SPACE, 49);
}

#[test]
fn code_from_key_of_a_key_without_a_code_is_zero() {
    assert_eq!(code_from_key(NativeKey::Kp0), 0);
    assert_eq!(code_from_key(NativeKey::Home), 0);
    assert_eq!(code_from_key(NativeKey::ControlRight), 0);
    assert_eq!(code_from_key(NativeKey::PrintScreen), 0);
}

#[test]
fn code_from_key_keeps_the_number_of_an_unnamed_key() {
    assert_eq!(code_from_key(NativeKey::Unknown(0)), 0);
    assert_eq!(code_from_key(NativeKey::Unknown(300)), 300);
    assert_eq!(code_from_key(NativeKey::Unknown(65535)), 65535);
}

#[test]
fn as_u16_goes_through_the_native_key() {
    assert_eq!(OsCode::KEY_A.as_u16(), 0);
    assert_eq!(OsCode::KEY_S.as_u16(), 1);
    assert_eq!(OsCode::KEY_ESC.as_u16(), 53);
    assert_eq!(OsCode::KEY_LEFTALT.as_u16(), 58);
    assert_eq!(OsCode::KEY_GRAVE.as_u16(), 61);
    assert_eq!(OsCode::KEY_KP1.as_u16(), 18);
    // The left arrow is synthesized as the up arrow.
    assert_eq!(OsCode::KEY_LEFT.as_u16(), 126);
    assert_eq!(OsCode::KEY_UP.as_u16(), 126);
    // No scan code of its own.
    assert_eq!(OsCode::KEY_1.as_u16(), 0);
    assert_eq!(OsCode::KEY_SCROLLLOCK.as_u16(), 0);
}

#[test]
fn from_u16_gives_the_code_of_a_scan_code() {
    assert_eq!(OsCode::from_u16(0), Some(OsCode::KEY_A));
    assert_eq!(OsCode::from_u16(58), Some(OsCode::KEY_LEFTALT));
    assert_eq!(OsCode::from_u16(61), Some(OsCode::KEY_RIGHTALT));
    assert_eq!(OsCode::from_u16(53), Some(OsCode::KEY_ESC));
    assert_eq!(OsCode::from_u16(63), Some(OsCode::KEY_FN));
    assert_eq!(OsCode::from_u16(123), Some(OsCode::BTN_LEFT));
    assert_eq!(OsCode::from_u16(124), Some(OsCode::BTN_RIGHT));
    assert_eq!(OsCode::from_u16(125), Some(OsCode::KEY_DOWN));
    assert_eq!(OsCode::from_u16(126), Some(OsCode::KEY_UP));
    assert_eq!(OsCode::from_u16(50), Some(OsCode::KEY_APOSTROPHE));
    assert_eq!(OsCode::from_u16(39), Some(OsCode::KEY_APOSTROPHE));
    assert_eq!(OsCode::from_u16(18), Some(OsCode::KEY_NUMERIC_0));
    assert_eq!(OsCode::from_u16(29), Some(OsCode::KEY_NUMERIC_0));
    assert_eq!(OsCode::from_u16(19), Some(OsCode::KEY_NUMERIC_2));
}

#[test]
fn from_u16_knows_no_code_for_other_numbers() {
    assert_eq!(OsCode::from_u16(10), None);
    assert_eq!(OsCode::from_u16(52), None);
    assert_eq!(OsCode::from_u16(127), None);
    assert_eq!(OsCode::from_u16(u16::MAX), None);
}

#[test]
fn every_scan_code_of_a_code_is_a_named_one() {
    let codes = [
        OsCode::KEY_ESC,
        OsCode::KEY_Q,
        OsCode::KEY_UP,
        OsCode::KEY_F12,
        OsCode::BTN_LEFT,
        OsCode::KEY_NUMERIC_9,
    ];
    for code in codes {
        assert!(code.as_u16() <= keycodes::MAX_NAMED);
    }
}

#[test]
fn try_from_translates_presses_and_releases() {
    assert_eq!(
        KeyEvent::try_from(NativeEvent::KeyPress(NativeKey::KeyA)),
        Ok(KeyEvent { code: OsCode::KEY_A, value: KeyValue::Press })
    );
    assert_eq!(
        KeyEvent::try_from(NativeEvent::KeyRelease(NativeKey::Space)),
        Ok(KeyEvent::new(OsCode::KEY_SPACE, KeyValue::Release))
    );
}

#[test]
fn try_from_turns_other_events_away() {
    assert_eq!(KeyEvent::try_from(NativeEvent::KeyPress(NativeKey::Quote)), Err(()));
    assert_eq!(KeyEvent::try_from(NativeEvent::KeyRelease(NativeKey::Unknown(9))), Err(()));
    assert_eq!(KeyEvent::try_from(NativeEvent::ButtonPress(NativeButton::Left)), Err(()));
    assert_eq!(KeyEvent::try_from(NativeEvent::ButtonRelease(NativeButton::Unknown(4))), Err(()));
    assert_eq!(KeyEvent::try_from(NativeEvent::MouseMove), Err(()));
    assert_eq!(KeyEvent::try_from(NativeEvent::Wheel { delta_x: 1, delta_y: -1 }), Err(()));
}

#[test]
fn key_from_code_names_the_key_of_a_scan_code() {
    assert_eq!(keycodes::key_from_code(0), Some(NativeKey::KeyA));
    assert_eq!(keycodes::key_from_code(58), Some(NativeKey::Alt));
    assert_eq!(keycodes::key_from_code(123), Some(NativeKey::LeftArrow));
    assert_eq!(keycodes::key_from_code(126), Some(NativeKey::UpArrow));
    assert_eq!(keycodes::key_from_code(63), Some(NativeKey::Function));
    assert_eq!(keycodes::key_from_code(10), None);
    assert_eq!(keycodes::key_from_code(127), None);
    assert_eq!(keycodes::key_from_code(u16::MAX), None);
}

#[test]
fn key_from_code_undoes_code_from_key() {
    let keys = [
        NativeKey::KeyA,
        NativeKey::Escape,
        NativeKey::Num5,
        NativeKey::RightArrow,
        NativeKey::Function,
        NativeKey::ShiftRight,
    ];
    for key in keys {
        assert_eq!(keycodes::key_from_code(code_from_key(key)), Some(key));
    }
    // A key without a scan code of its own shares the fallback with the key
    // whose code it is.
    assert_eq!(keycodes::key_from_code(code_from_key(NativeKey::Home)), Some(NativeKey::KeyA));
}

#[test]
fn scan_code_and_native_key_may_disagree_on_the_code() {
    let key = keycodes::key_from_code(keycodes::LEFT_ARROW).unwrap();
    assert_eq!(OsCode::from_key(key), Some(OsCode::KEY_LEFT));
    assert_eq!(OsCode::from_u16(keycodes::LEFT_ARROW), Some(OsCode::BTN_LEFT));
}
