use kanata::capture::{ExitWatch, Kanata, Verdict};
use kanata::keys::{KeyEvent, KeyValue, OsCode};
use kanata::keyset::KeySet;
use kanata::native::{NativeButton, NativeEvent, NativeKey};

fn remapping(codes: &[OsCode]) -> Kanata {
    Kanata::new(KeySet::from_codes(&codes.to_vec()))
}

fn press(key: NativeKey) -> NativeEvent {
    NativeEvent::KeyPress(key)
}

fn release(key: NativeKey) -> NativeEvent {
    NativeEvent::KeyRelease(key)
}

fn emitted(code: OsCode, value: KeyValue) -> Verdict {
    Verdict::Suppress(KeyEvent { code, value })
}

#[test]
fn press_press_release_press_of_one_key() {
    let mut kanata = remapping(&[OsCode::KEY_A]);
    assert_eq!(kanata.handle_event(press(NativeKey::KeyA)), emitted(OsCode::KEY_A, KeyValue::Press));
    assert_eq!(kanata.handle_event(press(NativeKey::KeyA)), emitted(OsCode::KEY_A, KeyValue::Repeat));
    assert_eq!(
        kanata.handle_event(release(NativeKey::KeyA)),
        emitted(OsCode::KEY_A, KeyValue::Release)
    );
    assert_eq!(kanata.handle_event(press(NativeKey::KeyA)), emitted(OsCode::KEY_A, KeyValue::Press));
}

#[test]
fn repeat_is_told_per_key() {
    let mut kanata = remapping(&[OsCode::KEY_A, OsCode::KEY_B]);
    assert_eq!(kanata.handle_event(press(NativeKey::KeyA)), emitted(OsCode::KEY_A, KeyValue::Press));
    assert_eq!(kanata.handle_event(press(NativeKey::KeyB)), emitted(OsCode::KEY_B, KeyValue::Press));
    assert_eq!(kanata.handle_event(press(NativeKey::KeyA)), emitted(OsCode::KEY_A, KeyValue::Repeat));
}

#[test]
fn detect_repeat_follows_the_keys_that_are_down() {
    let mut kanata = remapping(&[]);
    let a_down = KeyEvent::new(OsCode::KEY_A, KeyValue::Press);
    let a_up = KeyEvent::new(OsCode::KEY_A, KeyValue::Release);
    assert!(!kanata.is_pressed(OsCode::KEY_A));
    assert_eq!(kanata.detect_repeat(a_down).value, KeyValue::Press);
    assert!(kanata.is_pressed(OsCode::KEY_A));
    assert_eq!(kanata.detect_repeat(a_down).value, KeyValue::Repeat);
    assert_eq!(kanata.detect_repeat(a_down).value, KeyValue::Repeat);
    assert!(kanata.is_pressed(OsCode::KEY_A));
    assert_eq!(kanata.detect_repeat(a_up), a_up);
    assert!(!kanata.is_pressed(OsCode::KEY_A));
    // A release of a key that is not down is still a release.
    assert_eq!(kanata.detect_repeat(a_up), a_up);
    // A repeat that comes in as such stays one and moves no key.
    let b_again = KeyEvent::new(OsCode::KEY_B, KeyValue::Repeat);
    assert_eq!(kanata.detect_repeat(b_again), b_again);
    assert!(!kanata.is_pressed(OsCode::KEY_B));
}

#[test]
fn unmapped_key_passes_through() {
    let mut kanata = remapping(&[OsCode::KEY_A]);
    assert_eq!(kanata.handle_event(press(NativeKey::KeyB)), Verdict::PassThrough);
    assert_eq!(kanata.handle_event(press(NativeKey::KeyB)), Verdict::PassThrough);
    assert_eq!(kanata.handle_event(release(NativeKey::KeyB)), Verdict::PassThrough);
    assert!(!kanata.is_pressed(OsCode::KEY_B));
    assert!(!kanata.is_mapped(OsCode::KEY_B));
    assert!(kanata.is_mapped(OsCode::KEY_A));
}

#[test]
fn untranslated_events_pass_through() {
    let mut kanata = remapping(&[OsCode::KEY_A, OsCode::KEY_APOSTROPHE, OsCode::BTN_LEFT]);
    assert_eq!(kanata.handle_event(press(NativeKey::Quote)), Verdict::PassThrough);
    assert_eq!(kanata.handle_event(press(NativeKey::Unknown(77))), Verdict::PassThrough);
    assert_eq!(kanata.handle_event(press(NativeKey::Function)), Verdict::PassThrough);
    assert_eq!(
        kanata.handle_event(NativeEvent::ButtonPress(NativeButton::Left)),
        Verdict::PassThrough
    );
    assert_eq!(kanata.handle_event(NativeEvent::MouseMove), Verdict::PassThrough);
    assert_eq!(
        kanata.handle_event(NativeEvent::Wheel { delta_x: 0, delta_y: 3 }),
        Verdict::PassThrough
    );
}

#[test]
fn mapped_key_is_withheld_with_the_shared_code() {
    let mut kanata = remapping(&[OsCode::KEY_HOME]);
    assert_eq!(
        kanata.handle_event(press(NativeKey::PrintScreen)),
        emitted(OsCode::KEY_HOME, KeyValue::Press)
    );
    // The two native keys are one key above the boundary.
    assert_eq!(
        kanata.handle_event(press(NativeKey::Home)),
        emitted(OsCode::KEY_HOME, KeyValue::Repeat)
    );
    assert_eq!(
        kanata.handle_event(release(NativeKey::IntlBackslash)),
        emitted(OsCode::KEY_HOME, KeyValue::Release)
    );
}

#[test]
fn exit_combination_ends_the_process_unmapped() {
    let mut kanata = remapping(&[]);
    assert_eq!(kanata.handle_event(press(NativeKey::ControlLeft)), Verdict::PassThrough);
    assert_eq!(kanata.handle_event(press(NativeKey::Space)), Verdict::PassThrough);
    assert_eq!(kanata.handle_event(press(NativeKey::Escape)), Verdict::Exit);
}

#[test]
fn exit_combination_ends_the_process_mapped() {
    let mut kanata = remapping(&[OsCode::KEY_LEFTCTRL, OsCode::KEY_SPACE, OsCode::KEY_ESC]);
    assert_eq!(
        kanata.handle_event(press(NativeKey::Escape)),
        emitted(OsCode::KEY_ESC, KeyValue::Press)
    );
    assert_eq!(
        kanata.handle_event(press(NativeKey::Space)),
        emitted(OsCode::KEY_SPACE, KeyValue::Press)
    );
    assert_eq!(kanata.handle_event(press(NativeKey::ControlLeft)), Verdict::Exit);
}

#[test]
fn exit_combination_needs_all_three_keys_down() {
    let mut kanata = remapping(&[OsCode::KEY_SPACE]);
    assert_eq!(kanata.handle_event(press(NativeKey::ControlLeft)), Verdict::PassThrough);
    assert_eq!(
        kanata.handle_event(press(NativeKey::Space)),
        emitted(OsCode::KEY_SPACE, KeyValue::Press)
    );
    assert_eq!(kanata.handle_event(release(NativeKey::ControlLeft)), Verdict::PassThrough);
    assert_eq!(kanata.handle_event(press(NativeKey::Escape)), Verdict::PassThrough);
    // The right control key is another key.
    assert_eq!(kanata.handle_event(press(NativeKey::ControlRight)), Verdict::PassThrough);
    assert_eq!(kanata.handle_event(press(NativeKey::ControlLeft)), Verdict::Exit);
}

#[test]
fn exit_watch_notes_presses_and_releases() {
    let mut watch = ExitWatch::new();
    assert_eq!(watch, ExitWatch { lctl: false, spc: false, esc: false });
    assert!(!watch.observe(KeyEvent::new(OsCode::KEY_ESC, KeyValue::Press)));
    assert!(!watch.observe(KeyEvent::new(OsCode::KEY_SPACE, KeyValue::Press)));
    assert!(!watch.observe(KeyEvent::new(OsCode::KEY_A, KeyValue::Press)));
    assert_eq!(watch, ExitWatch { lctl: false, spc: true, esc: true });
    assert!(!watch.observe(KeyEvent::new(OsCode::KEY_LEFTCTRL, KeyValue::Repeat)));
    assert!(watch.observe(KeyEvent::new(OsCode::KEY_LEFTCTRL, KeyValue::Press)));
    assert!(watch.observe(KeyEvent::new(OsCode::KEY_A, KeyValue::Release)));
    assert!(!watch.observe(KeyEvent::new(OsCode::KEY_SPACE, KeyValue::Release)));
    assert_eq!(watch, ExitWatch { lctl: true, spc: false, esc: true });
}

#[test]
fn reload_keeps_the_keys_that_are_down() {
    let mut kanata = remapping(&[OsCode::KEY_A]);
    assert_eq!(kanata.handle_event(press(NativeKey::KeyA)), emitted(OsCode::KEY_A, KeyValue::Press));
    kanata.set_mapped_keys(KeySet::from_codes(&vec![OsCode::KEY_A, OsCode::KEY_B]));
    assert!(kanata.is_mapped(OsCode::KEY_B));
    assert!(kanata.is_pressed(OsCode::KEY_A));
    assert_eq!(kanata.handle_event(press(NativeKey::KeyA)), emitted(OsCode::KEY_A, KeyValue::Repeat));
    assert_eq!(kanata.handle_event(press(NativeKey::KeyB)), emitted(OsCode::KEY_B, KeyValue::Press));
}

#[test]
fn check_release_non_physical_shift_does_nothing() {
    let mut kanata = remapping(&[OsCode::KEY_LEFTSHIFT]);
    kanata.handle_event(press(NativeKey::ShiftLeft));
    assert_eq!(kanata.check_release_non_physical_shift(), Ok(()));
    assert!(kanata.is_pressed(OsCode::KEY_LEFTSHIFT));
    assert!(kanata.is_mapped(OsCode::KEY_LEFTSHIFT));
}
