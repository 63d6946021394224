//! The capture path: what becomes of each native event that the host hands to
//! the interception hook.
//!
//! An event that is translated and remapped is withheld from the host and
//! handed on as a logical event; every other event goes back to the host as
//! it came. A fixed combination of keys asks for the process to end, mapped
//! or not.

use vstd::prelude::*;
use crate::keys::{KeyEvent, KeyValue, OsCode};
use crate::keyset::KeySet;
use crate::native::NativeEvent;

verus! {

/// The exit watchdog: which keys of the exit combination, left control, space
/// and escape, are down.
#[derive(Clone, Copy, Debug, PartialEq, Eq, Structural)]
pub struct ExitWatch {
    pub lctl: bool,
    pub spc: bool,
    pub esc: bool,
}

impl ExitWatch {
    /// The watchdog after `event`: a press or a release of one of the three
    /// keys is noted, everything else leaves it as it was.
    pub open spec fn after(self, event: KeyEvent) -> ExitWatch {
        if event.value == KeyValue::Repeat {
            self
        } else {
            let down = event.value == KeyValue::Press;
            match event.code {
                OsCode::KEY_LEFTCTRL => ExitWatch { lctl: down, ..self },
                OsCode::KEY_SPACE => ExitWatch { spc: down, ..self },
                OsCode::KEY_ESC => ExitWatch { esc: down, ..self },
                _ => self,
            }
        }
    }

    /// Whether the whole combination is down.
    pub open spec fn complete(self) -> bool {
        self.lctl && self.spc && self.esc
    }

    /// A watchdog that has seen no key go down.
    pub fn new() -> (watch: Self)
        ensures
            watch == (ExitWatch { lctl: false, spc: false, esc: false }),
    {
        ExitWatch { lctl: false, spc: false, esc: false }
    }

    /// Notes `event` and says whether the combination is now complete.
    pub fn observe(&mut self, event: KeyEvent) -> (exit: bool)
        ensures
            *final(self) == old(self).after(event),
            exit == final(self).complete(),
    {
        let down = match event.value {
            KeyValue::Press => true,
            KeyValue::Release => false,
            KeyValue::Repeat => {
                return self.lctl && self.spc && self.esc;
            },
        };
        match event.code {
            OsCode::KEY_LEFTCTRL => {
                self.lctl = down;
            },
            OsCode::KEY_SPACE => {
                self.spc = down;
            },
            OsCode::KEY_ESC => {
                self.esc = down;
            },
            _ => {},
        }
        self.lctl && self.spc && self.esc
    }
}

/// What the hook does with a native event.
#[derive(Clone, Copy, Debug, PartialEq, Eq, Structural)]
pub enum Verdict {
    /// The event goes back to the host as it came, and nothing is emitted.
    PassThrough,
    /// The event is withheld from the host, and this one logical event is
    /// emitted in its place.
    Suppress(KeyEvent),
    /// The exit combination is down: the process is to end.
    Exit,
}

/// The rule that tells a repeat from a first press. `pressed` is the set of
/// the keys that are down; the result is that set after `event`, and the
/// value under which the event is handed on.
pub open spec fn repeat_rule(pressed: Set<OsCode>, event: KeyEvent) -> (Set<OsCode>, KeyValue) {
    match event.value {
        KeyValue::Press => if pressed.contains(event.code) {
            (pressed, KeyValue::Repeat)
        } else {
            (pressed.insert(event.code), KeyValue::Press)
        },
        KeyValue::Release => (pressed.remove(event.code), KeyValue::Release),
        KeyValue::Repeat => (pressed, KeyValue::Repeat),
    }
}

/// The values under which a run of events is handed on by `repeat_rule`, one
/// for each event, starting from the keys in `pressed`.
pub open spec fn repeat_values(pressed: Set<OsCode>, events: Seq<KeyEvent>) -> Seq<KeyValue>
    decreases events.len(),
{
    if events.len() == 0 {
        Seq::empty()
    } else {
        let (next, value) = repeat_rule(pressed, events[0]);
        seq![value] + repeat_values(next, events.skip(1))
    }
}

/// The state of the capture path, as contracts see it.
pub struct CaptureState {
    /// The codes that are remapped.
    pub mapped: Set<OsCode>,
    /// The remapped keys that are down.
    pub pressed: Set<OsCode>,
    /// The exit watchdog.
    pub watch: ExitWatch,
}

impl CaptureState {
    /// What the hook does with `event` in this state, and the state after it.
    ///
    /// An event that stands for no logical event passes through untouched.
    /// Otherwise the watchdog sees the event first. Then an event on a code
    /// that is not remapped passes through, and one on a remapped code is
    /// withheld and handed on with the value that `repeat_rule` gives it.
    pub open spec fn step(self, event: NativeEvent) -> (CaptureState, Verdict) {
        match KeyEvent::of_native(event) {
            None => (self, Verdict::PassThrough),
            Some(key_event) => {
                let watch = self.watch.after(key_event);
                if watch.complete() {
                    (CaptureState { watch, ..self }, Verdict::Exit)
                } else if !self.mapped.contains(key_event.code) {
                    (CaptureState { watch, ..self }, Verdict::PassThrough)
                } else {
                    let (pressed, value) = repeat_rule(self.pressed, key_event);
                    (
                        CaptureState { watch, pressed, ..self },
                        Verdict::Suppress(KeyEvent { code: key_event.code, value }),
                    )
                }
            },
        }
    }
}

/// The capture side of the remapper: the remapped codes, the keys that are
/// down, and the exit watchdog.
pub struct Kanata {
    mapped_keys: KeySet,
    pressed_keys: KeySet,
    exit_watch: ExitWatch,
}

impl View for Kanata {
    type V = CaptureState;

    closed spec fn view(&self) -> CaptureState {
        CaptureState {
            mapped: self.mapped_keys@,
            pressed: self.pressed_keys@,
            watch: self.exit_watch,
        }
    }
}

impl Kanata {
    /// A capture path that remaps the codes in `mapped_keys`, with no key
    /// down.
    pub fn new(mapped_keys: KeySet) -> (kanata: Self)
        ensures
            kanata@ == (CaptureState {
                mapped: mapped_keys@,
                pressed: Set::<OsCode>::empty(),
                watch: ExitWatch { lctl: false, spc: false, esc: false },
            }),
    {
        Kanata { mapped_keys, pressed_keys: KeySet::new(), exit_watch: ExitWatch::new() }
    }

    /// Replaces the remapped codes, as after a reload of the configuration.
    /// The keys that are down and the watchdog stay as they are.
    pub fn set_mapped_keys(&mut self, mapped_keys: KeySet)
        ensures
            final(self)@ == (CaptureState { mapped: mapped_keys@, ..old(self)@ }),
    {
        self.mapped_keys = mapped_keys;
    }

    /// Whether `code` is remapped.
    pub fn is_mapped(&self, code: OsCode) -> (mapped: bool)
        ensures
            mapped == self@.mapped.contains(code),
    {
        self.mapped_keys.contains(code)
    }

    /// Whether the remapped key `code` is down.
    pub fn is_pressed(&self, code: OsCode) -> (pressed: bool)
        ensures
            pressed == self@.pressed.contains(code),
    {
        self.pressed_keys.contains(code)
    }

    /// Applies the repeat rule to `event`: notes the key as down or up and
    /// returns the event with the value under which it is handed on.
    pub fn detect_repeat(&mut self, event: KeyEvent) -> (tagged: KeyEvent)
        ensures
            tagged.code == event.code,
            (final(self)@.pressed, tagged.value) == repeat_rule(old(self)@.pressed, event),
            final(self)@.mapped == old(self)@.mapped,
            final(self)@.watch == old(self)@.watch,
    {
        let value = match event.value {
            KeyValue::Release => {
                self.pressed_keys.remove(event.code);
                KeyValue::Release
            },
            KeyValue::Press => {
                if self.pressed_keys.contains(event.code) {
                    KeyValue::Repeat
                } else {
                    self.pressed_keys.insert(event.code);
                    KeyValue::Press
                }
            },
            KeyValue::Repeat => KeyValue::Repeat,
        };
        KeyEvent { code: event.code, value }
    }

    /// Decides what becomes of one native event, and notes it.
    pub fn handle_event(&mut self, event: NativeEvent) -> (verdict: Verdict)
        ensures
            (final(self)@, verdict) == old(self)@.step(event),
    {
        match KeyEvent::try_from(event) {
            Err(_) => Verdict::PassThrough,
            Ok(key_event) => {
                if self.exit_watch.observe(key_event) {
                    return Verdict::Exit;
                }
                if !self.mapped_keys.contains(key_event.code) {
                    return Verdict::PassThrough;
                }
                Verdict::Suppress(self.detect_repeat(key_event))
            },
        }
    }

    /// There is no shift but the physical one on this platform, so there is
    /// nothing to release: always `Ok`, and nothing changes.
    pub fn check_release_non_physical_shift(&mut self) -> (done: Result<(), ()>)
        ensures
            done is Ok,
            final(self)@ == old(self)@,
    {
        Ok(())
    }
}

/// A key that is pressed, pressed again, released and pressed once more is
/// handed on as a press, a repeat, a release and a press, whatever other keys
/// are down.
pub proof fn lemma_repeat_cycle(pressed: Set<OsCode>, a: OsCode)
    requires
        !pressed.contains(a),
    ensures
        repeat_values(
            pressed,
            seq![
                KeyEvent { code: a, value: KeyValue::Press },
                KeyEvent { code: a, value: KeyValue::Press },
                KeyEvent { code: a, value: KeyValue::Release },
                KeyEvent { code: a, value: KeyValue::Press },
            ],
        ) == seq![KeyValue::Press, KeyValue::Repeat, KeyValue::Release, KeyValue::Press],
{
    let press = KeyEvent { code: a, value: KeyValue::Press };
    let release = KeyEvent { code: a, value: KeyValue::Release };
    let e0 = seq![press, press, release, press];
    let e1 = e0.skip(1);
    let e2 = e1.skip(1);
    let e3 = e2.skip(1);
    let e4 = e3.skip(1);
    let down = pressed.insert(a);
    let up = down.remove(a);
    assert(e4.len() == 0);
    assert(repeat_values(up.insert(a), e4) =~= Seq::<KeyValue>::empty());
    assert(e3[0] == press);
    assert(repeat_values(up, e3) =~= seq![KeyValue::Press]);
    assert(e2[0] == release);
    assert(repeat_values(down, e2) =~= seq![KeyValue::Release, KeyValue::Press]);
    assert(e1[0] == press);
    assert(repeat_values(down, e1) =~= seq![KeyValue::Repeat, KeyValue::Release, KeyValue::Press]);
    assert(e0[0] == press);
    assert(repeat_values(pressed, e0) =~= seq![
        KeyValue::Press,
        KeyValue::Repeat,
        KeyValue::Release,
        KeyValue::Press,
    ]);
}

/// Keys are told apart: a press of another key between two presses of one key
/// is a first press, and the second press of the one key is still a repeat.
pub proof fn lemma_repeat_per_code(pressed: Set<OsCode>, a: OsCode, b: OsCode)
    requires
        a != b,
        !pressed.contains(a),
        !pressed.contains(b),
    ensures
        repeat_values(
            pressed,
            seq![
                KeyEvent { code: a, value: KeyValue::Press },
                KeyEvent { code: b, value: KeyValue::Press },
                KeyEvent { code: a, value: KeyValue::Press },
            ],
        ) == seq![KeyValue::Press, KeyValue::Press, KeyValue::Repeat],
{
    let press_a = KeyEvent { code: a, value: KeyValue::Press };
    let press_b = KeyEvent { code: b, value: KeyValue::Press };
    let e0 = seq![press_a, press_b, press_a];
    let e1 = e0.skip(1);
    let e2 = e1.skip(1);
    let e3 = e2.skip(1);
    let with_a = pressed.insert(a);
    let with_both = with_a.insert(b);
    assert(e3.len() == 0);
    assert(repeat_values(with_both, e3) =~= Seq::<KeyValue>::empty());
    assert(e2[0] == press_a);
    assert(repeat_values(with_both, e2) =~= seq![KeyValue::Repeat]);
    assert(e1[0] == press_b);
    assert(repeat_values(with_a, e1) =~= seq![KeyValue::Press, KeyValue::Repeat]);
    assert(e0[0] == press_a);
    assert(repeat_values(pressed, e0) =~= seq![KeyValue::Press, KeyValue::Press, KeyValue::Repeat]);
}

/// The repeat rule keeps the set of pressed keys exact: after an event on a
/// key, the key is in the set just when the event left it down, and no other
/// key has moved.
pub proof fn lemma_repeat_rule_tracks_keys(pressed: Set<OsCode>, event: KeyEvent, other: OsCode)
    requires
        event.value != KeyValue::Repeat,
        other != event.code,
    ensures
        repeat_rule(pressed, event).0.contains(event.code) == (event.value == KeyValue::Press),
        repeat_rule(pressed, event).0.contains(other) == pressed.contains(other),
        repeat_rule(pressed, event).1 == KeyValue::Repeat <==> event.value == KeyValue::Press
            && pressed.contains(event.code),
{
}

/// An event on a key that is not remapped, or on no key at all, goes back to
/// the host and nothing is emitted, and the set of pressed keys does not
/// change. The one exception, which `requires` leaves out, is the event that
/// completes the exit combination.
pub proof fn lemma_unmapped_passes_through(state: CaptureState, event: NativeEvent)
    requires
        KeyEvent::of_native(event) matches Some(key_event) ==> !state.mapped.contains(
            key_event.code,
        ),
        !(state.step(event).1 is Exit),
    ensures
        state.step(event).1 == Verdict::PassThrough,
        state.step(event).0.pressed == state.pressed,
        state.step(event).0.mapped == state.mapped,
{
}

/// An event on a remapped key that translates is never handed back to the
/// host: exactly one logical event takes its place, on the code of the key
/// that the host reported and with the value that the repeat rule gives it.
/// The one exception, which `requires` leaves out, is the event that
/// completes the exit combination.
pub proof fn lemma_mapped_is_suppressed(state: CaptureState, event: NativeEvent)
    requires
        KeyEvent::of_native(event) is Some,
        state.mapped.contains(KeyEvent::of_native(event).unwrap().code),
        !(state.step(event).1 is Exit),
    ensures
        state.step(event).1 == Verdict::Suppress(
            KeyEvent {
                code: KeyEvent::of_native(event).unwrap().code,
                value: repeat_rule(state.pressed, KeyEvent::of_native(event).unwrap()).1,
            },
        ),
        OsCode::of_native(event.key().unwrap()) == Some(state.step(event).1->Suppress_0.code),
{
}

/// Every logical event that is emitted carries a code that came out of the
/// translation of the native event's own key.
pub proof fn lemma_emitted_code_was_translated(state: CaptureState, event: NativeEvent)
    requires
        state.step(event).1 is Suppress,
    ensures
        event.key() is Some,
        OsCode::of_native(event.key().unwrap()) == Some(state.step(event).1->Suppress_0.code),
        state.mapped.contains(state.step(event).1->Suppress_0.code),
{
}

/// The exit combination ends the process whether its keys are remapped or
/// not: the verdict is `Exit` just when the watchdog is complete after the
/// event, and the set of remapped codes has no part in it.
pub proof fn lemma_exit_ignores_mapping(
    state: CaptureState,
    other_mapping: Set<OsCode>,
    event: NativeEvent,
)
    ensures
        state.step(event).1 is Exit <==> KeyEvent::of_native(event) is Some && state.watch.after(
            KeyEvent::of_native(event).unwrap(),
        ).complete(),
        state.step(event).1 is Exit <==> (CaptureState { mapped: other_mapping, ..state }).step(
            event,
        ).1 is Exit,
        state.step(event).0.watch == (CaptureState { mapped: other_mapping, ..state }).step(
            event,
        ).0.watch,
{
}

/// The watchdog sees every translated event, also the ones that pass through
/// to the host afterwards.
pub proof fn lemma_watchdog_sees_every_key(state: CaptureState, event: NativeEvent)
    requires
        KeyEvent::of_native(event) is Some,
    ensures
        state.step(event).0.watch == state.watch.after(KeyEvent::of_native(event).unwrap()),
{
}

} // verus!
