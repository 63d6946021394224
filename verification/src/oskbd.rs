//! The output path: logical actions become native events, queued in the
//! order in which the host is to see them.
//!
//! Injecting an event and waiting for the host to settle afterwards is the
//! caller's part. `KbdOut` decides which native events an action stands for
//! and keeps them, oldest first, until the caller takes them.

use vstd::prelude::*;
use crate::keys::{Btn, KeyValue, MWheelDirection, OsCode};
use crate::native::{NativeButton, NativeEvent};

verus! {

/// The pause, in milliseconds, that the host needs after each injected event
/// before it takes the next one.
pub const SETTLE_DELAY_MS: u64 = 20;

/// Why an event was not queued.
#[derive(Clone, Copy, Debug, PartialEq, Eq, Structural)]
pub enum OutputError {
    /// A key event on a native key that has no canonical code, and so no scan
    /// code under which it could be injected.
    UnknownKey,
    /// An event that the output path has no way to synthesize.
    Unsupported,
}

/// A keyboard event in the terms of the host's injection call.
#[derive(Clone, Copy, Debug, PartialEq, Eq, Structural)]
pub struct RawKeyEvent {
    /// The raw scan code.
    pub code: u16,
    /// Whether the key goes down.
    pub down: bool,
}

/// The native event of an action on a key. A repeat is a press here: the
/// host knows presses and releases only.
pub open spec fn key_event_of(code: OsCode, value: KeyValue) -> NativeEvent {
    match value {
        KeyValue::Release => NativeEvent::KeyRelease(code.native()),
        _ => NativeEvent::KeyPress(code.native()),
    }
}

/// The native event of an action on a key.
pub fn event_type_from_oscode(code: OsCode, value: KeyValue) -> (event: NativeEvent)
    ensures
        event == key_event_of(code, value),
{
    match value {
        KeyValue::Release => NativeEvent::KeyRelease(code.as_key()),
        KeyValue::Press | KeyValue::Repeat => NativeEvent::KeyPress(code.as_key()),
    }
}

/// The event that lets go of the key of a key event.
pub fn clear(event_type: NativeEvent) -> (release: NativeEvent)
    requires
        event_type is KeyPress || event_type is KeyRelease,
    ensures
        release == NativeEvent::KeyRelease(event_type.key().unwrap()),
{
    match event_type {
        NativeEvent::KeyPress(key) => NativeEvent::KeyRelease(key),
        NativeEvent::KeyRelease(key) => NativeEvent::KeyRelease(key),
        _ => event_type,
    }
}

/// The native events of an action on a key, in the order in which the host
/// is to see them: one event for a press or a release, and a release followed
/// by a press for a repeat.
pub open spec fn key_action(code: OsCode, value: KeyValue) -> Seq<NativeEvent> {
    match value {
        KeyValue::Press => seq![NativeEvent::KeyPress(code.native())],
        KeyValue::Release => seq![NativeEvent::KeyRelease(code.native())],
        KeyValue::Repeat => seq![
            NativeEvent::KeyRelease(code.native()),
            NativeEvent::KeyPress(code.native()),
        ],
    }
}

/// The wheel event of a scroll: up and down move along one axis, right and
/// left along the other, up and right with a positive sign.
pub open spec fn wheel_event(direction: MWheelDirection, distance: u16) -> NativeEvent {
    match direction {
        MWheelDirection::Up => NativeEvent::Wheel { delta_x: distance as i64, delta_y: 0 },
        MWheelDirection::Right => NativeEvent::Wheel { delta_x: 0, delta_y: distance as i64 },
        MWheelDirection::Down => NativeEvent::Wheel { delta_x: (-distance) as i64, delta_y: 0 },
        MWheelDirection::Left => NativeEvent::Wheel { delta_x: 0, delta_y: (-distance) as i64 },
    }
}

/// The native button that stands for a button of the output path. The host
/// has none for the side buttons.
pub open spec fn native_button(btn: Btn) -> Option<NativeButton> {
    match btn {
        Btn::Left => Some(NativeButton::Left),
        Btn::Right => Some(NativeButton::Right),
        Btn::Mid => Some(NativeButton::Middle),
        Btn::Forward => None,
        Btn::Backward => None,
    }
}

/// The native button that stands for `btn`, if the host has one.
pub fn button_from_btn(btn: Btn) -> (button: Option<NativeButton>)
    ensures
        button == native_button(btn),
{
    match btn {
        Btn::Left => Some(NativeButton::Left),
        Btn::Right => Some(NativeButton::Right),
        Btn::Mid => Some(NativeButton::Middle),
        Btn::Forward => None,
        Btn::Backward => None,
    }
}

/// What the host's injection call needs of a key event: the scan code under
/// which the key's canonical code is synthesized, and the direction. There is
/// none for a key without a canonical code, nor for an event that is no key
/// event.
pub open spec fn raw_key_event(event: NativeEvent) -> Option<RawKeyEvent> {
    match event {
        NativeEvent::KeyPress(key) => match OsCode::of_native(key) {
            Some(code) => Some(RawKeyEvent { code: code.scan_code() as u16, down: true }),
            None => None,
        },
        NativeEvent::KeyRelease(key) => match OsCode::of_native(key) {
            Some(code) => Some(RawKeyEvent { code: code.scan_code() as u16, down: false }),
            None => None,
        },
        _ => None,
    }
}

/// What the host's injection call needs of a key event.
pub fn convert_native(event_type: &NativeEvent) -> (raw: Option<RawKeyEvent>)
    ensures
        raw == raw_key_event(*event_type),
{
    match event_type {
        NativeEvent::KeyPress(key) => match OsCode::from_key(*key) {
            Some(code) => Some(RawKeyEvent { code: code.as_u16(), down: true }),
            None => None,
        },
        NativeEvent::KeyRelease(key) => match OsCode::from_key(*key) {
            Some(code) => Some(RawKeyEvent { code: code.as_u16(), down: false }),
            None => None,
        },
        _ => None,
    }
}

/// Whether the output path can synthesize `event`: a key event where it has a
/// scan code for the key, and every button and wheel event. It has no
/// position to move the pointer to.
pub open spec fn injectable(event: NativeEvent) -> bool {
    match event {
        NativeEvent::KeyPress(_) => raw_key_event(event) is Some,
        NativeEvent::KeyRelease(_) => raw_key_event(event) is Some,
        NativeEvent::ButtonPress(_) => true,
        NativeEvent::ButtonRelease(_) => true,
        NativeEvent::Wheel { .. } => true,
        NativeEvent::MouseMove => false,
    }
}

/// The error with which `event` is turned away, if it is.
pub open spec fn refusal(event: NativeEvent) -> Option<OutputError> {
    if injectable(event) {
        None
    } else if event.key() is Some {
        Some(OutputError::UnknownKey)
    } else {
        Some(OutputError::Unsupported)
    }
}

/// Handle for writing keys to the host: the queue of the native events that
/// are still to be injected, oldest first.
pub struct KbdOut {
    pending: Vec<NativeEvent>,
}

impl View for KbdOut {
    type V = Seq<NativeEvent>;

    closed spec fn view(&self) -> Seq<NativeEvent> {
        self.pending@
    }
}

impl KbdOut {
    #[verifier::type_invariant]
    spec fn all_injectable(self) -> bool {
        forall|i: int| 0 <= i < self.pending@.len() ==> injectable(#[trigger] self.pending@[i])
    }

    /// A handle with nothing queued. There is nothing to open, so this is
    /// always `Ok`.
    pub fn new() -> (out: Result<Self, OutputError>)
        ensures
            out is Ok,
            out.unwrap()@ == Seq::<NativeEvent>::empty(),
    {
        Ok(KbdOut { pending: Vec::new() })
    }

    /// Queues one native event, or turns it away if the output path cannot
    /// synthesize it.
    pub fn write(&mut self, event_type: NativeEvent) -> (done: Result<(), OutputError>)
        ensures
            injectable(event_type) ==> done is Ok && final(self)@ == old(self)@.push(event_type),
            !injectable(event_type) ==> done == Err::<(), OutputError>(
                refusal(event_type).unwrap(),
            ) && final(self)@ == old(self)@,
    {
        match event_type {
            NativeEvent::KeyPress(_) | NativeEvent::KeyRelease(_) => {
                if convert_native(&event_type).is_none() {
                    return Err(OutputError::UnknownKey);
                }
            },
            NativeEvent::MouseMove => {
                return Err(OutputError::Unsupported);
            },
            _ => {},
        }
        proof {
            use_type_invariant(&*self);
        }
        let mut pending: Vec<NativeEvent> = Vec::new();
        core::mem::swap(&mut self.pending, &mut pending);
        pending.push(event_type);
        self.pending = pending;
        Ok(())
    }

    /// Queues the native events of an action on a key: all of them, or none
    /// where the key cannot be synthesized.
    pub fn write_key(&mut self, key: OsCode, value: KeyValue) -> (done: Result<(), OutputError>)
        ensures
            injectable(key_event_of(key, value)) ==> done is Ok && final(self)@ == old(self)@
                + key_action(key, value),
            !injectable(key_event_of(key, value)) ==> done == Err::<(), OutputError>(
                OutputError::UnknownKey,
            ) && final(self)@ == old(self)@,
    {
        let event = event_type_from_oscode(key, value);
        if let KeyValue::Repeat = value {
            match self.write(clear(event)) {
                Ok(()) => {},
                Err(e) => {
                    return Err(e);
                },
            }
        }
        let done = self.write(event);
        proof {
            if done is Ok {
                assert(self@ =~= old(self)@ + key_action(key, value));
            }
        }
        done
    }

    /// Queues the press of a key.
    pub fn press_key(&mut self, key: OsCode) -> (done: Result<(), OutputError>)
        ensures
            injectable(key_event_of(key, KeyValue::Press)) ==> done is Ok && final(self)@ == old(
                self,
            )@.push(NativeEvent::KeyPress(key.native())),
            !injectable(key_event_of(key, KeyValue::Press)) ==> done == Err::<(), OutputError>(
                OutputError::UnknownKey,
            ) && final(self)@ == old(self)@,
    {
        let done = self.write_key(key, KeyValue::Press);
        proof {
            if done is Ok {
                assert(self@ =~= old(self)@.push(NativeEvent::KeyPress(key.native())));
            }
        }
        done
    }

    /// Queues the release of a key.
    pub fn release_key(&mut self, key: OsCode) -> (done: Result<(), OutputError>)
        ensures
            injectable(key_event_of(key, KeyValue::Release)) ==> done is Ok && final(self)@
                == old(self)@.push(NativeEvent::KeyRelease(key.native())),
            !injectable(key_event_of(key, KeyValue::Release)) ==> done == Err::<(), OutputError>(
                OutputError::UnknownKey,
            ) && final(self)@ == old(self)@,
    {
        let done = self.write_key(key, KeyValue::Release);
        proof {
            if done is Ok {
                assert(self@ =~= old(self)@.push(NativeEvent::KeyRelease(key.native())));
            }
        }
        done
    }

    /// The host offers no way to type a character as such, so nothing is
    /// queued, and that is no error.
    pub fn send_unicode(&mut self, _c: char) -> (done: Result<(), OutputError>)
        ensures
            done is Ok,
            final(self)@ == old(self)@,
    {
        Ok(())
    }

    /// Queues the press of a mouse button. A button that the host does not
    /// have queues nothing, and that is no error.
    pub fn click_btn(&mut self, btn: Btn) -> (done: Result<(), OutputError>)
        ensures
            done is Ok,
            final(self)@ == match native_button(btn) {
                Some(button) => old(self)@.push(NativeEvent::ButtonPress(button)),
                None => old(self)@,
            },
    {
        match button_from_btn(btn) {
            Some(button) => self.write(NativeEvent::ButtonPress(button)),
            None => Ok(()),
        }
    }

    /// Queues the release of a mouse button. A button that the host does not
    /// have queues nothing, and that is no error.
    pub fn release_btn(&mut self, btn: Btn) -> (done: Result<(), OutputError>)
        ensures
            done is Ok,
            final(self)@ == match native_button(btn) {
                Some(button) => old(self)@.push(NativeEvent::ButtonRelease(button)),
                None => old(self)@,
            },
    {
        match button_from_btn(btn) {
            Some(button) => self.write(NativeEvent::ButtonRelease(button)),
            None => Ok(()),
        }
    }

    /// Queues a movement of the wheel by `distance` in `direction`.
    pub fn scroll(&mut self, direction: MWheelDirection, distance: u16) -> (done: Result<
        (),
        OutputError,
    >)
        ensures
            done is Ok,
            final(self)@ == old(self)@.push(wheel_event(direction, distance)),
    {
        let delta: i64 = distance as i64;
        let event = match direction {
            MWheelDirection::Up => NativeEvent::Wheel { delta_x: delta, delta_y: 0 },
            MWheelDirection::Right => NativeEvent::Wheel { delta_x: 0, delta_y: delta },
            MWheelDirection::Down => NativeEvent::Wheel { delta_x: -delta, delta_y: 0 },
            MWheelDirection::Left => NativeEvent::Wheel { delta_x: 0, delta_y: -delta },
        };
        self.write(event)
    }

    /// The number of events that wait to be injected.
    pub fn pending_len(&self) -> (count: usize)
        ensures
            count == self@.len(),
    {
        self.pending.len()
    }

    /// Hands over the queued events, oldest first, and leaves the queue
    /// empty. Each of them can be synthesized.
    pub fn take_pending(&mut self) -> (events: Vec<NativeEvent>)
        ensures
            events@ == old(self)@,
            final(self)@ == Seq::<NativeEvent>::empty(),
            forall|i: int| 0 <= i < events@.len() ==> injectable(#[trigger] events@[i]),
    {
        proof {
            use_type_invariant(&*self);
        }
        let mut events: Vec<NativeEvent> = Vec::new();
        core::mem::swap(&mut self.pending, &mut events);
        events
    }
}

/// The native events of a run of actions on keys, in order.
pub open spec fn key_actions(actions: Seq<(OsCode, KeyValue)>) -> Seq<NativeEvent>
    decreases actions.len(),
{
    if actions.len() == 0 {
        Seq::empty()
    } else {
        key_actions(actions.drop_last()) + key_action(actions.last().0, actions.last().1)
    }
}

/// The time, in milliseconds, that the host needs to settle while a run of
/// events is injected: the settle delay once for each event.
pub open spec fn settle_millis(events: Seq<NativeEvent>) -> nat {
    events.len() * (SETTLE_DELAY_MS as nat)
}

/// Every action on a key stands for at least one native event, so a run of
/// actions costs at least the settle delay once for each action.
pub proof fn lemma_settle_per_key_action(actions: Seq<(OsCode, KeyValue)>)
    ensures
        key_actions(actions).len() >= actions.len(),
        settle_millis(key_actions(actions)) >= actions.len() * SETTLE_DELAY_MS,
    decreases actions.len(),
{
    if actions.len() > 0 {
        lemma_settle_per_key_action(actions.drop_last());
        assert(key_action(actions.last().0, actions.last().1).len() >= 1);
    }
    assert(key_actions(actions).len() * (SETTLE_DELAY_MS as nat) >= actions.len() * (
    SETTLE_DELAY_MS as nat)) by (nonlinear_arith)
        requires
            key_actions(actions).len() >= actions.len(),
    ;
}

/// An action on a key is queued just when the key that stands for its code
/// has a canonical code of its own, and that does not depend on the value of
/// the action.
pub proof fn lemma_key_action_injectable(code: OsCode, value: KeyValue)
    ensures
        injectable(key_event_of(code, value)) <==> OsCode::of_native(code.native()) is Some,
        forall|i: int|
            0 <= i < key_action(code, value).len() ==> (injectable(
                #[trigger] key_action(code, value)[i],
            ) <==> injectable(key_event_of(code, value))),
{
}

/// A code without a native key cannot be synthesized: the key that stands
/// for it is the unnamed one, which has no canonical code.
pub proof fn lemma_code_without_native_key(code: OsCode, value: KeyValue)
    requires
        code.native() is Unknown,
    ensures
        !injectable(key_event_of(code, value)),
{
}

} // verus!
