//! The forwarding stage: from the hook, through a small bounded queue, to the
//! consumer of the logical events.
//!
//! The hook must not block, so it only tries to enqueue. A relay worker moves
//! the events on to the consumer. An event that cannot be handed on is never
//! dropped in silence: a full queue or a consumer that is gone is a stall,
//! which ends the process.

use vstd::prelude::*;
use crossbeam_channel::{Receiver, Sender, TryRecvError, TrySendError};
use crate::capture::{Kanata, Verdict};
use crate::keys::KeyEvent;
use crate::native::NativeEvent;

verus! {

/// The sending half of a channel of `crossbeam_channel`. Nothing is known of
/// what a channel holds: the other half is in another thread's hands.
#[verifier::external_type_specification]
#[verifier::external_body]
#[verifier::reject_recursive_types(T)]
pub struct ExSender<T>(Sender<T>);

/// The receiving half of a channel of `crossbeam_channel`.
#[verifier::external_type_specification]
#[verifier::external_body]
#[verifier::reject_recursive_types(T)]
pub struct ExReceiver<T>(Receiver<T>);

/// The number of events that the queue between the hook and the relay worker
/// holds at most.
pub const QUEUE_CAPACITY: usize = 10;

/// How an attempt to enqueue an event ended.
#[derive(Clone, Copy, Debug, PartialEq, Eq, Structural)]
pub enum SendOutcome {
    /// The event is in the channel.
    Sent,
    /// The channel is full; the event is not in it.
    Full,
    /// The receiving half is gone; the event is not in the channel.
    Disconnected,
}

/// How an attempt to take an event from the queue ended.
#[derive(Clone, Copy, Debug, PartialEq, Eq, Structural)]
pub enum RecvOutcome {
    /// This event was taken out of the channel.
    Received(KeyEvent),
    /// The channel holds nothing at the moment.
    Empty,
    /// The channel holds nothing, and the sending half is gone.
    Disconnected,
}

/// Why the pipeline cannot go on.
#[derive(Clone, Copy, Debug, PartialEq, Eq, Structural)]
pub enum Stall {
    /// The queue was full when an event had to go in.
    QueueFull,
    /// There is nobody left to take the events.
    ConsumerGone,
}

/// What the hook tells the host, or its own process, after an event.
#[derive(Clone, Copy, Debug, PartialEq, Eq, Structural)]
pub enum HookAction {
    /// Hand the native event back to the host as it came.
    PassThrough,
    /// Withhold the native event: its logical event is on its way.
    Suppress,
    /// End the process: the exit combination is down.
    Exit,
    /// End the process: the logical event could not be handed on.
    Fatal(Stall),
}

/// What the relay worker did in one step.
#[derive(Clone, Copy, Debug, PartialEq, Eq, Structural)]
pub enum RelayStep {
    /// This event went from the queue to the consumer.
    Forwarded(KeyEvent),
    /// The queue was empty: the worker may sleep for a moment.
    Idle,
    /// The queue is empty and the hook is gone: there is nothing left to do.
    Closed,
    /// End the process: an event was taken from the queue and could not be
    /// handed on.
    Fatal(Stall),
}

/// `Sender::capacity`: the number of messages that the channel behind a
/// sending half holds at most, or `None` for a channel without a bound. It is
/// the limit that the channel was made with and never changes.
pub uninterp spec fn sender_capacity(sender: Sender<KeyEvent>) -> Option<usize>;

/// `Receiver::capacity`: the same limit, seen from the receiving half.
pub uninterp spec fn receiver_capacity(receiver: Receiver<KeyEvent>) -> Option<usize>;

/// `crossbeam_channel::bounded`: a new channel that holds at most `capacity`
/// messages, as its two halves. Both halves report that capacity, also where
/// it is 0. Nothing is claimed of what the channel holds. The call panics on
/// a capacity that is too large for its arithmetic, so only small ones are
/// let in.
#[verifier::external_body]
fn bounded_channel(capacity: usize) -> (halves: (Sender<KeyEvent>, Receiver<KeyEvent>))
    requires
        capacity <= u16::MAX,
    ensures
        sender_capacity(halves.0) == Some(capacity),
        receiver_capacity(halves.1) == Some(capacity),
{
    crossbeam_channel::bounded(capacity)
}

/// `Sender::try_send`: tries to put `event` into the channel without
/// blocking, and reports which of its three outcomes came about. Which one it
/// is depends on what the other threads have done. The one thing that is
/// claimed: a channel without a bound is never full.
#[verifier::external_body]
fn try_send_event(sender: &Sender<KeyEvent>, event: KeyEvent) -> (outcome: SendOutcome)
    ensures
        sender_capacity(*sender) is None ==> !(outcome is Full),
{
    match sender.try_send(event) {
        Ok(()) => SendOutcome::Sent,
        Err(TrySendError::Full(_)) => SendOutcome::Full,
        Err(TrySendError::Disconnected(_)) => SendOutcome::Disconnected,
    }
}

/// `Receiver::try_recv`: tries to take a message from the channel without
/// blocking, and reports which of its three outcomes came about. Which one it
/// is depends on what the other threads have done, so nothing is claimed.
#[verifier::external_body]
fn try_recv_event(receiver: &Receiver<KeyEvent>) -> (outcome: RecvOutcome) {
    match receiver.try_recv() {
        Ok(event) => RecvOutcome::Received(event),
        Err(TryRecvError::Empty) => RecvOutcome::Empty,
        Err(TryRecvError::Disconnected) => RecvOutcome::Disconnected,
    }
}

/// The queue between the hook and the relay worker, as its two halves: a
/// new channel that holds at most `QUEUE_CAPACITY` events.
pub fn event_queue() -> (halves: (Sender<KeyEvent>, Receiver<KeyEvent>))
    ensures
        sender_capacity(halves.0) == Some(QUEUE_CAPACITY),
        receiver_capacity(halves.1) == Some(QUEUE_CAPACITY),
{
    bounded_channel(QUEUE_CAPACITY)
}

/// What the hook does once it has a verdict on an event and, for an event
/// that is withheld, has tried to enqueue its logical event.
pub open spec fn hook_action(verdict: Verdict, enqueued: SendOutcome) -> HookAction {
    match verdict {
        Verdict::PassThrough => HookAction::PassThrough,
        Verdict::Exit => HookAction::Exit,
        Verdict::Suppress(_) => match enqueued {
            SendOutcome::Sent => HookAction::Suppress,
            SendOutcome::Full => HookAction::Fatal(Stall::QueueFull),
            SendOutcome::Disconnected => HookAction::Fatal(Stall::ConsumerGone),
        },
    }
}

/// Whether `action` is what the hook does on `verdict` for one of the ways in
/// which the attempt to enqueue can end.
pub open spec fn may_follow(verdict: Verdict, action: HookAction) -> bool {
    ||| action == hook_action(verdict, SendOutcome::Sent)
    ||| action == hook_action(verdict, SendOutcome::Full)
    ||| action == hook_action(verdict, SendOutcome::Disconnected)
}

/// What the hook does after it has tried to enqueue the logical event of an
/// event that is withheld: it goes on only if the event is in the queue.
pub fn after_enqueue(enqueued: SendOutcome) -> (action: HookAction)
    ensures
        action == (match enqueued {
            SendOutcome::Sent => HookAction::Suppress,
            SendOutcome::Full => HookAction::Fatal(Stall::QueueFull),
            SendOutcome::Disconnected => HookAction::Fatal(Stall::ConsumerGone),
        }),
        forall|event: KeyEvent| action == hook_action(Verdict::Suppress(event), enqueued),
{
    match enqueued {
        SendOutcome::Sent => HookAction::Suppress,
        SendOutcome::Full => HookAction::Fatal(Stall::QueueFull),
        SendOutcome::Disconnected => HookAction::Fatal(Stall::ConsumerGone),
    }
}

/// What one step of the relay worker comes to, given what the queue gave and,
/// where it gave an event, how handing it to the consumer ended.
pub open spec fn relay_step(taken: RecvOutcome, handed_on: SendOutcome) -> RelayStep {
    match taken {
        RecvOutcome::Empty => RelayStep::Idle,
        RecvOutcome::Disconnected => RelayStep::Closed,
        RecvOutcome::Received(event) => match handed_on {
            SendOutcome::Sent => RelayStep::Forwarded(event),
            SendOutcome::Full => RelayStep::Fatal(Stall::QueueFull),
            SendOutcome::Disconnected => RelayStep::Fatal(Stall::ConsumerGone),
        },
    }
}

/// What the relay worker does with what the queue gave: it goes on with an
/// event that was taken, sleeps for a moment on a queue that is empty, and
/// has nothing left to do on a queue whose hook is gone.
pub fn after_recv(taken: RecvOutcome) -> (next: Result<KeyEvent, RelayStep>)
    ensures
        next == (match taken {
            RecvOutcome::Received(event) => Ok::<KeyEvent, RelayStep>(event),
            RecvOutcome::Empty => Err::<KeyEvent, RelayStep>(RelayStep::Idle),
            RecvOutcome::Disconnected => Err::<KeyEvent, RelayStep>(RelayStep::Closed),
        }),
        forall|handed_on: SendOutcome|
            next matches Err(step) ==> step == #[trigger] relay_step(taken, handed_on),
{
    match taken {
        RecvOutcome::Received(event) => Ok(event),
        RecvOutcome::Empty => Err(RelayStep::Idle),
        RecvOutcome::Disconnected => Err(RelayStep::Closed),
    }
}

/// What the relay worker's step comes to once `event` was taken from the
/// queue and offered to the consumer.
pub fn after_forward(event: KeyEvent, handed_on: SendOutcome) -> (step: RelayStep)
    ensures
        step == relay_step(RecvOutcome::Received(event), handed_on),
        step is Forwarded <==> handed_on is Sent,
{
    match handed_on {
        SendOutcome::Sent => RelayStep::Forwarded(event),
        SendOutcome::Full => RelayStep::Fatal(Stall::QueueFull),
        SendOutcome::Disconnected => RelayStep::Fatal(Stall::ConsumerGone),
    }
}

/// One step of the relay worker: takes the oldest event from the queue, if
/// there is one, and offers it to the consumer.
///
/// What comes back is `relay_step` of what the two channels did, and that is
/// in the hands of the other threads. A channel without a bound is never
/// full: with such a consumer the one stall is a consumer that is gone.
pub fn relay_once(queue: &Receiver<KeyEvent>, consumer: &Sender<KeyEvent>) -> (step: RelayStep)
    ensures
        sender_capacity(*consumer) is None ==> step != RelayStep::Fatal(Stall::QueueFull),
{
    match after_recv(try_recv_event(queue)) {
        Ok(event) => after_forward(event, try_send_event(consumer, event)),
        Err(step) => step,
    }
}

impl Kanata {
    /// The whole of the hook: decides what becomes of one native event,
    /// notes it, and tries to enqueue the logical event of an event that is
    /// withheld.
    ///
    /// The state moves as `step` says whatever the queue does. An event that
    /// passes through or completes the exit combination never touches the
    /// queue; an event that is withheld is either enqueued or fatal.
    pub fn capture(&mut self, event: NativeEvent, queue: &Sender<KeyEvent>) -> (action: HookAction)
        ensures
            final(self)@ == old(self)@.step(event).0,
            may_follow(old(self)@.step(event).1, action),
    {
        match self.handle_event(event) {
            Verdict::PassThrough => HookAction::PassThrough,
            Verdict::Exit => HookAction::Exit,
            Verdict::Suppress(key_event) => after_enqueue(try_send_event(queue, key_event)),
        }
    }
}

/// The queue has no say in what becomes of the native event itself. An event
/// that passes through goes back to the host whatever the queue does; the
/// exit combination ends the process whatever the queue does; and an event
/// that is withheld is never handed back to the host: it is enqueued, or the
/// process ends.
pub proof fn lemma_hook_action(verdict: Verdict, action: HookAction)
    requires
        may_follow(verdict, action),
    ensures
        verdict is PassThrough <==> action is PassThrough,
        verdict is Exit <==> action is Exit,
        verdict is Suppress <==> action is Suppress || action is Fatal,
{
}

} // verus!
