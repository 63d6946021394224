use crossbeam_channel::{bounded, unbounded, TryRecvError};
use kanata::capture::Kanata;
use kanata::keys::{KeyEvent, KeyValue, OsCode};
use kanata::keyset::KeySet;
use kanata::native::{NativeEvent, NativeKey};
use kanata::relay::{
    after_enqueue, after_forward, after_recv, event_queue, relay_once, HookAction, RecvOutcome,
    RelayStep, SendOutcome, Stall, QUEUE_CAPACITY,
};

fn remapping(codes: &[OsCode]) -> Kanata {
    Kanata::new(KeySet::from_codes(&codes.to_vec()))
}

#[test]
fn withheld_event_is_in_the_queue() {
    let (queue, worker) = event_queue();
    let mut kanata = remapping(&[OsCode::KEY_A]);
    assert_eq!(
        kanata.capture(NativeEvent::KeyPress(NativeKey::KeyA), &queue),
        HookAction::Suppress
    );
    assert_eq!(
        kanata.capture(NativeEvent::KeyPress(NativeKey::KeyA), &queue),
        HookAction::Suppress
    );
    assert_eq!(
        kanata.capture(NativeEvent::KeyRelease(NativeKey::KeyA), &queue),
        HookAction::Suppress
    );
    assert_eq!(worker.try_recv(), Ok(KeyEvent::new(OsCode::KEY_A, KeyValue::Press)));
    assert_eq!(worker.try_recv(), Ok(KeyEvent::new(OsCode::KEY_A, KeyValue::Repeat)));
    assert_eq!(worker.try_recv(), Ok(KeyEvent::new(OsCode::KEY_A, KeyValue::Release)));
    assert_eq!(worker.try_recv(), Err(TryRecvError::Empty));
}

#[test]
fn event_that_passes_through_is_not_in_the_queue() {
    let (queue, worker) = event_queue();
    let mut kanata = remapping(&[OsCode::KEY_A]);
    assert_eq!(
        kanata.capture(NativeEvent::KeyPress(NativeKey::KeyB), &queue),
        HookAction::PassThrough
    );
    assert_eq!(kanata.capture(NativeEvent::MouseMove, &queue), HookAction::PassThrough);
    assert_eq!(
        kanata.capture(NativeEvent::KeyPress(NativeKey::Unknown(1)), &queue),
        HookAction::PassThrough
    );
    assert_eq!(worker.try_recv(), Err(TryRecvError::Empty));
}

#[test]
fn exit_combination_reaches_the_hook() {
    let (queue, worker) = event_queue();
    let mut kanata = remapping(&[OsCode::KEY_ESC]);
    assert_eq!(
        kanata.capture(NativeEvent::KeyPress(NativeKey::ControlLeft), &queue),
        HookAction::PassThrough
    );
    assert_eq!(
        kanata.capture(NativeEvent::KeyPress(NativeKey::Space), &queue),
        HookAction::PassThrough
    );
    assert_eq!(kanata.capture(NativeEvent::KeyPress(NativeKey::Escape), &queue), HookAction::Exit);
    assert_eq!(worker.try_recv(), Err(TryRecvError::Empty));
}

#[test]
fn full_queue_is_fatal() {
    let (queue, worker) = event_queue();
    let mut kanata = remapping(&[OsCode::KEY_A]);
    assert_eq!(QUEUE_CAPACITY, 10);
    for _ in 0..QUEUE_CAPACITY {
        assert_eq!(
            kanata.capture(NativeEvent::KeyPress(NativeKey::KeyA), &queue),
            HookAction::Suppress
        );
    }
    assert_eq!(
        kanata.capture(NativeEvent::KeyPress(NativeKey::KeyA), &queue),
        HookAction::Fatal(Stall::QueueFull)
    );
    // An event that passes through does not care.
    assert_eq!(
        kanata.capture(NativeEvent::KeyPress(NativeKey::KeyB), &queue),
        HookAction::PassThrough
    );
    assert_eq!(worker.len(), QUEUE_CAPACITY);
}

#[test]
fn queue_without_a_worker_is_fatal() {
    let (queue, worker) = event_queue();
    drop(worker);
    let mut kanata = remapping(&[OsCode::KEY_A]);
    assert_eq!(
        kanata.capture(NativeEvent::KeyPress(NativeKey::KeyA), &queue),
        HookAction::Fatal(Stall::ConsumerGone)
    );
}

#[test]
fn relay_moves_events_in_order() {
    let (queue, worker) = event_queue();
    let (consumer, engine) = unbounded();
    let mut kanata = remapping(&[OsCode::KEY_A, OsCode::KEY_B]);
    kanata.capture(NativeEvent::KeyPress(NativeKey::KeyA), &queue);
    kanata.capture(NativeEvent::KeyPress(NativeKey::KeyB), &queue);
    kanata.capture(NativeEvent::KeyRelease(NativeKey::KeyA), &queue);
    let a_down = KeyEvent::new(OsCode::KEY_A, KeyValue::Press);
    let b_down = KeyEvent::new(OsCode::KEY_B, KeyValue::Press);
    let a_up = KeyEvent::new(OsCode::KEY_A, KeyValue::Release);
    assert_eq!(relay_once(&worker, &consumer), RelayStep::Forwarded(a_down));
    assert_eq!(relay_once(&worker, &consumer), RelayStep::Forwarded(b_down));
    assert_eq!(relay_once(&worker, &consumer), RelayStep::Forwarded(a_up));
    assert_eq!(relay_once(&worker, &consumer), RelayStep::Idle);
    assert_eq!(engine.try_recv(), Ok(a_down));
    assert_eq!(engine.try_recv(), Ok(b_down));
    assert_eq!(engine.try_recv(), Ok(a_up));
    assert_eq!(engine.try_recv(), Err(TryRecvError::Empty));
}

#[test]
fn relay_without_a_consumer_is_fatal() {
    let (queue, worker) = event_queue();
    let (consumer, engine) = unbounded::<KeyEvent>();
    drop(engine);
    let mut kanata = remapping(&[OsCode::KEY_A]);
    kanata.capture(NativeEvent::KeyPress(NativeKey::KeyA), &queue);
    assert_eq!(relay_once(&worker, &consumer), RelayStep::Fatal(Stall::ConsumerGone));
}

#[test]
fn relay_into_a_full_consumer_is_fatal() {
    let (queue, worker) = event_queue();
    let (consumer, _engine) = bounded::<KeyEvent>(1);
    let mut kanata = remapping(&[OsCode::KEY_A]);
    kanata.capture(NativeEvent::KeyPress(NativeKey::KeyA), &queue);
    kanata.capture(NativeEvent::KeyRelease(NativeKey::KeyA), &queue);
    assert_eq!(
        relay_once(&worker, &consumer),
        RelayStep::Forwarded(KeyEvent::new(OsCode::KEY_A, KeyValue::Press))
    );
    assert_eq!(relay_once(&worker, &consumer), RelayStep::Fatal(Stall::QueueFull));
}

#[test]
fn relay_ends_when_the_hook_is_gone() {
    let (queue, worker) = event_queue();
    let (consumer, _engine) = unbounded::<KeyEvent>();
    assert_eq!(relay_once(&worker, &consumer), RelayStep::Idle);
    drop(queue);
    assert_eq!(relay_once(&worker, &consumer), RelayStep::Closed);
}

#[test]
fn after_enqueue_goes_on_only_when_sent() {
    assert_eq!(after_enqueue(SendOutcome::Sent), HookAction::Suppress);
    assert_eq!(after_enqueue(SendOutcome::Full), HookAction::Fatal(Stall::QueueFull));
    assert_eq!(after_enqueue(SendOutcome::Disconnected), HookAction::Fatal(Stall::ConsumerGone));
}

#[test]
fn after_forward_reports_the_event_only_when_sent() {
    let event = KeyEvent::new(OsCode::KEY_TAB, KeyValue::Press);
    assert_eq!(after_forward(event, SendOutcome::Sent), RelayStep::Forwarded(event));
    assert_eq!(after_forward(event, SendOutcome::Full), RelayStep::Fatal(Stall::QueueFull));
    assert_eq!(
        after_forward(event, SendOutcome::Disconnected),
        RelayStep::Fatal(Stall::ConsumerGone)
    );
}

#[test]
fn event_queue_holds_ten_events() {
    let (queue, worker) = event_queue();
    assert_eq!(queue.capacity(), Some(QUEUE_CAPACITY));
    assert_eq!(worker.capacity(), Some(QUEUE_CAPACITY));
    assert_eq!(queue.capacity(), Some(10));
    assert!(queue.is_empty());
    assert!(worker.is_empty());
}

#[test]
fn relay_into_an_unbounded_consumer_never_finds_it_full() {
    let (queue, worker) = event_queue();
    let (consumer, engine) = unbounded::<KeyEvent>();
    assert_eq!(consumer.capacity(), None);
    let mut kanata = remapping(&[OsCode::KEY_A]);
    for round in 0..5 {
        for _ in 0..QUEUE_CAPACITY {
            assert_eq!(
                kanata.capture(NativeEvent::KeyPress(NativeKey::KeyA), &queue),
                HookAction::Suppress
            );
        }
        for _ in 0..QUEUE_CAPACITY {
            assert!(matches!(relay_once(&worker, &consumer), RelayStep::Forwarded(_)));
        }
        assert_eq!(relay_once(&worker, &consumer), RelayStep::Idle);
        assert_eq!(engine.len(), (round + 1) * QUEUE_CAPACITY);
    }
}

#[test]
fn after_recv_tells_an_empty_queue_from_one_that_is_closed() {
    let event = KeyEvent::new(OsCode::KEY_TAB, KeyValue::Release);
    assert_eq!(after_recv(RecvOutcome::Received(event)), Ok(event));
    assert_eq!(after_recv(RecvOutcome::Empty), Err(RelayStep::Idle));
    assert_eq!(after_recv(RecvOutcome::Disconnected), Err(RelayStep::Closed));
}
