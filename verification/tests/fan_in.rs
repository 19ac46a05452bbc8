use matrix_client::channel::{event_channel, CHANNEL_CAPACITY};
use matrix_client::controller::{Controller, Directive};
use matrix_client::event::{sync_loop_event, Event, EventKind, Payloads};
use matrix_client::listener::{Listener, ListenerAction, ListenerInput, StopReason};
use tokio::runtime::{Builder, Runtime};
use tokio::sync::mpsc::{channel, Receiver, Sender};
use tokio::sync::oneshot;

/// Every payload says which listener produced it, and as which of its items.
#[derive(Debug)]
struct Numbered;

impl Payloads for Numbered {
    type VerificationState = (usize, usize);
    type VerificationRequest = (usize, usize);
    type RoomMessage = (usize, usize);
    type SyncServiceState = (usize, usize);
    type RoomDiff = (usize, usize);
    type SyncError = String;
}

const KINDS: [EventKind; 5] = [
    EventKind::VerificationStateChanged,
    EventKind::VerificationRequested,
    EventKind::RoomMessageReceived,
    EventKind::SyncServiceStateChanged,
    EventKind::RoomListDiff,
];

fn event(kind: EventKind, listener: usize, number: usize) -> Event<Numbered> {
    match kind {
        EventKind::VerificationStateChanged => Event::VerificationStateChanged((listener, number)),
        EventKind::VerificationRequested => Event::VerificationRequested((listener, number)),
        EventKind::RoomMessageReceived => Event::RoomMessageReceived((listener, number)),
        EventKind::SyncServiceStateChanged => Event::SyncServiceStateChanged((listener, number)),
        EventKind::RoomListDiff => Event::RoomListDiff(vec![(listener, number)]),
        EventKind::FatalSyncError => Event::FatalSyncError(format!("{listener}/{number}")),
    }
}

fn label(event: &Event<Numbered>) -> Option<(usize, usize)> {
    match event {
        Event::VerificationStateChanged(label)
        | Event::VerificationRequested(label)
        | Event::RoomMessageReceived(label)
        | Event::SyncServiceStateChanged(label) => Some(*label),
        Event::RoomListDiff(diffs) => Some(diffs[0]),
        Event::FatalSyncError(_) => None,
    }
}

fn runtime() -> Runtime {
    Builder::new_multi_thread().worker_threads(4).build().unwrap()
}

/// Runs a listener on `items` until it stops; says why it stopped and how
/// many items the channel took from it.
async fn listen<I>(kind: EventKind, mut items: I, tx: Sender<Event<Numbered>>) -> (StopReason, usize)
where
    I: Iterator<Item = Event<Numbered>>,
{
    let mut listener = Listener::new(kind);
    let mut action = ListenerAction::AwaitItem;
    let mut taken = 0;
    loop {
        let input = match action {
            ListenerAction::AwaitItem => match items.next() {
                Some(item) => ListenerInput::Item(item),
                None => ListenerInput::StreamEnded,
            },
            ListenerAction::Deliver(event) => match tx.send(event).await {
                Ok(()) => {
                    taken += 1;
                    ListenerInput::Delivered
                }
                Err(_) => ListenerInput::ConsumerGone,
            },
            ListenerAction::Stop(reason) => return (reason, taken),
        };
        action = listener.step(input);
    }
}

/// Runs the controller until the channel is closed and drained.
async fn control(mut rx: Receiver<Event<Numbered>>) -> (Controller, Vec<Directive<Numbered>>) {
    let mut controller = Controller::new();
    let mut directives = Vec::new();
    while let Some(event) = rx.recv().await {
        directives.push(controller.on_event(event));
    }
    controller.on_closed();
    (controller, directives)
}

fn fan_in(listeners: usize, each: usize, tx: Sender<Event<Numbered>>, rx: Receiver<Event<Numbered>>) {
    let runtime = runtime();
    runtime.block_on(async move {
        let controller = tokio::spawn(control(rx));
        let mut tasks = Vec::new();
        for listener in 0..listeners {
            let kind = KINDS[listener % KINDS.len()];
            let items = (0..each).map(move |number| event(kind, listener, number));
            tasks.push(tokio::spawn(listen(kind, items, tx.clone())));
        }
        drop(tx);
        for task in tasks {
            assert_eq!(task.await.unwrap(), (StopReason::StreamEnded, each));
        }
        let (controller, directives) = controller.await.unwrap();
        assert!(controller.drained());
        assert!(!controller.sync_stopped());
        assert_eq!(directives.len(), listeners * each);
        let mut next = vec![0; listeners];
        for directive in directives {
            let Directive::Note(event) = directive else { panic!("nothing stopped the sync loop") };
            let (listener, number) = label(&event).unwrap();
            assert_eq!(event.kind(), KINDS[listener % KINDS.len()]);
            assert_eq!(number, next[listener], "listener {listener} out of order, lost or doubled");
            next[listener] += 1;
        }
        assert_eq!(next, vec![each; listeners]);
    });
}

#[test]
fn every_item_arrives_once_through_a_channel_smaller_than_the_load() {
    for capacity in [1, 2, 7, 59] {
        let (tx, rx) = channel(capacity);
        fan_in(6, 10, tx, rx);
    }
}

#[test]
fn every_item_arrives_once_through_a_channel_larger_than_the_load() {
    for capacity in [60, 61, 500] {
        let (tx, rx) = channel(capacity);
        fan_in(6, 10, tx, rx);
    }
}

#[test]
fn every_item_arrives_once_through_the_event_channel() {
    let channel = event_channel::<Numbered>();
    fan_in(8, 400, channel.sender, channel.receiver);
    let channel = event_channel::<Numbered>();
    fan_in(3, 5, channel.sender, channel.receiver);
}

#[test]
fn event_channel_has_room_for_its_capacity() {
    let channel = event_channel::<Numbered>();
    assert_eq!(CHANNEL_CAPACITY, 1024);
    assert_eq!(channel.capacity, 1024);
    assert_eq!(channel.sender.max_capacity(), 1024);
    assert_eq!(channel.sender.capacity(), 1024);
    assert_eq!(channel.receiver.max_capacity(), 1024);
}

#[test]
fn event_channel_delivers_in_the_order_of_sending() {
    let channel = event_channel::<Numbered>();
    let (tx, mut rx) = (channel.sender, channel.receiver);
    for number in 0..CHANNEL_CAPACITY {
        tx.try_send(event(EventKind::RoomMessageReceived, 0, number)).unwrap();
    }
    assert!(tx.try_send(event(EventKind::RoomMessageReceived, 0, CHANNEL_CAPACITY)).is_err());
    for number in 0..CHANNEL_CAPACITY {
        assert_eq!(label(&rx.try_recv().unwrap()), Some((0, number)));
    }
    assert!(rx.try_recv().is_err());
}

#[test]
fn listener_of_each_kind_ends_when_the_consumer_is_gone() {
    let runtime = runtime();
    runtime.block_on(async {
        let (tx, mut rx) = channel(2);
        let mut tasks = Vec::new();
        for (listener, kind) in KINDS.into_iter().chain([EventKind::FatalSyncError]).enumerate() {
            let endless = (0..).map(move |number| event(kind, listener, number));
            tasks.push(tokio::spawn(listen(kind, endless, tx.clone())));
        }
        drop(tx);
        for _ in 0..20 {
            assert!(rx.recv().await.is_some());
        }
        drop(rx);
        for task in tasks {
            let (reason, _) = task.await.unwrap();
            assert_eq!(reason, StopReason::ConsumerGone);
        }
    });
}

#[test]
fn failed_sync_loop_is_seen_once_and_ends_no_listener() {
    let runtime = runtime();
    runtime.block_on(async {
        let (tx, rx) = channel(3);
        let controller = tokio::spawn(control(rx));
        let (fail, failed) = oneshot::channel::<()>();
        let (seen, was_seen) = oneshot::channel::<()>();
        let sync_tx = tx.clone();
        let sync_loop = tokio::spawn(async move {
            failed.await.unwrap();
            let outcome: Result<(), String> = Err(String::from("sync loop broke"));
            let events = sync_loop_event::<Numbered>(outcome).into_iter();
            let stopped = listen(EventKind::FatalSyncError, events, sync_tx).await;
            assert_eq!(stopped, (StopReason::StreamEnded, 1));
            seen.send(()).unwrap();
        });
        let before = listen(
            EventKind::RoomMessageReceived,
            (0..10).map(|number| event(EventKind::RoomMessageReceived, 0, number)),
            tx.clone(),
        );
        assert_eq!(before.await, (StopReason::StreamEnded, 10));
        fail.send(()).unwrap();
        was_seen.await.unwrap();
        sync_loop.await.unwrap();
        let after = tokio::spawn(listen(
            EventKind::SyncServiceStateChanged,
            (0..10).map(|number| event(EventKind::SyncServiceStateChanged, 1, number)),
            tx.clone(),
        ));
        assert_eq!(after.await.unwrap(), (StopReason::StreamEnded, 10));
        drop(tx);
        let (controller, directives) = controller.await.unwrap();
        assert!(controller.sync_stopped());
        assert_eq!(directives.len(), 21);
        let stops: Vec<usize> = directives
            .iter()
            .enumerate()
            .filter(|(_, directive)| matches!(directive, Directive::SyncStopped(_)))
            .map(|(place, _)| place)
            .collect();
        assert_eq!(stops, vec![10]);
        assert!(matches!(&directives[10], Directive::SyncStopped(error) if error == "sync loop broke"));
    });
}

#[test]
fn sync_loop_that_ends_cleanly_sends_nothing() {
    let runtime = runtime();
    runtime.block_on(async {
        let (tx, rx) = channel(3);
        let controller = tokio::spawn(control(rx));
        let events = sync_loop_event::<Numbered>(Ok(())).into_iter();
        let stopped = listen(EventKind::FatalSyncError, events, tx).await;
        assert_eq!(stopped, (StopReason::StreamEnded, 0));
        let (controller, directives) = controller.await.unwrap();
        assert!(!controller.sync_stopped());
        assert!(directives.is_empty());
    });
}
