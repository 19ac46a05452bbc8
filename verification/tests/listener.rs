use matrix_client::event::EventKind;
use matrix_client::listener::{Listener, ListenerAction, ListenerInput, ListenerPhase, StopReason};

const KINDS: [EventKind; 6] = [
    EventKind::VerificationStateChanged,
    EventKind::VerificationRequested,
    EventKind::RoomMessageReceived,
    EventKind::SyncServiceStateChanged,
    EventKind::RoomListDiff,
    EventKind::FatalSyncError,
];

fn delivering(kind: EventKind) -> Listener {
    let mut listener = Listener::new(kind);
    listener.step(ListenerInput::Item(0u8));
    listener
}

#[test]
fn new_listener_waits_for_its_first_item() {
    for kind in KINDS {
        let listener = Listener::new(kind);
        assert_eq!(listener.kind(), kind);
        assert_eq!(listener.phase(), ListenerPhase::Waiting);
    }
}

#[test]
fn item_is_handed_on_as_it_is() {
    let mut listener = Listener::new(EventKind::RoomMessageReceived);
    let action = listener.step(ListenerInput::Item(String::from("hello")));
    assert!(matches!(action, ListenerAction::Deliver(ref item) if item == "hello"));
    assert_eq!(listener.phase(), ListenerPhase::Delivering);
    assert_eq!(listener.kind(), EventKind::RoomMessageReceived);
}

#[test]
fn listener_waits_for_the_next_item_once_the_channel_took_one() {
    let mut listener = delivering(EventKind::RoomListDiff);
    assert!(matches!(listener.step(ListenerInput::<u8>::Delivered), ListenerAction::AwaitItem));
    assert_eq!(listener.phase(), ListenerPhase::Waiting);
    assert!(matches!(listener.step(ListenerInput::Item(7u8)), ListenerAction::Deliver(7)));
}

#[test]
fn listener_of_each_kind_stops_when_the_consumer_is_gone() {
    for kind in KINDS {
        let mut listener = Listener::new(kind);
        assert!(matches!(listener.step(ListenerInput::Item(1u8)), ListenerAction::Deliver(1)));
        let action = listener.step(ListenerInput::<u8>::ConsumerGone);
        assert!(matches!(action, ListenerAction::Stop(StopReason::ConsumerGone)));
        assert_eq!(listener.phase(), ListenerPhase::Stopped(StopReason::ConsumerGone));
    }
}

#[test]
fn listener_of_each_kind_stops_when_its_subscription_ends() {
    for kind in KINDS {
        let mut listener = Listener::new(kind);
        let action = listener.step(ListenerInput::<u8>::StreamEnded);
        assert!(matches!(action, ListenerAction::Stop(StopReason::StreamEnded)));
        assert_eq!(listener.phase(), ListenerPhase::Stopped(StopReason::StreamEnded));
    }
}

#[test]
fn stopped_listener_stays_stopped_and_drops_what_it_is_given() {
    let mut listener = delivering(EventKind::VerificationRequested);
    listener.step(ListenerInput::<u8>::ConsumerGone);
    for input in [
        ListenerInput::Item(9u8),
        ListenerInput::Delivered,
        ListenerInput::StreamEnded,
        ListenerInput::ConsumerGone,
    ] {
        let action = listener.step(input);
        assert!(matches!(action, ListenerAction::Stop(StopReason::ConsumerGone)));
        assert_eq!(listener.phase(), ListenerPhase::Stopped(StopReason::ConsumerGone));
    }
}

#[test]
fn stale_report_changes_nothing_while_the_listener_waits() {
    let mut listener = Listener::new(EventKind::SyncServiceStateChanged);
    assert!(matches!(listener.step(ListenerInput::<u8>::ConsumerGone), ListenerAction::AwaitItem));
    assert_eq!(listener.phase(), ListenerPhase::Waiting);
    assert!(matches!(listener.step(ListenerInput::<u8>::Delivered), ListenerAction::AwaitItem));
    assert_eq!(listener.phase(), ListenerPhase::Waiting);
}

#[test]
fn subscription_that_ends_during_a_delivery_stops_the_listener() {
    let mut listener = delivering(EventKind::VerificationStateChanged);
    let action = listener.step(ListenerInput::<u8>::StreamEnded);
    assert!(matches!(action, ListenerAction::Stop(StopReason::StreamEnded)));
}
