use matrix_client::controller::{Controller, Directive};
use matrix_client::event::{sync_loop_event, Event, EventKind, Payloads};

#[derive(Debug)]
struct Plain;

impl Payloads for Plain {
    type VerificationState = bool;
    type VerificationRequest = u16;
    type RoomMessage = String;
    type SyncServiceState = char;
    type RoomDiff = i64;
    type SyncError = String;
}

fn one_of_each() -> Vec<Event<Plain>> {
    vec![
        Event::VerificationStateChanged(true),
        Event::VerificationRequested(7),
        Event::RoomMessageReceived(String::from("hello")),
        Event::SyncServiceStateChanged('r'),
        Event::RoomListDiff(vec![1, -2, 3]),
        Event::FatalSyncError(String::from("connection reset")),
    ]
}

#[test]
fn each_event_has_its_kind() {
    let kinds: Vec<EventKind> = one_of_each().iter().map(|event| event.kind()).collect();
    assert_eq!(
        kinds,
        vec![
            EventKind::VerificationStateChanged,
            EventKind::VerificationRequested,
            EventKind::RoomMessageReceived,
            EventKind::SyncServiceStateChanged,
            EventKind::RoomListDiff,
            EventKind::FatalSyncError,
        ]
    );
}

#[test]
fn each_constructor_gives_the_event_of_its_kind() {
    let made: Vec<Event<Plain>> = vec![
        Event::verification_state_changed(true),
        Event::verification_requested(7),
        Event::room_message_received(String::from("hello")),
        Event::sync_service_state_changed('r'),
        Event::room_list_diff(vec![1, -2, 3]),
        Event::fatal_sync_error(String::from("connection reset")),
    ];
    for (made, expected) in made.iter().zip(one_of_each().iter()) {
        assert_eq!(made.kind(), expected.kind());
        assert_eq!(format!("{:?}", made), format!("{:?}", expected));
    }
    assert!(matches!(&made[0], Event::VerificationStateChanged(true)));
    assert!(matches!(&made[1], Event::VerificationRequested(7)));
    assert!(matches!(&made[2], Event::RoomMessageReceived(message) if message == "hello"));
    assert!(matches!(&made[3], Event::SyncServiceStateChanged('r')));
    assert!(matches!(&made[4], Event::RoomListDiff(diffs) if *diffs == vec![1, -2, 3]));
    assert!(matches!(&made[5], Event::FatalSyncError(error) if error == "connection reset"));
}

#[test]
fn new_controller_has_seen_nothing() {
    let controller = Controller::new();
    assert!(!controller.sync_stopped());
    assert!(!controller.drained());
}

#[test]
fn ordinary_events_are_noted_with_what_they_carry() {
    let mut controller = Controller::new();
    let mut events = one_of_each();
    events.pop();
    for event in events {
        let kind = event.kind();
        match controller.on_event(event) {
            Directive::Note(noted) => assert_eq!(noted.kind(), kind),
            Directive::SyncStopped(_) => panic!("an ordinary event stopped nothing"),
        }
        assert!(!controller.sync_stopped());
    }
    assert!(!controller.drained());
}

#[test]
fn noted_event_is_the_event_that_came_in() {
    let mut controller = Controller::new();
    match controller.on_event::<Plain>(Event::RoomListDiff(vec![4, 5])) {
        Directive::Note(Event::RoomListDiff(diffs)) => assert_eq!(diffs, vec![4, 5]),
        other => panic!("unexpected directive {:?}", other),
    }
    match controller.on_event::<Plain>(Event::RoomMessageReceived(String::from("hi"))) {
        Directive::Note(Event::RoomMessageReceived(message)) => assert_eq!(message, "hi"),
        other => panic!("unexpected directive {:?}", other),
    }
}

#[test]
fn sync_error_is_handed_up_and_remembered() {
    let mut controller = Controller::new();
    match controller.on_event::<Plain>(Event::FatalSyncError(String::from("connection reset"))) {
        Directive::SyncStopped(error) => assert_eq!(error, "connection reset"),
        other => panic!("unexpected directive {:?}", other),
    }
    assert!(controller.sync_stopped());
    assert!(!controller.drained());
    assert!(matches!(
        controller.on_event::<Plain>(Event::VerificationRequested(1)),
        Directive::Note(Event::VerificationRequested(1))
    ));
    assert!(controller.sync_stopped());
}

#[test]
fn closed_channel_ends_the_controller() {
    let mut controller = Controller::new();
    controller.on_event::<Plain>(Event::SyncServiceStateChanged('i'));
    controller.on_closed();
    assert!(controller.drained());
    assert!(!controller.sync_stopped());
}

#[test]
fn failed_sync_loop_gives_one_event_and_a_clean_end_gives_none() {
    match sync_loop_event::<Plain>(Err(String::from("boom"))) {
        Some(Event::FatalSyncError(error)) => assert_eq!(error, "boom"),
        other => panic!("unexpected event {:?}", other),
    }
    assert!(sync_loop_event::<Plain>(Ok(())).is_none());
}
