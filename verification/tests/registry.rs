use streamline_backend::channel::{outbound_channel, DeliveryOutcome, OUTBOUND_CAPACITY};
use streamline_backend::message::{EventType, WebSocketMessage};
use streamline_backend::registry::{delivered_count, Delivery, WebSocketState};
use tokio::sync::mpsc::Receiver;

const ALICE: u128 = 0xa11ce;
const BOB: u128 = 0xb0b;

fn event(user: u128) -> WebSocketMessage {
    WebSocketMessage::new(EventType::Update, "projects", user, Some(7), None)
}

fn connect(registry: &mut WebSocketState, user: u128, id: u128) -> Receiver<WebSocketMessage> {
    let (tx, rx) = outbound_channel();
    registry.add_connection(user, id, tx);
    rx
}

fn queued(rx: &mut Receiver<WebSocketMessage>) -> usize {
    let mut count = 0;
    while rx.try_recv().is_ok() {
        count += 1;
    }
    count
}

#[test]
fn new_registry_is_empty() {
    let registry = WebSocketState::new();
    assert_eq!(registry.user_count(), 0);
    assert!(!registry.has_user(ALICE));
    assert!(registry.connection_ids(ALICE).is_empty());
    assert_eq!(registry.user_of(1), None);
}

#[test]
fn register_creates_the_bucket_and_keeps_order() {
    let mut registry = WebSocketState::new();
    let _rx1 = connect(&mut registry, ALICE, 1);
    let _rx2 = connect(&mut registry, ALICE, 2);
    let _rx3 = connect(&mut registry, BOB, 3);
    assert_eq!(registry.user_count(), 2);
    assert_eq!(registry.connection_ids(ALICE), vec![1, 2]);
    assert_eq!(registry.connection_ids(BOB), vec![3]);
    assert_eq!(registry.user_of(2), Some(ALICE));
    assert_eq!(registry.user_of(3), Some(BOB));
}

#[test]
fn register_then_deregister_removes_the_bucket() {
    let mut registry = WebSocketState::new();
    let _rx = connect(&mut registry, ALICE, 1);
    assert!(registry.has_user(ALICE));
    registry.remove_connection(ALICE, 1);
    assert!(!registry.has_user(ALICE));
    assert_eq!(registry.user_count(), 0);
    assert_eq!(registry.user_of(1), None);
}

#[test]
fn register_then_deregister_keeps_the_other_connections() {
    let mut registry = WebSocketState::new();
    let _rx1 = connect(&mut registry, ALICE, 1);
    let _rx2 = connect(&mut registry, ALICE, 2);
    registry.remove_connection(ALICE, 2);
    assert!(registry.has_user(ALICE));
    assert_eq!(registry.connection_ids(ALICE), vec![1]);
}

#[test]
fn deregister_twice_is_a_no_op() {
    let mut registry = WebSocketState::new();
    let _rx1 = connect(&mut registry, ALICE, 1);
    let _rx2 = connect(&mut registry, ALICE, 2);
    registry.remove_connection(ALICE, 1);
    registry.remove_connection(ALICE, 1);
    assert_eq!(registry.connection_ids(ALICE), vec![2]);
}

#[test]
fn deregister_of_an_unknown_connection_changes_nothing() {
    let mut registry = WebSocketState::new();
    let _rx1 = connect(&mut registry, ALICE, 1);
    registry.remove_connection(ALICE, 99);
    registry.remove_connection(BOB, 1);
    assert_eq!(registry.connection_ids(ALICE), vec![1]);
    assert!(!registry.has_user(BOB));
    assert_eq!(registry.user_of(1), Some(ALICE));
}

#[test]
fn duplicate_registration_for_the_same_user_last_wins() {
    let mut registry = WebSocketState::new();
    let mut first = connect(&mut registry, ALICE, 1);
    let _other = connect(&mut registry, ALICE, 2);
    let mut second = connect(&mut registry, ALICE, 1);
    assert_eq!(registry.connection_ids(ALICE), vec![2, 1]);

    let report = registry.broadcast_to_user(ALICE, event(ALICE), None);
    assert_eq!(report.len(), 2);
    assert_eq!(queued(&mut first), 0);
    assert_eq!(queued(&mut second), 1);
}

#[test]
fn registration_under_another_user_moves_the_connection() {
    let mut registry = WebSocketState::new();
    let _rx1 = connect(&mut registry, ALICE, 1);
    let _rx2 = connect(&mut registry, BOB, 1);
    assert!(!registry.has_user(ALICE));
    assert_eq!(registry.connection_ids(BOB), vec![1]);
    assert_eq!(registry.user_of(1), Some(BOB));
}

#[test]
fn fanout_with_exclusion_reaches_the_other_two() {
    let mut registry = WebSocketState::new();
    let mut rx1 = connect(&mut registry, ALICE, 11);
    let mut rx2 = connect(&mut registry, ALICE, 12);
    let mut rx3 = connect(&mut registry, ALICE, 13);

    let report = registry.broadcast_to_user(ALICE, event(ALICE), Some(11));

    assert_eq!(
        report,
        vec![
            Delivery { connection_id: 12, outcome: DeliveryOutcome::Delivered },
            Delivery { connection_id: 13, outcome: DeliveryOutcome::Delivered },
        ]
    );
    assert_eq!(delivered_count(&report), 2);
    assert!(rx1.try_recv().is_err());
    let got2 = rx2.try_recv().unwrap();
    assert_eq!(got2.event_type, EventType::Update);
    assert_eq!(got2.table, "projects");
    assert_eq!(got2.user_id, ALICE);
    assert_eq!(got2.record_id, Some(7));
    assert_eq!(got2.data, None);
    assert!(rx2.try_recv().is_err());
    assert_eq!(queued(&mut rx3), 1);
}

#[test]
fn fanout_without_exclusion_reaches_all_of_the_user_and_nobody_else() {
    let mut registry = WebSocketState::new();
    let mut a1 = connect(&mut registry, ALICE, 1);
    let mut a2 = connect(&mut registry, ALICE, 2);
    let mut b1 = connect(&mut registry, BOB, 3);

    let report = registry.broadcast_to_user(ALICE, event(ALICE), None);

    assert_eq!(report.len(), 2);
    assert_eq!(report[0].connection_id, 1);
    assert_eq!(report[1].connection_id, 2);
    assert_eq!(queued(&mut a1), 1);
    assert_eq!(queued(&mut a2), 1);
    assert_eq!(queued(&mut b1), 0);
}

#[test]
fn fanout_that_excludes_a_connection_of_another_user_reaches_all() {
    let mut registry = WebSocketState::new();
    let mut a1 = connect(&mut registry, ALICE, 1);
    let mut b1 = connect(&mut registry, BOB, 3);
    let report = registry.broadcast_to_user(ALICE, event(ALICE), Some(3));
    assert_eq!(report.len(), 1);
    assert_eq!(queued(&mut a1), 1);
    assert_eq!(queued(&mut b1), 0);
}

#[test]
fn fanout_to_a_user_without_connections_is_a_no_op() {
    let mut registry = WebSocketState::new();
    let mut b1 = connect(&mut registry, BOB, 3);
    let report = registry.broadcast_to_user(ALICE, event(ALICE), None);
    assert!(report.is_empty());
    assert_eq!(delivered_count(&report), 0);
    assert_eq!(queued(&mut b1), 0);
}

#[test]
fn fanout_after_many_registrations_delivers_once_to_each() {
    let mut registry = WebSocketState::new();
    let mut receivers = Vec::new();
    for id in [5u128, 3, 9, 1, 7, 2, 8] {
        receivers.push(connect(&mut registry, ALICE, id));
    }
    let report = registry.broadcast_to_user(ALICE, event(ALICE), None);
    let ids: Vec<u128> = report.iter().map(|d| d.connection_id).collect();
    assert_eq!(ids, vec![5, 3, 9, 1, 7, 2, 8]);
    for rx in receivers.iter_mut() {
        assert_eq!(queued(rx), 1);
    }
}

#[test]
fn full_queue_drops_for_that_connection_only() {
    let mut registry = WebSocketState::new();
    let mut slow = connect(&mut registry, ALICE, 1);
    for _ in 0..OUTBOUND_CAPACITY {
        let report = registry.broadcast_to_user(ALICE, event(ALICE), None);
        assert_eq!(report[0].outcome, DeliveryOutcome::Delivered);
    }
    let mut fresh = connect(&mut registry, ALICE, 2);

    let report = registry.broadcast_to_user(ALICE, event(ALICE), None);

    assert_eq!(
        report,
        vec![
            Delivery { connection_id: 1, outcome: DeliveryOutcome::QueueFull },
            Delivery { connection_id: 2, outcome: DeliveryOutcome::Delivered },
        ]
    );
    assert_eq!(delivered_count(&report), 1);
    assert_eq!(queued(&mut slow), OUTBOUND_CAPACITY);
    assert_eq!(queued(&mut fresh), 1);
}

#[test]
fn closed_queue_drops_for_that_connection_only() {
    let mut registry = WebSocketState::new();
    let gone = connect(&mut registry, ALICE, 1);
    let mut live = connect(&mut registry, ALICE, 2);
    drop(gone);
    let report = registry.broadcast_to_user(ALICE, event(ALICE), None);
    assert_eq!(
        report,
        vec![
            Delivery { connection_id: 1, outcome: DeliveryOutcome::Closed },
            Delivery { connection_id: 2, outcome: DeliveryOutcome::Delivered },
        ]
    );
    assert_eq!(queued(&mut live), 1);
}

#[test]
fn queue_is_first_in_first_out() {
    let mut registry = WebSocketState::new();
    let mut rx = connect(&mut registry, ALICE, 1);
    registry.broadcast_change("projects", ALICE, EventType::Insert, Some(1), None, None);
    registry.broadcast_change("projects", ALICE, EventType::Update, Some(1), None, None);
    registry.broadcast_change("projects", ALICE, EventType::Delete, Some(1), None, None);
    assert_eq!(rx.try_recv().unwrap().event_type, EventType::Insert);
    assert_eq!(rx.try_recv().unwrap().event_type, EventType::Update);
    assert_eq!(rx.try_recv().unwrap().event_type, EventType::Delete);
}

#[test]
fn plan_holds_one_offer_per_target() {
    let mut registry = WebSocketState::new();
    let mut rx1 = connect(&mut registry, ALICE, 1);
    let mut rx2 = connect(&mut registry, ALICE, 2);
    let message = event(ALICE);
    let offers = registry.plan_fanout(ALICE, &message, Some(2));
    assert_eq!(offers.len(), 1);
    assert_eq!(offers[0].connection_id, 1);
    assert_eq!(offers[0].message.table, "projects");
    assert_eq!(queued(&mut rx1), 0);
    let delivery = offers[0].send();
    assert_eq!(delivery, Delivery { connection_id: 1, outcome: DeliveryOutcome::Delivered });
    assert_eq!(queued(&mut rx1), 1);
    assert_eq!(queued(&mut rx2), 0);
}

#[test]
fn broadcast_change_builds_the_event_and_skips_the_origin() {
    let mut registry = WebSocketState::new();
    let mut origin = connect(&mut registry, ALICE, 1);
    let mut other = connect(&mut registry, ALICE, 2);
    let report = registry.broadcast_change(
        "calendars",
        ALICE,
        EventType::Delete,
        Some(42),
        Some("{\"id\":42}".to_string()),
        Some(1),
    );
    assert_eq!(report, vec![Delivery { connection_id: 2, outcome: DeliveryOutcome::Delivered }]);
    assert_eq!(queued(&mut origin), 0);
    let got = other.try_recv().unwrap();
    assert_eq!(got.event_type, EventType::Delete);
    assert_eq!(got.table, "calendars");
    assert_eq!(got.user_id, ALICE);
    assert_eq!(got.record_id, Some(42));
    assert_eq!(got.data.as_deref(), Some("{\"id\":42}"));
}
