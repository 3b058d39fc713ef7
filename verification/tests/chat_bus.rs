use yapping_server::chat_bus::{ChatBus, TOPIC_CAPACITY};
use yapping_server::identity::Identity;
use yapping_server::model::{Message, Notification, NotificationKind};

fn chat(n: u128) -> Identity {
    Identity::new(n)
}

fn event(chat_id: Identity, number: u128) -> Notification {
    Notification {
        id: Identity::new(1000 + number),
        kind: NotificationKind::NewMessage(
            chat_id,
            Message { id: Identity::new(number), author: Identity::new(7), text: format!("event {number}") },
        ),
    }
}

fn number_of(notification: &Notification) -> u128 {
    match &notification.kind {
        NotificationKind::NewMessage(_, message) => message.id.get_value(),
        _ => panic!("not a message"),
    }
}

#[test]
fn topic_capacity_is_fifty() {
    assert_eq!(TOPIC_CAPACITY, 50);
}

#[test]
fn new_bus_has_no_topics() {
    let bus = ChatBus::new();
    assert_eq!(bus.topic_count(), 0);
    assert!(!bus.has_topic(chat(1)));
    assert!(bus.subscribe(chat(1)).is_none());
}

#[test]
fn ensure_topic_is_idempotent() {
    let mut bus = ChatBus::new();
    bus.ensure_topic(chat(1));
    assert_eq!(bus.topic_count(), 1);
    assert!(bus.has_topic(chat(1)));
    bus.ensure_topic(chat(1));
    assert_eq!(bus.topic_count(), 1);
    bus.ensure_topic(chat(2));
    assert_eq!(bus.topic_count(), 2);
    bus.ensure_topic(chat(1));
    bus.ensure_topic(chat(2));
    assert_eq!(bus.topic_count(), 2);
}

#[test]
fn ensure_topic_keeps_existing_cursors() {
    let mut bus = ChatBus::new();
    bus.ensure_topic(chat(1));
    let mut cursor = bus.subscribe(chat(1)).unwrap();
    bus.ensure_topic(chat(1));
    assert!(bus.publish(chat(1), event(chat(1), 1)));
    assert_eq!(number_of(&cursor.try_recv().unwrap()), 1);
}

#[test]
fn publish_without_subscribers_is_dropped_without_failing() {
    let mut bus = ChatBus::new();
    bus.ensure_topic(chat(1));
    assert!(!bus.publish(chat(1), event(chat(1), 1)));
    let mut late = bus.subscribe(chat(1)).unwrap();
    assert!(late.try_recv().is_err());
}

#[test]
fn publish_creates_a_missing_topic() {
    let mut bus = ChatBus::new();
    assert!(!bus.publish(chat(9), event(chat(9), 1)));
    assert!(bus.has_topic(chat(9)));
    assert_eq!(bus.topic_count(), 1);
}

#[test]
fn subscriber_sees_events_in_publication_order() {
    let mut bus = ChatBus::new();
    bus.ensure_topic(chat(1));
    let mut cursor = bus.subscribe(chat(1)).unwrap();
    assert!(bus.publish(chat(1), event(chat(1), 1)));
    assert!(bus.publish(chat(1), event(chat(1), 2)));
    assert!(bus.publish(chat(1), event(chat(1), 3)));
    assert_eq!(cursor.try_recv().unwrap(), event(chat(1), 1));
    assert_eq!(cursor.try_recv().unwrap(), event(chat(1), 2));
    assert_eq!(cursor.try_recv().unwrap(), event(chat(1), 3));
    assert!(cursor.try_recv().is_err());
}

#[test]
fn cursor_starts_at_the_tail() {
    let mut bus = ChatBus::new();
    bus.ensure_topic(chat(1));
    let mut early = bus.subscribe(chat(1)).unwrap();
    bus.publish(chat(1), event(chat(1), 1));
    let mut late = bus.subscribe(chat(1)).unwrap();
    bus.publish(chat(1), event(chat(1), 2));
    assert_eq!(number_of(&early.try_recv().unwrap()), 1);
    assert_eq!(number_of(&early.try_recv().unwrap()), 2);
    assert_eq!(number_of(&late.try_recv().unwrap()), 2);
    assert!(late.try_recv().is_err());
}

#[test]
fn every_subscriber_sees_every_event() {
    let mut bus = ChatBus::new();
    bus.ensure_topic(chat(1));
    let mut first = bus.subscribe(chat(1)).unwrap();
    let mut second = bus.subscribe(chat(1)).unwrap();
    for n in 0..TOPIC_CAPACITY as u128 {
        assert!(bus.publish(chat(1), event(chat(1), n)));
    }
    for n in 0..TOPIC_CAPACITY as u128 {
        assert_eq!(number_of(&first.try_recv().unwrap()), n);
        assert_eq!(number_of(&second.try_recv().unwrap()), n);
    }
}

#[test]
fn topics_do_not_mix() {
    let mut bus = ChatBus::new();
    bus.ensure_topic(chat(1));
    bus.ensure_topic(chat(2));
    let mut one = bus.subscribe(chat(1)).unwrap();
    let mut two = bus.subscribe(chat(2)).unwrap();
    bus.publish(chat(2), event(chat(2), 5));
    assert!(one.try_recv().is_err());
    assert_eq!(number_of(&two.try_recv().unwrap()), 5);
}

#[test]
fn stalled_subscriber_observes_a_strict_suffix() {
    let mut bus = ChatBus::new();
    bus.ensure_topic(chat(1));
    let mut cursor = bus.subscribe(chat(1)).unwrap();
    let published: u128 = 200;
    for n in 0..published {
        assert!(bus.publish(chat(1), event(chat(1), n)));
    }
    let mut seen: Vec<u128> = Vec::new();
    let mut misses = 0;
    loop {
        match cursor.try_recv() {
            Ok(notification) => seen.push(number_of(&notification)),
            Err(tokio::sync::broadcast::error::TryRecvError::Lagged(_)) => misses += 1,
            Err(_) => break,
        }
    }
    assert_eq!(misses, 1);
    assert!(!seen.is_empty());
    assert!((seen.len() as u128) < published);
    assert!(seen.len() >= TOPIC_CAPACITY);
    for pair in seen.windows(2) {
        assert_eq!(pair[0] + 1, pair[1]);
    }
    assert_eq!(*seen.last().unwrap(), published - 1);
}
