use tokio::sync::mpsc::{channel, Receiver, Sender};
use yapping_server::identity::Identity;
use yapping_server::model::{Chat, Message, Notification, NotificationKind};
use yapping_server::router::{bridged, Command, Push, Router};

fn id(n: u128) -> Identity {
    Identity::new(n)
}

fn mailbox() -> (Sender<Notification>, Receiver<Notification>) {
    channel(100)
}

fn message(chat: u128, number: u128, text: &str) -> Notification {
    Notification {
        id: id(5000 + number),
        kind: NotificationKind::NewMessage(
            id(chat),
            Message { id: id(number), author: id(1), text: text.to_string() },
        ),
    }
}

fn new_chat(chat: u128, members: &[u128]) -> Notification {
    Notification {
        id: id(7000 + chat),
        kind: NotificationKind::NewChat(Chat {
            id: id(chat),
            tag: "group".to_string(),
            members: members.iter().map(|m| id(*m)).collect(),
            messages: Vec::new(),
        }),
    }
}

fn deliver(pushes: Vec<Push>) {
    for push in pushes {
        push.mailbox.try_send(push.notification).unwrap();
    }
}

fn drain(receiver: &mut Receiver<Notification>) -> Vec<Notification> {
    let mut out = Vec::new();
    while let Ok(notification) = receiver.try_recv() {
        out.push(notification);
    }
    out
}

#[test]
fn new_router_knows_nobody() {
    let router = Router::new();
    assert_eq!(router.online_count(), 0);
    assert_eq!(router.subscription_count(), 0);
    assert_eq!(router.topic_count(), 0);
    assert!(!router.is_online(id(1)));
    assert!(!router.is_subscribed(id(1), id(2)));
    assert!(!router.has_topic(id(2)));
}

#[test]
fn register_online_fills_directory_subscriptions_and_topics() {
    let mut router = Router::new();
    let (tx, _rx) = mailbox();
    router.register_online(id(1), vec![id(10), id(11)], tx);
    assert!(router.is_online(id(1)));
    assert_eq!(router.online_count(), 1);
    assert!(router.is_subscribed(id(1), id(10)));
    assert!(router.is_subscribed(id(1), id(11)));
    assert!(!router.is_subscribed(id(1), id(12)));
    assert_eq!(router.subscription_count(), 2);
    assert!(router.has_topic(id(10)));
    assert!(router.has_topic(id(11)));
    assert_eq!(router.topic_count(), 2);
}

#[test]
fn register_then_offline_leaves_no_trace() {
    let mut router = Router::new();
    let (tx, _rx) = mailbox();
    let (tx2, _rx2) = mailbox();
    router.register_online(id(1), vec![id(10), id(11)], tx);
    router.register_online(id(2), vec![id(10)], tx2);
    router.offline(id(1));
    assert!(!router.is_online(id(1)));
    assert!(!router.is_subscribed(id(1), id(10)));
    assert!(!router.is_subscribed(id(1), id(11)));
    assert!(router.is_online(id(2)));
    assert!(router.is_subscribed(id(2), id(10)));
    assert_eq!(router.online_count(), 1);
    assert_eq!(router.subscription_count(), 1);
    assert_eq!(router.topic_count(), 2);
}

#[test]
fn repeated_registrations_then_offline_leave_no_trace() {
    let mut router = Router::new();
    for round in 0..3u128 {
        let (tx, _rx) = mailbox();
        router.register_online(id(1), vec![id(10 + round), id(10)], tx);
    }
    assert_eq!(router.online_count(), 1);
    assert_eq!(router.subscription_count(), 3);
    router.offline(id(1));
    assert_eq!(router.online_count(), 0);
    assert_eq!(router.subscription_count(), 0);
    assert!(!router.is_online(id(1)));
}

#[test]
fn offline_of_unknown_user_is_a_no_op() {
    let mut router = Router::new();
    let (tx, _rx) = mailbox();
    router.register_online(id(1), vec![id(10)], tx);
    router.offline(id(2));
    assert_eq!(router.online_count(), 1);
    assert_eq!(router.subscription_count(), 1);
    assert!(router.handle(Command::Offline(id(3))).is_empty());
}

#[test]
fn second_login_replaces_the_mailbox() {
    let mut router = Router::new();
    let (old_tx, mut old_rx) = mailbox();
    let (new_tx, mut new_rx) = mailbox();
    router.register_online(id(1), vec![id(10)], old_tx);
    router.register_online(id(1), vec![id(10)], new_tx);
    assert_eq!(router.online_count(), 1);
    assert_eq!(router.subscription_count(), 1);
    deliver(router.refresh_user(id(1)));
    assert!(drain(&mut old_rx).is_empty());
    assert_eq!(drain(&mut new_rx).len(), 1);
}

#[test]
fn unset_identity_never_comes_online() {
    let mut router = Router::new();
    let (tx, _rx) = mailbox();
    router.register_online(Identity::unset(), vec![id(10)], tx);
    assert_eq!(router.online_count(), 0);
    assert_eq!(router.subscription_count(), 0);
    assert_eq!(router.topic_count(), 0);
    assert!(router.refresh_user(Identity::unset()).is_empty());
}

#[test]
fn duplicate_chats_in_a_registration_subscribe_once() {
    let mut router = Router::new();
    let (tx, _rx) = mailbox();
    router.register_online(id(1), vec![id(10), id(10), id(10)], tx);
    assert_eq!(router.subscription_count(), 1);
    assert_eq!(router.topic_count(), 1);
}

#[test]
fn refresh_user_reaches_only_that_user() {
    let mut router = Router::new();
    let (tx1, mut rx1) = mailbox();
    let (tx2, mut rx2) = mailbox();
    router.register_online(id(1), vec![], tx1);
    router.register_online(id(2), vec![], tx2);
    let pushes = router.handle(Command::RefreshUser(id(2)));
    assert_eq!(pushes.len(), 1);
    assert_eq!(pushes[0].to, id(2));
    assert_eq!(
        pushes[0].notification,
        Notification { id: Identity::unset(), kind: NotificationKind::RefreshUser(id(2)) }
    );
    deliver(pushes);
    assert!(drain(&mut rx1).is_empty());
    assert_eq!(drain(&mut rx2).len(), 1);
    assert!(router.handle(Command::RefreshUser(id(3))).is_empty());
}

#[test]
fn new_chat_subscribes_and_tells_online_members_only() {
    let mut router = Router::new();
    let (tx1, mut rx1) = mailbox();
    let (tx3, mut rx3) = mailbox();
    router.register_online(id(1), vec![], tx1);
    router.register_online(id(3), vec![], tx3);
    let announcement = new_chat(10, &[1, 2]);
    let pushes = router.route(announcement.clone());
    assert_eq!(pushes.len(), 1);
    assert_eq!(pushes[0].to, id(1));
    assert_eq!(pushes[0].notification.id, Identity::unset());
    assert_eq!(pushes[0].notification.kind, announcement.kind);
    deliver(pushes);
    assert_eq!(drain(&mut rx1).len(), 1);
    assert!(drain(&mut rx3).is_empty());
    assert!(router.has_topic(id(10)));
    assert!(router.is_subscribed(id(1), id(10)));
    assert!(!router.is_subscribed(id(2), id(10)));
    assert!(!router.is_subscribed(id(3), id(10)));
}

#[test]
fn new_chat_pushes_follow_member_order() {
    let mut router = Router::new();
    let (tx1, _rx1) = mailbox();
    let (tx2, _rx2) = mailbox();
    let (tx3, _rx3) = mailbox();
    router.register_online(id(1), vec![], tx1);
    router.register_online(id(2), vec![], tx2);
    router.register_online(id(3), vec![], tx3);
    let pushes = router.route(new_chat(10, &[3, 9, 1, 2]));
    let order: Vec<Identity> = pushes.iter().map(|push| push.to).collect();
    assert_eq!(order, vec![id(3), id(1), id(2)]);
}

#[test]
fn second_new_chat_does_not_duplicate_subscriptions() {
    let mut router = Router::new();
    let (tx1, _rx1) = mailbox();
    let (tx2, _rx2) = mailbox();
    router.register_online(id(1), vec![], tx1);
    router.register_online(id(2), vec![], tx2);
    assert_eq!(router.route(new_chat(10, &[1, 2])).len(), 2);
    assert_eq!(router.subscription_count(), 2);
    assert_eq!(router.topic_count(), 1);
    assert_eq!(router.route(new_chat(10, &[1, 2])).len(), 2);
    assert_eq!(router.subscription_count(), 2);
    assert_eq!(router.topic_count(), 1);
}

#[test]
fn new_chat_with_nobody_online_still_creates_the_topic() {
    let mut router = Router::new();
    assert!(router.route(new_chat(10, &[1, 2])).is_empty());
    assert!(router.has_topic(id(10)));
    assert_eq!(router.subscription_count(), 0);
}

#[test]
fn friend_request_goes_to_the_online_addressee() {
    let mut router = Router::new();
    let (tx1, mut rx1) = mailbox();
    let (tx2, mut rx2) = mailbox();
    router.register_online(id(1), vec![], tx1);
    router.register_online(id(2), vec![], tx2);
    let request = Notification { id: id(77), kind: NotificationKind::FriendRequest(id(1), id(2)) };
    let pushes = router.handle(Command::Route(request.clone()));
    assert_eq!(pushes.len(), 1);
    assert_eq!(pushes[0].to, id(2));
    assert_eq!(pushes[0].notification, request);
    deliver(pushes);
    assert!(drain(&mut rx1).is_empty());
    assert_eq!(drain(&mut rx2), vec![request]);
}

#[test]
fn friend_accepted_goes_to_the_online_addressee() {
    let mut router = Router::new();
    let (tx2, mut rx2) = mailbox();
    router.register_online(id(2), vec![], tx2);
    let accepted =
        Notification { id: id(78), kind: NotificationKind::FriendAccepted(id(1), id(2)) };
    deliver(router.route(accepted.clone()));
    assert_eq!(drain(&mut rx2), vec![accepted]);
}

#[test]
fn friend_request_to_offline_user_pushes_nothing() {
    let mut router = Router::new();
    let (tx1, mut rx1) = mailbox();
    router.register_online(id(1), vec![], tx1);
    let request = Notification { id: id(77), kind: NotificationKind::FriendRequest(id(1), id(2)) };
    assert!(router.route(request).is_empty());
    assert!(drain(&mut rx1).is_empty());
}

#[test]
fn other_kinds_are_not_routed() {
    let mut router = Router::new();
    let (tx1, _rx1) = mailbox();
    router.register_online(id(1), vec![id(10)], tx1);
    for kind in [
        NotificationKind::MessageRead(id(10)),
        NotificationKind::Unread(id(10)),
        NotificationKind::RefreshUser(id(1)),
    ] {
        assert!(router.route(Notification { id: id(5), kind }).is_empty());
    }
    assert!(router.bridge().is_empty());
    assert_eq!(router.online_count(), 1);
    assert_eq!(router.subscription_count(), 1);
    assert_eq!(router.topic_count(), 1);
}

#[test]
fn new_message_is_published_not_pushed() {
    let mut router = Router::new();
    let (tx1, _rx1) = mailbox();
    router.register_online(id(1), vec![id(10)], tx1);
    assert!(router.route(message(10, 1, "hi")).is_empty());
    assert!(router.route(message(11, 2, "nobody listens")).is_empty());
    assert!(router.has_topic(id(11)));
}

#[test]
fn bridging_hands_a_message_to_each_subscriber_once() {
    let mut router = Router::new();
    let (tx_a, mut rx_a) = mailbox();
    let (tx_b, mut rx_b) = mailbox();
    let (tx_c, mut rx_c) = mailbox();
    router.register_online(id(1), vec![id(10)], tx_a);
    router.register_online(id(2), vec![id(10)], tx_b);
    router.register_online(id(3), vec![id(11)], tx_c);
    assert!(router.handle(Command::Route(message(10, 1, "hi"))).is_empty());
    let pushes = router.bridge();
    assert_eq!(pushes.len(), 2);
    deliver(pushes);
    let expected = Notification { id: Identity::unset(), kind: message(10, 1, "hi").kind };
    assert_eq!(drain(&mut rx_b), vec![expected.clone()]);
    assert_eq!(drain(&mut rx_a), vec![expected]);
    assert!(drain(&mut rx_c).is_empty());
    assert!(router.bridge().is_empty());
}

#[test]
fn bridging_keeps_publication_order_per_chat() {
    let mut router = Router::new();
    let (tx, mut rx) = mailbox();
    router.register_online(id(1), vec![id(10)], tx);
    router.route(message(10, 1, "one"));
    router.route(message(10, 2, "two"));
    router.route(message(10, 3, "three"));
    deliver(router.bridge());
    let kinds: Vec<NotificationKind> = drain(&mut rx).into_iter().map(|n| n.kind).collect();
    assert_eq!(
        kinds,
        vec![message(10, 1, "one").kind, message(10, 2, "two").kind, message(10, 3, "three").kind]
    );
}

#[test]
fn message_published_before_subscription_is_not_bridged() {
    let mut router = Router::new();
    let (tx_a, _rx_a) = mailbox();
    router.register_online(id(1), vec![id(10)], tx_a);
    router.route(message(10, 1, "early"));
    let (tx_b, mut rx_b) = mailbox();
    router.register_online(id(2), vec![id(10)], tx_b);
    router.route(message(10, 2, "late"));
    deliver(router.bridge());
    let seen: Vec<NotificationKind> = drain(&mut rx_b).into_iter().map(|n| n.kind).collect();
    assert_eq!(seen, vec![message(10, 2, "late").kind]);
}

#[test]
fn offline_user_is_not_bridged_to() {
    let mut router = Router::new();
    let (tx_a, _rx_a) = mailbox();
    let (tx_b, mut rx_b) = mailbox();
    router.register_online(id(1), vec![id(10)], tx_a);
    router.register_online(id(2), vec![id(10)], tx_b);
    router.route(message(10, 1, "hi"));
    router.offline(id(2));
    let pushes = router.bridge();
    assert_eq!(pushes.len(), 1);
    assert_eq!(pushes[0].to, id(1));
    assert!(drain(&mut rx_b).is_empty());
}

#[test]
fn stalled_subscriber_is_bridged_a_suffix() {
    let mut router = Router::new();
    let (tx, _rx) = mailbox();
    router.register_online(id(1), vec![id(10)], tx);
    for n in 0..200u128 {
        router.route(message(10, n, "x"));
    }
    let mut seen: Vec<u128> = Vec::new();
    for _ in 0..4 {
        for push in router.bridge() {
            match push.notification.kind {
                NotificationKind::NewMessage(_, message) => seen.push(message.id.get_value()),
                _ => panic!("bridged something else"),
            }
        }
    }
    assert!(!seen.is_empty());
    assert!(seen.len() < 200);
    for pair in seen.windows(2) {
        assert_eq!(pair[0] + 1, pair[1]);
    }
    assert_eq!(*seen.last().unwrap(), 199);
}

#[test]
fn bridged_passes_messages_of_the_chat_only() {
    let event = message(10, 1, "hi");
    assert_eq!(
        bridged(id(10), event.clone()),
        Some(Notification { id: Identity::unset(), kind: event.kind.clone() })
    );
    assert_eq!(bridged(id(11), event), None);
    assert_eq!(bridged(id(10), new_chat(10, &[1])), None);
    assert_eq!(
        bridged(id(10), Notification { id: id(1), kind: NotificationKind::RefreshUser(id(10)) }),
        None
    );
}

#[test]
fn cycle_runs_commands_in_order_then_bridges() {
    let mut router = Router::new();
    let (tx_a, _rx_a) = mailbox();
    let (tx_b, _rx_b) = mailbox();
    let request = Notification { id: id(77), kind: NotificationKind::FriendRequest(id(1), id(2)) };
    let cycle = router.cycle(vec![
        Command::Route(request.clone()),
        Command::RegisterOnline(id(1), vec![id(10)], tx_a),
        Command::RegisterOnline(id(2), vec![id(10)], tx_b),
        Command::Route(request.clone()),
        Command::Route(message(10, 1, "hi")),
        Command::RefreshUser(id(1)),
        Command::Offline(id(2)),
        Command::RefreshUser(id(2)),
    ]);
    let direct: Vec<(Identity, NotificationKind)> =
        cycle.direct.into_iter().map(|push| (push.to, push.notification.kind)).collect();
    assert_eq!(
        direct,
        vec![(id(2), request.kind), (id(1), NotificationKind::RefreshUser(id(1)))]
    );
    let bridged: Vec<(Identity, NotificationKind)> =
        cycle.bridged.into_iter().map(|push| (push.to, push.notification.kind)).collect();
    assert_eq!(bridged, vec![(id(1), message(10, 1, "hi").kind)]);
    assert!(router.is_online(id(1)));
    assert!(!router.is_online(id(2)));
}

#[test]
fn empty_cycle_changes_nothing() {
    let mut router = Router::new();
    let cycle = router.cycle(Vec::new());
    assert!(cycle.direct.is_empty());
    assert!(cycle.bridged.is_empty());
    assert_eq!(router.online_count(), 0);
}
