use yapping_server::connection::{ConnectionActor, Effect, Step};
use yapping_server::identity::Identity;
use yapping_server::model::{
    Chat, Contact, Content, Credentials, Envelope, Message, Notification, NotificationKind,
    Profile, Query, Response, Session,
};
use yapping_server::router::{Command, Router};
use yapping_server::store::{standing_duplicate, Mutation, Reply, Request};

fn id(n: u128) -> Identity {
    Identity::new(n)
}

/// A store that lives in memory and does what the service expects of one.
struct Store {
    accounts: Vec<(Credentials, Profile)>,
    chats: Vec<Chat>,
    standing: Vec<(Identity, Notification)>,
    writes: usize,
}

impl Store {
    fn new() -> Store {
        Store { accounts: Vec::new(), chats: Vec::new(), standing: Vec::new(), writes: 0 }
    }

    fn add_user(&mut self, user: u128, tag: &str) -> Credentials {
        let credentials = Credentials {
            email: format!("{tag}@example.org"),
            tag: tag.to_string(),
            password: "secret".to_string(),
        };
        let profile = Profile {
            id: id(user),
            tag: tag.to_string(),
            email: credentials.email.clone(),
            friends: Vec::new(),
        };
        self.accounts.push((credentials.clone(), profile));
        credentials
    }

    fn profile(&self, user: Identity) -> Option<Profile> {
        self.accounts.iter().map(|(_, p)| p).find(|p| p.id == user).cloned()
    }

    fn friends_of(&self, user: u128) -> Vec<Identity> {
        self.profile(id(user)).unwrap().friends.iter().map(|f| f.id).collect()
    }

    fn standing_of(&self, user: Identity) -> Vec<Notification> {
        self.standing.iter().filter(|(owner, _)| *owner == user).map(|(_, n)| n.clone()).collect()
    }

    fn apply(&mut self, mutation: Mutation) -> Result<(), String> {
        self.writes += 1;
        match mutation {
            Mutation::InsertFriend(user, friend) => {
                let tag = self.profile(friend).ok_or("Failed to find User!")?.tag;
                let (_, profile) = self
                    .accounts
                    .iter_mut()
                    .find(|(_, p)| p.id == user)
                    .ok_or("Failed to find User!")?;
                if !profile.friends.iter().any(|f| f.id == friend) {
                    profile.friends.push(Contact { id: friend, tag });
                }
            }
            Mutation::RemoveFriend(user, friend) => {
                if let Some((_, profile)) = self.accounts.iter_mut().find(|(_, p)| p.id == user) {
                    profile.friends.retain(|f| f.id != friend);
                }
            }
            Mutation::InsertNotification(user, notification) => {
                self.standing.push((user, notification));
            }
            Mutation::InsertUniqueNotification(user, notification) => {
                match standing_duplicate(&self.standing_of(user), &notification) {
                    Some(old) => {
                        for (_, kept) in self.standing.iter_mut() {
                            if kept.id == old {
                                kept.id = notification.id;
                            }
                        }
                    }
                    None => self.standing.push((user, notification)),
                }
            }
            Mutation::RemoveNotification(gone) => self.standing.retain(|(_, n)| n.id != gone),
            Mutation::CreateChat(chat) => {
                if self.chats.iter().any(|c| c.id == chat.id) {
                    return Err("Chat alwready exists!".to_string());
                }
                self.chats.push(chat);
            }
            Mutation::RemoveChat(gone) => self.chats.retain(|c| c.id != gone),
            Mutation::InsertMessage(chat, message) => {
                let chat = self
                    .chats
                    .iter_mut()
                    .find(|c| c.id == chat)
                    .ok_or("In MongoDB::get_chat: Failed to find Chat!")?;
                if !chat.messages.contains(&message) {
                    chat.messages.push(message);
                }
            }
            Mutation::ChangeTag(user, tag) => {
                if let Some((_, profile)) = self.accounts.iter_mut().find(|(_, p)| p.id == user) {
                    profile.tag = tag;
                }
            }
        }
        Ok(())
    }

    fn perform(&mut self, request: Request) -> Reply {
        match request {
            Request::Authenticate(credentials) => self
                .accounts
                .iter()
                .find(|(known, _)| {
                    known.email == credentials.email && known.password == credentials.password
                })
                .map(|(_, profile)| Reply::Profile(profile.clone()))
                .unwrap_or(Reply::Failed("Failed to find User!".to_string())),
            Request::CreateAccount(_) => Reply::Failed("not in this scenario".to_string()),
            Request::FetchProfile(user) => self
                .profile(user)
                .map(Reply::Profile)
                .unwrap_or(Reply::Failed("Failed to find User!".to_string())),
            Request::FetchChat(chat) => self
                .chats
                .iter()
                .find(|c| c.id == chat)
                .map(|c| Reply::Chat(c.clone()))
                .unwrap_or(Reply::Failed("In MongoDB::get_chat: Failed to find Chat!".to_string())),
            Request::FetchUserChats(user) => Reply::Chats(
                self.chats.iter().filter(|c| c.members.contains(&user)).cloned().collect(),
            ),
            Request::FetchNotifications(user) => Reply::Notifications(self.standing_of(user)),
            Request::UsersByTag(_) | Request::UsersContainsTag(_) | Request::UsersById(_) => {
                Reply::Users(Vec::new())
            }
            Request::Apply(mutations) => {
                for mutation in mutations {
                    if let Err(why) = self.apply(mutation) {
                        return Reply::Failed(why);
                    }
                }
                Reply::Applied
            }
        }
    }
}

/// One connection with what it has written to its socket.
struct Client {
    actor: ConnectionActor,
    wire: Vec<Envelope>,
}

struct World {
    store: Store,
    router: Router,
    queue: Vec<Command>,
}

impl World {
    fn new() -> World {
        World { store: Store::new(), router: Router::new(), queue: Vec::new() }
    }

    /// Carries a step out to its end, as the program around the library does.
    fn carry_out(&mut self, client: &mut Client, first: Step) {
        let mut step = first;
        loop {
            for effect in step.effects {
                match effect {
                    Effect::Post(command) => self.queue.push(command),
                    Effect::Send(envelope) => client.wire.push(envelope),
                }
            }
            match step.ask {
                Some(request) => step = client.actor.resume(self.store.perform(request)),
                None => break,
            }
        }
    }

    fn inbound(&mut self, client: &mut Client, envelope: Envelope) {
        let step = client.actor.receive(envelope);
        self.carry_out(client, step);
    }

    /// One cycle of the router; returns how many pushes it made.
    fn route(&mut self) -> usize {
        let commands = std::mem::take(&mut self.queue);
        let cycle = self.router.cycle(commands);
        let mut pushes = 0;
        for push in cycle.direct.into_iter().chain(cycle.bridged) {
            push.mailbox.try_send(push.notification).unwrap();
            pushes += 1;
        }
        pushes
    }

    fn tick(&mut self, client: &mut Client) {
        while let Some(step) = client.actor.poll() {
            self.carry_out(client, step);
        }
    }

    fn login(&mut self, credentials: Credentials) -> Client {
        let mut client = Client { actor: ConnectionActor::new(), wire: Vec::new() };
        self.inbound(
            &mut client,
            Envelope { id: id(1), content: Content::Session(Session::Login(credentials)) },
        );
        assert!(client.actor.is_logged_in());
        assert_eq!(client.wire.len(), 1);
        client.wire.clear();
        client
    }
}

fn notifications_on(wire: &[Envelope]) -> Vec<NotificationKind> {
    wire.iter()
        .filter_map(|envelope| match &envelope.content {
            Content::Notification(notification) => Some(notification.kind.clone()),
            _ => None,
        })
        .collect()
}

#[test]
fn message_reaches_online_members_once_and_nobody_else() {
    let mut world = World::new();
    let ann = world.store.add_user(1, "ann");
    let bob = world.store.add_user(2, "bob");
    let eve = world.store.add_user(3, "eve");
    world.store.chats.push(Chat {
        id: id(30),
        tag: "lunch".to_string(),
        members: vec![id(1), id(2)],
        messages: Vec::new(),
    });
    let mut a = world.login(ann);
    let mut b = world.login(bob);
    let mut e = world.login(eve);
    assert_eq!(world.route(), 0);
    assert!(world.router.is_subscribed(id(1), id(30)));
    assert!(world.router.is_subscribed(id(2), id(30)));
    assert!(!world.router.is_subscribed(id(3), id(30)));

    let hi = Message { id: id(500), author: id(1), text: "hi".to_string() };
    let sent = Notification { id: id(600), kind: NotificationKind::NewMessage(id(30), hi.clone()) };
    world.inbound(&mut a, Envelope { id: id(7), content: Content::Notification(sent.clone()) });
    assert_eq!(a.wire, vec![Envelope { id: id(7), content: Content::Response(Response::Success) }]);
    assert_eq!(world.store.chats[0].messages, vec![hi.clone()]);
    assert_eq!(
        world.store.standing_of(id(2)),
        vec![Notification { id: Identity::unset(), kind: NotificationKind::Unread(id(30)) }]
    );
    assert!(world.store.standing_of(id(1)).is_empty());

    assert_eq!(world.route(), 2);
    world.tick(&mut b);
    world.tick(&mut e);
    assert_eq!(notifications_on(&b.wire), vec![NotificationKind::NewMessage(id(30), hi)]);
    assert_eq!(b.wire.len(), 1);
    assert!(e.wire.is_empty());

    assert_eq!(world.route(), 0);
    world.tick(&mut b);
    assert_eq!(b.wire.len(), 1);
}

#[test]
fn friend_request_to_offline_user_waits_in_the_store() {
    let mut world = World::new();
    let ann = world.store.add_user(1, "ann");
    let bob = world.store.add_user(2, "bob");
    let mut a = world.login(ann);
    world.route();

    let request = Notification { id: id(700), kind: NotificationKind::FriendRequest(id(1), id(2)) };
    world.inbound(&mut a, Envelope { id: id(7), content: Content::Notification(request.clone()) });
    assert_eq!(a.wire, vec![Envelope { id: id(7), content: Content::Response(Response::Success) }]);
    assert_eq!(world.route(), 0);
    assert_eq!(world.store.standing_of(id(2)), vec![request.clone()]);

    let mut b = world.login(bob);
    world.route();
    world.tick(&mut b);
    assert!(b.wire.is_empty());
    world.inbound(&mut b, Envelope { id: id(8), content: Content::Query(Query::FriendRequests) });
    assert_eq!(
        b.wire,
        vec![Envelope {
            id: id(8),
            content: Content::Response(Response::Query(Query::ResultFriendRequests(vec![request]))),
        }]
    );
}

#[test]
fn repeated_friend_request_leaves_one_standing_record() {
    let mut world = World::new();
    let ann = world.store.add_user(1, "ann");
    world.store.add_user(2, "bob");
    let mut a = world.login(ann);
    for attempt in 0..3u128 {
        let request = Notification {
            id: id(700 + attempt),
            kind: NotificationKind::FriendRequest(id(1), id(2)),
        };
        world.inbound(&mut a, Envelope { id: id(7), content: Content::Notification(request) });
    }
    let standing = world.store.standing_of(id(2));
    assert_eq!(standing.len(), 1);
    assert_eq!(standing[0].kind, NotificationKind::FriendRequest(id(1), id(2)));
}

#[test]
fn friend_request_to_online_user_is_pushed_and_seen() {
    let mut world = World::new();
    let ann = world.store.add_user(1, "ann");
    let bob = world.store.add_user(2, "bob");
    let mut a = world.login(ann);
    let mut b = world.login(bob);
    world.route();
    let request = Notification { id: id(700), kind: NotificationKind::FriendRequest(id(1), id(2)) };
    world.inbound(&mut a, Envelope { id: id(7), content: Content::Notification(request.clone()) });
    assert_eq!(world.route(), 1);
    world.tick(&mut b);
    world.tick(&mut a);
    assert_eq!(
        b.wire,
        vec![Envelope { id: Identity::unset(), content: Content::Notification(request) }]
    );
    assert_eq!(a.wire.len(), 1);
}

#[test]
fn accepted_friendship_is_symmetric_and_survives_a_replay() {
    let mut world = World::new();
    let ann = world.store.add_user(1, "ann");
    let bob = world.store.add_user(2, "bob");
    let mut a = world.login(ann);
    let mut b = world.login(bob);
    world.route();

    let request = Notification { id: id(700), kind: NotificationKind::FriendRequest(id(1), id(2)) };
    world.inbound(&mut a, Envelope { id: id(7), content: Content::Notification(request) });
    world.route();
    world.tick(&mut b);
    b.wire.clear();
    a.wire.clear();

    let accepted =
        Notification { id: id(700), kind: NotificationKind::FriendAccepted(id(2), id(1)) };
    for replay in 0..2u128 {
        world.inbound(
            &mut b,
            Envelope { id: id(20 + replay), content: Content::Notification(accepted.clone()) },
        );
        world.route();
        world.tick(&mut a);
        world.tick(&mut b);
        assert_eq!(world.store.friends_of(1), vec![id(2)]);
        assert_eq!(world.store.friends_of(2), vec![id(1)]);
        assert!(world.store.standing_of(id(2)).is_empty());
    }

    // Each side saw its profile, never the signal itself.
    assert!(notifications_on(&a.wire).is_empty());
    assert!(notifications_on(&b.wire).is_empty());
    let profiles = |wire: &[Envelope]| -> Vec<Vec<Identity>> {
        wire.iter()
            .filter_map(|envelope| match &envelope.content {
                Content::Session(Session::Token(profile)) => {
                    Some(profile.friends.iter().map(|f| f.id).collect())
                }
                _ => None,
            })
            .collect()
    };
    assert_eq!(profiles(&a.wire), vec![vec![id(2)], vec![id(2)]]);
    assert_eq!(profiles(&b.wire), vec![vec![id(1)], vec![id(1)]]);
}

#[test]
fn refused_requests_never_reach_the_store() {
    let mut world = World::new();
    world.store.add_user(1, "ann");
    let mut stranger = Client { actor: ConnectionActor::new(), wire: Vec::new() };
    let request = Notification {
        id: id(700),
        kind: NotificationKind::FriendRequest(Identity::unset(), id(1)),
    };
    world.inbound(&mut stranger, Envelope { id: id(7), content: Content::Notification(request) });
    world.inbound(&mut stranger, Envelope { id: id(8), content: Content::Query(Query::UserChats) });
    assert_eq!(world.store.writes, 0);
    assert!(world.store.standing.is_empty());
    assert!(world.queue.is_empty());
    assert_eq!(stranger.wire.len(), 2);
    for envelope in &stranger.wire {
        assert!(matches!(envelope.content, Content::Response(Response::Failure(_))));
    }
}

#[test]
fn going_offline_ends_delivery() {
    let mut world = World::new();
    let ann = world.store.add_user(1, "ann");
    let bob = world.store.add_user(2, "bob");
    world.store.chats.push(Chat {
        id: id(30),
        tag: "lunch".to_string(),
        members: vec![id(1), id(2)],
        messages: Vec::new(),
    });
    let mut a = world.login(ann);
    let b = world.login(bob);
    world.route();
    world.queue.push(b.actor.shutdown());
    world.route();
    assert!(!world.router.is_online(id(2)));
    assert!(!world.router.is_subscribed(id(2), id(30)));
    let hi = Message { id: id(500), author: id(1), text: "hi".to_string() };
    let sent = Notification { id: id(600), kind: NotificationKind::NewMessage(id(30), hi) };
    world.inbound(&mut a, Envelope { id: id(7), content: Content::Notification(sent) });
    assert_eq!(world.route(), 1);
}

#[test]
fn new_chat_is_announced_and_then_carries_messages() {
    let mut world = World::new();
    let ann = world.store.add_user(1, "ann");
    let bob = world.store.add_user(2, "bob");
    world.store.apply(Mutation::InsertFriend(id(1), id(2))).unwrap();
    world.store.apply(Mutation::InsertFriend(id(2), id(1))).unwrap();
    let mut a = world.login(ann);
    let mut b = world.login(bob);
    world.route();

    let chat = Chat {
        id: id(30),
        tag: "lunch".to_string(),
        members: vec![id(1), id(2)],
        messages: Vec::new(),
    };
    let announce = Notification { id: id(800), kind: NotificationKind::NewChat(chat.clone()) };
    world.inbound(&mut a, Envelope { id: id(7), content: Content::Notification(announce) });
    assert_eq!(world.store.chats, vec![chat.clone()]);
    assert_eq!(world.route(), 2);
    world.tick(&mut b);
    world.tick(&mut a);
    assert_eq!(notifications_on(&b.wire), vec![NotificationKind::NewChat(chat.clone())]);
    assert_eq!(notifications_on(&a.wire), vec![NotificationKind::NewChat(chat)]);

    let hi = Message { id: id(500), author: id(2), text: "hi".to_string() };
    let sent = Notification { id: id(600), kind: NotificationKind::NewMessage(id(30), hi.clone()) };
    world.inbound(&mut b, Envelope { id: id(9), content: Content::Notification(sent) });
    assert_eq!(world.route(), 2);
    a.wire.clear();
    world.tick(&mut a);
    assert_eq!(notifications_on(&a.wire), vec![NotificationKind::NewMessage(id(30), hi)]);
}
