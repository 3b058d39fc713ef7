//! The router: the one owner of the directory of online users and of their
//! subscriptions to chat topics.
//!
//! The router works through commands, one at a time. A command changes the
//! directory and the subscriptions and yields the pushes it calls for: who
//! gets which notification, and through which mailbox. The router fills no
//! mailbox itself, since that may wait; whoever drives it performs the
//! pushes in the order given.

use vstd::prelude::*;
use crate::channels::{mailbox_share, topic_backlog, topic_try_recv, Cursor, Mailbox};
use crate::chat_bus::ChatBus;
use crate::identity::Identity;
use crate::model::{
    views, Notification, NotificationKind, NotificationKindView, NotificationView,
};

verus! {

/// What the router is asked to do.
pub enum Command {
    /// The user is online: its chats, and the mailbox of its connection.
    RegisterOnline(Identity, Vec<Identity>, Mailbox),
    /// The user's profile changed; tell its connection, if it has one.
    RefreshUser(Identity),
    /// The user's connection is gone.
    Offline(Identity),
    /// Deliver this notification to whom it concerns.
    Route(Notification),
}

/// The view of a `Command`.
pub enum CommandView {
    RegisterOnline(Identity, Seq<Identity>, Mailbox),
    RefreshUser(Identity),
    Offline(Identity),
    Route(NotificationView),
}

impl View for Command {
    type V = CommandView;

    open spec fn view(&self) -> CommandView {
        match *self {
            Command::RegisterOnline(user, chats, mailbox) => CommandView::RegisterOnline(
                user,
                chats@,
                mailbox,
            ),
            Command::RefreshUser(user) => CommandView::RefreshUser(user),
            Command::Offline(user) => CommandView::Offline(user),
            Command::Route(notification) => CommandView::Route(notification@),
        }
    }
}

/// One notification on its way into one mailbox.
pub struct Push {
    pub to: Identity,
    pub mailbox: Mailbox,
    pub notification: Notification,
}

/// The view of a `Push`.
pub struct PushView {
    pub to: Identity,
    pub mailbox: Mailbox,
    pub notification: NotificationView,
}

impl View for Push {
    type V = PushView;

    open spec fn view(&self) -> PushView {
        PushView { to: self.to, mailbox: self.mailbox, notification: self.notification@ }
    }
}

/// The pushes that hand `notification` to those of `recipients` that the
/// directory lists, one for each time a recipient is named, in that order.
pub open spec fn fan_out(
    directory: Map<Identity, Mailbox>,
    recipients: Seq<Identity>,
    notification: NotificationView,
) -> Seq<PushView>
    decreases recipients.len(),
{
    if recipients.len() == 0 {
        Seq::empty()
    } else {
        let before = fan_out(directory, recipients.drop_last(), notification);
        let last = recipients.last();
        if directory.contains_key(last) {
            before.push(PushView { to: last, mailbox: directory[last], notification })
        } else {
            before
        }
    }
}

/// What the router knows, as mathematics: who is online and through which
/// mailbox, who is subscribed to which chat, and which chats have a topic.
pub struct RouterView {
    pub directory: Map<Identity, Mailbox>,
    pub subscriptions: Set<(Identity, Identity)>,
    pub topics: Set<Identity>,
}

impl RouterView {
    /// Nobody is online under the unset identity; whoever is subscribed is
    /// online, and to a chat that has a topic.
    pub open spec fn wf(self) -> bool {
        &&& !self.directory.contains_key(Identity::unset())
        &&& forall|user: Identity, chat: Identity| #[trigger]
            self.subscriptions.contains((user, chat)) ==> self.directory.contains_key(user)
                && self.topics.contains(chat)
    }

    /// The router before anything happened.
    pub open spec fn empty() -> RouterView {
        RouterView { directory: Map::empty(), subscriptions: Set::empty(), topics: Set::empty() }
    }

    /// The state after `user` came online with `chats` and `mailbox`: the
    /// directory entry is made or replaced, every chat has a topic, and the
    /// user is subscribed to each. The unset identity cannot come online.
    pub open spec fn register_online(
        self,
        user: Identity,
        chats: Seq<Identity>,
        mailbox: Mailbox,
    ) -> RouterView {
        if user.is_valid() {
            RouterView {
                directory: self.directory.insert(user, mailbox),
                subscriptions: self.subscriptions.union(
                    Set::new(|pair: (Identity, Identity)| pair.0 == user && chats.contains(pair.1)),
                ),
                topics: self.topics.union(chats.to_set()),
            }
        } else {
            self
        }
    }

    /// The state after `user` went offline: its entry and all its
    /// subscriptions are gone.
    pub open spec fn offline(self, user: Identity) -> RouterView {
        RouterView {
            directory: self.directory.remove(user),
            subscriptions: self.subscriptions.filter(|pair: (Identity, Identity)| pair.0 != user),
            topics: self.topics,
        }
    }

    /// The state after a notification was routed. A new chat gets its topic
    /// and subscribes its online members; a new message only needs the
    /// topic; nothing else touches the state.
    pub open spec fn route(self, notification: NotificationView) -> RouterView {
        match notification.kind {
            NotificationKindView::NewChat(chat) => RouterView {
                directory: self.directory,
                subscriptions: self.subscriptions.union(
                    Set::new(
                        |pair: (Identity, Identity)|
                            pair.1 == chat.id && chat.members.contains(pair.0)
                                && self.directory.contains_key(pair.0),
                    ),
                ),
                topics: self.topics.insert(chat.id),
            },
            NotificationKindView::NewMessage(chat, _) => RouterView {
                directory: self.directory,
                subscriptions: self.subscriptions,
                topics: self.topics.insert(chat),
            },
            _ => self,
        }
    }

    /// The state after a command.
    pub open spec fn step(self, command: CommandView) -> RouterView {
        match command {
            CommandView::RegisterOnline(user, chats, mailbox) => self.register_online(
                user,
                chats,
                mailbox,
            ),
            CommandView::RefreshUser(_) => self,
            CommandView::Offline(user) => self.offline(user),
            CommandView::Route(notification) => self.route(notification),
        }
    }

    /// The push that tells `user` to fetch its profile anew, if it is online.
    pub open spec fn refresh_pushes(self, user: Identity) -> Seq<PushView> {
        if self.directory.contains_key(user) {
            seq![
                PushView {
                    to: user,
                    mailbox: self.directory[user],
                    notification: NotificationView {
                        id: Identity::unset(),
                        kind: NotificationKindView::RefreshUser(user),
                    },
                },
            ]
        } else {
            Seq::empty()
        }
    }

    /// The direct pushes that routing a notification calls for. A new chat
    /// is announced to each of its online members; a friend request and its
    /// acceptance go to the user they are addressed to, if online; a new
    /// message is published, not pushed; no other kind is routed.
    pub open spec fn route_pushes(self, notification: NotificationView) -> Seq<PushView> {
        match notification.kind {
            NotificationKindView::NewChat(chat) => fan_out(
                self.directory,
                chat.members,
                NotificationView {
                    id: Identity::unset(),
                    kind: NotificationKindView::NewChat(chat),
                },
            ),
            NotificationKindView::FriendRequest(_, to) => fan_out(
                self.directory,
                seq![to],
                notification,
            ),
            NotificationKindView::FriendAccepted(_, to) => fan_out(
                self.directory,
                seq![to],
                notification,
            ),
            _ => Seq::empty(),
        }
    }

    /// Whether `push` is one that bridging may make: a new message of a
    /// chat, not stamped yet, on its way to a user that is online and
    /// subscribed to that chat, through that user's mailbox.
    pub open spec fn bridges(self, push: PushView) -> bool {
        &&& self.directory.contains_key(push.to)
        &&& push.mailbox == self.directory[push.to]
        &&& push.notification.id == Identity::unset()
        &&& match push.notification.kind {
            NotificationKindView::NewMessage(chat, _) => self.subscriptions.contains(
                (push.to, chat),
            ),
            _ => false,
        }
    }

    /// The direct pushes that a command calls for.
    pub open spec fn pushes(self, command: CommandView) -> Seq<PushView> {
        match command {
            CommandView::RefreshUser(user) => self.refresh_pushes(user),
            CommandView::Route(notification) => self.route_pushes(notification),
            _ => Seq::empty(),
        }
    }
}

/// The router after a run of commands, carried out in order.
pub open spec fn run(router: RouterView, commands: Seq<CommandView>) -> RouterView
    decreases commands.len(),
{
    if commands.len() == 0 {
        router
    } else {
        run(router, commands.drop_last()).step(commands.last())
    }
}

/// The direct pushes that a run of commands calls for, in order: those of
/// each command as the router stands when the command's turn comes.
pub open spec fn run_pushes(router: RouterView, commands: Seq<CommandView>) -> Seq<PushView>
    decreases commands.len(),
{
    if commands.len() == 0 {
        Seq::empty()
    } else {
        run_pushes(router, commands.drop_last()) + run(router, commands.drop_last()).pushes(
            commands.last(),
        )
    }
}

/// What one processing cycle of the router calls for: the direct pushes of
/// the commands, then the pushes of the bridging step.
pub struct Cycle {
    pub direct: Vec<Push>,
    pub bridged: Vec<Push>,
}

/// What a subscriber of `chat` is handed for an event taken from the
/// chat's topic: a new message of that chat is handed on as a notification
/// of its own, not stamped yet; anything else is not handed on.
pub open spec fn spec_bridged(chat: Identity, event: NotificationView) -> Option<
    NotificationView,
> {
    match event.kind {
        NotificationKindView::NewMessage(origin, message) => if origin == chat {
            Some(
                NotificationView {
                    id: Identity::unset(),
                    kind: NotificationKindView::NewMessage(origin, message),
                },
            )
        } else {
            None
        },
        _ => None,
    }
}

/// Turns an event taken from the topic of `chat` into what the subscriber
/// is handed, if anything.
pub fn bridged(chat: Identity, event: Notification) -> (handed: Option<Notification>)
    ensures
        match handed {
            Some(notification) => spec_bridged(chat, event@) == Some(notification@),
            None => spec_bridged(chat, event@) is None,
        },
{
    match event.kind {
        NotificationKind::NewMessage(origin, message) => {
            if origin == chat {
                Some(Notification::unstamped(NotificationKind::NewMessage(origin, message)))
            } else {
                None
            }
        },
        _ => None,
    }
}

/// One line of the directory: an online user and its mailbox.
struct Entry {
    user: Identity,
    mailbox: Mailbox,
}

/// One subscription: a user's cursor into the topic of a chat.
struct Subscription {
    user: Identity,
    chat: Identity,
    cursor: Cursor,
}

/// The users that a directory lists, in its order.
spec fn users_of(entries: Seq<Entry>) -> Seq<Identity> {
    entries.map_values(|entry: Entry| entry.user)
}

/// A directory as a map from user to mailbox.
spec fn directory_of(entries: Seq<Entry>) -> Map<Identity, Mailbox> {
    Map::new(
        |user: Identity| users_of(entries).contains(user),
        |user: Identity| entries[users_of(entries).index_of(user)].mailbox,
    )
}

/// Who is subscribed to what, in the order of the subscriptions.
spec fn pairs_of(subscriptions: Seq<Subscription>) -> Seq<(Identity, Identity)> {
    subscriptions.map_values(|subscription: Subscription| (subscription.user, subscription.chat))
}

/// Listing a new user adds it to the map.
proof fn lemma_directory_push(entries: Seq<Entry>, entry: Entry)
    requires
        users_of(entries).no_duplicates(),
        !users_of(entries).contains(entry.user),
    ensures
        users_of(entries.push(entry)) == users_of(entries).push(entry.user),
        users_of(entries.push(entry)).no_duplicates(),
        directory_of(entries.push(entry)) == directory_of(entries).insert(
            entry.user,
            entry.mailbox,
        ),
{
    let after = entries.push(entry);
    assert(users_of(after) =~= users_of(entries).push(entry.user));
    assert forall|user: Identity| #[trigger]
        directory_of(after).contains_key(user) <==> directory_of(entries).insert(
            entry.user,
            entry.mailbox,
        ).contains_key(user) by {
        if users_of(entries).contains(user) {
            let k = choose|k: int| 0 <= k < entries.len() && users_of(entries)[k] == user;
            assert(users_of(after)[k] == user);
        }
        if user == entry.user {
            assert(users_of(after)[entries.len() as int] == user);
        }
    }
}

/// Replacing a user's line replaces its mailbox in the map.
proof fn lemma_directory_update(entries: Seq<Entry>, at: int, entry: Entry)
    requires
        users_of(entries).no_duplicates(),
        0 <= at < entries.len(),
        entries[at].user == entry.user,
    ensures
        users_of(entries.update(at, entry)) == users_of(entries),
        directory_of(entries.update(at, entry)) == directory_of(entries).insert(
            entry.user,
            entry.mailbox,
        ),
{
    assert(users_of(entries)[at] == entry.user);
}

/// Striking a line removes its user from the map.
proof fn lemma_directory_remove(entries: Seq<Entry>, at: int)
    requires
        users_of(entries).no_duplicates(),
        0 <= at < entries.len(),
    ensures
        users_of(entries.remove(at)) == users_of(entries).remove(at),
        users_of(entries.remove(at)).no_duplicates(),
        !users_of(entries.remove(at)).contains(entries[at].user),
        directory_of(entries.remove(at)) == directory_of(entries).remove(entries[at].user),
{
    let after = entries.remove(at);
    let gone = entries[at].user;
    assert(users_of(entries)[at] == gone);
    assert(users_of(after) =~= users_of(entries).remove(at));
    assert forall|user: Identity| #[trigger]
        directory_of(after).contains_key(user) <==> directory_of(entries).remove(
            gone,
        ).contains_key(user) by {
        if users_of(after).contains(user) {
            let k = choose|k: int| 0 <= k < after.len() && users_of(after)[k] == user;
            let k0 = if k < at { k } else { k + 1 };
            assert(users_of(entries)[k0] == user);
        }
        if users_of(entries).contains(user) && user != gone {
            let k = choose|k: int| 0 <= k < entries.len() && users_of(entries)[k] == user;
            let k1 = if k < at { k } else { k - 1 };
            assert(users_of(after)[k1] == user);
        }
    }
}

/// The router: the directory, one cursor for each subscription, and the
/// bus that holds the topics.
pub struct Router {
    directory: Vec<Entry>,
    subscriptions: Vec<Subscription>,
    bus: ChatBus,
}

impl View for Router {
    type V = RouterView;

    closed spec fn view(&self) -> RouterView {
        RouterView {
            directory: directory_of(self.directory@),
            subscriptions: pairs_of(self.subscriptions@).to_set(),
            topics: self.bus.chats().to_set(),
        }
    }
}

impl Router {
    /// The directory lists no user twice and never the unset identity; no
    /// subscription is held twice; whoever is subscribed is online, and to a
    /// chat that has a topic.
    pub closed spec fn wf(&self) -> bool {
        &&& self.bus.wf()
        &&& users_of(self.directory@).no_duplicates()
        &&& forall|i: int|
            0 <= i < self.directory@.len() ==> (#[trigger] users_of(self.directory@)[i]).is_valid()
        &&& pairs_of(self.subscriptions@).no_duplicates()
        &&& forall|j: int|
            0 <= j < self.subscriptions@.len() ==> {
                let pair = #[trigger] pairs_of(self.subscriptions@)[j];
                users_of(self.directory@).contains(pair.0) && self.bus.chats().contains(pair.1)
            }
    }

    /// A well-formed router has a well-formed view, in which finitely many
    /// users are online and finitely many subscriptions and topics exist.
    pub proof fn lemma_wf(&self)
        requires
            self.wf(),
        ensures
            self@.wf(),
            self@.directory.dom().finite(),
            self@.subscriptions.finite(),
            self@.topics.finite(),
    {
        self.lemma_counts();
    }

    /// A well-formed router holds one entry for each user that is online,
    /// one cursor for each subscription and one topic for each chat that
    /// has one.
    proof fn lemma_counts(&self)
        requires
            self.wf(),
        ensures
            self@.wf(),
            self@.directory.dom().finite(),
            self@.subscriptions.finite(),
            self@.topics.finite(),
            self@.directory.dom().len() == self.directory@.len(),
            self@.subscriptions.len() == self.subscriptions@.len(),
            self@.topics.len() == self.bus.chats().len(),
    {
        let users = users_of(self.directory@);
        let pairs = pairs_of(self.subscriptions@);
        users.unique_seq_to_set();
        pairs.unique_seq_to_set();
        self.bus.chats().unique_seq_to_set();
    }

    /// A router that knows nobody.
    pub fn new() -> (router: Router)
        ensures
            router.wf(),
            router@ == RouterView::empty(),
    {
        let router = Router {
            directory: Vec::new(),
            subscriptions: Vec::new(),
            bus: ChatBus::new(),
        };
        proof {
            assert(users_of(router.directory@) =~= Seq::<Identity>::empty());
            assert(router@.directory =~= Map::<Identity, Mailbox>::empty());
            assert(router@.subscriptions =~= Set::<(Identity, Identity)>::empty());
        }
        router
    }

    /// How many users are online.
    pub fn online_count(&self) -> (count: usize)
        requires
            self.wf(),
        ensures
            count == self@.directory.dom().len(),
    {
        proof {
            self.lemma_counts();
        }
        self.directory.len()
    }

    /// How many subscriptions there are. The router holds one cursor for
    /// each: no user has two cursors into one topic.
    pub fn subscription_count(&self) -> (count: usize)
        requires
            self.wf(),
        ensures
            count == self@.subscriptions.len(),
    {
        proof {
            self.lemma_counts();
        }
        self.subscriptions.len()
    }

    /// How many chats have a topic.
    pub fn topic_count(&self) -> (count: usize)
        requires
            self.wf(),
        ensures
            count == self@.topics.len(),
    {
        proof {
            self.lemma_counts();
        }
        self.bus.topic_count()
    }

    /// Where the directory lists `user`, if it does.
    fn find_entry(&self, user: Identity) -> (found: Option<usize>)
        ensures
            match found {
                Some(at) => at < self.directory@.len() && users_of(self.directory@)[at as int]
                    == user,
                None => !users_of(self.directory@).contains(user),
            },
    {
        let mut i: usize = 0;
        while i < self.directory.len()
            invariant
                i <= self.directory@.len(),
                forall|k: int| 0 <= k < i ==> users_of(self.directory@)[k] != user,
            decreases self.directory@.len() - i,
        {
            if self.directory[i].user == user {
                return Some(i);
            }
            i += 1;
        }
        None
    }

    /// Where the subscription of `user` to `chat` stands, if there is one.
    fn find_subscription(&self, user: Identity, chat: Identity) -> (found: Option<usize>)
        ensures
            match found {
                Some(at) => at < self.subscriptions@.len() && pairs_of(
                    self.subscriptions@,
                )[at as int] == (user, chat),
                None => !pairs_of(self.subscriptions@).contains((user, chat)),
            },
    {
        let mut i: usize = 0;
        while i < self.subscriptions.len()
            invariant
                i <= self.subscriptions@.len(),
                forall|k: int| 0 <= k < i ==> pairs_of(self.subscriptions@)[k] != (user, chat),
            decreases self.subscriptions@.len() - i,
        {
            if self.subscriptions[i].user == user && self.subscriptions[i].chat == chat {
                return Some(i);
            }
            i += 1;
        }
        None
    }

    /// Whether `user` is online.
    pub fn is_online(&self, user: Identity) -> (online: bool)
        ensures
            online == self@.directory.contains_key(user),
    {
        self.find_entry(user).is_some()
    }

    /// Whether `user` is subscribed to `chat`.
    pub fn is_subscribed(&self, user: Identity, chat: Identity) -> (subscribed: bool)
        ensures
            subscribed == self@.subscriptions.contains((user, chat)),
    {
        self.find_subscription(user, chat).is_some()
    }

    /// Whether `chat` has a topic.
    pub fn has_topic(&self, chat: Identity) -> (found: bool)
        ensures
            found == self@.topics.contains(chat),
    {
        self.bus.has_topic(chat)
    }

    /// Subscribes an online user to a chat: the chat's topic is created if
    /// it is missing, and the user gets a cursor into it unless it has one.
    fn attach(&mut self, user: Identity, chat: Identity)
        requires
            old(self).wf(),
            old(self)@.directory.contains_key(user),
        ensures
            final(self).wf(),
            final(self).directory@ == old(self).directory@,
            final(self)@.directory == old(self)@.directory,
            final(self)@.subscriptions == old(self)@.subscriptions.insert((user, chat)),
            final(self)@.topics == old(self)@.topics.insert(chat),
    {
        let ghost old_chats = self.bus.chats();
        let ghost old_pairs = pairs_of(self.subscriptions@);
        self.bus.ensure_topic(chat);
        proof {
            assert forall|c: Identity| old_chats.contains(c) implies self.bus.chats().contains(
                c,
            ) by {
                let k = choose|k: int| 0 <= k < old_chats.len() && old_chats[k] == c;
                assert(self.bus.chats()[k] == c);
            }
        }
        match self.find_subscription(user, chat) {
            Some(_) => {},
            None => {
                match self.bus.subscribe(chat) {
                    Some(cursor) => {
                        self.subscriptions.push(Subscription { user, chat, cursor });
                        proof {
                            let pairs = pairs_of(self.subscriptions@);
                            assert(pairs =~= old_pairs.push((user, chat)));
                            old_pairs.lemma_push_to_set_commute((user, chat));
                        }
                    },
                    None => {},
                }
            },
        }
    }

    /// Takes `user` online with its chats and the mailbox of its
    /// connection. An entry the user already has is replaced, not doubled,
    /// and cursors it already holds stay. A user with the unset identity is
    /// not taken online.
    pub fn register_online(&mut self, user: Identity, chats: Vec<Identity>, mailbox: Mailbox)
        requires
            old(self).wf(),
        ensures
            final(self).wf(),
            final(self)@ == old(self)@.register_online(user, chats@, mailbox),
    {
        if !user.is_valid() {
            return ;
        }
        match self.find_entry(user) {
            Some(at) => {
                proof {
                    lemma_directory_update(self.directory@, at as int, Entry { user, mailbox });
                }
                self.directory.set(at, Entry { user, mailbox });
            },
            None => {
                proof {
                    lemma_directory_push(self.directory@, Entry { user, mailbox });
                }
                self.directory.push(Entry { user, mailbox });
            },
        }
        proof {
            assert forall|j: int| 0 <= j < self.subscriptions@.len() implies users_of(
                self.directory@,
            ).contains((#[trigger] pairs_of(self.subscriptions@)[j]).0) by {
                let pair = pairs_of(self.subscriptions@)[j];
                assert(self@.directory.contains_key(pair.0));
            }
            assert(self@ =~= old(self)@.register_online(user, chats@.take(0), mailbox)) by {
                assert(old(self)@.register_online(
                    user,
                    chats@.take(0),
                    mailbox,
                ).subscriptions =~= old(self)@.subscriptions);
                assert(old(self)@.register_online(user, chats@.take(0), mailbox).topics =~= old(
                    self,
                )@.topics);
            }
        }
        let mut k: usize = 0;
        while k < chats.len()
            invariant
                k <= chats@.len(),
                user.is_valid(),
                self.wf(),
                self@ == old(self)@.register_online(user, chats@.take(k as int), mailbox),
            decreases chats@.len() - k,
        {
            self.attach(user, chats[k]);
            proof {
                lemma_register_next(old(self)@, user, chats@, k as int, mailbox);
            }
            k += 1;
        }
        proof {
            assert(chats@.take(chats@.len() as int) =~= chats@);
        }
    }

    /// Tells `user`, if online, to fetch its profile anew. Nobody else
    /// hears of it.
    pub fn refresh_user(&self, user: Identity) -> (pushes: Vec<Push>)
        requires
            self.wf(),
        ensures
            views(pushes@) == self@.refresh_pushes(user),
    {
        let mut pushes: Vec<Push> = Vec::new();
        match self.find_entry(user) {
            Some(at) => {
                let push = Push {
                    to: user,
                    mailbox: mailbox_share(&self.directory[at].mailbox),
                    notification: Notification::unstamped(NotificationKind::RefreshUser(user)),
                };
                pushes.push(push);
            },
            None => {},
        }
        pushes
    }

    /// Takes `user` offline: its entry and all its cursors are dropped. A
    /// user that is not online is no error.
    pub fn offline(&mut self, user: Identity)
        requires
            old(self).wf(),
        ensures
            final(self).wf(),
            final(self)@ == old(self)@.offline(user),
    {
        match self.find_entry(user) {
            Some(at) => {
                proof {
                    lemma_directory_remove(self.directory@, at as int);
                }
                self.directory.remove(at);
            },
            None => {},
        }
        let ghost old_pairs = pairs_of(old(self).subscriptions@);
        proof {
            assert forall|j: int| 0 <= j < old_pairs.len() implies {
                let pair = #[trigger] old_pairs[j];
                pair.0 == user || users_of(self.directory@).contains(pair.0)
            } by {
                let pair = old_pairs[j];
                if pair.0 != user {
                    assert(self@.directory.contains_key(pair.0));
                }
            }
        }
        let mut j: usize = 0;
        while j < self.subscriptions.len()
            invariant
                j <= self.subscriptions@.len(),
                self.bus == old(self).bus,
                self.bus.wf(),
                self@.directory == old(self)@.directory.remove(user),
                users_of(self.directory@).no_duplicates(),
                forall|i: int|
                    0 <= i < self.directory@.len() ==> (#[trigger] users_of(
                        self.directory@,
                    )[i]).is_valid(),
                pairs_of(self.subscriptions@).no_duplicates(),
                forall|i: int|
                    0 <= i < self.subscriptions@.len() ==> {
                        let pair = #[trigger] pairs_of(self.subscriptions@)[i];
                        (pair.0 == user || users_of(self.directory@).contains(pair.0))
                            && self.bus.chats().contains(pair.1)
                    },
                forall|i: int|
                    0 <= i < j ==> (#[trigger] pairs_of(self.subscriptions@)[i]).0 != user,
                forall|pair: (Identity, Identity)|
                    pair.0 != user ==> (pairs_of(self.subscriptions@).contains(pair)
                        <==> old_pairs.contains(pair)),
            decreases self.subscriptions@.len() - j,
        {
            if self.subscriptions[j].user == user {
                let ghost before = pairs_of(self.subscriptions@);
                self.subscriptions.remove(j);
                proof {
                    let after = pairs_of(self.subscriptions@);
                    assert(after =~= before.remove(j as int));
                    lemma_remove_unique(before, j as int);
                    assert forall|pair: (Identity, Identity)| pair.0 != user implies (
                    after.contains(pair) <==> old_pairs.contains(pair)) by {
                        assert(after.to_set().contains(pair) <==> before.to_set().remove(
                            before[j as int],
                        ).contains(pair));
                    }
                }
            } else {
                j += 1;
            }
        }
        proof {
            assert(self@.subscriptions =~= old(self)@.offline(user).subscriptions);
        }
    }

    /// Announces a new chat: the chat gets its topic, and each member that
    /// is online is subscribed and told of the chat, in the order of the
    /// member list. Announcing a chat again adds no second cursor.
    fn announce(&mut self, notification: Notification) -> (pushes: Vec<Push>)
        requires
            old(self).wf(),
            notification@.kind is NewChat,
        ensures
            final(self).wf(),
            final(self)@ == old(self)@.route(notification@),
            views(pushes@) == old(self)@.route_pushes(notification@),
    {
        let mut pushes: Vec<Push> = Vec::new();
        match notification.kind {
            NotificationKind::NewChat(chat) => {
                let ghost old_chats = self.bus.chats();
                let ghost told = NotificationView {
                    id: Identity::unset(),
                    kind: NotificationKindView::NewChat(chat@),
                };
                self.bus.ensure_topic(chat.id);
                proof {
                    if !old_chats.contains(chat.id) {
                        old_chats.lemma_push_to_set_commute(chat.id);
                    }
                    assert forall|j: int| 0 <= j < self.subscriptions@.len() implies
                        self.bus.chats().contains((#[trigger] pairs_of(self.subscriptions@)[j]).1) by {
                        let c = pairs_of(self.subscriptions@)[j].1;
                        let k = choose|k: int| 0 <= k < old_chats.len() && old_chats[k] == c;
                        assert(self.bus.chats()[k] == c);
                    }
                }
                let mut k: usize = 0;
                while k < chat.members.len()
                    invariant
                        k <= chat.members@.len(),
                        self.wf(),
                        self.directory@ == old(self).directory@,
                        self@.directory == old(self)@.directory,
                        self@.topics == old(self)@.topics.insert(chat.id),
                        self@.subscriptions == announced(
                            old(self)@,
                            chat@.members.take(k as int),
                            chat.id,
                        ),
                        told == (NotificationView {
                            id: Identity::unset(),
                            kind: NotificationKindView::NewChat(chat@),
                        }),
                        views(pushes@) == fan_out(
                            old(self)@.directory,
                            chat@.members.take(k as int),
                            told,
                        ),
                    decreases chat.members@.len() - k,
                {
                    let member = chat.members[k];
                    let ghost so_far = chat@.members.take(k as int);
                    let ghost next = chat@.members.take(k + 1);
                    proof {
                        assert(next.drop_last() =~= so_far);
                        lemma_announced_next(old(self)@, chat@.members, k as int, chat.id);
                    }
                    match self.find_entry(member) {
                        Some(at) => {
                            self.attach(member, chat.id);
                            let push = Push {
                                to: member,
                                mailbox: mailbox_share(&self.directory[at].mailbox),
                                notification: Notification::unstamped(
                                    NotificationKind::NewChat(chat.clone()),
                                ),
                            };
                            pushes.push(push);
                        },
                        None => {},
                    }
                    k += 1;
                }
                proof {
                    assert(chat@.members.take(chat.members@.len() as int) =~= chat@.members);
                    assert(self@.subscriptions =~= old(self)@.route(notification@).subscriptions);
                }
            },
            _ => {},
        }
        pushes
    }

    /// Routes a notification. A new chat is announced to its online
    /// members, who are subscribed to it; a new message is published on its
    /// chat's topic and pushed to nobody here; a friend request or its
    /// acceptance is pushed to the user it is addressed to, if online; any
    /// other kind is dropped.
    pub fn route(&mut self, notification: Notification) -> (pushes: Vec<Push>)
        requires
            old(self).wf(),
        ensures
            final(self).wf(),
            final(self)@ == old(self)@.route(notification@),
            views(pushes@) == old(self)@.route_pushes(notification@),
    {
        match routing(&notification) {
            Routing::Announce => self.announce(notification),
            Routing::Publish(chat) => {
                let ghost old_chats = self.bus.chats();
                self.bus.publish(chat, notification);
                proof {
                    if old_chats.contains(chat) {
                        assert(old_chats.to_set().insert(chat) =~= old_chats.to_set());
                    } else {
                        old_chats.lemma_push_to_set_commute(chat);
                    }
                    assert forall|j: int| 0 <= j < self.subscriptions@.len() implies
                        self.bus.chats().contains((#[trigger] pairs_of(self.subscriptions@)[j]).1) by {
                        let c = pairs_of(self.subscriptions@)[j].1;
                        let k = choose|k: int| 0 <= k < old_chats.len() && old_chats[k] == c;
                        assert(self.bus.chats()[k] == c);
                    }
                }
                Vec::new()
            },
            Routing::Direct(to) => {
                let mut pushes: Vec<Push> = Vec::new();
                proof {
                    assert(seq![to].drop_last() =~= Seq::<Identity>::empty());
                    assert(fan_out(self@.directory, Seq::<Identity>::empty(), notification@)
                        =~= Seq::<PushView>::empty());
                }
                match self.find_entry(to) {
                    Some(at) => {
                        let push = Push {
                            to,
                            mailbox: mailbox_share(&self.directory[at].mailbox),
                            notification,
                        };
                        pushes.push(push);
                    },
                    None => {},
                }
                pushes
            },
            Routing::Ignore => {
                let pushes: Vec<Push> = Vec::new();
                pushes
            },
        }
    }

    /// The bridging step: for every subscription, takes what its topic has
    /// published since the last step, without waiting, and turns each new
    /// message into a push to the subscriber. What a topic yields is up to
    /// the channel, so the contract states what holds of every push
    /// whatever came out; `bridged` says what becomes of one event. The
    /// directory, the subscriptions and the topics stay as they are.
    pub fn bridge(&mut self) -> (pushes: Vec<Push>)
        requires
            old(self).wf(),
        ensures
            final(self).wf(),
            final(self)@ == old(self)@,
            forall|i: int| 0 <= i < pushes@.len() ==> old(self)@.bridges(#[trigger] pushes@[i]@),
    {
        let mut pushes: Vec<Push> = Vec::new();
        let mut j: usize = 0;
        while j < self.subscriptions.len()
            invariant
                j <= self.subscriptions@.len(),
                self.wf(),
                self.directory@ == old(self).directory@,
                pairs_of(self.subscriptions@) == pairs_of(old(self).subscriptions@),
                self.bus == old(self).bus,
                forall|i: int| 0 <= i < pushes@.len() ==> old(self)@.bridges(#[trigger] pushes@[i]@),
            decreases self.subscriptions@.len() - j,
        {
            let user = self.subscriptions[j].user;
            let chat = self.subscriptions[j].chat;
            match self.find_entry(user) {
                Some(at) => {
                    let backlog = topic_backlog(&self.subscriptions[j].cursor);
                    let mut taken: usize = 0;
                    while taken < backlog
                        invariant
                            j < self.subscriptions@.len(),
                            at < self.directory@.len(),
                            users_of(self.directory@)[at as int] == user,
                            pairs_of(self.subscriptions@)[j as int] == (user, chat),
                            self.wf(),
                            self.directory@ == old(self).directory@,
                            pairs_of(self.subscriptions@) == pairs_of(old(self).subscriptions@),
                            self.bus == old(self).bus,
                            forall|i: int|
                                0 <= i < pushes@.len() ==> old(self)@.bridges(
                                    #[trigger] pushes@[i]@,
                                ),
                            taken <= backlog,
                        decreases backlog - taken,
                    {
                        let ghost before = self.subscriptions@;
                        let received = topic_try_recv(&mut self.subscriptions[j].cursor);
                        proof {
                            assert(pairs_of(self.subscriptions@) =~= pairs_of(before));
                        }
                        match received {
                            Some(event) => {
                                match bridged(chat, event) {
                                    Some(notification) => {
                                        let push = Push {
                                            to: user,
                                            mailbox: mailbox_share(&self.directory[at].mailbox),
                                            notification,
                                        };
                                        pushes.push(push);
                                    },
                                    None => {},
                                }
                                taken += 1;
                            },
                            None => {
                                taken = backlog;
                            },
                        }
                    }
                },
                None => {},
            }
            j += 1;
        }
        pushes
    }

    /// One processing cycle: the commands that were waiting are carried out
    /// in order, then the bridging step runs once.
    pub fn cycle(&mut self, commands: Vec<Command>) -> (cycle: Cycle)
        requires
            old(self).wf(),
        ensures
            final(self).wf(),
            final(self)@ == run(old(self)@, views(commands@)),
            views(cycle.direct@) == run_pushes(old(self)@, views(commands@)),
            forall|i: int|
                0 <= i < cycle.bridged@.len() ==> final(self)@.bridges(
                    #[trigger] cycle.bridged@[i]@,
                ),
    {
        let ghost all = views(commands@);
        let mut direct: Vec<Push> = Vec::new();
        let mut commands = commands;
        let mut done: usize = 0;
        let count = commands.len();
        while done < count
            invariant
                done <= count,
                count == all.len(),
                self.wf(),
                views(commands@) == all.skip(done as int),
                self@ == run(old(self)@, all.take(done as int)),
                views(direct@) == run_pushes(old(self)@, all.take(done as int)),
            decreases count - done,
        {
            let ghost waiting = commands@;
            assert(views(waiting).len() == count - done);
            let command = commands.remove(0);
            let mut pushes = self.handle(command);
            direct.append(&mut pushes);
            proof {
                assert(views(waiting)[0] == command@);
                assert forall|k: int| 0 <= k < commands@.len() implies views(commands@)[k]
                    == all.skip(done + 1)[k] by {
                    assert(views(waiting)[k + 1] == all.skip(done as int)[k + 1]);
                }
                assert(all.take(done + 1).drop_last() =~= all.take(done as int));
            }
            done += 1;
        }
        let bridged = self.bridge();
        Cycle { direct, bridged }
    }

    /// Carries out one command and returns the pushes it calls for, in the
    /// order in which they are to be made. No command fails: one that names
    /// a user that is not online changes nothing and pushes nothing.
    pub fn handle(&mut self, command: Command) -> (pushes: Vec<Push>)
        requires
            old(self).wf(),
        ensures
            final(self).wf(),
            final(self)@ == old(self)@.step(command@),
            views(pushes@) == old(self)@.pushes(command@),
    {
        match command {
            Command::RegisterOnline(user, chats, mailbox) => {
                self.register_online(user, chats, mailbox);
                let pushes: Vec<Push> = Vec::new();
                pushes
            },
            Command::RefreshUser(user) => self.refresh_user(user),
            Command::Offline(user) => {
                self.offline(user);
                let pushes: Vec<Push> = Vec::new();
                pushes
            },
            Command::Route(notification) => self.route(notification),
        }
    }
}

/// How the router treats a notification.
enum Routing {
    Announce,
    Publish(Identity),
    Direct(Identity),
    Ignore,
}

/// Sorts a notification by the routing rule that applies to it.
fn routing(notification: &Notification) -> (rule: Routing)
    ensures
        match notification@.kind {
            NotificationKindView::NewChat(_) => rule is Announce,
            NotificationKindView::NewMessage(chat, _) => rule == Routing::Publish(chat),
            NotificationKindView::FriendRequest(_, to) => rule == Routing::Direct(to),
            NotificationKindView::FriendAccepted(_, to) => rule == Routing::Direct(to),
            _ => rule is Ignore,
        },
{
    match &notification.kind {
        NotificationKind::NewChat(_) => Routing::Announce,
        NotificationKind::NewMessage(chat, _) => Routing::Publish(*chat),
        NotificationKind::FriendRequest(_, to) => Routing::Direct(*to),
        NotificationKind::FriendAccepted(_, to) => Routing::Direct(*to),
        _ => Routing::Ignore,
    }
}

/// The subscriptions after the online users among `members` were
/// subscribed to `chat`.
spec fn announced(before: RouterView, members: Seq<Identity>, chat: Identity) -> Set<
    (Identity, Identity),
> {
    before.subscriptions.union(
        Set::new(
            |pair: (Identity, Identity)|
                pair.1 == chat && members.contains(pair.0) && before.directory.contains_key(
                    pair.0,
                ),
        ),
    )
}

/// Subscribing one more member adds its pair if it is online.
proof fn lemma_announced_next(before: RouterView, members: Seq<Identity>, k: int, chat: Identity)
    requires
        0 <= k < members.len(),
    ensures
        announced(before, members.take(k + 1), chat) == if before.directory.contains_key(
            members[k],
        ) {
            announced(before, members.take(k), chat).insert((members[k], chat))
        } else {
            announced(before, members.take(k), chat)
        },
{
    let shorter = members.take(k);
    let longer = members.take(k + 1);
    assert forall|m: Identity| #[trigger]
        longer.contains(m) <==> (shorter.contains(m) || m == members[k]) by {
        if m == members[k] {
            assert(longer[k] == m);
        }
    }
}

/// Removing one element of a sequence without repeats leaves a sequence
/// without repeats that holds everything but that element.
proof fn lemma_remove_unique<A>(items: Seq<A>, at: int)
    requires
        items.no_duplicates(),
        0 <= at < items.len(),
    ensures
        items.remove(at).no_duplicates(),
        items.remove(at).to_set() == items.to_set().remove(items[at]),
{
    let after = items.remove(at);
    assert forall|item: A| after.to_set().contains(item) <==> items.to_set().remove(
        items[at],
    ).contains(item) by {
        if after.contains(item) {
            let k = choose|k: int| 0 <= k < after.len() && after[k] == item;
            let k0 = if k < at { k } else { k + 1 };
            assert(items[k0] == item);
        }
        if items.contains(item) && item != items[at] {
            let k = choose|k: int| 0 <= k < items.len() && items[k] == item;
            let k1 = if k < at { k } else { k - 1 };
            assert(after[k1] == item);
        }
    }
}

/// Registering for one more chat adds one subscription and one topic.
proof fn lemma_register_next(
    before: RouterView,
    user: Identity,
    chats: Seq<Identity>,
    k: int,
    mailbox: Mailbox,
)
    requires
        user.is_valid(),
        0 <= k < chats.len(),
    ensures
        before.register_online(user, chats.take(k + 1), mailbox) == ({
            let so_far = before.register_online(user, chats.take(k), mailbox);
            RouterView {
                directory: so_far.directory,
                subscriptions: so_far.subscriptions.insert((user, chats[k])),
                topics: so_far.topics.insert(chats[k]),
            }
        }),
{
    let so_far = before.register_online(user, chats.take(k), mailbox);
    let next = before.register_online(user, chats.take(k + 1), mailbox);
    let shorter = chats.take(k);
    let longer = chats.take(k + 1);
    assert forall|c: Identity| #[trigger]
        longer.contains(c) <==> (shorter.contains(c) || c == chats[k]) by {
        if c == chats[k] {
            assert(longer[k] == c);
        }
    }
    assert(next.subscriptions =~= so_far.subscriptions.insert((user, chats[k])));
    assert(next.topics =~= so_far.topics.insert(chats[k]));
}

} // verus!
