//! The actor that serves one connection.
//!
//! The actor decides; it does not wait. It is handed one event at a time
//! (an envelope that the delivery engine released, the store's reply to its
//! last request, a notification from its mailbox) and answers with a step:
//! effects to carry out in order, and at most one request to the store,
//! whose reply is the next event. A step without a request ends the matter.
//! Whoever drives the actor carries the step out and reports back.

use vstd::prelude::*;
use vstd::string::StringExecFns;
use crate::channels::{mailbox_open, mailbox_share, mailbox_try_recv, Mailbox, MailboxReceiver};
use crate::identity::Identity;
use crate::model::{
    contains_identity, lemma_views_push, views, Chat, ChatView, Contact, ContactView, Content,
    ContentView, Envelope, EnvelopeView, Message, MessageView, Modification, ModificationView,
    Notification, NotificationKind, NotificationKindView, NotificationView, Profile, ProfileView,
    Query, QueryView, Response, ResponseView, Session, SessionView,
};
use crate::router::{Command, CommandView};
use crate::store::{
    friend_requests, spec_friend_requests, Mutation, MutationView, Reply, ReplyView, Request,
    RequestView,
};

verus! {

/// How many notifications a connection's mailbox holds before the router
/// has to wait.
pub const MAILBOX_CAPACITY: usize = 100;

/// Why a query is refused before login.
pub const QUERY_REFUSED: &'static str = "User is not logged in, Server can't respond to query!";

/// Why a notification is refused before login.
pub const NOTIFICATION_REFUSED: &'static str =
    "User is not logged in, Server can't respond to notifications!";

/// Why a modification is refused before login.
pub const MODIFICATION_REFUSED: &'static str =
    "User is not logged in, Server can't respond to modifications!";

/// Why the messages of a chat are withheld.
pub const NOT_A_MEMBER: &'static str = "User is invalid or is not a member of the chat!";

/// Why a result sent as a query is refused.
pub const INVALID_QUERY: &'static str = "Invalid Query!";

/// Why a profile sent as a session request is refused.
pub const INVALID_SESSION: &'static str = "Invalid Session request!";

/// Why a modification without a rule is refused.
pub const UNSUPPORTED_MODIFICATION: &'static str = "Unsupported modification!";

/// What is reported when the store answers something other than what it
/// was asked.
pub const UNEXPECTED_REPLY: &'static str = "The store gave an unexpected answer!";

/// Something for the driver to carry out.
pub enum Effect {
    /// Post the command to the router's queue. A queue that is full or
    /// closed is no reason to stop.
    Post(Command),
    /// Encode the envelope, write it to the connection and record it with
    /// the delivery engine.
    Send(Envelope),
}

/// The view of an `Effect`.
pub enum EffectView {
    Post(CommandView),
    Send(EnvelopeView),
}

impl View for Effect {
    type V = EffectView;

    open spec fn view(&self) -> EffectView {
        match *self {
            Effect::Post(command) => EffectView::Post(command@),
            Effect::Send(envelope) => EffectView::Send(envelope@),
        }
    }
}

/// What the actor wants done next: the effects in order, then the request,
/// if there is one. The reply to the request goes to `resume`.
pub struct Step {
    pub effects: Vec<Effect>,
    pub ask: Option<Request>,
}

/// The view of a `Step`.
pub struct StepView {
    pub effects: Seq<EffectView>,
    pub ask: Option<RequestView>,
}

impl View for Step {
    type V = StepView;

    open spec fn view(&self) -> StepView {
        StepView {
            effects: views(self.effects@),
            ask: match self.ask {
                Some(request) => Some(request@),
                None => None,
            },
        }
    }
}

impl StepView {
    /// The step that asks for nothing.
    pub open spec fn nothing() -> StepView {
        StepView { effects: Seq::empty(), ask: None }
    }

    /// The step that sends one envelope and ends the matter.
    pub open spec fn answer(envelope: EnvelopeView) -> StepView {
        StepView { effects: seq![EffectView::Send(envelope)], ask: None }
    }

    /// The step that puts one request to the store.
    pub open spec fn ask(request: RequestView) -> StepView {
        StepView { effects: Seq::empty(), ask: Some(request) }
    }
}

/// How many envelopes the effects send.
pub open spec fn sends(effects: Seq<EffectView>) -> nat
    decreases effects.len(),
{
    if effects.len() == 0 {
        0
    } else {
        sends(effects.drop_last()) + if effects.last() is Send {
            1nat
        } else {
            0nat
        }
    }
}

/// What the actor is in the middle of. Each state but `Idle` waits for one
/// reply of the store; all but `Refreshing` carry the correlation identity
/// of the request being served.
pub enum Pending {
    /// Nothing.
    Idle,
    /// A login or sign-up waits for the profile.
    Authenticating(Identity),
    /// A session that has its profile waits for the user's chats.
    Enrolling(Identity, Profile),
    /// A query for users waits for them.
    AwaitingUsers(Identity),
    /// The query for friend requests waits for the standing notifications.
    AwaitingFriendRequests(Identity),
    /// The query for the caller's chats waits for them.
    AwaitingChats(Identity),
    /// The query for a chat's messages waits for the chat.
    AwaitingChatMessages(Identity),
    /// A new chat waits for the caller's profile, to see who its friends are.
    VettingChat(Identity, Notification),
    /// A new message waits for its chat, to see who its members are.
    ReadingChat(Identity, Notification),
    /// A read receipt waits for the caller's standing notifications.
    ReadingMarkers(Identity, Notification),
    /// A notification waits for its changes to be made; then it is routed,
    /// after a refresh of the caller where the flag is set.
    Forwarding(Identity, Notification, bool),
    /// An unfriending waits for the friendship to be removed.
    Unfriending(Identity, Identity),
    /// An unfriending waits for the caller's chats.
    SharedChats(Identity, Identity),
    /// An unfriending waits for the shared chats to be removed.
    Parting(Identity, Identity),
    /// A change of tag waits to be made.
    Retagging(Identity),
    /// A change of tag waits for the caller's profile, to tell the friends.
    Retagged(Identity),
    /// A refresh signal from the mailbox waits for the caller's profile.
    Refreshing,
}

/// The view of a `Pending`.
pub enum PendingView {
    Idle,
    Authenticating(Identity),
    Enrolling(Identity, ProfileView),
    AwaitingUsers(Identity),
    AwaitingFriendRequests(Identity),
    AwaitingChats(Identity),
    AwaitingChatMessages(Identity),
    VettingChat(Identity, NotificationView),
    ReadingChat(Identity, NotificationView),
    ReadingMarkers(Identity, NotificationView),
    Forwarding(Identity, NotificationView, bool),
    Unfriending(Identity, Identity),
    SharedChats(Identity, Identity),
    Parting(Identity, Identity),
    Retagging(Identity),
    Retagged(Identity),
    Refreshing,
}

impl View for Pending {
    type V = PendingView;

    open spec fn view(&self) -> PendingView {
        match *self {
            Pending::Idle => PendingView::Idle,
            Pending::Authenticating(request) => PendingView::Authenticating(request),
            Pending::Enrolling(request, profile) => PendingView::Enrolling(request, profile@),
            Pending::AwaitingUsers(request) => PendingView::AwaitingUsers(request),
            Pending::AwaitingFriendRequests(request) => PendingView::AwaitingFriendRequests(
                request,
            ),
            Pending::AwaitingChats(request) => PendingView::AwaitingChats(request),
            Pending::AwaitingChatMessages(request) => PendingView::AwaitingChatMessages(request),
            Pending::VettingChat(request, notification) => PendingView::VettingChat(
                request,
                notification@,
            ),
            Pending::ReadingChat(request, notification) => PendingView::ReadingChat(
                request,
                notification@,
            ),
            Pending::ReadingMarkers(request, notification) => PendingView::ReadingMarkers(
                request,
                notification@,
            ),
            Pending::Forwarding(request, notification, refresh) => PendingView::Forwarding(
                request,
                notification@,
                refresh,
            ),
            Pending::Unfriending(request, friend) => PendingView::Unfriending(request, friend),
            Pending::SharedChats(request, friend) => PendingView::SharedChats(request, friend),
            Pending::Parting(request, friend) => PendingView::Parting(request, friend),
            Pending::Retagging(request) => PendingView::Retagging(request),
            Pending::Retagged(request) => PendingView::Retagged(request),
            Pending::Refreshing => PendingView::Refreshing,
        }
    }
}

/// The reason to report for a reply that does not let the actor go on: the
/// store's own where it reported a failure.
pub open spec fn reason(reply: ReplyView) -> Seq<char> {
    match reply {
        ReplyView::Failed(why) => why,
        _ => UNEXPECTED_REPLY@,
    }
}

/// The identities of the chats, in their order.
pub open spec fn chat_ids(chats: Seq<ChatView>) -> Seq<Identity> {
    chats.map_values(|chat: ChatView| chat.id)
}

/// Whether the store should record a chat that `caller` announces: the
/// caller is a member, and every other member is a friend of the caller.
pub open spec fn may_create(caller: Identity, chat: ChatView, profile: ProfileView) -> bool {
    &&& chat.members.contains(caller)
    &&& forall|i: int|
        0 <= i < chat.members.len() ==> #[trigger] chat.members[i] == caller
            || profile.has_friend(chat.members[i])
}

/// The changes that record a new message: for each member but the caller,
/// each time it is listed, a marker that the chat holds something unread,
/// and the message itself.
pub open spec fn unread_batch(
    caller: Identity,
    members: Seq<Identity>,
    chat: Identity,
    message: MessageView,
) -> Seq<MutationView>
    decreases members.len(),
{
    if members.len() == 0 {
        Seq::empty()
    } else {
        let before = unread_batch(caller, members.drop_last(), chat, message);
        if members.last() != caller {
            before.push(
                MutationView::InsertNotification(
                    members.last(),
                    NotificationView {
                        id: Identity::unset(),
                        kind: NotificationKindView::Unread(chat),
                    },
                ),
            ).push(MutationView::InsertMessage(chat, message))
        } else {
            before
        }
    }
}

/// The changes that record that `chat` was read: each marker for that chat
/// among the notifications is removed.
pub open spec fn read_batch(chat: Identity, notifications: Seq<NotificationView>) -> Seq<
    MutationView,
>
    decreases notifications.len(),
{
    if notifications.len() == 0 {
        Seq::empty()
    } else {
        let before = read_batch(chat, notifications.drop_last());
        if notifications.last().kind == NotificationKindView::Unread(chat) {
            before.push(MutationView::RemoveNotification(notifications.last().id))
        } else {
            before
        }
    }
}

/// The changes that end the chats shared with `friend`: each of the chats
/// that lists it as a member is removed.
pub open spec fn shared_batch(friend: Identity, chats: Seq<ChatView>) -> Seq<MutationView>
    decreases chats.len(),
{
    if chats.len() == 0 {
        Seq::empty()
    } else {
        let before = shared_batch(friend, chats.drop_last());
        if chats.last().members.contains(friend) {
            before.push(MutationView::RemoveChat(chats.last().id))
        } else {
            before
        }
    }
}

/// One refresh command for each friend, in their order.
pub open spec fn refresh_posts(friends: Seq<ContactView>) -> Seq<EffectView>
    decreases friends.len(),
{
    if friends.len() == 0 {
        Seq::empty()
    } else {
        refresh_posts(friends.drop_last()).push(
            EffectView::Post(CommandView::RefreshUser(friends.last().id)),
        )
    }
}

/// The actor as mathematics: who the connection is logged in as, the
/// handle of its mailbox, and what it is in the middle of.
pub struct ActorView {
    pub identity: Identity,
    pub handle: Mailbox,
    pub pending: PendingView,
}

impl ActorView {
    /// The actor with nothing pending.
    pub open spec fn idle(self) -> ActorView {
        ActorView { pending: PendingView::Idle, ..self }
    }

    /// The actor waiting in the given state.
    pub open spec fn wait(self, pending: PendingView) -> ActorView {
        ActorView { pending, ..self }
    }

    /// The outcome that refuses the request for the reason given.
    pub open spec fn refuse(self, request: Identity, why: Seq<char>) -> (ActorView, StepView) {
        (self.idle(), StepView::answer(EnvelopeView::failure(request, why)))
    }

    /// The outcome that answers the request with a result.
    pub open spec fn reply_query(self, request: Identity, result: QueryView) -> (
        ActorView,
        StepView,
    ) {
        (
            self.idle(),
            StepView::answer(
                EnvelopeView {
                    id: request,
                    content: ContentView::Response(ResponseView::Query(result)),
                },
            ),
        )
    }

    /// A session request: a login or a sign-up goes to the store; a
    /// profile is no request.
    pub open spec fn open_session(self, request: Identity, session: SessionView) -> (
        ActorView,
        StepView,
    ) {
        match session {
            SessionView::Login(credentials) => (
                self.wait(PendingView::Authenticating(request)),
                StepView::ask(RequestView::Authenticate(credentials)),
            ),
            SessionView::SignUp(credentials) => (
                self.wait(PendingView::Authenticating(request)),
                StepView::ask(RequestView::CreateAccount(credentials)),
            ),
            SessionView::Token(_) => self.refuse(request, INVALID_SESSION@),
        }
    }

    /// A query: refused before login; otherwise put to the store, but for
    /// a result sent as a query, which is refused.
    pub open spec fn begin_query(self, request: Identity, query: QueryView) -> (
        ActorView,
        StepView,
    ) {
        if !self.identity.is_valid() {
            self.refuse(request, QUERY_REFUSED@)
        } else {
            match query {
                QueryView::UsersByTag(tags) => (
                    self.wait(PendingView::AwaitingUsers(request)),
                    StepView::ask(RequestView::UsersByTag(tags)),
                ),
                QueryView::UsersContainsTag(tag) => (
                    self.wait(PendingView::AwaitingUsers(request)),
                    StepView::ask(RequestView::UsersContainsTag(tag)),
                ),
                QueryView::UsersById(ids) => (
                    self.wait(PendingView::AwaitingUsers(request)),
                    StepView::ask(RequestView::UsersById(ids)),
                ),
                QueryView::FriendRequests => (
                    self.wait(PendingView::AwaitingFriendRequests(request)),
                    StepView::ask(RequestView::FetchNotifications(self.identity)),
                ),
                QueryView::UserChats => (
                    self.wait(PendingView::AwaitingChats(request)),
                    StepView::ask(RequestView::FetchUserChats(self.identity)),
                ),
                QueryView::ChatMessages(chat) => (
                    self.wait(PendingView::AwaitingChatMessages(request)),
                    StepView::ask(RequestView::FetchChat(chat)),
                ),
                _ => self.refuse(request, INVALID_QUERY@),
            }
        }
    }

    /// The end of a notification's handling: the caller is refreshed where
    /// asked, the notification goes to the router, and the request is
    /// answered with success.
    pub open spec fn forward(self, request: Identity, notification: NotificationView, refresh: bool)
        -> (ActorView, StepView) {
        let routed = seq![
            EffectView::Post(CommandView::Route(notification)),
            EffectView::Send(EnvelopeView::success(request)),
        ];
        (
            self.idle(),
            StepView {
                effects: if refresh {
                    seq![EffectView::Post(CommandView::RefreshUser(self.identity))] + routed
                } else {
                    routed
                },
                ask: None,
            },
        )
    }

    /// Has the changes made that a notification calls for, then forwards
    /// it; forwards it at once where it calls for none.
    pub open spec fn settle(
        self,
        request: Identity,
        notification: NotificationView,
        refresh: bool,
        batch: Seq<MutationView>,
    ) -> (ActorView, StepView) {
        if batch.len() == 0 {
            self.forward(request, notification, refresh)
        } else {
            (
                self.wait(PendingView::Forwarding(request, notification, refresh)),
                StepView::ask(RequestView::Apply(batch)),
            )
        }
    }

    /// A notification from the client: refused before login. A new chat, a
    /// new message and a read receipt first read from the store. A friend
    /// request is recorded for its addressee where the caller is its
    /// sender. An acceptance by the caller drops the request, makes the two
    /// users friends of each other and refreshes the caller. Whatever the
    /// store is asked, the notification is forwarded to the router.
    pub open spec fn begin_notification(self, request: Identity, notification: NotificationView)
        -> (ActorView, StepView) {
        if !self.identity.is_valid() {
            self.refuse(request, NOTIFICATION_REFUSED@)
        } else {
            match notification.kind {
                NotificationKindView::NewChat(_) => (
                    self.wait(PendingView::VettingChat(request, notification)),
                    StepView::ask(RequestView::FetchProfile(self.identity)),
                ),
                NotificationKindView::NewMessage(chat, _) => (
                    self.wait(PendingView::ReadingChat(request, notification)),
                    StepView::ask(RequestView::FetchChat(chat)),
                ),
                NotificationKindView::MessageRead(_) => (
                    self.wait(PendingView::ReadingMarkers(request, notification)),
                    StepView::ask(RequestView::FetchNotifications(self.identity)),
                ),
                NotificationKindView::FriendRequest(from, to) => self.settle(
                    request,
                    notification,
                    false,
                    if self.identity == from {
                        seq![MutationView::InsertUniqueNotification(to, notification)]
                    } else {
                        Seq::empty()
                    },
                ),
                NotificationKindView::FriendAccepted(from, to) => if self.identity == from {
                    self.settle(
                        request,
                        notification,
                        true,
                        seq![
                            MutationView::RemoveNotification(notification.id),
                            MutationView::InsertFriend(self.identity, to),
                            MutationView::InsertFriend(to, self.identity),
                        ],
                    )
                } else {
                    self.settle(request, notification, false, Seq::empty())
                },
                _ => self.settle(request, notification, false, Seq::empty()),
            }
        }
    }

    /// The end of an unfriending: both sides are refreshed and the request
    /// is answered with success.
    pub open spec fn part(self, request: Identity, friend: Identity) -> (ActorView, StepView) {
        (
            self.idle(),
            StepView {
                effects: seq![
                    EffectView::Post(CommandView::RefreshUser(self.identity)),
                    EffectView::Post(CommandView::RefreshUser(friend)),
                    EffectView::Send(EnvelopeView::success(request)),
                ],
                ask: None,
            },
        )
    }

    /// A modification: refused before login. An unfriending removes the
    /// friendship on both sides. A change of tag is made only for the
    /// caller itself; for anybody else nothing is done.
    pub open spec fn begin_modification(self, request: Identity, modification: ModificationView)
        -> (ActorView, StepView) {
        if !self.identity.is_valid() {
            self.refuse(request, MODIFICATION_REFUSED@)
        } else {
            match modification {
                ModificationView::RemoveFriend(friend) => (
                    self.wait(PendingView::Unfriending(request, friend)),
                    StepView::ask(
                        RequestView::Apply(
                            seq![
                                MutationView::RemoveFriend(self.identity, friend),
                                MutationView::RemoveFriend(friend, self.identity),
                            ],
                        ),
                    ),
                ),
                ModificationView::UserTag(user, tag) => if self.identity == user {
                    (
                        self.wait(PendingView::Retagging(request)),
                        StepView::ask(RequestView::Apply(seq![MutationView::ChangeTag(user, tag)])),
                    )
                } else {
                    (self.idle(), StepView::answer(EnvelopeView::success(request)))
                },
                ModificationView::Unsupported => self.refuse(request, UNSUPPORTED_MODIFICATION@),
            }
        }
    }

    /// What the actor does with an envelope that the delivery engine
    /// released. A response is never answered.
    pub open spec fn receive(self, envelope: EnvelopeView) -> (ActorView, StepView) {
        match envelope.content {
            ContentView::Session(session) => self.open_session(envelope.id, session),
            ContentView::Query(query) => self.begin_query(envelope.id, query),
            ContentView::Modification(modification) => self.begin_modification(
                envelope.id,
                modification,
            ),
            ContentView::Notification(notification) => self.begin_notification(
                envelope.id,
                notification,
            ),
            ContentView::Response(_) => (self.idle(), StepView::nothing()),
        }
    }

    /// What the actor does with the store's reply to its last request. A
    /// reply that does not let the matter go on ends it with a failure
    /// that carries the store's reason; the session alone goes on without
    /// its chats.
    pub open spec fn resume(self, reply: ReplyView) -> (ActorView, StepView) {
        match self.pending {
            PendingView::Idle => (self, StepView::nothing()),
            PendingView::Authenticating(request) => match reply {
                ReplyView::Profile(profile) => (
                    ActorView {
                        identity: profile.id,
                        handle: self.handle,
                        pending: PendingView::Enrolling(request, profile),
                    },
                    StepView::ask(RequestView::FetchUserChats(profile.id)),
                ),
                _ => self.refuse(request, reason(reply)),
            },
            PendingView::Enrolling(request, profile) => (
                self.idle(),
                StepView {
                    effects: seq![
                        EffectView::Post(
                            CommandView::RegisterOnline(
                                self.identity,
                                match reply {
                                    ReplyView::Chats(chats) => chat_ids(chats),
                                    _ => Seq::empty(),
                                },
                                self.handle,
                            ),
                        ),
                        EffectView::Send(
                            EnvelopeView {
                                id: request,
                                content: ContentView::Response(
                                    ResponseView::Session(SessionView::Token(profile)),
                                ),
                            },
                        ),
                    ],
                    ask: None,
                },
            ),
            PendingView::AwaitingUsers(request) => match reply {
                ReplyView::Users(users) => self.reply_query(request, QueryView::ResultUsers(users)),
                _ => self.refuse(request, reason(reply)),
            },
            PendingView::AwaitingFriendRequests(request) => match reply {
                ReplyView::Notifications(notifications) => self.reply_query(
                    request,
                    QueryView::ResultFriendRequests(spec_friend_requests(notifications)),
                ),
                _ => self.refuse(request, reason(reply)),
            },
            PendingView::AwaitingChats(request) => match reply {
                ReplyView::Chats(chats) => self.reply_query(request, QueryView::ResultChats(chats)),
                _ => self.refuse(request, reason(reply)),
            },
            PendingView::AwaitingChatMessages(request) => match reply {
                ReplyView::Chat(chat) => if chat.members.contains(self.identity) {
                    self.reply_query(request, QueryView::ResultChatMessages(chat.messages))
                } else {
                    self.refuse(request, NOT_A_MEMBER@)
                },
                _ => self.refuse(request, reason(reply)),
            },
            PendingView::VettingChat(request, notification) => match reply {
                ReplyView::Profile(profile) => self.settle(
                    request,
                    notification,
                    false,
                    match notification.kind {
                        NotificationKindView::NewChat(chat) => if may_create(
                            self.identity,
                            chat,
                            profile,
                        ) {
                            seq![MutationView::CreateChat(chat)]
                        } else {
                            Seq::empty()
                        },
                        _ => Seq::empty(),
                    },
                ),
                _ => self.refuse(request, reason(reply)),
            },
            PendingView::ReadingChat(request, notification) => match reply {
                ReplyView::Chat(chat) => self.settle(
                    request,
                    notification,
                    false,
                    match notification.kind {
                        NotificationKindView::NewMessage(origin, message) => if chat.members.contains(
                            self.identity,
                        ) {
                            unread_batch(self.identity, chat.members, origin, message)
                        } else {
                            Seq::empty()
                        },
                        _ => Seq::empty(),
                    },
                ),
                _ => self.refuse(request, reason(reply)),
            },
            PendingView::ReadingMarkers(request, notification) => match reply {
                ReplyView::Notifications(standing) => self.settle(
                    request,
                    notification,
                    false,
                    match notification.kind {
                        NotificationKindView::MessageRead(chat) => read_batch(chat, standing),
                        _ => Seq::empty(),
                    },
                ),
                _ => self.refuse(request, reason(reply)),
            },
            PendingView::Forwarding(request, notification, refresh) => match reply {
                ReplyView::Applied => self.forward(request, notification, refresh),
                _ => self.refuse(request, reason(reply)),
            },
            PendingView::Unfriending(request, friend) => match reply {
                ReplyView::Applied => (
                    self.wait(PendingView::SharedChats(request, friend)),
                    StepView::ask(RequestView::FetchUserChats(self.identity)),
                ),
                _ => self.refuse(request, reason(reply)),
            },
            PendingView::SharedChats(request, friend) => match reply {
                ReplyView::Chats(chats) => if shared_batch(friend, chats).len() == 0 {
                    self.part(request, friend)
                } else {
                    (
                        self.wait(PendingView::Parting(request, friend)),
                        StepView::ask(RequestView::Apply(shared_batch(friend, chats))),
                    )
                },
                _ => self.refuse(request, reason(reply)),
            },
            PendingView::Parting(request, friend) => match reply {
                ReplyView::Applied => self.part(request, friend),
                _ => self.refuse(request, reason(reply)),
            },
            PendingView::Retagging(request) => match reply {
                ReplyView::Applied => (
                    self.wait(PendingView::Retagged(request)),
                    StepView::ask(RequestView::FetchProfile(self.identity)),
                ),
                _ => self.refuse(request, reason(reply)),
            },
            PendingView::Retagged(request) => match reply {
                ReplyView::Profile(profile) => (
                    self.idle(),
                    StepView {
                        effects: seq![EffectView::Post(CommandView::RefreshUser(self.identity))]
                            + refresh_posts(profile.friends) + seq![
                            EffectView::Send(EnvelopeView::success(request)),
                        ],
                        ask: None,
                    },
                ),
                _ => self.refuse(request, reason(reply)),
            },
            PendingView::Refreshing => match reply {
                ReplyView::Profile(profile) => (
                    self.idle(),
                    StepView::answer(
                        EnvelopeView {
                            id: Identity::unset(),
                            content: ContentView::Session(SessionView::Token(profile)),
                        },
                    ),
                ),
                _ => (self.idle(), StepView::nothing()),
            },
        }
    }

    /// What the actor does with a notification from its mailbox. Before
    /// login it is dropped. A refresh signal, and the acceptance of a
    /// friend request, which changes the friend list, are not passed on:
    /// the profile is fetched to be sent in their place. Anything else is
    /// sent on as it is.
    pub open spec fn relay(self, notification: NotificationView) -> (ActorView, StepView) {
        if !self.identity.is_valid() {
            (self.idle(), StepView::nothing())
        } else if notification.kind is RefreshUser || notification.kind is FriendAccepted {
            (
                self.wait(PendingView::Refreshing),
                StepView::ask(RequestView::FetchProfile(self.identity)),
            )
        } else {
            (
                self.idle(),
                StepView::answer(
                    EnvelopeView {
                        id: Identity::unset(),
                        content: ContentView::Notification(notification),
                    },
                ),
            )
        }
    }
}

/// The text as an owned string.
fn text(literal: &'static str) -> (owned: String)
    ensures
        owned@ == literal@,
{
    String::from_str(literal)
}

/// The step that asks for nothing.
fn nothing() -> (step: Step)
    ensures
        step@ == StepView::nothing(),
{
    let step = Step { effects: Vec::new(), ask: None };
    assert(views(step.effects@) =~= Seq::<EffectView>::empty());
    step
}

/// The step that sends one envelope and ends the matter.
fn answer(envelope: Envelope) -> (step: Step)
    ensures
        step@ == StepView::answer(envelope@),
{
    let mut effects: Vec<Effect> = Vec::new();
    effects.push(Effect::Send(envelope));
    assert(views(effects@) =~= seq![EffectView::Send(envelope@)]);
    Step { effects, ask: None }
}

/// The step that puts one request to the store.
fn ask(request: Request) -> (step: Step)
    ensures
        step@ == StepView::ask(request@),
{
    let step = Step { effects: Vec::new(), ask: Some(request) };
    assert(views(step.effects@) =~= Seq::<EffectView>::empty());
    step
}

/// The answer to `request` that reports plain success.
fn success(request: Identity) -> (envelope: Envelope)
    ensures
        envelope@ == EnvelopeView::success(request),
{
    Envelope { id: request, content: Content::Response(Response::Success) }
}

/// The step that refuses `request` for the reason given.
fn refusal(request: Identity, why: String) -> (step: Step)
    ensures
        step@ == StepView::answer(EnvelopeView::failure(request, why@)),
{
    answer(Envelope { id: request, content: Content::Response(Response::Failure(why)) })
}

/// The step that refuses `request` because of the store's reply.
fn refusal_for(request: Identity, reply: Reply) -> (step: Step)
    ensures
        step@ == StepView::answer(EnvelopeView::failure(request, reason(reply@))),
{
    match reply {
        Reply::Failed(why) => refusal(request, why),
        _ => refusal(request, text(UNEXPECTED_REPLY)),
    }
}

/// The step that answers `request` with the result of a query.
fn result(request: Identity, found: Query) -> (step: Step)
    ensures
        step@ == StepView::answer(
            EnvelopeView {
                id: request,
                content: ContentView::Response(ResponseView::Query(found@)),
            },
        ),
{
    answer(Envelope { id: request, content: Content::Response(Response::Query(found)) })
}

/// A list that holds one change.
fn one(mutation: Mutation) -> (batch: Vec<Mutation>)
    ensures
        views(batch@) == seq![mutation@],
{
    let mut batch: Vec<Mutation> = Vec::new();
    batch.push(mutation);
    batch
}

/// A list that holds no change.
fn none() -> (batch: Vec<Mutation>)
    ensures
        views(batch@) == Seq::<MutationView>::empty(),
{
    let batch: Vec<Mutation> = Vec::new();
    batch
}

/// The identities of the chats, in their order.
pub fn ids_of(chats: &Vec<Chat>) -> (ids: Vec<Identity>)
    ensures
        ids@ == chat_ids(views(chats@)),
{
    let mut ids: Vec<Identity> = Vec::new();
    let mut i: usize = 0;
    while i < chats.len()
        invariant
            i <= chats@.len(),
            ids@ == chat_ids(views(chats@)).take(i as int),
        decreases chats@.len() - i,
    {
        ids.push(chats[i].id);
        i += 1;
    }
    ids
}

/// Whether `id` is one of the profile's friends.
pub fn is_friend(profile: &Profile, id: Identity) -> (found: bool)
    ensures
        found == profile@.has_friend(id),
{
    let mut i: usize = 0;
    while i < profile.friends.len()
        invariant
            i <= profile.friends@.len(),
            forall|k: int| 0 <= k < i ==> (#[trigger] profile@.friends[k]).id != id,
        decreases profile.friends@.len() - i,
    {
        if profile.friends[i].id == id {
            assert(profile@.friends[i as int].id == id);
            return true;
        }
        i += 1;
    }
    false
}

/// Whether the store should record a chat that `caller` announces.
pub fn chat_allowed(caller: Identity, chat: &Chat, profile: &Profile) -> (allowed: bool)
    ensures
        allowed == may_create(caller, chat@, profile@),
{
    if !contains_identity(&chat.members, caller) {
        return false;
    }
    let mut i: usize = 0;
    while i < chat.members.len()
        invariant
            i <= chat.members@.len(),
            forall|k: int|
                0 <= k < i ==> #[trigger] chat@.members[k] == caller || profile@.has_friend(
                    chat@.members[k],
                ),
        decreases chat.members@.len() - i,
    {
        let member = chat.members[i];
        if member != caller && !is_friend(profile, member) {
            return false;
        }
        i += 1;
    }
    true
}

/// The changes that record a new message of `chat` for all of `members`
/// but the caller.
pub fn unread_mutations(
    caller: Identity,
    members: &Vec<Identity>,
    chat: Identity,
    message: &Message,
) -> (batch: Vec<Mutation>)
    ensures
        views(batch@) == unread_batch(caller, members@, chat, message@),
{
    let mut batch: Vec<Mutation> = Vec::new();
    let mut i: usize = 0;
    while i < members.len()
        invariant
            i <= members@.len(),
            views(batch@) == unread_batch(caller, members@.take(i as int), chat, message@),
        decreases members@.len() - i,
    {
        proof {
            assert(members@.take(i + 1).drop_last() =~= members@.take(i as int));
        }
        if members[i] != caller {
            let marker = Mutation::InsertNotification(
                members[i],
                Notification::unstamped(NotificationKind::Unread(chat)),
            );
            let record = Mutation::InsertMessage(chat, message.clone());
            batch.push(marker);
            batch.push(record);
        }
        i += 1;
    }
    assert(members@.take(members@.len() as int) =~= members@);
    batch
}

/// The changes that record that `chat` was read.
pub fn read_mutations(chat: Identity, standing: &Vec<Notification>) -> (batch: Vec<Mutation>)
    ensures
        views(batch@) == read_batch(chat, views(standing@)),
{
    let mut batch: Vec<Mutation> = Vec::new();
    let mut i: usize = 0;
    while i < standing.len()
        invariant
            i <= standing@.len(),
            views(batch@) == read_batch(chat, views(standing@.take(i as int))),
        decreases standing@.len() - i,
    {
        proof {
            assert(views(standing@.take(i + 1)).drop_last() =~= views(standing@.take(i as int)));
        }
        let marks = match &standing[i].kind {
            NotificationKind::Unread(marked) => *marked == chat,
            _ => false,
        };
        if marks {
            let removal = Mutation::RemoveNotification(standing[i].id);
            batch.push(removal);
        }
        i += 1;
    }
    assert(standing@.take(standing@.len() as int) =~= standing@);
    batch
}

/// The changes that end the chats shared with `friend`.
pub fn shared_mutations(friend: Identity, chats: &Vec<Chat>) -> (batch: Vec<Mutation>)
    ensures
        views(batch@) == shared_batch(friend, views(chats@)),
{
    let mut batch: Vec<Mutation> = Vec::new();
    let mut i: usize = 0;
    while i < chats.len()
        invariant
            i <= chats@.len(),
            views(batch@) == shared_batch(friend, views(chats@.take(i as int))),
        decreases chats@.len() - i,
    {
        proof {
            assert(views(chats@.take(i + 1)).drop_last() =~= views(chats@.take(i as int)));
        }
        if contains_identity(&chats[i].members, friend) {
            let removal = Mutation::RemoveChat(chats[i].id);
            batch.push(removal);
        }
        i += 1;
    }
    assert(chats@.take(chats@.len() as int) =~= chats@);
    batch
}

/// Adds one refresh command for each friend to the effects.
fn add_refresh_posts(effects: &mut Vec<Effect>, friends: &Vec<Contact>)
    ensures
        views(final(effects)@) == views(old(effects)@) + refresh_posts(views(friends@)),
{
    let mut i: usize = 0;
    while i < friends.len()
        invariant
            i <= friends@.len(),
            views(effects@) == views(old(effects)@) + refresh_posts(
                views(friends@.take(i as int)),
            ),
        decreases friends@.len() - i,
    {
        proof {
            assert(views(friends@.take(i + 1)).drop_last() =~= views(friends@.take(i as int)));
        }
        let ghost before = effects@;
        let post = Effect::Post(Command::RefreshUser(friends[i].id));
        effects.push(post);
        proof {
            lemma_views_push(before, post);
        }
        i += 1;
    }
    assert(friends@.take(friends@.len() as int) =~= friends@);
}

/// The actor of one connection.
pub struct ConnectionActor {
    identity: Identity,
    handle: Mailbox,
    mailbox: MailboxReceiver,
    pending: Pending,
}

impl View for ConnectionActor {
    type V = ActorView;

    closed spec fn view(&self) -> ActorView {
        ActorView { identity: self.identity, handle: self.handle, pending: self.pending@ }
    }
}

impl ConnectionActor {
    /// An actor for a new connection: not logged in, nothing pending, with a
    /// mailbox of its own that holds up to `MAILBOX_CAPACITY` notifications.
    pub fn new() -> (actor: ConnectionActor)
        ensures
            actor@.identity == Identity::unset(),
            actor@.pending is Idle,
            crate::channels::mailbox_bound(actor@.handle) == MAILBOX_CAPACITY,
    {
        let (handle, mailbox) = mailbox_open(MAILBOX_CAPACITY);
        ConnectionActor { identity: Identity::unset(), handle, mailbox, pending: Pending::Idle }
    }

    /// Who the connection is logged in as; the unset identity before login.
    pub fn identity(&self) -> (identity: Identity)
        ensures
            identity == self@.identity,
    {
        self.identity
    }

    /// Whether the connection is logged in.
    pub fn is_logged_in(&self) -> (logged_in: bool)
        ensures
            logged_in == self@.identity.is_valid(),
    {
        self.identity.is_valid()
    }

    /// Whether nothing is pending.
    pub fn is_idle(&self) -> (idle: bool)
        ensures
            idle == (self@.pending is Idle),
    {
        match &self.pending {
            Pending::Idle => true,
            _ => false,
        }
    }

    /// A handle to the actor's mailbox, for the router to fill.
    pub fn mailbox(&self) -> (handle: Mailbox)
        ensures
            handle == self@.handle,
    {
        mailbox_share(&self.handle)
    }

    /// Ends a notification's handling: see `ActorView::forward`.
    fn forward(&mut self, request: Identity, notification: Notification, refresh: bool) -> (step:
        Step)
        requires
            old(self)@.pending is Idle,
        ensures
            (final(self)@, step@) == old(self)@.forward(request, notification@, refresh),
    {
        let mut effects: Vec<Effect> = Vec::new();
        if refresh {
            effects.push(Effect::Post(Command::RefreshUser(self.identity)));
        }
        effects.push(Effect::Post(Command::Route(notification)));
        effects.push(Effect::Send(success(request)));
        assert(views(effects@) =~= old(self)@.forward(request, notification@, refresh).1.effects);
        Step { effects, ask: None }
    }

    /// Has a notification's changes made, then forwards it: see
    /// `ActorView::settle`.
    fn settle(
        &mut self,
        request: Identity,
        notification: Notification,
        refresh: bool,
        batch: Vec<Mutation>,
    ) -> (step: Step)
        requires
            old(self)@.pending is Idle,
        ensures
            (final(self)@, step@) == old(self)@.settle(
                request,
                notification@,
                refresh,
                views(batch@),
            ),
    {
        if batch.len() == 0 {
            self.forward(request, notification, refresh)
        } else {
            self.pending = Pending::Forwarding(request, notification, refresh);
            ask(Request::Apply(batch))
        }
    }

    /// Ends an unfriending: see `ActorView::part`.
    fn part(&mut self, request: Identity, friend: Identity) -> (step: Step)
        requires
            old(self)@.pending is Idle,
        ensures
            (final(self)@, step@) == old(self)@.part(request, friend),
    {
        let mut effects: Vec<Effect> = Vec::new();
        effects.push(Effect::Post(Command::RefreshUser(self.identity)));
        effects.push(Effect::Post(Command::RefreshUser(friend)));
        effects.push(Effect::Send(success(request)));
        assert(views(effects@) =~= old(self)@.part(request, friend).1.effects);
        Step { effects, ask: None }
    }

    /// Starts on a session request: see `ActorView::open_session`.
    fn open_session(&mut self, request: Identity, session: Session) -> (step: Step)
        requires
            old(self)@.pending is Idle,
        ensures
            (final(self)@, step@) == old(self)@.open_session(request, session@),
    {
        match session {
            Session::Login(credentials) => {
                self.pending = Pending::Authenticating(request);
                ask(Request::Authenticate(credentials))
            },
            Session::SignUp(credentials) => {
                self.pending = Pending::Authenticating(request);
                ask(Request::CreateAccount(credentials))
            },
            Session::Token(_) => refusal(request, text(INVALID_SESSION)),
        }
    }

    /// Starts on a query: see `ActorView::begin_query`.
    fn begin_query(&mut self, request: Identity, query: Query) -> (step: Step)
        requires
            old(self)@.pending is Idle,
        ensures
            (final(self)@, step@) == old(self)@.begin_query(request, query@),
    {
        if !self.identity.is_valid() {
            return refusal(request, text(QUERY_REFUSED));
        }
        match query {
            Query::UsersByTag(tags) => {
                self.pending = Pending::AwaitingUsers(request);
                ask(Request::UsersByTag(tags))
            },
            Query::UsersContainsTag(tag) => {
                self.pending = Pending::AwaitingUsers(request);
                ask(Request::UsersContainsTag(tag))
            },
            Query::UsersById(ids) => {
                self.pending = Pending::AwaitingUsers(request);
                ask(Request::UsersById(ids))
            },
            Query::FriendRequests => {
                self.pending = Pending::AwaitingFriendRequests(request);
                ask(Request::FetchNotifications(self.identity))
            },
            Query::UserChats => {
                self.pending = Pending::AwaitingChats(request);
                ask(Request::FetchUserChats(self.identity))
            },
            Query::ChatMessages(chat) => {
                self.pending = Pending::AwaitingChatMessages(request);
                ask(Request::FetchChat(chat))
            },
            _ => refusal(request, text(INVALID_QUERY)),
        }
    }

    /// Starts on a notification: see `ActorView::begin_notification`.
    fn begin_notification(&mut self, request: Identity, notification: Notification) -> (step:
        Step)
        requires
            old(self)@.pending is Idle,
        ensures
            (final(self)@, step@) == old(self)@.begin_notification(request, notification@),
    {
        if !self.identity.is_valid() {
            return refusal(request, text(NOTIFICATION_REFUSED));
        }
        let plan = plan_of(&notification);
        match plan {
            Plan::Vet => {
                self.pending = Pending::VettingChat(request, notification);
                ask(Request::FetchProfile(self.identity))
            },
            Plan::ReadChat(chat) => {
                self.pending = Pending::ReadingChat(request, notification);
                ask(Request::FetchChat(chat))
            },
            Plan::ReadMarkers => {
                self.pending = Pending::ReadingMarkers(request, notification);
                ask(Request::FetchNotifications(self.identity))
            },
            Plan::Record(from, to) => {
                let batch = if self.identity == from {
                    one(Mutation::InsertUniqueNotification(to, notification.clone()))
                } else {
                    none()
                };
                self.settle(request, notification, false, batch)
            },
            Plan::Befriend(from, to) => {
                if self.identity == from {
                    let mut batch: Vec<Mutation> = Vec::new();
                    batch.push(Mutation::RemoveNotification(notification.id));
                    batch.push(Mutation::InsertFriend(self.identity, to));
                    batch.push(Mutation::InsertFriend(to, self.identity));
                    assert(views(batch@) =~= seq![
                        MutationView::RemoveNotification(notification.id),
                        MutationView::InsertFriend(self.identity, to),
                        MutationView::InsertFriend(to, self.identity),
                    ]);
                    self.settle(request, notification, true, batch)
                } else {
                    self.settle(request, notification, false, none())
                }
            },
            Plan::Pass => self.settle(request, notification, false, none()),
        }
    }

    /// Starts on a modification: see `ActorView::begin_modification`.
    fn begin_modification(&mut self, request: Identity, modification: Modification) -> (step:
        Step)
        requires
            old(self)@.pending is Idle,
        ensures
            (final(self)@, step@) == old(self)@.begin_modification(request, modification@),
    {
        if !self.identity.is_valid() {
            return refusal(request, text(MODIFICATION_REFUSED));
        }
        match modification {
            Modification::RemoveFriend(friend) => {
                let mut batch: Vec<Mutation> = Vec::new();
                batch.push(Mutation::RemoveFriend(self.identity, friend));
                batch.push(Mutation::RemoveFriend(friend, self.identity));
                assert(views(batch@) =~= seq![
                    MutationView::RemoveFriend(self.identity, friend),
                    MutationView::RemoveFriend(friend, self.identity),
                ]);
                self.pending = Pending::Unfriending(request, friend);
                ask(Request::Apply(batch))
            },
            Modification::UserTag(user, tag) => {
                if self.identity == user {
                    self.pending = Pending::Retagging(request);
                    ask(Request::Apply(one(Mutation::ChangeTag(user, tag))))
                } else {
                    answer(success(request))
                }
            },
            Modification::Unsupported => refusal(request, text(UNSUPPORTED_MODIFICATION)),
        }
    }

    /// Takes up an envelope that the delivery engine released. Whatever
    /// was pending is given up. The step that comes back starts the
    /// envelope's handling; a response gets no answer.
    pub fn receive(&mut self, envelope: Envelope) -> (step: Step)
        ensures
            (final(self)@, step@) == old(self)@.receive(envelope@),
    {
        self.pending = Pending::Idle;
        let request = envelope.id;
        match envelope.content {
            Content::Session(session) => self.open_session(request, session),
            Content::Query(query) => self.begin_query(request, query),
            Content::Modification(modification) => self.begin_modification(request, modification),
            Content::Notification(notification) => self.begin_notification(request, notification),
            Content::Response(_) => nothing(),
        }
    }

    /// Goes on with what is pending, given the store's reply to the
    /// request of the last step.
    pub fn resume(&mut self, reply: Reply) -> (step: Step)
        ensures
            (final(self)@, step@) == old(self)@.resume(reply@),
    {
        let mut pending = Pending::Idle;
        core::mem::swap(&mut self.pending, &mut pending);
        match pending {
            Pending::Idle => nothing(),
            Pending::Authenticating(request) => match reply {
                Reply::Profile(profile) => {
                    self.identity = profile.id;
                    let step = ask(Request::FetchUserChats(profile.id));
                    self.pending = Pending::Enrolling(request, profile);
                    step
                },
                other => refusal_for(request, other),
            },
            Pending::Enrolling(request, profile) => {
                let chats = match reply {
                    Reply::Chats(chats) => ids_of(&chats),
                    _ => Vec::new(),
                };
                let mut effects: Vec<Effect> = Vec::new();
                effects.push(
                    Effect::Post(
                        Command::RegisterOnline(self.identity, chats, mailbox_share(&self.handle)),
                    ),
                );
                effects.push(
                    Effect::Send(
                        Envelope {
                            id: request,
                            content: Content::Response(Response::Session(Session::Token(profile))),
                        },
                    ),
                );
                assert(views(effects@) =~= old(self)@.resume(reply@).1.effects);
                Step { effects, ask: None }
            },
            Pending::AwaitingUsers(request) => match reply {
                Reply::Users(users) => result(request, Query::ResultUsers(users)),
                other => refusal_for(request, other),
            },
            Pending::AwaitingFriendRequests(request) => match reply {
                Reply::Notifications(notifications) => result(
                    request,
                    Query::ResultFriendRequests(friend_requests(&notifications)),
                ),
                other => refusal_for(request, other),
            },
            Pending::AwaitingChats(request) => match reply {
                Reply::Chats(chats) => result(request, Query::ResultChats(chats)),
                other => refusal_for(request, other),
            },
            Pending::AwaitingChatMessages(request) => match reply {
                Reply::Chat(chat) => {
                    if contains_identity(&chat.members, self.identity) {
                        result(request, Query::ResultChatMessages(chat.messages))
                    } else {
                        refusal(request, text(NOT_A_MEMBER))
                    }
                },
                other => refusal_for(request, other),
            },
            Pending::VettingChat(request, notification) => match reply {
                Reply::Profile(profile) => {
                    let batch = match &notification.kind {
                        NotificationKind::NewChat(chat) => {
                            if chat_allowed(self.identity, chat, &profile) {
                                one(Mutation::CreateChat(chat.clone()))
                            } else {
                                none()
                            }
                        },
                        _ => none(),
                    };
                    self.settle(request, notification, false, batch)
                },
                other => refusal_for(request, other),
            },
            Pending::ReadingChat(request, notification) => match reply {
                Reply::Chat(chat) => {
                    let batch = match &notification.kind {
                        NotificationKind::NewMessage(origin, message) => {
                            if contains_identity(&chat.members, self.identity) {
                                unread_mutations(self.identity, &chat.members, *origin, message)
                            } else {
                                none()
                            }
                        },
                        _ => none(),
                    };
                    self.settle(request, notification, false, batch)
                },
                other => refusal_for(request, other),
            },
            Pending::ReadingMarkers(request, notification) => match reply {
                Reply::Notifications(standing) => {
                    let batch = match &notification.kind {
                        NotificationKind::MessageRead(chat) => read_mutations(*chat, &standing),
                        _ => none(),
                    };
                    self.settle(request, notification, false, batch)
                },
                other => refusal_for(request, other),
            },
            Pending::Forwarding(request, notification, refresh) => match reply {
                Reply::Applied => self.forward(request, notification, refresh),
                other => refusal_for(request, other),
            },
            Pending::Unfriending(request, friend) => match reply {
                Reply::Applied => {
                    self.pending = Pending::SharedChats(request, friend);
                    ask(Request::FetchUserChats(self.identity))
                },
                other => refusal_for(request, other),
            },
            Pending::SharedChats(request, friend) => match reply {
                Reply::Chats(chats) => {
                    let batch = shared_mutations(friend, &chats);
                    if batch.len() == 0 {
                        self.part(request, friend)
                    } else {
                        self.pending = Pending::Parting(request, friend);
                        ask(Request::Apply(batch))
                    }
                },
                other => refusal_for(request, other),
            },
            Pending::Parting(request, friend) => match reply {
                Reply::Applied => self.part(request, friend),
                other => refusal_for(request, other),
            },
            Pending::Retagging(request) => match reply {
                Reply::Applied => {
                    self.pending = Pending::Retagged(request);
                    ask(Request::FetchProfile(self.identity))
                },
                other => refusal_for(request, other),
            },
            Pending::Retagged(request) => match reply {
                Reply::Profile(profile) => {
                    let mut effects: Vec<Effect> = Vec::new();
                    effects.push(Effect::Post(Command::RefreshUser(self.identity)));
                    add_refresh_posts(&mut effects, &profile.friends);
                    let ghost before = effects@;
                    let done = Effect::Send(success(request));
                    effects.push(done);
                    proof {
                        lemma_views_push(before, done);
                        assert(views(effects@) =~= old(self)@.resume(reply@).1.effects);
                    }
                    Step { effects, ask: None }
                },
                other => refusal_for(request, other),
            },
            Pending::Refreshing => match reply {
                Reply::Profile(profile) => answer(
                    Envelope {
                        id: Identity::unset(),
                        content: Content::Session(Session::Token(profile)),
                    },
                ),
                _ => nothing(),
            },
        }
    }

    /// Takes up a notification from the mailbox. Whatever was pending is
    /// given up.
    pub fn relay(&mut self, notification: Notification) -> (step: Step)
        ensures
            (final(self)@, step@) == old(self)@.relay(notification@),
    {
        self.pending = Pending::Idle;
        if !self.identity.is_valid() {
            return nothing();
        }
        let refresh = match &notification.kind {
            NotificationKind::RefreshUser(_) => true,
            NotificationKind::FriendAccepted(_, _) => true,
            _ => false,
        };
        if refresh {
            self.pending = Pending::Refreshing;
            ask(Request::FetchProfile(self.identity))
        } else {
            answer(
                Envelope { id: Identity::unset(), content: Content::Notification(notification) },
            )
        }
    }

    /// Takes the next notification out of the mailbox, without waiting,
    /// and relays it. There is no step where the mailbox has nothing to
    /// give. Which notification comes out is up to the queue, so the
    /// contract states what holds whatever it was; `relay` says what
    /// becomes of a given one.
    pub fn poll(&mut self) -> (step: Option<Step>)
        ensures
            match step {
                Some(step) => exists|notification: NotificationView|
                    (final(self)@, step@) == #[trigger] old(self)@.relay(notification),
                None => final(self)@ == old(self)@,
            },
    {
        match mailbox_try_recv(&mut self.mailbox) {
            Some(notification) => {
                let step = self.relay(notification);
                assert((self@, step@) == old(self)@.relay(notification@));
                Some(step)
            },
            None => None,
        }
    }

    /// The command that tells the router that this connection is gone.
    pub fn shutdown(&self) -> (command: Command)
        ensures
            command@ == CommandView::Offline(self@.identity),
    {
        Command::Offline(self.identity)
    }
}

/// What a notification from the client calls for before it is forwarded.
enum Plan {
    Vet,
    ReadChat(Identity),
    ReadMarkers,
    Record(Identity, Identity),
    Befriend(Identity, Identity),
    Pass,
}

/// Sorts a notification by what it calls for.
fn plan_of(notification: &Notification) -> (plan: Plan)
    ensures
        match notification@.kind {
            NotificationKindView::NewChat(_) => plan is Vet,
            NotificationKindView::NewMessage(chat, _) => plan == Plan::ReadChat(chat),
            NotificationKindView::MessageRead(_) => plan is ReadMarkers,
            NotificationKindView::FriendRequest(from, to) => plan == Plan::Record(from, to),
            NotificationKindView::FriendAccepted(from, to) => plan == Plan::Befriend(from, to),
            _ => plan is Pass,
        },
{
    match &notification.kind {
        NotificationKind::NewChat(_) => Plan::Vet,
        NotificationKind::NewMessage(chat, _) => Plan::ReadChat(*chat),
        NotificationKind::MessageRead(_) => Plan::ReadMarkers,
        NotificationKind::FriendRequest(from, to) => Plan::Record(*from, *to),
        NotificationKind::FriendAccepted(from, to) => Plan::Befriend(*from, *to),
        _ => Plan::Pass,
    }
}

} // verus!
