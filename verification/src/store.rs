//! The store as the service sees it: what a connection asks of it, what it
//! answers, and the small decisions that belong to keeping records.
//!
//! The store itself is outside this crate. A connection names what it wants
//! as a `Request`; whoever drives the connection carries the request out and
//! hands the `Reply` back.

use vstd::prelude::*;
use vstd::string::StringExecFns;
use crate::identity::Identity;
use crate::model::{
    views, Chat, ChatView, Credentials, CredentialsView, Message, MessageView, Notification,
    NotificationKind, NotificationView, Profile, ProfileView,
};

verus! {

/// One change to what the store holds.
#[derive(Debug, PartialEq, Eq)]
pub enum Mutation {
    /// The first user gains the second as a friend. Adding a friend the
    /// user already has changes nothing.
    InsertFriend(Identity, Identity),
    /// The first user loses the second as a friend.
    RemoveFriend(Identity, Identity),
    /// The user gets a standing notification.
    InsertNotification(Identity, Notification),
    /// The user gets a standing notification in place of the one of the
    /// same kind that it may already have.
    InsertUniqueNotification(Identity, Notification),
    /// The standing notification with this identity is dropped.
    RemoveNotification(Identity),
    /// The chat is recorded.
    CreateChat(Chat),
    /// The chat with this identity is dropped.
    RemoveChat(Identity),
    /// The message is added to the chat with this identity.
    InsertMessage(Identity, Message),
    /// The user gets a new tag.
    ChangeTag(Identity, String),
}

/// The view of a `Mutation`.
pub enum MutationView {
    InsertFriend(Identity, Identity),
    RemoveFriend(Identity, Identity),
    InsertNotification(Identity, NotificationView),
    InsertUniqueNotification(Identity, NotificationView),
    RemoveNotification(Identity),
    CreateChat(ChatView),
    RemoveChat(Identity),
    InsertMessage(Identity, MessageView),
    ChangeTag(Identity, Seq<char>),
}

impl View for Mutation {
    type V = MutationView;

    open spec fn view(&self) -> MutationView {
        match *self {
            Mutation::InsertFriend(user, friend) => MutationView::InsertFriend(user, friend),
            Mutation::RemoveFriend(user, friend) => MutationView::RemoveFriend(user, friend),
            Mutation::InsertNotification(user, notification) => MutationView::InsertNotification(
                user,
                notification@,
            ),
            Mutation::InsertUniqueNotification(user, notification) =>
                MutationView::InsertUniqueNotification(user, notification@),
            Mutation::RemoveNotification(id) => MutationView::RemoveNotification(id),
            Mutation::CreateChat(chat) => MutationView::CreateChat(chat@),
            Mutation::RemoveChat(chat) => MutationView::RemoveChat(chat),
            Mutation::InsertMessage(chat, message) => MutationView::InsertMessage(chat, message@),
            Mutation::ChangeTag(user, tag) => MutationView::ChangeTag(user, tag@),
        }
    }
}

/// Who counts whom as a friend after a change, where the friendships are
/// kept as a set of pairs of a user and one of its friends. Only the
/// changes to friendships touch the set.
pub open spec fn friends_after(friendships: Set<(Identity, Identity)>, mutation: MutationView)
    -> Set<(Identity, Identity)> {
    match mutation {
        MutationView::InsertFriend(user, friend) => friendships.insert((user, friend)),
        MutationView::RemoveFriend(user, friend) => friendships.remove((user, friend)),
        _ => friendships,
    }
}

/// Who counts whom as a friend after a run of changes, made in order.
pub open spec fn friends_after_all(
    friendships: Set<(Identity, Identity)>,
    batch: Seq<MutationView>,
) -> Set<(Identity, Identity)>
    decreases batch.len(),
{
    if batch.len() == 0 {
        friendships
    } else {
        friends_after(friends_after_all(friendships, batch.drop_last()), batch.last())
    }
}

/// What a connection asks of the store. All but `Apply` and
/// `CreateAccount` only read.
#[derive(Debug, PartialEq, Eq)]
pub enum Request {
    /// The profile that these credentials open.
    Authenticate(Credentials),
    /// A new account from these credentials, and its profile.
    CreateAccount(Credentials),
    /// The profile of this user, friends included.
    FetchProfile(Identity),
    /// The chat with this identity.
    FetchChat(Identity),
    /// The chats this user is a member of.
    FetchUserChats(Identity),
    /// The standing notifications of this user.
    FetchNotifications(Identity),
    /// The users with exactly these tags.
    UsersByTag(Vec<String>),
    /// The users whose tag contains this text.
    UsersContainsTag(String),
    /// The users with these identities.
    UsersById(Vec<Identity>),
    /// These changes, in this order, up to the first that fails.
    Apply(Vec<Mutation>),
}

/// The view of a `Request`.
pub enum RequestView {
    Authenticate(CredentialsView),
    CreateAccount(CredentialsView),
    FetchProfile(Identity),
    FetchChat(Identity),
    FetchUserChats(Identity),
    FetchNotifications(Identity),
    UsersByTag(Seq<Seq<char>>),
    UsersContainsTag(Seq<char>),
    UsersById(Seq<Identity>),
    Apply(Seq<MutationView>),
}

impl View for Request {
    type V = RequestView;

    open spec fn view(&self) -> RequestView {
        match *self {
            Request::Authenticate(credentials) => RequestView::Authenticate(credentials@),
            Request::CreateAccount(credentials) => RequestView::CreateAccount(credentials@),
            Request::FetchProfile(user) => RequestView::FetchProfile(user),
            Request::FetchChat(chat) => RequestView::FetchChat(chat),
            Request::FetchUserChats(user) => RequestView::FetchUserChats(user),
            Request::FetchNotifications(user) => RequestView::FetchNotifications(user),
            Request::UsersByTag(tags) => RequestView::UsersByTag(views(tags@)),
            Request::UsersContainsTag(tag) => RequestView::UsersContainsTag(tag@),
            Request::UsersById(ids) => RequestView::UsersById(ids@),
            Request::Apply(mutations) => RequestView::Apply(views(mutations@)),
        }
    }
}

impl RequestView {
    /// Whether carrying the request out may change what the store holds.
    pub open spec fn writes(self) -> bool {
        self is Apply || self is CreateAccount
    }
}

/// What the store answers.
#[derive(Debug, PartialEq, Eq)]
pub enum Reply {
    Profile(Profile),
    Chat(Chat),
    Chats(Vec<Chat>),
    Notifications(Vec<Notification>),
    Users(Vec<Profile>),
    /// The changes were made.
    Applied,
    /// The request failed, for the reason given.
    Failed(String),
}

/// The view of a `Reply`.
pub enum ReplyView {
    Profile(ProfileView),
    Chat(ChatView),
    Chats(Seq<ChatView>),
    Notifications(Seq<NotificationView>),
    Users(Seq<ProfileView>),
    Applied,
    Failed(Seq<char>),
}

impl View for Reply {
    type V = ReplyView;

    open spec fn view(&self) -> ReplyView {
        match *self {
            Reply::Profile(profile) => ReplyView::Profile(profile@),
            Reply::Chat(chat) => ReplyView::Chat(chat@),
            Reply::Chats(chats) => ReplyView::Chats(views(chats@)),
            Reply::Notifications(notifications) => ReplyView::Notifications(
                views(notifications@),
            ),
            Reply::Users(users) => ReplyView::Users(views(users@)),
            Reply::Applied => ReplyView::Applied,
            Reply::Failed(reason) => ReplyView::Failed(reason@),
        }
    }
}

/// Why a sign-up is refused for an address that has an account.
pub const ACCOUNT_EXISTS: &'static str = "User already exist!";

/// Why a sign-up with a field left out is refused.
pub const FIELDS_MISSING: &'static str = "Please fill all the fields!";

/// Whether a sign-up may go ahead, and if not, why not. An address that is
/// taken is reported first; then the tag, the address and the password
/// must all be there, the password in a form that `password_valid` vouches
/// for.
pub fn signup_refusal(taken: bool, credentials: &Credentials, password_valid: bool) -> (why:
    Option<String>)
    ensures
        match why {
            Some(text) => text@ == if taken {
                ACCOUNT_EXISTS@
            } else {
                FIELDS_MISSING@
            },
            None => true,
        },
        why is None <==> !taken && credentials@.tag.len() > 0 && credentials@.email.len() > 0
            && password_valid,
{
    if taken {
        Some(String::from_str(ACCOUNT_EXISTS))
    } else if credentials.tag.as_str().is_empty() || credentials.email.as_str().is_empty()
        || !password_valid {
        Some(String::from_str(FIELDS_MISSING))
    } else {
        None
    }
}

/// Finds the standing notification that `incoming` is to take the place
/// of: the first that says the same thing. Its identity is returned; where
/// there is none, `incoming` is to be recorded beside the others. Either
/// way the user ends up with one standing notification of that kind.
pub fn standing_duplicate(standing: &Vec<Notification>, incoming: &Notification) -> (found:
    Option<Identity>)
    ensures
        match found {
            Some(id) => exists|i: int|
                0 <= i < standing@.len() && (#[trigger] views(standing@)[i]).kind
                    == incoming@.kind && views(standing@)[i].id == id && forall|j: int|
                    0 <= j < i ==> (#[trigger] views(standing@)[j]).kind != incoming@.kind,
            None => forall|i: int|
                0 <= i < standing@.len() ==> (#[trigger] views(standing@)[i]).kind
                    != incoming@.kind,
        },
{
    let mut i: usize = 0;
    while i < standing.len()
        invariant
            i <= standing@.len(),
            forall|j: int| 0 <= j < i ==> (#[trigger] views(standing@)[j]).kind != incoming@.kind,
        decreases standing@.len() - i,
    {
        if standing[i].kind.same(&incoming.kind) {
            assert(views(standing@)[i as int].kind == incoming@.kind);
            return Some(standing[i].id);
        }
        i += 1;
    }
    None
}

/// The friend requests among `notifications`, in their order.
pub open spec fn spec_friend_requests(notifications: Seq<NotificationView>) -> Seq<
    NotificationView,
>
    decreases notifications.len(),
{
    if notifications.len() == 0 {
        Seq::empty()
    } else {
        let before = spec_friend_requests(notifications.drop_last());
        if notifications.last().kind is FriendRequest {
            before.push(notifications.last())
        } else {
            before
        }
    }
}

/// Picks the friend requests out of a user's standing notifications.
pub fn friend_requests(notifications: &Vec<Notification>) -> (requests: Vec<Notification>)
    ensures
        views(requests@) == spec_friend_requests(views(notifications@)),
{
    let mut requests: Vec<Notification> = Vec::new();
    let mut i: usize = 0;
    while i < notifications.len()
        invariant
            i <= notifications@.len(),
            views(requests@) == spec_friend_requests(views(notifications@.take(i as int))),
        decreases notifications@.len() - i,
    {
        proof {
            let longer = views(notifications@.take(i + 1));
            assert(longer.drop_last() =~= views(notifications@.take(i as int)));
        }
        match &notifications[i].kind {
            NotificationKind::FriendRequest(_, _) => {
                let copy = notifications[i].clone();
                requests.push(copy);
            },
            _ => {},
        }
        i += 1;
    }
    proof {
        assert(notifications@.take(notifications@.len() as int) =~= notifications@);
    }
    requests
}

} // verus!
