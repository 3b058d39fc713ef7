//! The data that travels through the service: messages, chats, profiles,
//! notifications and the envelopes that carry them on the wire.
//!
//! Every record has a view, a mathematical value in which strings are
//! sequences of characters and lists are sequences of views. Contracts in
//! this crate speak of views only.

use vstd::prelude::*;
use crate::identity::Identity;

verus! {

/// The views of the elements of a sequence, in the same order.
pub open spec fn views<T: View>(items: Seq<T>) -> Seq<T::V> {
    items.map_values(|item: T| item@)
}

/// Taking views commutes with appending an element.
pub proof fn lemma_views_push<T: View>(items: Seq<T>, item: T)
    ensures
        views(items.push(item)) == views(items).push(item@),
{
}

/// Taking views commutes with taking one more element of a prefix.
pub proof fn lemma_views_take_next<T: View>(items: Seq<T>, n: int)
    requires
        0 <= n < items.len(),
    ensures
        views(items.take(n + 1)) == views(items.take(n)).push(items[n]@),
{
}

/// Whether `id` occurs in `ids`.
pub fn contains_identity(ids: &Vec<Identity>, id: Identity) -> (found: bool)
    ensures
        found == ids@.contains(id),
{
    let mut i: usize = 0;
    while i < ids.len()
        invariant
            i <= ids.len(),
            forall|k: int| 0 <= k < i ==> ids@[k] != id,
        decreases ids.len() - i,
    {
        if ids[i] == id {
            return true;
        }
        i += 1;
    }
    false
}

/// A copy of a list of identities.
pub fn copy_identities(ids: &Vec<Identity>) -> (copy: Vec<Identity>)
    ensures
        copy@ == ids@,
{
    let mut copy: Vec<Identity> = Vec::new();
    let mut i: usize = 0;
    while i < ids.len()
        invariant
            i <= ids.len(),
            copy@ == ids@.take(i as int),
        decreases ids.len() - i,
    {
        copy.push(ids[i]);
        i += 1;
    }
    copy
}

/// One message of a chat.
#[derive(Debug, PartialEq, Eq)]
pub struct Message {
    pub id: Identity,
    pub author: Identity,
    pub text: String,
}

/// The view of a `Message`.
pub struct MessageView {
    pub id: Identity,
    pub author: Identity,
    pub text: Seq<char>,
}

impl View for Message {
    type V = MessageView;

    open spec fn view(&self) -> MessageView {
        MessageView { id: self.id, author: self.author, text: self.text@ }
    }
}

impl Clone for Message {
    fn clone(&self) -> (copy: Message)
        ensures
            copy@ == self@,
    {
        Message { id: self.id, author: self.author, text: self.text.clone() }
    }
}

impl Message {
    /// Whether two messages are the same in every field.
    pub fn same(&self, other: &Message) -> (equal: bool)
        ensures
            equal == (self@ == other@),
    {
        self.id == other.id && self.author == other.author && self.text == other.text
    }
}

/// Whether two lists hold the same identities in the same order.
pub fn same_identities(left: &Vec<Identity>, right: &Vec<Identity>) -> (equal: bool)
    ensures
        equal == (left@ == right@),
{
    if left.len() != right.len() {
        return false;
    }
    let mut i: usize = 0;
    while i < left.len()
        invariant
            i <= left@.len(),
            left@.len() == right@.len(),
            left@.take(i as int) == right@.take(i as int),
        decreases left@.len() - i,
    {
        if left[i] != right[i] {
            return false;
        }
        i += 1;
    }
    assert(left@ =~= left@.take(left@.len() as int));
    assert(right@ =~= right@.take(right@.len() as int));
    true
}

/// Whether two lists hold the same messages in the same order.
pub fn same_messages(left: &Vec<Message>, right: &Vec<Message>) -> (equal: bool)
    ensures
        equal == (views(left@) == views(right@)),
{
    if left.len() != right.len() {
        assert(views(left@).len() != views(right@).len());
        return false;
    }
    let mut i: usize = 0;
    while i < left.len()
        invariant
            i <= left@.len(),
            left@.len() == right@.len(),
            views(left@.take(i as int)) == views(right@.take(i as int)),
        decreases left@.len() - i,
    {
        if !left[i].same(&right[i]) {
            assert(views(left@)[i as int] != views(right@)[i as int]);
            return false;
        }
        proof {
            lemma_views_take_next(left@, i as int);
            lemma_views_take_next(right@, i as int);
        }
        i += 1;
    }
    assert(left@ =~= left@.take(left@.len() as int));
    assert(right@ =~= right@.take(right@.len() as int));
    true
}

/// A copy of a list of messages.
pub fn copy_messages(messages: &Vec<Message>) -> (copy: Vec<Message>)
    ensures
        views(copy@) == views(messages@),
{
    let mut copy: Vec<Message> = Vec::new();
    let mut i: usize = 0;
    while i < messages.len()
        invariant
            i <= messages.len(),
            views(copy@) == views(messages@.take(i as int)),
        decreases messages.len() - i,
    {
        let ghost before = copy@;
        let message = messages[i].clone();
        copy.push(message);
        i += 1;
        proof {
            lemma_views_push(before, message);
        }
    }
    copy
}

/// A chat: its members, fixed when it is created, and its messages in order.
#[derive(Debug, PartialEq, Eq)]
pub struct Chat {
    pub id: Identity,
    pub tag: String,
    pub members: Vec<Identity>,
    pub messages: Vec<Message>,
}

/// The view of a `Chat`.
pub struct ChatView {
    pub id: Identity,
    pub tag: Seq<char>,
    pub members: Seq<Identity>,
    pub messages: Seq<MessageView>,
}

impl View for Chat {
    type V = ChatView;

    open spec fn view(&self) -> ChatView {
        ChatView {
            id: self.id,
            tag: self.tag@,
            members: self.members@,
            messages: views(self.messages@),
        }
    }
}

impl Chat {
    /// Whether two chats are the same in every field.
    pub fn same(&self, other: &Chat) -> (equal: bool)
        ensures
            equal == (self@ == other@),
    {
        self.id == other.id && self.tag == other.tag && same_identities(
            &self.members,
            &other.members,
        ) && same_messages(&self.messages, &other.messages)
    }

    /// Whether `user` is a member of the chat.
    pub fn has_member(&self, user: Identity) -> (member: bool)
        ensures
            member == self@.members.contains(user),
    {
        contains_identity(&self.members, user)
    }
}

impl Clone for Chat {
    fn clone(&self) -> (copy: Chat)
        ensures
            copy@ == self@,
    {
        Chat {
            id: self.id,
            tag: self.tag.clone(),
            members: copy_identities(&self.members),
            messages: copy_messages(&self.messages),
        }
    }
}

/// A friend as a profile lists it.
#[derive(Clone, Debug, PartialEq, Eq)]
pub struct Contact {
    pub id: Identity,
    pub tag: String,
}

/// The view of a `Contact`.
pub struct ContactView {
    pub id: Identity,
    pub tag: Seq<char>,
}

impl View for Contact {
    type V = ContactView;

    open spec fn view(&self) -> ContactView {
        ContactView { id: self.id, tag: self.tag@ }
    }
}

/// A user as the store knows it, friends included.
#[derive(Clone, Debug, PartialEq, Eq)]
pub struct Profile {
    pub id: Identity,
    pub tag: String,
    pub email: String,
    pub friends: Vec<Contact>,
}

/// The view of a `Profile`.
pub struct ProfileView {
    pub id: Identity,
    pub tag: Seq<char>,
    pub email: Seq<char>,
    pub friends: Seq<ContactView>,
}

impl View for Profile {
    type V = ProfileView;

    open spec fn view(&self) -> ProfileView {
        ProfileView {
            id: self.id,
            tag: self.tag@,
            email: self.email@,
            friends: views(self.friends@),
        }
    }
}

impl ProfileView {
    /// Whether `id` is one of the profile's friends.
    pub open spec fn has_friend(self, id: Identity) -> bool {
        exists|i: int| 0 <= i < self.friends.len() && #[trigger] self.friends[i].id == id
    }
}

/// What a user presents to log in or to open an account.
#[derive(Clone, Debug, PartialEq, Eq)]
pub struct Credentials {
    pub email: String,
    pub tag: String,
    pub password: String,
}

/// The view of a `Credentials`.
pub struct CredentialsView {
    pub email: Seq<char>,
    pub tag: Seq<char>,
    pub password: Seq<char>,
}

impl View for Credentials {
    type V = CredentialsView;

    open spec fn view(&self) -> CredentialsView {
        CredentialsView { email: self.email@, tag: self.tag@, password: self.password@ }
    }
}

/// What a notification says. The set is closed: routing gives every kind a
/// rule of its own.
#[derive(Debug, PartialEq, Eq)]
pub enum NotificationKind {
    /// A chat was created.
    NewChat(Chat),
    /// A message was posted to the chat with the given identity.
    NewMessage(Identity, Message),
    /// The sender has read the chat with the given identity.
    MessageRead(Identity),
    /// A standing marker kept by the store: the chat holds a message its
    /// owner has not read. It is never routed.
    Unread(Identity),
    /// The first user asks the second to be friends.
    FriendRequest(Identity, Identity),
    /// The first user accepted the request of the second.
    FriendAccepted(Identity, Identity),
    /// The named user's profile changed; its connection should fetch it anew.
    RefreshUser(Identity),
}

/// The view of a `NotificationKind`.
pub enum NotificationKindView {
    NewChat(ChatView),
    NewMessage(Identity, MessageView),
    MessageRead(Identity),
    Unread(Identity),
    FriendRequest(Identity, Identity),
    FriendAccepted(Identity, Identity),
    RefreshUser(Identity),
}

impl View for NotificationKind {
    type V = NotificationKindView;

    open spec fn view(&self) -> NotificationKindView {
        match *self {
            NotificationKind::NewChat(chat) => NotificationKindView::NewChat(chat@),
            NotificationKind::NewMessage(chat, message) => NotificationKindView::NewMessage(
                chat,
                message@,
            ),
            NotificationKind::MessageRead(chat) => NotificationKindView::MessageRead(chat),
            NotificationKind::Unread(chat) => NotificationKindView::Unread(chat),
            NotificationKind::FriendRequest(from, to) => NotificationKindView::FriendRequest(
                from,
                to,
            ),
            NotificationKind::FriendAccepted(from, to) => NotificationKindView::FriendAccepted(
                from,
                to,
            ),
            NotificationKind::RefreshUser(user) => NotificationKindView::RefreshUser(user),
        }
    }
}

impl NotificationKind {
    /// Whether two kinds say the same thing.
    pub fn same(&self, other: &NotificationKind) -> (equal: bool)
        ensures
            equal == (self@ == other@),
    {
        match (self, other) {
            (NotificationKind::NewChat(left), NotificationKind::NewChat(right)) => left.same(
                right,
            ),
            (
                NotificationKind::NewMessage(left_chat, left),
                NotificationKind::NewMessage(right_chat, right),
            ) => *left_chat == *right_chat && left.same(right),
            (NotificationKind::MessageRead(left), NotificationKind::MessageRead(right)) => *left
                == *right,
            (NotificationKind::Unread(left), NotificationKind::Unread(right)) => *left == *right,
            (
                NotificationKind::FriendRequest(left_from, left_to),
                NotificationKind::FriendRequest(right_from, right_to),
            ) => *left_from == *right_from && *left_to == *right_to,
            (
                NotificationKind::FriendAccepted(left_from, left_to),
                NotificationKind::FriendAccepted(right_from, right_to),
            ) => *left_from == *right_from && *left_to == *right_to,
            (NotificationKind::RefreshUser(left), NotificationKind::RefreshUser(right)) => *left
                == *right,
            _ => false,
        }
    }
}

impl Clone for NotificationKind {
    fn clone(&self) -> (copy: NotificationKind)
        ensures
            copy@ == self@,
    {
        match self {
            NotificationKind::NewChat(chat) => NotificationKind::NewChat(chat.clone()),
            NotificationKind::NewMessage(chat, message) => NotificationKind::NewMessage(
                *chat,
                message.clone(),
            ),
            NotificationKind::MessageRead(chat) => NotificationKind::MessageRead(*chat),
            NotificationKind::Unread(chat) => NotificationKind::Unread(*chat),
            NotificationKind::FriendRequest(from, to) => NotificationKind::FriendRequest(
                *from,
                *to,
            ),
            NotificationKind::FriendAccepted(from, to) => NotificationKind::FriendAccepted(
                *from,
                *to,
            ),
            NotificationKind::RefreshUser(user) => NotificationKind::RefreshUser(*user),
        }
    }
}

/// A notification: what it says, and an identity of its own by which the
/// store finds it again. A notification that the router or a connection
/// makes up itself carries the unset identity; the transport stamps it
/// when it is encoded.
#[derive(Debug, PartialEq, Eq)]
pub struct Notification {
    pub id: Identity,
    pub kind: NotificationKind,
}

/// The view of a `Notification`.
pub struct NotificationView {
    pub id: Identity,
    pub kind: NotificationKindView,
}

impl View for Notification {
    type V = NotificationView;

    open spec fn view(&self) -> NotificationView {
        NotificationView { id: self.id, kind: self.kind@ }
    }
}

impl Clone for Notification {
    fn clone(&self) -> (copy: Notification)
        ensures
            copy@ == self@,
    {
        Notification { id: self.id, kind: self.kind.clone() }
    }
}

impl Notification {
    /// A notification of the given kind that has no identity of its own yet.
    pub fn unstamped(kind: NotificationKind) -> (notification: Notification)
        ensures
            notification@ == (NotificationView { id: Identity::unset(), kind: kind@ }),
    {
        Notification { id: Identity::unset(), kind }
    }
}

/// A request that opens a session, or the profile that answers it.
#[derive(Clone, Debug, PartialEq, Eq)]
pub enum Session {
    Login(Credentials),
    SignUp(Credentials),
    Token(Profile),
}

/// The view of a `Session`.
pub enum SessionView {
    Login(CredentialsView),
    SignUp(CredentialsView),
    Token(ProfileView),
}

impl View for Session {
    type V = SessionView;

    open spec fn view(&self) -> SessionView {
        match *self {
            Session::Login(credentials) => SessionView::Login(credentials@),
            Session::SignUp(credentials) => SessionView::SignUp(credentials@),
            Session::Token(profile) => SessionView::Token(profile@),
        }
    }
}

/// A read request, or the result that answers one.
#[derive(Clone, Debug, PartialEq, Eq)]
pub enum Query {
    UsersByTag(Vec<String>),
    UsersContainsTag(String),
    UsersById(Vec<Identity>),
    FriendRequests,
    UserChats,
    ChatMessages(Identity),
    ResultUsers(Vec<Profile>),
    ResultFriendRequests(Vec<Notification>),
    ResultChats(Vec<Chat>),
    ResultChatMessages(Vec<Message>),
}

/// The view of a `Query`.
pub enum QueryView {
    UsersByTag(Seq<Seq<char>>),
    UsersContainsTag(Seq<char>),
    UsersById(Seq<Identity>),
    FriendRequests,
    UserChats,
    ChatMessages(Identity),
    ResultUsers(Seq<ProfileView>),
    ResultFriendRequests(Seq<NotificationView>),
    ResultChats(Seq<ChatView>),
    ResultChatMessages(Seq<MessageView>),
}

impl View for Query {
    type V = QueryView;

    open spec fn view(&self) -> QueryView {
        match *self {
            Query::UsersByTag(tags) => QueryView::UsersByTag(views(tags@)),
            Query::UsersContainsTag(tag) => QueryView::UsersContainsTag(tag@),
            Query::UsersById(ids) => QueryView::UsersById(ids@),
            Query::FriendRequests => QueryView::FriendRequests,
            Query::UserChats => QueryView::UserChats,
            Query::ChatMessages(chat) => QueryView::ChatMessages(chat),
            Query::ResultUsers(users) => QueryView::ResultUsers(views(users@)),
            Query::ResultFriendRequests(requests) => QueryView::ResultFriendRequests(
                views(requests@),
            ),
            Query::ResultChats(chats) => QueryView::ResultChats(views(chats@)),
            Query::ResultChatMessages(messages) => QueryView::ResultChatMessages(
                views(messages@),
            ),
        }
    }
}

/// A request that changes what the store holds about the caller.
#[derive(Clone, Debug, PartialEq, Eq)]
pub enum Modification {
    /// End the friendship with the named user.
    RemoveFriend(Identity),
    /// Give the named user, who must be the caller, a new tag.
    UserTag(Identity, String),
    /// Any modification this service has no rule for.
    Unsupported,
}

/// The view of a `Modification`.
pub enum ModificationView {
    RemoveFriend(Identity),
    UserTag(Identity, Seq<char>),
    Unsupported,
}

impl View for Modification {
    type V = ModificationView;

    open spec fn view(&self) -> ModificationView {
        match *self {
            Modification::RemoveFriend(friend) => ModificationView::RemoveFriend(friend),
            Modification::UserTag(user, tag) => ModificationView::UserTag(user, tag@),
            Modification::Unsupported => ModificationView::Unsupported,
        }
    }
}

/// The answer to a request.
#[derive(Clone, Debug, PartialEq, Eq)]
pub enum Response {
    /// The request was carried out.
    Success,
    /// The session is open; this is the caller's profile.
    Session(Session),
    /// The result of a read request.
    Query(Query),
    /// The request failed, for the reason given.
    Failure(String),
}

/// The view of a `Response`.
pub enum ResponseView {
    Success,
    Session(SessionView),
    Query(QueryView),
    Failure(Seq<char>),
}

impl View for Response {
    type V = ResponseView;

    open spec fn view(&self) -> ResponseView {
        match *self {
            Response::Success => ResponseView::Success,
            Response::Session(session) => ResponseView::Session(session@),
            Response::Query(query) => ResponseView::Query(query@),
            Response::Failure(reason) => ResponseView::Failure(reason@),
        }
    }
}

/// What an envelope carries.
#[derive(Clone, Debug, PartialEq, Eq)]
pub enum Content {
    Session(Session),
    Query(Query),
    Modification(Modification),
    Notification(Notification),
    Response(Response),
}

/// The view of a `Content`.
pub enum ContentView {
    Session(SessionView),
    Query(QueryView),
    Modification(ModificationView),
    Notification(NotificationView),
    Response(ResponseView),
}

impl View for Content {
    type V = ContentView;

    open spec fn view(&self) -> ContentView {
        match *self {
            Content::Session(session) => ContentView::Session(session@),
            Content::Query(query) => ContentView::Query(query@),
            Content::Modification(modification) => ContentView::Modification(modification@),
            Content::Notification(notification) => ContentView::Notification(notification@),
            Content::Response(response) => ContentView::Response(response@),
        }
    }
}

/// One unit of wire traffic: a correlation identity and a content. An
/// answer carries the correlation identity of the request it answers. An
/// envelope that the server sends of its own accord carries the unset
/// identity; the transport stamps it when it is encoded.
#[derive(Clone, Debug, PartialEq, Eq)]
pub struct Envelope {
    pub id: Identity,
    pub content: Content,
}

/// The view of an `Envelope`.
pub struct EnvelopeView {
    pub id: Identity,
    pub content: ContentView,
}

impl View for Envelope {
    type V = EnvelopeView;

    open spec fn view(&self) -> EnvelopeView {
        EnvelopeView { id: self.id, content: self.content@ }
    }
}

impl EnvelopeView {
    /// The answer to the request `request` that reports the failure `reason`.
    pub open spec fn failure(request: Identity, reason: Seq<char>) -> EnvelopeView {
        EnvelopeView { id: request, content: ContentView::Response(ResponseView::Failure(reason)) }
    }

    /// The answer to the request `request` that reports plain success.
    pub open spec fn success(request: Identity) -> EnvelopeView {
        EnvelopeView { id: request, content: ContentView::Response(ResponseView::Success) }
    }

    /// Whether the envelope is an answer that reports a failure.
    pub open spec fn is_failure(self) -> bool {
        self.content matches ContentView::Response(ResponseView::Failure(_))
    }
}

} // verus!
