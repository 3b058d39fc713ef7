//! What holds of the router and of the connection actor whatever they are
//! handed, stated over their mathematical models and proved.

use vstd::prelude::*;
use crate::chat_bus::ensured;
use crate::connection::{
    refresh_posts, sends, ActorView, EffectView, PendingView, StepView, MODIFICATION_REFUSED,
    NOTIFICATION_REFUSED, NOT_A_MEMBER, QUERY_REFUSED,
};
use crate::identity::Identity;
use crate::model::{
    ContactView, ContentView, EnvelopeView, MessageView, NotificationKindView, NotificationView,
    QueryView, ResponseView,
};
use crate::router::{fan_out, run, spec_bridged, CommandView, PushView, RouterView};
use crate::channels::Mailbox;
use crate::store::{friends_after_all, MutationView, ReplyView, RequestView};

verus! {

/// Giving a chat its topic twice is the same as giving it once: the chat
/// has exactly one topic, and no other chat gains or loses one.
pub proof fn law_ensure_topic_once(chats: Seq<Identity>, chat: Identity)
    requires
        chats.no_duplicates(),
    ensures
        ensured(ensured(chats, chat), chat) == ensured(chats, chat),
        ensured(chats, chat).no_duplicates(),
        ensured(chats, chat).contains(chat),
        ensured(chats, chat).filter(|c: Identity| c == chat).len() == 1,
        forall|other: Identity|
            other != chat ==> (ensured(chats, chat).contains(other) <==> chats.contains(other)),
{
    let after = ensured(chats, chat);
    if !chats.contains(chat) {
        assert(after[after.len() - 1] == chat);
        assert forall|other: Identity| chats.contains(other) implies after.contains(other) by {
            let i = choose|i: int| 0 <= i < chats.len() && chats[i] == other;
            assert(after[i] == other);
        }
    }
    lemma_one_occurrence(after, chat);
}

/// What occurs in a sequence without repeats occurs in it once.
proof fn lemma_one_occurrence(items: Seq<Identity>, item: Identity)
    requires
        items.no_duplicates(),
        items.contains(item),
    ensures
        items.filter(|c: Identity| c == item).len() == 1,
    decreases items.len(),
{
    reveal(Seq::filter);
    if items.len() > 0 {
        let rest = items.drop_last();
        if items.last() == item {
            lemma_no_occurrence(rest, item);
        } else {
            let i = choose|i: int| 0 <= i < items.len() && items[i] == item;
            assert(rest[i] == item);
            lemma_one_occurrence(rest, item);
        }
    }
}

/// What does not occur in a sequence is not found in it.
proof fn lemma_no_occurrence(items: Seq<Identity>, item: Identity)
    requires
        !items.contains(item),
    ensures
        items.filter(|c: Identity| c == item).len() == 0,
    decreases items.len(),
{
    reveal(Seq::filter);
    if items.len() > 0 {
        let rest = items.drop_last();
        lemma_no_occurrence(rest, item);
    }
}

/// Every command leaves a well-formed router well-formed: nobody comes
/// online under the unset identity, and whoever is subscribed is online,
/// and to a chat that has a topic.
pub proof fn law_step_keeps_wf(router: RouterView, command: CommandView)
    requires
        router.wf(),
    ensures
        router.step(command).wf(),
{
}

/// Every run of commands leaves a well-formed router well-formed.
pub proof fn law_run_keeps_wf(router: RouterView, commands: Seq<CommandView>)
    requires
        router.wf(),
    ensures
        run(router, commands).wf(),
    decreases commands.len(),
{
    if commands.len() > 0 {
        law_run_keeps_wf(router, commands.drop_last());
    }
}

/// Once a user has gone offline, the directory and the subscriptions hold
/// no trace of it, whatever was registered for it before, and however
/// often.
pub proof fn law_offline_leaves_no_trace(
    router: RouterView,
    commands: Seq<CommandView>,
    user: Identity,
)
    ensures
        ({
            let after = run(router, commands.push(CommandView::Offline(user)));
            &&& !after.directory.contains_key(user)
            &&& forall|chat: Identity| !after.subscriptions.contains((user, chat))
        }),
{
}

/// A user that registers and then goes offline leaves no trace: the case
/// of the law above in which the run is one registration.
pub proof fn law_register_then_offline(
    router: RouterView,
    user: Identity,
    chats: Seq<Identity>,
    mailbox: Mailbox,
)
    ensures
        ({
            let after = router.register_online(user, chats, mailbox).offline(user);
            &&& !after.directory.contains_key(user)
            &&& forall|chat: Identity| !after.subscriptions.contains((user, chat))
        }),
{
}

/// Announcing a chat a second time changes nothing: the chat keeps its one
/// topic, and nobody is subscribed twice.
pub proof fn law_new_chat_twice(router: RouterView, notification: NotificationView)
    requires
        notification.kind is NewChat,
    ensures
        router.route(notification).route(notification) == router.route(notification),
{
    let once = router.route(notification);
    let twice = once.route(notification);
    assert(twice.subscriptions =~= once.subscriptions);
    assert(twice.topics =~= once.topics);
}

/// Announcing a chat subscribes nobody but members of that chat, and those
/// to that chat only.
pub proof fn law_new_chat_subscribes_members(
    router: RouterView,
    notification: NotificationView,
    user: Identity,
    chat: Identity,
)
    requires
        router.route(notification).subscriptions.contains((user, chat)),
        !router.subscriptions.contains((user, chat)),
    ensures
        match notification.kind {
            NotificationKindView::NewChat(announced) => chat == announced.id
                && announced.members.contains(user) && router.directory.contains_key(user),
            _ => false,
        },
{
}

/// Every push of a fan-out goes to a recipient that the directory lists,
/// through the mailbox that the directory gives for it, and carries the
/// notification that was fanned out.
pub proof fn law_fan_out_reaches_the_listed(
    directory: Map<Identity, Mailbox>,
    recipients: Seq<Identity>,
    notification: NotificationView,
    i: int,
)
    requires
        0 <= i < fan_out(directory, recipients, notification).len(),
    ensures
        ({
            let push = fan_out(directory, recipients, notification)[i];
            &&& recipients.contains(push.to)
            &&& directory.contains_key(push.to)
            &&& push.mailbox == directory[push.to]
            &&& push.notification == notification
        }),
    decreases recipients.len(),
{
    if recipients.len() > 0 {
        let before = fan_out(directory, recipients.drop_last(), notification);
        if i < before.len() {
            law_fan_out_reaches_the_listed(directory, recipients.drop_last(), notification, i);
            let to = before[i].to;
            let k = choose|k: int|
                0 <= k < recipients.drop_last().len() && recipients.drop_last()[k] == to;
            assert(recipients[k] == to);
        }
    }
}

/// No command makes the router push to anybody who is not online, and so
/// never to the unset identity; and what is pushed goes through the
/// mailbox that the directory gives for the recipient.
pub proof fn law_pushes_reach_the_online(router: RouterView, command: CommandView, i: int)
    requires
        router.wf(),
        0 <= i < router.pushes(command).len(),
    ensures
        ({
            let push = router.pushes(command)[i];
            &&& push.to.is_valid()
            &&& router.directory.contains_key(push.to)
            &&& push.mailbox == router.directory[push.to]
        }),
{
    match command {
        CommandView::Route(notification) => {
            match notification.kind {
                NotificationKindView::NewChat(chat) => {
                    law_fan_out_reaches_the_listed(
                        router.directory,
                        chat.members,
                        NotificationView {
                            id: Identity::unset(),
                            kind: NotificationKindView::NewChat(chat),
                        },
                        i,
                    );
                },
                NotificationKindView::FriendRequest(_, to) => {
                    law_fan_out_reaches_the_listed(router.directory, seq![to], notification, i);
                },
                NotificationKindView::FriendAccepted(_, to) => {
                    law_fan_out_reaches_the_listed(router.directory, seq![to], notification, i);
                },
                _ => {},
            }
        },
        _ => {},
    }
}

/// A friend request, or its acceptance, reaches nobody but the user it is
/// addressed to, and that user once at most.
pub proof fn law_direct_push_reaches_the_addressee(
    router: RouterView,
    notification: NotificationView,
    i: int,
)
    requires
        notification.kind is FriendRequest || notification.kind is FriendAccepted,
        0 <= i < router.route_pushes(notification).len(),
    ensures
        router.route_pushes(notification).len() == 1,
        router.route_pushes(notification)[i].notification == notification,
        match notification.kind {
            NotificationKindView::FriendRequest(_, to) => router.route_pushes(notification)[i].to
                == to,
            NotificationKindView::FriendAccepted(_, to) => router.route_pushes(notification)[i].to
                == to,
            _ => false,
        },
{
    let to = match notification.kind {
        NotificationKindView::FriendRequest(_, to) => to,
        NotificationKindView::FriendAccepted(_, to) => to,
        _ => Identity::unset(),
    };
    assert(seq![to].drop_last() =~= Seq::<Identity>::empty());
    assert(fan_out(router.directory, Seq::<Identity>::empty(), notification).len() == 0);
}

/// Bridging pushes to nobody who is not online, never to the unset
/// identity, and hands a user nothing but new messages of chats that the
/// user is subscribed to.
pub proof fn law_bridging_reaches_subscribers(router: RouterView, push: PushView)
    requires
        router.wf(),
        router.bridges(push),
    ensures
        push.to.is_valid(),
        exists|chat: Identity, message: MessageView|
            router.subscriptions.contains((push.to, chat)) && #[trigger] spec_bridged(
                chat,
                NotificationView {
                    id: push.notification.id,
                    kind: NotificationKindView::NewMessage(chat, message),
                },
            ) == Some(push.notification),
{
    match push.notification.kind {
        NotificationKindView::NewMessage(chat, message) => {
            assert(spec_bridged(
                chat,
                NotificationView {
                    id: push.notification.id,
                    kind: NotificationKindView::NewMessage(chat, message),
                },
            ) == Some(push.notification));
        },
        _ => {},
    }
}

/// Before login, a query, a notification and a modification are each
/// answered with a failure under the request's own correlation identity.
/// The store is asked nothing, nothing is posted to the router, and
/// nothing stays pending, so nothing is asked later either.
pub proof fn law_unauthenticated_is_refused(actor: ActorView, envelope: EnvelopeView)
    requires
        !actor.identity.is_valid(),
        envelope.content is Query || envelope.content is Notification
            || envelope.content is Modification,
    ensures
        ({
            let (next, step) = actor.receive(envelope);
            &&& step.ask is None
            &&& step.effects == seq![
                EffectView::Send(
                    EnvelopeView::failure(
                        envelope.id,
                        match envelope.content {
                            ContentView::Query(_) => QUERY_REFUSED@,
                            ContentView::Notification(_) => NOTIFICATION_REFUSED@,
                            _ => MODIFICATION_REFUSED@,
                        },
                    ),
                ),
            ]
            &&& next == actor.idle()
            &&& next.resume(ReplyView::Applied).1 == StepView::nothing()
        }),
{
}

/// The messages of a chat are withheld from a caller that is not a member
/// of the chat: the query is answered with a failure.
pub proof fn law_messages_withheld_from_strangers(actor: ActorView, reply: ReplyView)
    requires
        actor.pending is AwaitingChatMessages,
        match reply {
            ReplyView::Chat(chat) => !chat.members.contains(actor.identity),
            _ => false,
        },
    ensures
        actor.resume(reply).1 == StepView::answer(
            EnvelopeView::failure(actor.pending->AwaitingChatMessages_0, NOT_A_MEMBER@),
        ),
        actor.resume(reply).0 == actor.idle(),
{
}

/// Refresh commands are commands, not envelopes.
proof fn lemma_refresh_posts_are_posts(friends: Seq<ContactView>, i: int)
    requires
        0 <= i < refresh_posts(friends).len(),
    ensures
        refresh_posts(friends)[i] is Post,
    decreases friends.len(),
{
    if friends.len() > 0 {
        if i < refresh_posts(friends.drop_last()).len() {
            lemma_refresh_posts_are_posts(friends.drop_last(), i);
        }
    }
}

/// Whether the envelope hands out the messages of a chat.
pub open spec fn carries_messages(envelope: EnvelopeView, messages: Seq<MessageView>) -> bool {
    envelope.content == ContentView::Response(
        ResponseView::Query(QueryView::ResultChatMessages(messages)),
    )
}

/// Whenever the actor sends the messages of a chat, it does so in answer
/// to the caller's query for them, the store has just handed it that
/// chat, and the caller is one of its members. No other event makes it
/// send a chat's messages.
pub proof fn law_messages_only_for_members(
    actor: ActorView,
    reply: ReplyView,
    messages: Seq<MessageView>,
    i: int,
)
    requires
        0 <= i < actor.resume(reply).1.effects.len(),
        match actor.resume(reply).1.effects[i] {
            EffectView::Send(envelope) => carries_messages(envelope, messages),
            _ => false,
        },
    ensures
        actor.pending is AwaitingChatMessages,
        match reply {
            ReplyView::Chat(chat) => chat.members.contains(actor.identity) && chat.messages
                == messages,
            _ => false,
        },
{
    match actor.pending {
        PendingView::Retagged(_) => {
            match reply {
                ReplyView::Profile(profile) => {
                    if 1 <= i < 1 + refresh_posts(profile.friends).len() {
                        lemma_refresh_posts_are_posts(profile.friends, i - 1);
                    }
                },
                _ => {},
            }
        },
        _ => {},
    }
}

/// A query does not hand out the messages of a chat by itself, nor does
/// any other envelope from the client, nor a notification from the
/// mailbox: only the store's reply can make the actor send them.
pub proof fn law_messages_need_the_store(
    actor: ActorView,
    envelope: EnvelopeView,
    notification: NotificationView,
    messages: Seq<MessageView>,
)
    ensures
        forall|i: int|
            0 <= i < actor.receive(envelope).1.effects.len() ==> !(
            #[trigger] actor.receive(envelope).1.effects[i] matches EffectView::Send(sent)
                && carries_messages(sent, messages)),
        forall|i: int|
            0 <= i < actor.relay(notification).1.effects.len() ==> !(
            #[trigger] actor.relay(notification).1.effects[i] matches EffectView::Send(sent)
                && carries_messages(sent, messages)),
{
}

/// A response is never answered.
pub proof fn law_response_gets_no_answer(actor: ActorView, envelope: EnvelopeView)
    requires
        envelope.content is Response,
    ensures
        actor.receive(envelope).1 == StepView::nothing(),
{
}

/// Before login the mailbox is relayed to nobody, and the refresh signal
/// itself is never put on the wire: in its place the profile is fetched.
pub proof fn law_refresh_signal_stays_inside(actor: ActorView, notification: NotificationView)
    ensures
        !actor.identity.is_valid() ==> actor.relay(notification).1 == StepView::nothing(),
        notification.kind is RefreshUser ==> actor.relay(notification).1.effects.len() == 0,
{
}

/// Counting the envelopes of two runs of effects adds up.
proof fn lemma_sends_add(left: Seq<EffectView>, right: Seq<EffectView>)
    ensures
        sends(left + right) == sends(left) + sends(right),
    decreases right.len(),
{
    if right.len() > 0 {
        assert((left + right).drop_last() =~= left + right.drop_last());
        lemma_sends_add(left, right.drop_last());
    }
}

/// Refresh commands send nothing.
proof fn lemma_refresh_posts_send_nothing(friends: Seq<ContactView>)
    ensures
        sends(refresh_posts(friends)) == 0,
    decreases friends.len(),
{
    if friends.len() > 0 {
        lemma_refresh_posts_send_nothing(friends.drop_last());
        assert(refresh_posts(friends).drop_last() =~= refresh_posts(friends.drop_last()));
    }
}

/// The envelopes of up to three effects, counted one by one.
proof fn lemma_sends_of_few(effects: Seq<EffectView>)
    requires
        effects.len() <= 3,
    ensures
        sends(effects) == (if effects.len() > 0 && effects[0] is Send {
            1nat
        } else {
            0nat
        }) + (if effects.len() > 1 && effects[1] is Send {
            1nat
        } else {
            0nat
        }) + (if effects.len() > 2 && effects[2] is Send {
            1nat
        } else {
            0nat
        }),
    decreases effects.len(),
{
    if effects.len() > 0 {
        lemma_sends_of_few(effects.drop_last());
    }
}

/// What holds of a step: it either puts a request to the store, has no
/// effects and leaves the actor waiting, or it puts none and leaves the
/// actor idle; and it sends one envelope at most.
pub open spec fn orderly(outcome: (ActorView, StepView)) -> bool {
    let (next, step) = outcome;
    &&& step.ask is Some <==> !(next.pending is Idle)
    &&& step.ask is Some ==> step.effects.len() == 0
    &&& sends(step.effects) <= 1
}

/// Every step is orderly, whatever the actor is handed. So the handling
/// of a request sends one envelope at most: the steps that ask the store
/// send nothing, and the step that asks nothing is the last.
pub proof fn law_steps_are_orderly(
    actor: ActorView,
    envelope: EnvelopeView,
    reply: ReplyView,
    notification: NotificationView,
)
    ensures
        orderly(actor.receive(envelope)),
        orderly(actor.resume(reply)),
        orderly(actor.relay(notification)),
{
    lemma_sends_of_few(actor.receive(envelope).1.effects);
    lemma_sends_of_few(actor.relay(notification).1.effects);
    match actor.pending {
        PendingView::Retagged(request) => {
            match reply {
                ReplyView::Profile(profile) => {
                    let head = seq![EffectView::Post(CommandView::RefreshUser(actor.identity))];
                    let tail = seq![EffectView::Send(EnvelopeView::success(request))];
                    lemma_sends_add(head, refresh_posts(profile.friends));
                    lemma_sends_add(head + refresh_posts(profile.friends), tail);
                    lemma_refresh_posts_send_nothing(profile.friends);
                    lemma_sends_of_few(head);
                    lemma_sends_of_few(tail);
                },
                _ => {
                    lemma_sends_of_few(actor.resume(reply).1.effects);
                },
            }
        },
        _ => {
            lemma_sends_of_few(actor.resume(reply).1.effects);
        },
    }
}

/// The actor takes on an identity only when the store answers a login or
/// a sign-up with a profile; nothing else changes who the connection is.
pub proof fn law_identity_comes_from_the_store(
    actor: ActorView,
    envelope: EnvelopeView,
    reply: ReplyView,
    notification: NotificationView,
)
    ensures
        actor.receive(envelope).0.identity == actor.identity,
        actor.relay(notification).0.identity == actor.identity,
        actor.resume(reply).0.identity != actor.identity ==> actor.pending is Authenticating && (
        reply matches ReplyView::Profile(profile) && actor.resume(reply).0.identity == profile.id),
{
}

/// Whether the envelope is one that a server sends: an answer, the
/// caller's profile, or a notification.
pub open spec fn outbound(envelope: EnvelopeView) -> bool {
    match envelope.content {
        ContentView::Response(_) => true,
        ContentView::Session(session) => session is Token,
        ContentView::Notification(_) => true,
        _ => false,
    }
}

/// The actor sends nothing but answers, profiles and notifications: never
/// a query, a modification or a login. An answer carries the correlation
/// identity of the request that is being served.
pub proof fn law_sends_are_outbound(
    actor: ActorView,
    envelope: EnvelopeView,
    reply: ReplyView,
    notification: NotificationView,
)
    ensures
        forall|i: int|
            0 <= i < actor.receive(envelope).1.effects.len() ==> (
            #[trigger] actor.receive(envelope).1.effects[i] matches EffectView::Send(sent)
                ==> outbound(sent) && sent.id == envelope.id),
        forall|i: int|
            0 <= i < actor.resume(reply).1.effects.len() ==> (
            #[trigger] actor.resume(reply).1.effects[i] matches EffectView::Send(sent) ==> outbound(
                sent,
            )),
        forall|i: int|
            0 <= i < actor.relay(notification).1.effects.len() ==> (
            #[trigger] actor.relay(notification).1.effects[i] matches EffectView::Send(sent)
                ==> outbound(sent) && sent.id == Identity::unset()),
{
    assert forall|i: int| 0 <= i < actor.resume(reply).1.effects.len() implies (
    #[trigger] actor.resume(reply).1.effects[i] matches EffectView::Send(sent) ==> outbound(
        sent,
    )) by {
        match actor.pending {
            PendingView::Retagged(_) => {
                match reply {
                    ReplyView::Profile(profile) => {
                        if 1 <= i < 1 + refresh_posts(profile.friends).len() {
                            lemma_refresh_posts_are_posts(profile.friends, i - 1);
                        }
                    },
                    _ => {},
                }
            },
            _ => {},
        }
    }
}

/// A friend request that the caller sends in its own name is recorded for
/// the addressee, whether the addressee is online or not; and while the
/// addressee is offline, routing the request pushes nothing.
pub proof fn law_friend_request_waits_in_the_store(
    actor: ActorView,
    router: RouterView,
    envelope: EnvelopeView,
)
    requires
        actor.identity.is_valid(),
        match envelope.content {
            ContentView::Notification(notification) => match notification.kind {
                NotificationKindView::FriendRequest(from, to) => from == actor.identity
                    && !router.directory.contains_key(to),
                _ => false,
            },
            _ => false,
        },
    ensures
        ({
            let notification = envelope.content->Notification_0;
            let to = notification.kind->FriendRequest_1;
            &&& actor.receive(envelope).1.ask == Some(
                RequestView::Apply(seq![MutationView::InsertUniqueNotification(to, notification)]),
            )
            &&& router.route_pushes(notification) == Seq::<PushView>::empty()
            &&& router.route(notification) == router
        }),
{
    let notification = envelope.content->Notification_0;
    let to = notification.kind->FriendRequest_1;
    assert(seq![to].drop_last() =~= Seq::<Identity>::empty());
    assert(fan_out(router.directory, Seq::<Identity>::empty(), notification).len() == 0);
}

/// The changes that the acceptance of a friend request calls for.
pub open spec fn acceptance(request: Identity, caller: Identity, friend: Identity) -> Seq<
    MutationView,
> {
    seq![
        MutationView::RemoveNotification(request),
        MutationView::InsertFriend(caller, friend),
        MutationView::InsertFriend(friend, caller),
    ]
}

/// Accepting a friend request makes each of the two users a friend of the
/// other and touches no other friendship; accepting it a second time
/// changes nothing. These are the changes that the actor asks for when the
/// caller accepts a request.
pub proof fn law_acceptance_is_symmetric_and_idempotent(
    actor: ActorView,
    envelope: EnvelopeView,
    friendships: Set<(Identity, Identity)>,
)
    requires
        actor.identity.is_valid(),
        match envelope.content {
            ContentView::Notification(notification) => match notification.kind {
                NotificationKindView::FriendAccepted(from, _) => from == actor.identity,
                _ => false,
            },
            _ => false,
        },
    ensures
        ({
            let notification = envelope.content->Notification_0;
            let friend = notification.kind->FriendAccepted_1;
            let batch = acceptance(notification.id, actor.identity, friend);
            let once = friends_after_all(friendships, batch);
            &&& actor.receive(envelope).1.ask == Some(RequestView::Apply(batch))
            &&& once == friendships.insert((actor.identity, friend)).insert(
                (friend, actor.identity),
            )
            &&& friends_after_all(once, batch) == once
        }),
{
    let notification = envelope.content->Notification_0;
    let friend = notification.kind->FriendAccepted_1;
    let batch = acceptance(notification.id, actor.identity, friend);
    lemma_acceptance(friendships, notification.id, actor.identity, friend);
    let once = friends_after_all(friendships, batch);
    lemma_acceptance(once, notification.id, actor.identity, friend);
}

/// What the changes of an acceptance do to the friendships.
proof fn lemma_acceptance(
    friendships: Set<(Identity, Identity)>,
    request: Identity,
    caller: Identity,
    friend: Identity,
)
    ensures
        friends_after_all(friendships, acceptance(request, caller, friend)) == friendships.insert(
            (caller, friend),
        ).insert((friend, caller)),
{
    let batch = acceptance(request, caller, friend);
    let two = batch.drop_last();
    let one = two.drop_last();
    let zero = one.drop_last();
    assert(friends_after_all(friendships, zero) == friendships);
    assert(friends_after_all(friendships, one) == friendships);
    assert(friends_after_all(friendships, two) == friendships.insert((caller, friend)));
}

} // verus!
