//! The queues between tasks: tokio's broadcast channel, one per chat topic,
//! and tokio's bounded queue, one per connection as its mailbox.
//!
//! Nothing in this file is proved. Each function here makes one call into
//! tokio, and its contract states what tokio's source shows of that call.
//! What a channel holds is shared between its handles, so no contract here
//! speaks of a channel's contents: a receive promises nothing of what it
//! returns.

use vstd::prelude::*;
use crate::model::Notification;

verus! {

/// `tokio::sync::broadcast::Sender`, declared as a type whose inside no contract looks into.
#[verifier::external_type_specification]
#[verifier::external_body]
#[verifier::reject_recursive_types(T)]
pub struct ExTopicSender<T>(tokio::sync::broadcast::Sender<T>);

/// `tokio::sync::broadcast::Receiver`, declared as a type whose inside no contract looks into.
#[verifier::external_type_specification]
#[verifier::external_body]
#[verifier::reject_recursive_types(T)]
pub struct ExTopicReceiver<T>(tokio::sync::broadcast::Receiver<T>);

/// `tokio::sync::mpsc::Sender`, declared as a type whose inside no contract looks into.
#[verifier::external_type_specification]
#[verifier::external_body]
#[verifier::reject_recursive_types(T)]
pub struct ExMailboxSender<T>(tokio::sync::mpsc::Sender<T>);

/// `tokio::sync::mpsc::Receiver`, declared as a type whose inside no contract looks into.
#[verifier::external_type_specification]
#[verifier::external_body]
#[verifier::reject_recursive_types(T)]
pub struct ExMailboxReceiver<T>(tokio::sync::mpsc::Receiver<T>);

/// The sending half of a chat topic.
pub type TopicSender = tokio::sync::broadcast::Sender<Notification>;

/// A subscriber's place in a chat topic.
pub type Cursor = tokio::sync::broadcast::Receiver<Notification>;

/// The handle through which the router fills a connection's mailbox.
pub type Mailbox = tokio::sync::mpsc::Sender<Notification>;

/// The end of a mailbox that its connection drains.
pub type MailboxReceiver = tokio::sync::mpsc::Receiver<Notification>;

/// `tokio::sync::broadcast::Sender::new`: the sending half of a new
/// broadcast channel with no receiver yet. tokio panics on a capacity of
/// zero or above `usize::MAX / 2`, so both are excluded.
#[verifier::external_body]
pub(crate) fn topic_open(capacity: usize) -> (sender: TopicSender)
    requires
        0 < capacity <= usize::MAX / 2,
{
    tokio::sync::broadcast::Sender::new(capacity)
}

/// `tokio::sync::broadcast::Sender::send`: hands the notification to the
/// channel. The result tells whether the channel had a receiver to keep it
/// for; without one tokio gives the value back and it is dropped here.
#[verifier::external_body]
pub(crate) fn topic_send(sender: &TopicSender, notification: Notification) -> (kept: bool) {
    sender.send(notification).is_ok()
}

/// `tokio::sync::broadcast::Sender::subscribe`: a new receiver that will see
/// what is sent after this call. tokio panics once a channel has more than
/// `usize::MAX / 4` receivers, more than a machine can hold.
#[verifier::external_body]
pub(crate) fn topic_subscribe(sender: &TopicSender) -> (cursor: Cursor) {
    sender.subscribe()
}

/// `tokio::sync::broadcast::Receiver::len`: how many values were sent that
/// this receiver has yet to receive, those already overwritten included.
#[verifier::external_body]
pub(crate) fn topic_backlog(cursor: &Cursor) -> (backlog: usize) {
    cursor.len()
}

/// `tokio::sync::broadcast::Receiver::try_recv`: the next value without
/// waiting, or nothing where the receiver is up to date, has fallen behind
/// the channel's buffer, or the channel is closed.
#[verifier::external_body]
pub(crate) fn topic_try_recv(cursor: &mut Cursor) -> (received: Option<Notification>) {
    cursor.try_recv().ok()
}

/// What `tokio::sync::mpsc::Sender::max_capacity` returns for a handle:
/// the bound that the handle's queue was made with. tokio keeps it with
/// the queue and never changes it.
pub uninterp spec fn mailbox_bound(handle: Mailbox) -> nat;

/// `tokio::sync::mpsc::channel`: a new bounded queue, as its sending and
/// its receiving half. The queue keeps the bound it is given as its
/// maximum capacity. tokio panics on a bound of zero or above
/// `usize::MAX / 8`, so both are excluded.
#[verifier::external_body]
pub(crate) fn mailbox_open(bound: usize) -> (halves: (Mailbox, MailboxReceiver))
    requires
        0 < bound <= usize::MAX / 8,
    ensures
        mailbox_bound(halves.0) == bound,
{
    tokio::sync::mpsc::channel(bound)
}

/// `Clone::clone` of `tokio::sync::mpsc::Sender`: another handle to the same
/// queue. The two handles cannot be told apart: what is sent through either
/// arrives at the one receiver, and tokio's `same_channel` holds of them.
#[verifier::external_body]
pub(crate) fn mailbox_share(handle: &Mailbox) -> (copy: Mailbox)
    ensures
        copy == *handle,
{
    handle.clone()
}

/// `tokio::sync::mpsc::Receiver::try_recv`: the next queued value without
/// waiting, or nothing where the queue is empty or closed.
#[verifier::external_body]
pub(crate) fn mailbox_try_recv(receiver: &mut MailboxReceiver) -> (received: Option<
    Notification,
>) {
    receiver.try_recv().ok()
}

} // verus!
