//! The bus of chat topics: one broadcast channel per chat.
//!
//! A topic carries live notifications only. It keeps a bounded history, so
//! a subscriber that falls too far behind loses the oldest events; the
//! store, not the bus, is where a missed message is found again.

use vstd::prelude::*;
use crate::channels::{topic_open, topic_send, topic_subscribe, Cursor, TopicSender};
use crate::identity::Identity;
use crate::model::Notification;

verus! {

/// How many events a topic is asked to keep for subscribers that lag.
pub const TOPIC_CAPACITY: usize = 50;

/// The topic of one chat.
pub struct Topic {
    chat: Identity,
    sender: TopicSender,
}

impl Topic {
    /// The chat this topic belongs to.
    pub closed spec fn chat(self) -> Identity {
        self.chat
    }
}

/// The chats with a topic after `chat` was given one unless it had one.
pub open spec fn ensured(chats: Seq<Identity>, chat: Identity) -> Seq<Identity> {
    if chats.contains(chat) {
        chats
    } else {
        chats.push(chat)
    }
}

/// The registry of topics, in the order in which they were created.
pub struct ChatBus {
    topics: Vec<Topic>,
}

impl ChatBus {
    /// The topics, oldest first.
    pub closed spec fn topics(&self) -> Seq<Topic> {
        self.topics@
    }

    /// The chats that have a topic, in the order in which the topics were
    /// created.
    pub open spec fn chats(&self) -> Seq<Identity> {
        self.topics().map_values(|topic: Topic| topic.chat())
    }

    /// Whether `chat` has a topic.
    pub open spec fn spec_has_topic(&self, chat: Identity) -> bool {
        self.chats().contains(chat)
    }

    /// No chat has two topics.
    pub open spec fn wf(&self) -> bool {
        self.chats().no_duplicates()
    }

    /// A bus without topics.
    pub fn new() -> (bus: ChatBus)
        ensures
            bus.wf(),
            bus.chats() == Seq::<Identity>::empty(),
    {
        let bus = ChatBus { topics: Vec::new() };
        bus
    }

    /// How many topics there are.
    pub fn topic_count(&self) -> (count: usize)
        ensures
            count == self.chats().len(),
    {
        self.topics.len()
    }

    /// Where the topic of `chat` stands, if it has one.
    fn position(&self, chat: Identity) -> (found: Option<usize>)
        ensures
            match found {
                Some(at) => at < self.chats().len() && self.chats()[at as int] == chat,
                None => !self.spec_has_topic(chat),
            },
    {
        let mut i: usize = 0;
        while i < self.topics.len()
            invariant
                i <= self.topics.len(),
                forall|k: int| 0 <= k < i ==> self.chats()[k] != chat,
            decreases self.topics.len() - i,
        {
            if self.topics[i].chat == chat {
                return Some(i);
            }
            i += 1;
        }
        None
    }

    /// Whether `chat` has a topic.
    #[verifier::when_used_as_spec(spec_has_topic)]
    pub fn has_topic(&self, chat: Identity) -> (found: bool)
        ensures
            found == self.spec_has_topic(chat),
    {
        self.position(chat).is_some()
    }

    /// Creates the topic of `chat` unless it exists. A second call for the
    /// same chat changes nothing: the topic, and with it every cursor into
    /// it, stays as it is.
    pub fn ensure_topic(&mut self, chat: Identity)
        requires
            old(self).wf(),
        ensures
            final(self).wf(),
            final(self).chats() == ensured(old(self).chats(), chat),
            final(self).spec_has_topic(chat),
            old(self).spec_has_topic(chat) ==> final(self).topics() == old(self).topics(),
            !old(self).spec_has_topic(chat) ==> final(self).topics().drop_last() == old(
                self,
            ).topics(),
    {
        if self.position(chat).is_none() {
            let topic = Topic { chat, sender: topic_open(TOPIC_CAPACITY) };
            self.topics.push(topic);
            proof {
                assert(self.chats() =~= old(self).chats().push(chat));
                assert(self.chats()[self.chats().len() - 1] == chat);
            }
        }
    }

    /// Publishes a notification on the topic of `chat`, which is created if
    /// it is missing. The send is best effort: an event that no subscriber
    /// is there to take is dropped, and `kept` tells whether tokio's channel
    /// kept this one.
    pub fn publish(&mut self, chat: Identity, notification: Notification) -> (kept: bool)
        requires
            old(self).wf(),
        ensures
            final(self).wf(),
            final(self).chats() == ensured(old(self).chats(), chat),
            final(self).spec_has_topic(chat),
            old(self).spec_has_topic(chat) ==> final(self).topics() == old(self).topics(),
            !old(self).spec_has_topic(chat) ==> final(self).topics().drop_last() == old(
                self,
            ).topics(),
    {
        self.ensure_topic(chat);
        match self.position(chat) {
            Some(at) => topic_send(&self.topics[at].sender, notification),
            None => false,
        }
    }

    /// A cursor into the topic of `chat` that starts at the topic's tail:
    /// it will see what is published from now on. There is none where the
    /// chat has no topic.
    pub fn subscribe(&self, chat: Identity) -> (cursor: Option<Cursor>)
        ensures
            cursor.is_some() == self.spec_has_topic(chat),
    {
        match self.position(chat) {
            Some(at) => Some(topic_subscribe(&self.topics[at].sender)),
            None => None,
        }
    }
}

} // verus!
