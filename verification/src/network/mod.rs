//! The router between the gossip overlay and the state machines.
//!
//! State machines register a caller for each topic they take. What the
//! overlay delivers on a topic goes, as a notification, to the caller
//! registered for it; what a state machine hands to the router goes out on
//! the topic it names.

use self::topics::Topics;
use crate::message::{Caller, Message};
use vstd::prelude::*;

pub mod config;
pub mod topics;

verus! {

/// A message of the overlay: the peer it came from, if known, its topic
/// and its encoded body.
#[derive(Debug)]
pub struct NetworkMessage {
    pub peer_id: Option<String>,
    pub topic: Topics,
    pub message: Vec<u8>,
}

/// A state machine that takes part in the overlay.
pub trait NetworkModule {
    /// The topics that the state machine takes, each with the caller to deliver to.
    spec fn subscriptions(&self) -> Seq<(Topics, Caller)>;

    /// The caller that the state machine sends to the overlay through.
    spec fn network_caller(&self) -> Caller;

    /// Tells the state machine where to send what is to go out.
    fn set_message_caller(&mut self, caller: Caller)
        ensures
            final(self).network_caller() == caller,
            final(self).subscriptions() == old(self).subscriptions(),
    ;

    /// The topics that the state machine takes.
    fn get_message_subscribe(&self) -> (subscribe: Vec<(Topics, Caller)>)
        ensures
            subscribe@.len() == self.subscriptions().len(),
            forall|i: int|
                0 <= i < subscribe@.len() ==> (#[trigger] subscribe@[i]).0@
                    == self.subscriptions()[i].0@ && subscribe@[i].1 == self.subscriptions()[i].1,
    ;
}

/// The caller registered for a topic: the one registered last.
pub open spec fn caller_for(table: Seq<(Topics, Caller)>, topic: (int, Seq<char>)) -> Option<
    Caller,
>
    decreases table.len(),
{
    if table.len() == 0 {
        None
    } else if table.last().0@ == topic {
        Some(table.last().1)
    } else {
        caller_for(table.drop_last(), topic)
    }
}

/// What the router does with what the overlay delivered.
#[derive(Debug)]
pub enum Delivery {
    /// Notify the caller of the message.
    Notify(Caller, Message),
    /// No state machine takes the topic: drop the message.
    Dropped,
}

pub struct Network {
    conf: config::NetworkConfig,
    module_message_caller: Vec<(Topics, Caller)>,
    message_waiter: Caller,
}

impl Network {
    /// The registrations, in the order in which they were made.
    pub closed spec fn table(&self) -> Seq<(Topics, Caller)> {
        self.module_message_caller@
    }

    /// The caller of the router's own waiter.
    pub closed spec fn own_caller(&self) -> Caller {
        self.message_waiter
    }

    /// The settings that the router was made with.
    pub closed spec fn settings(&self) -> config::NetworkConfig {
        self.conf
    }

    /// A router without registrations, whose own waiter is reached through `waiter`.
    pub fn new(conf: config::NetworkConfig, waiter: Caller) -> (network: Network)
        ensures
            network.table() == Seq::<(Topics, Caller)>::empty(),
            network.own_caller() == waiter,
            network.settings() == conf,
    {
        Network { conf, module_message_caller: Vec::new(), message_waiter: waiter }
    }

    /// The settings that the router was made with.
    pub fn config(&self) -> (conf: &config::NetworkConfig)
        ensures
            *conf == self.settings(),
    {
        &self.conf
    }

    /// Registers the topics of a state machine, and tells it to send to
    /// the router's waiter what is to go out.
    pub fn add_module<T: NetworkModule>(&mut self, module: &mut T)
        ensures
            final(self).own_caller() == old(self).own_caller(),
            final(self).settings() == old(self).settings(),
            final(module).network_caller() == old(self).own_caller(),
            final(module).subscriptions() == old(module).subscriptions(),
            final(self).table().len() == old(self).table().len() + old(
                module,
            ).subscriptions().len(),
            forall|topic: (int, Seq<char>)|
                caller_for(final(self).table(), topic) == match caller_for(
                    old(module).subscriptions(),
                    topic,
                ) {
                    Some(caller) => Some(caller),
                    None => caller_for(old(self).table(), topic),
                },
    {
        let mut sub = module.get_message_subscribe();
        let ghost wanted = module.subscriptions();
        let ghost before = self.table();
        proof {
            lemma_same_callers(sub@, wanted);
            lemma_caller_for_concat(before, sub@);
        }
        self.module_message_caller.append(&mut sub);
        module.set_message_caller(self.message_waiter);
    }

    /// The caller that takes what arrives on the topic with the given name.
    pub fn route(&self, topic_name: String) -> (res: (Topics, Option<Caller>))
        ensures
            res.0@ == Topics::of_name(topic_name@),
            res.1 == caller_for(self.table(), Topics::of_name(topic_name@)),
    {
        let topic = Topics::from_name(topic_name);
        let mut i: usize = self.module_message_caller.len();
        assert(self.table().take(i as int) =~= self.table());
        while i > 0
            invariant
                i <= self.table().len(),
                topic@ == Topics::of_name(topic_name@),
                caller_for(self.table(), topic@) == caller_for(self.table().take(i as int), topic@),
            decreases i,
        {
            i -= 1;
            let ghost part = self.table().take(i + 1);
            assert(part.drop_last() =~= self.table().take(i as int));
            if self.module_message_caller[i].0.same(&topic) {
                let caller = self.module_message_caller[i].1;
                return (topic, Some(caller));
            }
        }
        (topic, None)
    }

    /// What to do with a message that the overlay delivered: notify the
    /// caller registered for its topic of it, once, or drop it where no
    /// caller is registered.
    pub fn deliver(&self, source: Option<String>, topic_name: String, data: Vec<u8>) -> (res:
        Delivery)
        ensures
            match caller_for(self.table(), Topics::of_name(topic_name@)) {
                Some(caller) => res matches Delivery::Notify(to, Message::NetworkMessage(m))
                    && to == caller && m.peer_id == source && m.topic@ == Topics::of_name(
                    topic_name@,
                ) && m.message == data,
                None => res is Dropped,
            },
    {
        let (topic, caller) = self.route(topic_name);
        match caller {
            Some(c) => Delivery::Notify(
                c,
                Message::NetworkMessage(NetworkMessage { peer_id: source, topic, message: data }),
            ),
            None => Delivery::Dropped,
        }
    }

    /// What to publish for a message taken from the router's own waiter:
    /// the body of a network message, on the name of its topic. Any other
    /// message is ignored.
    pub fn publish(msg: Message) -> (res: Option<(String, Vec<u8>)>)
        ensures
            match msg {
                Message::NetworkMessage(m) => res matches Some(out) && out.0@
                    == m.topic.wire_name() && out.1 == m.message,
                Message::LocalMessage(_) => res is None,
            },
    {
        match msg {
            Message::NetworkMessage(m) => Some((m.topic.into(), m.message)),
            Message::LocalMessage(_) => None,
        }
    }

    /// The names of the topics to join: the synchronisation topic, then
    /// the topic of every registration.
    pub fn topics_to_join(&self) -> (names: Vec<String>)
        ensures
            names@.len() == self.table().len() + 1,
            names@[0]@ == Topics::DataSync.wire_name(),
            forall|i: int|
                0 <= i < self.table().len() ==> (#[trigger] names@[i + 1])@
                    == self.table()[i].0.wire_name(),
    {
        let mut names: Vec<String> = Vec::new();
        names.push(topics::sync_topic().into());
        let mut i: usize = 0;
        while i < self.module_message_caller.len()
            invariant
                i <= self.table().len(),
                names@.len() == i + 1,
                names@[0]@ == Topics::DataSync.wire_name(),
                forall|j: int|
                    0 <= j < i ==> (#[trigger] names@[j + 1])@ == self.table()[j].0.wire_name(),
            decreases self.table().len() - i,
        {
            let topic = self.module_message_caller[i].0.duplicate();
            proof {
                lemma_same_wire_name(topic, self.table()[i as int].0);
            }
            names.push(topic.into());
            i += 1;
        }
        names
    }
}

/// A copy of a list of registrations.
pub fn copy_subscriptions(list: &Vec<(Topics, Caller)>) -> (copy: Vec<(Topics, Caller)>)
    ensures
        copy@.len() == list@.len(),
        forall|i: int|
            0 <= i < copy@.len() ==> (#[trigger] copy@[i]).0@ == list@[i].0@ && copy@[i].1
                == list@[i].1,
{
    let mut copy: Vec<(Topics, Caller)> = Vec::new();
    let mut i: usize = 0;
    while i < list.len()
        invariant
            i <= list@.len(),
            copy@.len() == i,
            forall|j: int|
                0 <= j < i ==> (#[trigger] copy@[j]).0@ == list@[j].0@ && copy@[j].1 == list@[j].1,
        decreases list@.len() - i,
    {
        copy.push((list[i].0.duplicate(), list[i].1));
        i += 1;
    }
    copy
}

/// What arrives on the name of a topic of the closed set goes to the
/// caller that is registered for that topic: a table that answers for the
/// topic answers the same for the topic read back from its name.
pub proof fn lemma_registered_topic_is_routed(table: Seq<(Topics, Caller)>, topic: Topics)
    requires
        !(topic is Unknown),
    ensures
        caller_for(table, Topics::of_name(topic.wire_name())) == caller_for(table, topic@),
{
    self::topics::lemma_topic_round_trip(topic);
}

/// Topics with the same value go over the wire by the same name.
pub proof fn lemma_same_wire_name(a: Topics, b: Topics)
    requires
        a@ == b@,
    ensures
        a.wire_name() == b.wire_name(),
{
}

/// Tables with the same topics and callers answer the same.
proof fn lemma_same_callers(a: Seq<(Topics, Caller)>, b: Seq<(Topics, Caller)>)
    requires
        a.len() == b.len(),
        forall|i: int| 0 <= i < a.len() ==> (#[trigger] a[i]).0@ == b[i].0@ && a[i].1 == b[i].1,
    ensures
        forall|topic: (int, Seq<char>)| caller_for(a, topic) == caller_for(b, topic),
    decreases a.len(),
{
    if a.len() > 0 {
        lemma_same_callers(a.drop_last(), b.drop_last());
        assert(a.last().0@ == b.last().0@);
        assert(a.last().1 == b.last().1);
    }
    assert forall|topic: (int, Seq<char>)| caller_for(a, topic) == caller_for(b, topic) by {
        if a.len() > 0 {
            assert(caller_for(a.drop_last(), topic) == caller_for(b.drop_last(), topic));
        }
    }
}

/// In a table that was extended, the registrations added last answer first.
proof fn lemma_caller_for_concat(a: Seq<(Topics, Caller)>, b: Seq<(Topics, Caller)>)
    ensures
        forall|topic: (int, Seq<char>)|
            caller_for(a + b, topic) == match caller_for(b, topic) {
                Some(caller) => Some(caller),
                None => caller_for(a, topic),
            },
    decreases b.len(),
{
    if b.len() == 0 {
        assert(a + b =~= a);
    } else {
        lemma_caller_for_concat(a, b.drop_last());
        assert((a + b).drop_last() =~= a + b.drop_last());
        assert((a + b).last() == b.last());
    }
    assert forall|topic: (int, Seq<char>)|
        caller_for(a + b, topic) == match caller_for(b, topic) {
            Some(caller) => Some(caller),
            None => caller_for(a, topic),
        } by {
        if b.len() > 0 {
            let front = b.drop_last();
            assert(caller_for(a + front, topic) == match caller_for(front, topic) {
                Some(caller) => Some(caller),
                None => caller_for(a, topic),
            });
        }
    }
}

} // verus!
