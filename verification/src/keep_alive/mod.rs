//! The keep-alive that a node sends every second.

use crate::network::topics::{PingMessage, SubTopics, TopicMessage, Topics};
use crate::node::Publication;
use vstd::prelude::*;

verus! {

/// Milliseconds between two keep-alives.
pub const KEEP_ALIVE_MILLIS: u64 = 1000;

/// The payload of a keep-alive of the node, sent at `timestamp`.
pub fn ping(principal_id: String, peer_id: String, timestamp: i64) -> (ping: PingMessage)
    ensures
        ping.principal_id == principal_id,
        ping.peer_id == peer_id,
        ping.timestamp == timestamp,
{
    PingMessage { principal_id, timestamp, peer_id }
}

/// The keep-alive to send out, given the encoded payload: a ping on the
/// topic of the keep-alives, from no peer in particular.
pub fn keep_alive(ping_bytes: Vec<u8>) -> (p: Publication)
    ensures
        p.peer_id is None,
        p.topic == Topics::KeepAlive,
        p.message.sub_topic == SubTopics::Ping,
        p.message.data == ping_bytes,
{
    Publication {
        peer_id: None,
        topic: Topics::KeepAlive,
        message: TopicMessage { sub_topic: SubTopics::Ping, data: ping_bytes },
    }
}

} // verus!
