//! The publish/subscribe adapter: it owns the node's one topic, turns a
//! chat message into the substrate publish call for that topic, and turns
//! inbound topic notifications into user-facing lines. Publishing is
//! fire-and-forget: the substrate promises no more than best-effort
//! delivery to the currently subscribed peers, and the adapter never
//! retries.

use vstd::prelude::*;
use vstd::string::StrSliceExecFns;
use vstd::utf8::encode_utf8;
use crate::peer::{spec_short_id, PeerIdentity, Topic};
use crate::{Action, OutputLine};

verus! {

/// The one topic subscription this node holds, created at start and
/// immutable thereafter.
#[derive(Clone, Debug)]
pub struct PubSubAdapter {
    pub topic: Topic,
}

impl PubSubAdapter {
    /// An adapter for the given topic.
    pub fn new(topic: Topic) -> (r: PubSubAdapter)
        ensures
            r.topic == topic,
    {
        PubSubAdapter { topic }
    }

    /// The publish call a `Send` command becomes: the message's UTF-8
    /// bytes, on this adapter's topic.
    pub fn publish(&self, message: &String) -> (a: Action)
        ensures
            a matches Action::Publish { topic, data } && topic@ == self.topic@ && data@
                == encode_utf8(message@),
    {
        let data: Vec<u8> = message.as_str().as_bytes_vec();
        Action::Publish { topic: self.topic.duplicate(), data }
    }

    /// The line an inbound topic message becomes: the payload, attributed
    /// to the truncated display form of its sender. The truncation is
    /// cosmetic only; nothing compares identities by it.
    pub fn on_message(&self, source: &PeerIdentity, data: Vec<u8>) -> (line: OutputLine)
        ensures
            line matches OutputLine::ChatMessage { from, data: d } && from@ == spec_short_id(
                source@,
            ) && d@ == data@,
    {
        OutputLine::ChatMessage { from: source.short_id(), data }
    }

    /// The join notice a subscription notification becomes.
    pub fn on_subscribed(&self, peer: PeerIdentity, topic: Topic) -> (line: OutputLine)
        ensures
            line matches OutputLine::Subscribed { peer: p, topic: t } && p == peer && t == topic,
    {
        OutputLine::Subscribed { peer, topic }
    }
}

} // verus!
