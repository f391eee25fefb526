//! The node state machine: the command dispatcher and the event
//! translator over one owned context — session registry, correlation
//! table, pending-inbound queue and pub/sub adapter. Both entry points are
//! pure transitions: they take one command or one event, update the
//! context, and hand back at most one substrate action and an output
//! line; the surrounding application owns the loop that feeds them and
//! performs the actions. Nothing here blocks, retries or panics; every
//! refusal is a typed error rendered to the user.

use vstd::prelude::*;
use vstd::string::StringExecFns;
use vstd::utf8::encode_utf8;
use crate::codec::{FileRequest, FileResponse};
use crate::correlation::CorrelationTable;
use crate::peer::{spec_short_id, Multiaddress, PeerIdentity, Topic};
use crate::pubsub::PubSubAdapter;
use crate::registry::SessionRegistry;
use crate::{Action, Command, CommandError, Event, OutputLine};

verus! {

/// The placeholder file served while no real file store is wired in. The
/// response channel carries arbitrary bytes; only this stand-in content
/// is fixed.
pub open spec fn placeholder_file() -> Seq<u8> {
    seq![1u8, 2u8, 3u8, 4u8, 5u8]
}

/// One inbound file request waiting for an explicit accept: who asked,
/// what for, the reply channel the substrate holds open, and when (as a
/// running count of queued requests) it arrived.
#[derive(Clone, Debug)]
pub struct PendingInbound {
    pub peer: PeerIdentity,
    pub request: FileRequest,
    pub channel_id: u64,
    pub received_at: u64,
}

/// What dispatching one command produced: at most one line for the user
/// and at most one action for the substrate.
#[derive(Clone, Debug)]
pub struct CommandReply {
    pub output: Option<OutputLine>,
    pub action: Option<Action>,
}

/// The node context: this node's own identity, the last reported
/// listening address, and the session, correlation, inbound-queue and
/// pub/sub components, owned exclusively by the one loop that drives
/// them.
#[derive(Clone, Debug)]
pub struct Node {
    pub local_peer: PeerIdentity,
    pub listen_addr: Option<Multiaddress>,
    pub registry: SessionRegistry,
    pub correlation: CorrelationTable,
    pub pending_inbound: Vec<PendingInbound>,
    pub adapter: PubSubAdapter,
    pub auto_accept: bool,
    pub file_payload: Vec<u8>,
    pub inbound_seen: u64,
}

impl Node {
    /// The context is well formed when its correlation table is.
    pub open spec fn wf(&self) -> bool {
        self.correlation.wf()
    }

    /// The fields no transition changes: identity, adapter, served
    /// payload and accept policy.
    pub open spec fn same_core(pre: Node, post: Node) -> bool {
        &&& post.local_peer == pre.local_peer
        &&& post.adapter == pre.adapter
        &&& post.auto_accept == pre.auto_accept
        &&& post.file_payload == pre.file_payload
    }

    /// A fresh context for a node that knows its own identity and topic:
    /// no listening address yet, no connected peer, nothing outstanding,
    /// nothing queued. Inbound requests are served on arrival until
    /// [`Node::set_auto_accept`] turns the explicit accept gate on; the
    /// policy is this field, not a hidden default.
    pub fn new(local_peer: PeerIdentity, topic: Topic) -> (r: Node)
        ensures
            r.wf(),
            r.local_peer == local_peer,
            r.listen_addr is None,
            r.registry.current is None,
            r.registry.connections_seen == 0,
            r.correlation.entries@.len() == 0,
            r.correlation.next_id == 0,
            r.pending_inbound@.len() == 0,
            r.adapter.topic == topic,
            r.auto_accept == true,
            r.file_payload@ == placeholder_file(),
            r.inbound_seen == 0,
    {
        let mut payload: Vec<u8> = Vec::new();
        payload.push(1u8);
        payload.push(2u8);
        payload.push(3u8);
        payload.push(4u8);
        payload.push(5u8);
        proof {
            assert(payload@ =~= placeholder_file());
        }
        Node {
            local_peer,
            listen_addr: None,
            registry: SessionRegistry::new(),
            correlation: CorrelationTable::new(),
            pending_inbound: Vec::new(),
            adapter: PubSubAdapter::new(topic),
            auto_accept: true,
            file_payload: payload,
            inbound_seen: 0,
        }
    }

    /// Chooses the policy for inbound file requests: served on arrival,
    /// or queued until an explicit `Accept`.
    pub fn set_auto_accept(&mut self, on: bool)
        ensures
            final(self).auto_accept == on,
            final(self).local_peer == old(self).local_peer,
            final(self).listen_addr == old(self).listen_addr,
            final(self).registry == old(self).registry,
            final(self).correlation == old(self).correlation,
            final(self).pending_inbound == old(self).pending_inbound,
            final(self).adapter == old(self).adapter,
            final(self).file_payload == old(self).file_payload,
            final(self).inbound_seen == old(self).inbound_seen,
    {
        self.auto_accept = on;
    }

    /// Dispatches one command: a pure mapping from the command and the
    /// current context to at most one substrate action and one output
    /// line, or a typed refusal. In particular, `Request` with no
    /// established peer is refused with `NoPeerConnected` — it never
    /// panics and never blocks — and a granted `Request` registers a
    /// fresh pending entry under a never-reused identifier.
    pub fn handle_command(&mut self, command: Command) -> (r: Result<CommandReply, CommandError>)
        requires
            old(self).wf(),
            old(self).correlation.next_id < u64::MAX,
        ensures
            final(self).wf(),
            match command {
                Command::Connect { remote } => {
                    &&& *final(self) == *old(self)
                    &&& r matches Ok(rep)
                    &&& rep.output is None
                    &&& (rep.action matches Some(a) && a matches Action::Dial { address }
                        && address == remote)
                },
                Command::Info => match old(self).listen_addr {
                    Some(addr) => {
                        &&& *final(self) == *old(self)
                        &&& r matches Ok(rep)
                        &&& rep.action is None
                        &&& (rep.output matches Some(line) && line matches OutputLine::Info {
                            peer,
                            address,
                        } && peer@ == old(self).local_peer@ && address@ == addr@ + "/p2p/"@ + old(
                            self,
                        ).local_peer@)
                    },
                    None => {
                        &&& *final(self) == *old(self)
                        &&& (r matches Err(e) && e == CommandError::NoListenAddress)
                    },
                },
                Command::Send { message } => {
                    &&& *final(self) == *old(self)
                    &&& r matches Ok(rep)
                    &&& rep.output is None
                    &&& (rep.action matches Some(a) && a matches Action::Publish { topic, data }
                        && topic@ == old(self).adapter.topic@ && data@ == encode_utf8(message@))
                },
                Command::Request { file_path } => match old(self).registry.current {
                    Some(c) => {
                        &&& Node::same_core(*old(self), *final(self))
                        &&& final(self).listen_addr == old(self).listen_addr
                        &&& final(self).registry == old(self).registry
                        &&& final(self).pending_inbound == old(self).pending_inbound
                        &&& final(self).inbound_seen == old(self).inbound_seen
                        &&& final(self).correlation.next_id == old(self).correlation.next_id + 1
                        &&& final(self).correlation.entries@.len() == old(
                            self,
                        ).correlation.entries@.len() + 1
                        &&& final(self).correlation.entries@.drop_last() == old(
                            self,
                        ).correlation.entries@
                        &&& final(self).correlation.entries@.last().request_id == old(
                            self,
                        ).correlation.next_id
                        &&& final(self).correlation.entries@.last().peer@ == c.peer@
                        &&& final(self).correlation.entries@.last().file_path == file_path
                        &&& r matches Ok(rep)
                        &&& (rep.action matches Some(a) && a matches Action::SendRequest {
                            peer,
                            request_id,
                            request,
                        } && peer@ == c.peer@ && request_id == old(self).correlation.next_id
                            && request.0 == file_path)
                        &&& (rep.output matches Some(line) && line
                            matches OutputLine::RequestSent { request_id, peer } && request_id
                            == old(self).correlation.next_id && peer@ == c.peer@)
                    },
                    None => {
                        &&& *final(self) == *old(self)
                        &&& (r matches Err(e) && e == CommandError::NoPeerConnected)
                    },
                },
                Command::Accept => if old(self).pending_inbound@.len() > 0 {
                    &&& Node::same_core(*old(self), *final(self))
                    &&& final(self).listen_addr == old(self).listen_addr
                    &&& final(self).registry == old(self).registry
                    &&& final(self).correlation == old(self).correlation
                    &&& final(self).inbound_seen == old(self).inbound_seen
                    &&& final(self).pending_inbound@ == old(self).pending_inbound@.remove(0)
                    &&& r matches Ok(rep)
                    &&& (rep.action matches Some(a) && a matches Action::SendResponse {
                        channel_id,
                        response,
                    } && channel_id == old(self).pending_inbound@[0].channel_id && response.0@
                        == old(self).file_payload@)
                    &&& (rep.output matches Some(line) && line matches OutputLine::ServedFile {
                        file_path,
                        peer,
                        channel_id,
                    } && file_path == old(self).pending_inbound@[0].request.0 && peer@ == old(
                        self,
                    ).pending_inbound@[0].peer@ && channel_id == old(
                        self,
                    ).pending_inbound@[0].channel_id)
                } else {
                    &&& *final(self) == *old(self)
                    &&& (r matches Err(e) && e == CommandError::NoPendingInbound)
                },
            },
    {
        match command {
            Command::Connect { remote } => Ok(
                CommandReply { output: None, action: Some(Action::Dial { address: remote }) },
            ),
            Command::Info => match &self.listen_addr {
                Some(addr) => {
                    let mut address_text: String = addr.text.clone();
                    address_text.append("/p2p/");
                    address_text.append(self.local_peer.text.as_str());
                    proof {
                        assert(address_text@ =~= self.listen_addr->Some_0@ + "/p2p/"@
                            + self.local_peer@);
                    }
                    Ok(
                        CommandReply {
                            output: Some(
                                OutputLine::Info {
                                    peer: self.local_peer.duplicate(),
                                    address: Multiaddress::new(address_text),
                                },
                            ),
                            action: None,
                        },
                    )
                },
                None => Err(CommandError::NoListenAddress),
            },
            Command::Send { message } => Ok(
                CommandReply { output: None, action: Some(self.adapter.publish(&message)) },
            ),
            Command::Request { file_path } => match self.registry.current_target() {
                Some(peer) => {
                    let path_for_entry: String = file_path.clone();
                    let request_id: u64 = self.correlation.send(peer.duplicate(), path_for_entry);
                    Ok(
                        CommandReply {
                            output: Some(
                                OutputLine::RequestSent { request_id, peer: peer.duplicate() },
                            ),
                            action: Some(
                                Action::SendRequest {
                                    peer,
                                    request_id,
                                    request: FileRequest(file_path),
                                },
                            ),
                        },
                    )
                },
                None => Err(CommandError::NoPeerConnected),
            },
            Command::Accept => {
                if self.pending_inbound.len() == 0 {
                    Err(CommandError::NoPendingInbound)
                } else {
                    let entry = self.pending_inbound.remove(0);
                    let response = FileResponse(copy_bytes(&self.file_payload));
                    Ok(
                        CommandReply {
                            output: Some(
                                OutputLine::ServedFile {
                                    file_path: entry.request.0,
                                    peer: entry.peer,
                                    channel_id: entry.channel_id,
                                },
                            ),
                            action: Some(
                                Action::SendResponse { channel_id: entry.channel_id, response },
                            ),
                        },
                    )
                }
            },
        }
    }

    /// Translates one substrate or codec event: every event kind has its
    /// explicit arm — none is dropped silently — and each becomes one
    /// output line, plus a registry, correlation or queue update and at
    /// most one substrate action. A connection only becomes the target
    /// when its establishment is reported, a response or failure for an
    /// unknown identifier is reported and dropped, and an inbound request
    /// is served at once or queued, as the accept policy says.
    pub fn handle_event(&mut self, event: Event) -> (r: (OutputLine, Option<Action>))
        requires
            old(self).wf(),
        ensures
            final(self).wf(),
            match event {
                Event::NewListenAddr { address } => {
                    &&& Node::same_core(*old(self), *final(self))
                    &&& final(self).registry == old(self).registry
                    &&& final(self).correlation == old(self).correlation
                    &&& final(self).pending_inbound == old(self).pending_inbound
                    &&& final(self).inbound_seen == old(self).inbound_seen
                    &&& (final(self).listen_addr matches Some(a) && a@ == address@)
                    &&& (r.0 matches OutputLine::Listening { address: shown } && shown@
                        == address@)
                    &&& r.1 is None
                },
                Event::IncomingConnection { local_addr, send_back_addr } => {
                    &&& *final(self) == *old(self)
                    &&& (r.0 matches OutputLine::IncomingConnection {
                        local_addr: l,
                        send_back_addr: s,
                    } && l@ == local_addr@ && s@ == send_back_addr@)
                    &&& r.1 is None
                },
                Event::ConnectionEstablished { peer_id } => {
                    &&& Node::same_core(*old(self), *final(self))
                    &&& final(self).listen_addr == old(self).listen_addr
                    &&& final(self).correlation == old(self).correlation
                    &&& final(self).pending_inbound == old(self).pending_inbound
                    &&& final(self).inbound_seen == old(self).inbound_seen
                    &&& (final(self).registry.current matches Some(c) && c.peer@ == peer_id@
                        && c.established_at == old(self).registry.connections_seen)
                    &&& (r.0 matches OutputLine::Connected { peer } && peer@ == peer_id@)
                    &&& r.1 is None
                },
                Event::ConnectionClosed { peer_id } => {
                    &&& Node::same_core(*old(self), *final(self))
                    &&& final(self).listen_addr == old(self).listen_addr
                    &&& final(self).correlation == old(self).correlation
                    &&& final(self).pending_inbound == old(self).pending_inbound
                    &&& final(self).inbound_seen == old(self).inbound_seen
                    &&& final(self).registry.connections_seen == old(
                        self,
                    ).registry.connections_seen
                    &&& (match old(self).registry.current {
                        Some(c) => if c.peer@ == peer_id@ {
                            final(self).registry.current is None
                        } else {
                            final(self).registry.current == old(self).registry.current
                        },
                        None => final(self).registry.current is None,
                    })
                    &&& (r.0 matches OutputLine::Disconnected { peer } && peer@ == peer_id@)
                    &&& r.1 is None
                },
                Event::InboundRequest { peer, request, channel_id } => if old(self).auto_accept {
                    &&& *final(self) == *old(self)
                    &&& (r.0 matches OutputLine::ServedFile {
                        file_path,
                        peer: shown,
                        channel_id: ch,
                    } && file_path == request.0 && shown@ == peer@ && ch == channel_id)
                    &&& (r.1 matches Some(a) && a matches Action::SendResponse {
                        channel_id: ch,
                        response,
                    } && ch == channel_id && response.0@ == old(self).file_payload@)
                } else {
                    &&& Node::same_core(*old(self), *final(self))
                    &&& final(self).listen_addr == old(self).listen_addr
                    &&& final(self).registry == old(self).registry
                    &&& final(self).correlation == old(self).correlation
                    &&& final(self).pending_inbound@.len() == old(self).pending_inbound@.len() + 1
                    &&& final(self).pending_inbound@.drop_last() == old(self).pending_inbound@
                    &&& final(self).pending_inbound@.last().peer@ == peer@
                    &&& final(self).pending_inbound@.last().request == request
                    &&& final(self).pending_inbound@.last().channel_id == channel_id
                    &&& final(self).pending_inbound@.last().received_at == old(self).inbound_seen
                    &&& final(self).inbound_seen == if old(self).inbound_seen < u64::MAX {
                        old(self).inbound_seen + 1
                    } else {
                        old(self).inbound_seen as int
                    }
                    &&& (r.0 matches OutputLine::RequestQueued { peer: shown, file_path } && shown@
                        == peer@ && file_path == request.0)
                    &&& r.1 is None
                },
                Event::InboundResponse { peer, request_id, response } => {
                    &&& Node::same_core(*old(self), *final(self))
                    &&& final(self).listen_addr == old(self).listen_addr
                    &&& final(self).registry == old(self).registry
                    &&& final(self).pending_inbound == old(self).pending_inbound
                    &&& final(self).inbound_seen == old(self).inbound_seen
                    &&& final(self).correlation.next_id == old(self).correlation.next_id
                    &&& if old(self).correlation.has_id(request_id) {
                        &&& exists|i: int|
                            0 <= i < old(self).correlation.entries@.len()
                                && #[trigger] old(self).correlation.entries@[i].request_id
                                == request_id && final(self).correlation.entries@ == old(
                                self,
                            ).correlation.entries@.remove(i)
                        &&& (r.0 matches OutputLine::ReceivedFile { data, peer: shown } && data@
                            == response.0@ && shown@ == peer@)
                    } else {
                        &&& final(self).correlation.entries@ == old(self).correlation.entries@
                        &&& (r.0 matches OutputLine::UnknownRequestId { request_id: shown }
                            && shown == request_id)
                    }
                    &&& r.1 is None
                },
                Event::OutboundFailure { peer, request_id } => {
                    &&& Node::same_core(*old(self), *final(self))
                    &&& final(self).listen_addr == old(self).listen_addr
                    &&& final(self).registry == old(self).registry
                    &&& final(self).pending_inbound == old(self).pending_inbound
                    &&& final(self).inbound_seen == old(self).inbound_seen
                    &&& final(self).correlation.next_id == old(self).correlation.next_id
                    &&& if old(self).correlation.has_id(request_id) {
                        exists|i: int|
                            0 <= i < old(self).correlation.entries@.len()
                                && #[trigger] old(self).correlation.entries@[i].request_id
                                == request_id && final(self).correlation.entries@ == old(
                                self,
                            ).correlation.entries@.remove(i) && (r.0
                                matches OutputLine::RequestFailed {
                                request_id: shown,
                                peer: p,
                                file_path,
                            } && shown == request_id && p@ == peer@ && file_path == old(
                                self,
                            ).correlation.entries@[i].file_path)
                    } else {
                        &&& final(self).correlation.entries@ == old(self).correlation.entries@
                        &&& (r.0 matches OutputLine::UnknownRequestId { request_id: shown }
                            && shown == request_id)
                    }
                    &&& r.1 is None
                },
                Event::PubSubMessage { source, data } => {
                    &&& *final(self) == *old(self)
                    &&& (r.0 matches OutputLine::ChatMessage { from, data: d } && from@
                        == spec_short_id(source@) && d@ == data@)
                    &&& r.1 is None
                },
                Event::PubSubSubscribed { peer, topic } => {
                    &&& *final(self) == *old(self)
                    &&& (r.0 matches OutputLine::Subscribed { peer: p, topic: t } && p == peer
                        && t == topic)
                    &&& r.1 is None
                },
            },
    {
        match event {
            Event::NewListenAddr { address } => {
                let shown = address.duplicate();
                self.listen_addr = Some(address);
                (OutputLine::Listening { address: shown }, None)
            },
            Event::IncomingConnection { local_addr, send_back_addr } => (
                OutputLine::IncomingConnection { local_addr, send_back_addr },
                None,
            ),
            Event::ConnectionEstablished { peer_id } => {
                let shown = peer_id.duplicate();
                self.registry.on_connected(peer_id);
                (OutputLine::Connected { peer: shown }, None)
            },
            Event::ConnectionClosed { peer_id } => {
                self.registry.on_disconnected(&peer_id);
                (OutputLine::Disconnected { peer: peer_id }, None)
            },
            Event::InboundRequest { peer, request, channel_id } => {
                if self.auto_accept {
                    let response = FileResponse(copy_bytes(&self.file_payload));
                    (
                        OutputLine::ServedFile { file_path: request.0, peer, channel_id },
                        Some(Action::SendResponse { channel_id, response }),
                    )
                } else {
                    let shown_peer = peer.duplicate();
                    let shown_path: String = request.0.clone();
                    let received_at: u64 = self.inbound_seen;
                    if self.inbound_seen < u64::MAX {
                        self.inbound_seen = self.inbound_seen + 1;
                    }
                    self.pending_inbound.push(
                        PendingInbound { peer, request, channel_id, received_at },
                    );
                    (
                        OutputLine::RequestQueued { peer: shown_peer, file_path: shown_path },
                        None,
                    )
                }
            },
            Event::InboundResponse { peer, request_id, response } => {
                match self.correlation.resolve(request_id) {
                    Some(_entry) => (
                        OutputLine::ReceivedFile { data: response.0, peer },
                        None,
                    ),
                    None => (OutputLine::UnknownRequestId { request_id }, None),
                }
            },
            Event::OutboundFailure { peer, request_id } => {
                match self.correlation.fail(request_id) {
                    Some(entry) => (
                        OutputLine::RequestFailed {
                            request_id,
                            peer,
                            file_path: entry.file_path,
                        },
                        None,
                    ),
                    None => (OutputLine::UnknownRequestId { request_id }, None),
                }
            },
            Event::PubSubMessage { source, data } => (
                self.adapter.on_message(&source, data),
                None,
            ),
            Event::PubSubSubscribed { peer, topic } => (
                self.adapter.on_subscribed(peer, topic),
                None,
            ),
        }
    }
}

/// A verified byte-for-byte copy.
fn copy_bytes(src: &Vec<u8>) -> (r: Vec<u8>)
    ensures
        r@ == src@,
{
    let mut r: Vec<u8> = Vec::with_capacity(src.len());
    let mut i: usize = 0;
    while i < src.len()
        invariant
            i <= src@.len(),
            r@ == src@.subrange(0, i as int),
        decreases src@.len() - i,
    {
        r.push(src[i]);
        proof {
            assert(r@ =~= src@.subrange(0, i + 1 as int));
        }
        i = i + 1;
    }
    proof {
        assert(r@ =~= src@);
    }
    r
}

} // verus!
