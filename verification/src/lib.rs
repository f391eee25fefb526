//! A peer-to-peer file-exchange node core: a length-prefixed framing codec
//! with hard size ceilings, a pending-request correlation table, a
//! single-target peer session registry, a publish/subscribe adapter, and a
//! command dispatcher / event translator state machine. The transport
//! substrate (dialing, streams, gossip fan-out) is an external collaborator
//! driven by the surrounding application.

use vstd::prelude::*;

pub mod cli;
pub mod codec;
pub mod correlation;
pub mod node;
pub mod peer;
pub mod pubsub;
pub mod registry;

use crate::codec::{FileRequest, FileResponse};
use crate::peer::{Multiaddress, PeerIdentity, Topic};

verus! {

/// One typed command from the user, consumed exactly once by the
/// dispatcher. An external line parser produces these; `cli` holds the
/// library's own.
#[derive(Clone, Debug)]
pub enum Command {
    /// Dial a remote address.
    Connect { remote: Multiaddress },
    /// Show this node's identity and a ready-to-paste connect hint.
    Info,
    /// Publish a chat message on the node's topic.
    Send { message: String },
    /// Ask the current target peer for a file.
    Request { file_path: String },
    /// Serve the oldest queued inbound file request.
    Accept,
}

/// One notification from the transport substrate or the codec, translated
/// by the node into an output line and at most one action. The set is
/// closed and matched exhaustively: no event is dropped silently.
#[derive(Clone, Debug)]
pub enum Event {
    /// The substrate bound a local listening address.
    NewListenAddr { address: Multiaddress },
    /// A remote endpoint reached the listener; no handshake yet.
    IncomingConnection { local_addr: Multiaddress, send_back_addr: Multiaddress },
    /// A connection to `peer_id` finished establishing.
    ConnectionEstablished { peer_id: PeerIdentity },
    /// The connection to `peer_id` went away.
    ConnectionClosed { peer_id: PeerIdentity },
    /// A peer opened a stream and sent a file request; `channel_id` names
    /// the reply channel the substrate is holding open.
    InboundRequest { peer: PeerIdentity, request: FileRequest, channel_id: u64 },
    /// The response to the outbound request `request_id` arrived.
    InboundResponse { peer: PeerIdentity, request_id: u64, response: FileResponse },
    /// The stream of the outbound request `request_id` failed.
    OutboundFailure { peer: PeerIdentity, request_id: u64 },
    /// A message arrived on the subscribed topic.
    PubSubMessage { source: PeerIdentity, data: Vec<u8> },
    /// A peer subscribed to the topic alongside this node.
    PubSubSubscribed { peer: PeerIdentity, topic: Topic },
}

/// One operation the node asks the transport substrate to perform. The
/// surrounding application executes it and feeds the outcome back in as
/// events.
#[derive(Clone, Debug)]
pub enum Action {
    /// Dial the address.
    Dial { address: Multiaddress },
    /// Publish the payload on the topic.
    Publish { topic: Topic, data: Vec<u8> },
    /// Open a fresh outbound stream to `peer` and write the framed
    /// request on it, correlated as `request_id`.
    SendRequest { peer: PeerIdentity, request_id: u64, request: FileRequest },
    /// Write the framed response on the reply channel `channel_id`.
    SendResponse { channel_id: u64, response: FileResponse },
}

/// Why a command was refused. Each is returned synchronously by the
/// dispatcher and rendered to the user; none ends the node.
#[derive(Clone, Copy, Debug, PartialEq, Eq, Structural)]
pub enum CommandError {
    /// `Request` or `Send` to the implicit target, but no connection has
    /// been established yet.
    NoPeerConnected,
    /// `Info` before the substrate reported a listening address.
    NoListenAddress,
    /// `Accept` with no inbound request waiting.
    NoPendingInbound,
}

/// One human-readable line for the user, as structured data. The
/// surrounding application renders it; nothing here is retained.
#[derive(Clone, Debug)]
pub enum OutputLine {
    /// The node is reachable on this address.
    Listening { address: Multiaddress },
    /// A remote endpoint reached the listener.
    IncomingConnection { local_addr: Multiaddress, send_back_addr: Multiaddress },
    /// A connection is established; this peer is now the target.
    Connected { peer: PeerIdentity },
    /// The connection to this peer went away.
    Disconnected { peer: PeerIdentity },
    /// This node's identity and the full address (listening address plus
    /// identity suffix) another peer can paste into a connect command.
    Info { peer: PeerIdentity, address: Multiaddress },
    /// An outbound request left, correlated as `request_id`.
    RequestSent { request_id: u64, peer: PeerIdentity },
    /// An inbound request waits for an explicit accept.
    RequestQueued { peer: PeerIdentity, file_path: String },
    /// The file response for an inbound request went out.
    ServedFile { file_path: String, peer: PeerIdentity, channel_id: u64 },
    /// The response to one of this node's requests arrived.
    ReceivedFile { data: Vec<u8>, peer: PeerIdentity },
    /// An outbound request failed on its stream.
    RequestFailed { request_id: u64, peer: PeerIdentity, file_path: String },
    /// A response or failure named an identifier with no outstanding
    /// entry; it is reported and otherwise dropped.
    UnknownRequestId { request_id: u64 },
    /// A chat message, attributed to the truncated display form of its
    /// sender.
    ChatMessage { from: String, data: Vec<u8> },
    /// A peer joined the topic.
    Subscribed { peer: PeerIdentity, topic: Topic },
}

} // verus!
