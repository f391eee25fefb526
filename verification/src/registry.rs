//! The peer session registry: the single most-recently-established peer,
//! kept as the implicit target of untargeted `Send` and `Request`
//! commands. Each newly established connection supersedes the previous
//! target; a disconnect of the tracked peer clears it, so commands never
//! go to a peer known to be gone.

use vstd::prelude::*;
use crate::peer::PeerIdentity;

verus! {

/// The relationship the registry tracks: which peer, and at which
/// connection (a running count of established connections) it became the
/// target.
#[derive(Clone, Debug)]
pub struct ConnectedPeer {
    pub peer: PeerIdentity,
    pub established_at: u64,
}

/// At most one tracked peer: the one whose connection was established
/// last.
#[derive(Clone, Debug)]
pub struct SessionRegistry {
    pub current: Option<ConnectedPeer>,
    pub connections_seen: u64,
}

impl SessionRegistry {
    /// An empty registry: no peer is connected yet, so untargeted commands
    /// have nowhere to go.
    pub fn new() -> (r: SessionRegistry)
        ensures
            r.current is None,
            r.connections_seen == 0,
    {
        SessionRegistry { current: None, connections_seen: 0 }
    }

    /// Records an established connection: `peer` becomes the target,
    /// superseding whichever peer was tracked before. The connection count
    /// advances (and pins at its ceiling rather than wrap, so this never
    /// fails).
    pub fn on_connected(&mut self, peer: PeerIdentity)
        ensures
            final(self).current matches Some(c) && c.peer == peer && c.established_at == old(
                self,
            ).connections_seen,
            final(self).connections_seen == if old(self).connections_seen < u64::MAX {
                old(self).connections_seen + 1
            } else {
                old(self).connections_seen as int
            },
    {
        let at: u64 = self.connections_seen;
        if self.connections_seen < u64::MAX {
            self.connections_seen = self.connections_seen + 1;
        }
        self.current = Some(ConnectedPeer { peer, established_at: at });
    }

    /// Records a closed connection: the target is cleared exactly when it
    /// is the peer that went away, so a stale peer is never kept as
    /// target; a disconnect of any other peer changes nothing.
    pub fn on_disconnected(&mut self, peer: &PeerIdentity)
        ensures
            final(self).connections_seen == old(self).connections_seen,
            match old(self).current {
                Some(c) => if c.peer@ == peer@ {
                    final(self).current is None
                } else {
                    final(self).current == old(self).current
                },
                None => final(self).current is None,
            },
    {
        let clear: bool = match &self.current {
            Some(c) => c.peer.same_as(peer),
            None => false,
        };
        if clear {
            self.current = None;
        }
    }

    /// The peer that untargeted commands currently go to, if any.
    pub fn current_target(&self) -> (r: Option<PeerIdentity>)
        ensures
            match self.current {
                None => r is None,
                Some(c) => r matches Some(p) && p@ == c.peer@,
            },
    {
        match &self.current {
            Some(c) => Some(c.peer.duplicate()),
            None => None,
        }
    }
}

} // verus!
