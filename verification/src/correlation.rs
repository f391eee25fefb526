//! The request correlation table: one entry per outstanding outbound
//! request, keyed by the identifier handed out when the request was sent.
//! An entry is created by `send`, and destroyed exactly once, by the
//! matching response (`resolve`) or by a stream error (`fail`); an
//! identifier is never reused while its entry is outstanding, because
//! identifiers only count upward. A response or error for an unknown
//! identifier removes nothing and is the caller's to log and drop.

use vstd::prelude::*;
use crate::peer::PeerIdentity;

verus! {

/// The bookkeeping for one outstanding outbound request: its identifier,
/// the peer it went to, and the path of the originating command.
#[derive(Clone, Debug)]
pub struct PendingRequest {
    pub request_id: u64,
    pub peer: PeerIdentity,
    pub file_path: String,
}

/// The table of outstanding requests, oldest first, plus the next
/// identifier to hand out.
#[derive(Clone, Debug)]
pub struct CorrelationTable {
    pub entries: Vec<PendingRequest>,
    pub next_id: u64,
}

impl CorrelationTable {
    /// Every outstanding identifier was handed out before `next_id`, and
    /// entries sit in the order they were created, so identifiers strictly
    /// increase along the table and no identifier occurs twice.
    pub open spec fn wf(&self) -> bool {
        &&& forall|i: int|
            0 <= i < self.entries@.len() ==> #[trigger] self.entries@[i].request_id
                < self.next_id
        &&& forall|i: int, j: int|
            0 <= i < j < self.entries@.len() ==> #[trigger] self.entries@[i].request_id
                < #[trigger] self.entries@[j].request_id
    }

    /// Whether an entry for `id` is outstanding.
    pub open spec fn has_id(&self, id: u64) -> bool {
        exists|i: int| 0 <= i < self.entries@.len() && #[trigger] self.entries@[i].request_id == id
    }

    /// What `send` leaves behind: the fresh identifier is the old
    /// `next_id`, the new entry sits at the end, and nothing else moved.
    pub open spec fn send_post(
        pre: CorrelationTable,
        post: CorrelationTable,
        peer: PeerIdentity,
        file_path: String,
        id: u64,
    ) -> bool {
        &&& id == pre.next_id
        &&& post.next_id == id + 1
        &&& post.entries@ == pre.entries@.push(
            PendingRequest { request_id: id, peer, file_path },
        )
    }

    /// What `resolve` and `fail` leave behind: if some entry carries `id`,
    /// that entry (there is at most one in a well-formed table) comes out
    /// and the rest close ranks; otherwise nothing changes and nothing
    /// comes out.
    pub open spec fn remove_post(
        pre: CorrelationTable,
        post: CorrelationTable,
        id: u64,
        r: Option<PendingRequest>,
    ) -> bool {
        &&& post.next_id == pre.next_id
        &&& if pre.has_id(id) {
            exists|i: int|
                0 <= i < pre.entries@.len() && #[trigger] pre.entries@[i].request_id == id && r
                    == Some(pre.entries@[i]) && post.entries@ == pre.entries@.remove(i)
        } else {
            r is None && post.entries@ == pre.entries@
        }
    }

    /// An empty table; identifiers start at zero.
    pub fn new() -> (r: CorrelationTable)
        ensures
            r.wf(),
            r.entries@.len() == 0,
            r.next_id == 0,
    {
        CorrelationTable { entries: Vec::new(), next_id: 0 }
    }

    /// Registers a new outstanding request and returns its identifier,
    /// fresh by construction: no outstanding entry carries it, and no
    /// future entry will while this one is outstanding.
    pub fn send(&mut self, peer: PeerIdentity, file_path: String) -> (id: u64)
        requires
            old(self).wf(),
            old(self).next_id < u64::MAX,
        ensures
            final(self).wf(),
            CorrelationTable::send_post(*old(self), *final(self), peer, file_path, id),
    {
        let id: u64 = self.next_id;
        self.next_id = self.next_id + 1;
        self.entries.push(
            PendingRequest { request_id: id, peer, file_path },
        );
        id
    }

    /// Removes and returns the entry a matching inbound response resolves,
    /// or returns nothing when the identifier is unknown (a duplicate or
    /// stray response: the table tolerates it and the caller logs it).
    pub fn resolve(&mut self, request_id: u64) -> (r: Option<PendingRequest>)
        requires
            old(self).wf(),
        ensures
            final(self).wf(),
            CorrelationTable::remove_post(*old(self), *final(self), request_id, r),
    {
        let ghost pre = *self;
        let mut i: usize = 0;
        while i < self.entries.len()
            invariant
                *self == pre,
                pre == *old(self),
                pre.wf(),
                i <= pre.entries@.len(),
                forall|k: int| 0 <= k < i ==> #[trigger] pre.entries@[k].request_id != request_id,
            decreases pre.entries@.len() - i,
        {
            if self.entries[i].request_id == request_id {
                let e = self.entries.remove(i);
                proof {
                    let pre_entries = pre.entries@;
                    assert(pre_entries[i as int].request_id == request_id);
                    assert(pre.has_id(request_id));
                    pre_entries.remove_ensures(i as int);
                }
                return Some(e);
            }
            i = i + 1;
        }
        None
    }

    /// Removes and reports the entry whose stream failed; the same removal
    /// as [`CorrelationTable::resolve`], reached on a stream error instead
    /// of a response, so a failed request is reported rather than silently
    /// dropped.
    pub fn fail(&mut self, request_id: u64) -> (r: Option<PendingRequest>)
        requires
            old(self).wf(),
        ensures
            final(self).wf(),
            CorrelationTable::remove_post(*old(self), *final(self), request_id, r),
    {
        self.resolve(request_id)
    }

    /// How many requests are outstanding.
    pub fn outstanding(&self) -> (n: usize)
        ensures
            n == self.entries@.len(),
    {
        self.entries.len()
    }
}

/// The identifier `send` is about to hand out is never one of an
/// outstanding entry: every outstanding identifier was handed out before
/// `next_id`, and identifiers only count upward.
pub proof fn lemma_fresh_id_never_outstanding(t: CorrelationTable)
    requires
        t.wf(),
    ensures
        !t.has_id(t.next_id),
{
}

/// Correlation uniqueness: two requests sent one after the other receive
/// distinct identifiers, and resolving the first removes exactly its own
/// entry — the second request's entry survives untouched at the end of the
/// table.
pub proof fn lemma_correlation_uniqueness(
    t0: CorrelationTable,
    t1: CorrelationTable,
    t2: CorrelationTable,
    t3: CorrelationTable,
    peer1: PeerIdentity,
    path1: String,
    peer2: PeerIdentity,
    path2: String,
    id1: u64,
    id2: u64,
    resolved: Option<PendingRequest>,
)
    requires
        t0.wf(),
        CorrelationTable::send_post(t0, t1, peer1, path1, id1),
        CorrelationTable::send_post(t1, t2, peer2, path2, id2),
        CorrelationTable::remove_post(t2, t3, id1, resolved),
    ensures
        id1 != id2,
        resolved == Some(PendingRequest { request_id: id1, peer: peer1, file_path: path1 }),
        t3.entries@ == t0.entries@.push(
            PendingRequest { request_id: id2, peer: peer2, file_path: path2 },
        ),
{
    let e1 = PendingRequest { request_id: id1, peer: peer1, file_path: path1 };
    let e2 = PendingRequest { request_id: id2, peer: peer2, file_path: path2 };
    let n = t0.entries@.len() as int;
    assert(t2.entries@ == t0.entries@.push(e1).push(e2));
    assert(t2.entries@[n] == e1);
    assert(t2.entries@[n].request_id == id1);
    assert(t2.has_id(id1));
    let i = choose|i: int|
        0 <= i < t2.entries@.len() && #[trigger] t2.entries@[i].request_id == id1 && resolved
            == Some(t2.entries@[i]) && t3.entries@ == t2.entries@.remove(i);
    assert forall|k: int| 0 <= k < n implies #[trigger] t2.entries@[k].request_id < id1 by {
        assert(t2.entries@[k] == t0.entries@[k]);
    };
    assert(t2.entries@[n + 1].request_id == id2);
    assert(i == n);
    assert(t3.entries@ =~= t0.entries@.push(e2));
}

} // verus!
