use vstd::prelude::*;

use crate::sync_pool::SyncPool;
use crate::types::{BlockRequestEntry, BlockRequestMessage, PeerAddr};

verus! {

/// What the driver of a [`RequestDispatcher`] is asked to do next.
#[derive(Clone, Copy, Debug, PartialEq, Eq, Structural)]
pub enum DispatchStep {
    /// Send the message to the peer, then report the outcome with
    /// [`RequestDispatcher::on_send_result`].
    Send(PeerAddr, BlockRequestMessage),
    /// The proposal was refused because its height is in flight already.
    Skipped,
    /// A request went out to all its peers: wait briefly before the next one.
    Pause,
    /// Nothing more to do in this cycle.
    Done,
}

/// The message that asks for the single block at `height`.
pub open spec fn request_for(height: u64) -> BlockRequestMessage {
    BlockRequestMessage { start_height: height, end_height: (height + 1) as u64 }
}

/// Whether two request entries carry the same hashes and the same peers.
pub open spec fn same_entry(a: BlockRequestEntry, b: BlockRequestEntry) -> bool {
    &&& a.hash == b.hash
    &&& a.previous_hash == b.previous_hash
    &&& a.peers@ == b.peers@
}

/// A copy of a list of peers.
fn copy_peers(peers: &Vec<PeerAddr>) -> (r: Vec<PeerAddr>)
    ensures
        r@ == peers@,
{
    let mut r: Vec<PeerAddr> = Vec::new();
    let mut i: usize = 0;
    while i < peers.len()
        invariant
            0 <= i <= peers.len(),
            r@ == peers@.subrange(0, i as int),
        decreases peers.len() - i,
    {
        r.push(peers[i]);
        i = i + 1;
        proof {
            assert(r@ =~= peers@.subrange(0, i as int));
        }
    }
    proof {
        assert(r@ =~= peers@);
    }
    r
}

/// One cycle of block-request dispatch. Each proposal is registered in the
/// pool as in flight and then sent to its peers one at a time, in order. The
/// first failed send withdraws that height's request and ends the cycle.
pub struct RequestDispatcher {
    proposals: Vec<(u64, BlockRequestEntry)>,
    index: usize,
    peer: usize,
    awaiting: bool,
    finished: bool,
}

impl RequestDispatcher {
    /// The proposals of this cycle, in the order they are tried.
    pub closed spec fn proposals(&self) -> Seq<(u64, BlockRequestEntry)> {
        self.proposals@
    }

    /// The position of the proposal being worked on.
    pub closed spec fn index(&self) -> nat {
        self.index as nat
    }

    /// The position, among the current proposal's peers, of the peer whose
    /// send outcome is awaited.
    pub closed spec fn peer(&self) -> nat {
        self.peer as nat
    }

    /// Whether a send outcome is awaited.
    pub closed spec fn awaiting(&self) -> bool {
        self.awaiting
    }

    /// Whether the cycle has ended.
    pub closed spec fn finished(&self) -> bool {
        self.finished
    }

    /// The dispatcher's internal consistency.
    pub closed spec fn wf(&self) -> bool {
        &&& self.index <= self.proposals@.len()
        &&& forall|i: int|
            0 <= i < self.proposals@.len() ==> #[trigger] self.proposals@[i].0 < u64::MAX
        &&& self.awaiting ==> {
            &&& !self.finished
            &&& self.index < self.proposals@.len()
            &&& self.peer < self.proposals@[self.index as int].1.peers@.len()
        }
    }

    /// A dispatcher for the proposals of one cycle, in order.
    pub fn new(proposals: Vec<(u64, BlockRequestEntry)>) -> (r: RequestDispatcher)
        requires
            forall|i: int| 0 <= i < proposals@.len() ==> #[trigger] proposals@[i].0 < u64::MAX,
        ensures
            r.wf(),
            r.proposals() == proposals@,
            r.index() == 0,
            r.index() <= r.proposals().len(),
            !r.awaiting(),
            !r.finished(),
    {
        RequestDispatcher { proposals, index: 0, peer: 0, awaiting: false, finished: false }
    }

    /// Takes up the next proposal. Where its height is in flight already it is
    /// skipped; otherwise it is registered in the pool and the first send is
    /// asked for (or, without peers, a pause).
    pub fn next_step(&mut self, pool: &mut SyncPool) -> (r: DispatchStep)
        requires
            old(self).wf(),
            !old(self).awaiting(),
        ensures
            final(self).wf(),
            final(self).proposals() == old(self).proposals(),
            final(pool).responses() == old(pool).responses(),
            final(pool).canon() == old(pool).canon(),
            final(self).index() <= final(self).proposals().len(),
            next_step_effect(*old(self), *final(self), old(pool).requests(), final(pool).requests(), r),
    {
        if self.finished || self.index >= self.proposals.len() {
            self.finished = true;
            return DispatchStep::Done;
        }
        let height = self.proposals[self.index].0;
        let entry = BlockRequestEntry {
            hash: self.proposals[self.index].1.hash,
            previous_hash: self.proposals[self.index].1.previous_hash,
            peers: copy_peers(&self.proposals[self.index].1.peers),
        };
        assert(self.proposals@[self.index as int].0 < u64::MAX);
        match pool.insert_block_request(height, entry) {
            Err(_) => {
                self.index = self.index + 1;
                DispatchStep::Skipped
            },
            Ok(()) => {
                if self.proposals[self.index].1.peers.len() > 0 {
                    self.peer = 0;
                    self.awaiting = true;
                    DispatchStep::Send(
                        self.proposals[self.index].1.peers[0],
                        BlockRequestMessage { start_height: height, end_height: height + 1 },
                    )
                } else {
                    self.index = self.index + 1;
                    DispatchStep::Pause
                }
            },
        }
    }

    /// Takes the outcome of the awaited send. A failure withdraws the whole
    /// request for that height from the pool and ends the cycle: no further
    /// peer is asked. A success asks for the send to the next peer, or, after
    /// the last one, for a pause before the next proposal.
    pub fn on_send_result(&mut self, pool: &mut SyncPool, sent: bool) -> (r: DispatchStep)
        requires
            old(self).wf(),
            old(self).awaiting(),
        ensures
            final(self).wf(),
            final(self).proposals() == old(self).proposals(),
            final(pool).responses() == old(pool).responses(),
            final(pool).canon() == old(pool).canon(),
            final(self).index() <= final(self).proposals().len(),
            send_result_effect(*old(self), *final(self), old(pool).requests(), final(pool).requests(), sent, r),
    {
        let height = self.proposals[self.index].0;
        assert(self.proposals@[self.index as int].0 < u64::MAX);
        if !sent {
            pool.remove_block_request(height);
            self.awaiting = false;
            self.finished = true;
            return DispatchStep::Done;
        }
        let n_peers = self.proposals[self.index].1.peers.len();
        let n_proposals = self.proposals.len();
        assert(self.peer < n_peers && self.index < n_proposals);
        if self.peer + 1 < n_peers {
            self.peer = self.peer + 1;
            DispatchStep::Send(
                self.proposals[self.index].1.peers[self.peer],
                BlockRequestMessage { start_height: height, end_height: height + 1 },
            )
        } else {
            self.awaiting = false;
            self.index = self.index + 1;
            DispatchStep::Pause
        }
    }
}

/// What taking up the next proposal does, from dispatcher `d0` and requests
/// in flight `reqs0` to `d1` and `reqs1`, answering `r`. A finished or
/// exhausted dispatcher is done. Otherwise a height in flight already is
/// skipped; any other is registered, and the send to its first peer is asked
/// for (or, without peers, a pause).
pub open spec fn next_step_effect(
    d0: RequestDispatcher,
    d1: RequestDispatcher,
    reqs0: Map<u64, BlockRequestEntry>,
    reqs1: Map<u64, BlockRequestEntry>,
    r: DispatchStep,
) -> bool {
    if d0.finished() || d0.index() >= d0.proposals().len() {
        &&& r == DispatchStep::Done
        &&& d1.finished()
        &&& !d1.awaiting()
        &&& reqs1 == reqs0
    } else {
        let p = d0.proposals()[d0.index() as int];
        &&& !d1.finished()
        &&& if reqs0.contains_key(p.0) {
            &&& r == DispatchStep::Skipped
            &&& d1.index() == d0.index() + 1
            &&& !d1.awaiting()
            &&& reqs1 == reqs0
        } else {
            &&& reqs1 == reqs0.insert(p.0, reqs1[p.0])
            &&& same_entry(reqs1[p.0], p.1)
            &&& if p.1.peers@.len() > 0 {
                &&& r == DispatchStep::Send(p.1.peers@[0], request_for(p.0))
                &&& d1.index() == d0.index()
                &&& d1.peer() == 0
                &&& d1.awaiting()
            } else {
                &&& r == DispatchStep::Pause
                &&& d1.index() == d0.index() + 1
                &&& !d1.awaiting()
            }
        }
    }
}

/// What the outcome of the awaited send does. A failure withdraws the
/// request for that height and ends the cycle. A success asks for the send to
/// the next peer, or after the last one for a pause before the next proposal.
pub open spec fn send_result_effect(
    d0: RequestDispatcher,
    d1: RequestDispatcher,
    reqs0: Map<u64, BlockRequestEntry>,
    reqs1: Map<u64, BlockRequestEntry>,
    sent: bool,
    r: DispatchStep,
) -> bool {
    let p = d0.proposals()[d0.index() as int];
    if !sent {
        &&& r == DispatchStep::Done
        &&& d1.finished()
        &&& !d1.awaiting()
        &&& reqs1 == reqs0.remove(p.0)
    } else if d0.peer() + 1 < p.1.peers@.len() {
        &&& r == DispatchStep::Send(p.1.peers@[d0.peer() + 1 as int], request_for(p.0))
        &&& d1.index() == d0.index()
        &&& d1.peer() == d0.peer() + 1
        &&& d1.awaiting()
        &&& !d1.finished()
        &&& reqs1 == reqs0
    } else {
        &&& r == DispatchStep::Pause
        &&& d1.index() == d0.index() + 1
        &&& !d1.awaiting()
        &&& !d1.finished()
        &&& reqs1 == reqs0
    }
}

} // verus!
