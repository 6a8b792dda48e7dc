use std::collections::BTreeMap;
use vstd::prelude::*;

use crate::types::{Block, BlockHash, BlockRequestEntry};

verus! {

/// A request for this height is already in flight.
#[derive(Clone, Copy, Debug, PartialEq, Eq, Structural)]
pub struct AlreadyInFlight {
    pub height: u64,
}

/// A response arrived for a height that has no request in flight, or that
/// already holds a response.
#[derive(Clone, Copy, Debug, PartialEq, Eq, Structural)]
pub struct UnrequestedResponse {
    pub height: u64,
}

/// A height is already bound to a different canonical hash.
#[derive(Clone, Copy, Debug, PartialEq, Eq, Structural)]
pub struct LocatorConflict {
    pub height: u64,
    pub known: BlockHash,
    pub offered: BlockHash,
}

/// The result of adding one canonical locator to a map of locators: the
/// conflict where the height is already bound to another hash.
pub open spec fn add_locator(m: Map<u64, BlockHash>, height: u64, hash: BlockHash) -> Result<
    Map<u64, BlockHash>,
    LocatorConflict,
> {
    if m.contains_key(height) && m[height] != hash {
        Err(LocatorConflict { height, known: m[height], offered: hash })
    } else {
        Ok(m.insert(height, hash))
    }
}

/// The result of adding a batch of locators in order: the first conflict
/// with what is known at that point, if there is one.
pub open spec fn add_locators(m: Map<u64, BlockHash>, batch: Seq<(u64, BlockHash)>) -> Result<
    Map<u64, BlockHash>,
    LocatorConflict,
>
    decreases batch.len(),
{
    if batch.len() == 0 {
        Ok(m)
    } else {
        match add_locator(m, batch[0].0, batch[0].1) {
            Ok(next) => add_locators(next, batch.drop_first()),
            Err(e) => Err(e),
        }
    }
}

/// An operation on the requests and responses of a pool.
pub enum PoolEvent {
    /// Register a request for a height.
    Request(u64, BlockRequestEntry),
    /// Withdraw the request for a height.
    Withdraw(u64),
    /// Deliver a response for a height.
    Respond(u64, Block),
    /// Consume the response for a height.
    Consume(u64),
}

/// The requests and responses after one operation.
pub open spec fn pool_step(
    reqs: Map<u64, BlockRequestEntry>,
    resps: Map<u64, Block>,
    ev: PoolEvent,
) -> (Map<u64, BlockRequestEntry>, Map<u64, Block>) {
    match ev {
        PoolEvent::Request(h, e) => if reqs.contains_key(h) {
            (reqs, resps)
        } else {
            (reqs.insert(h, e), resps)
        },
        PoolEvent::Withdraw(h) => (reqs.remove(h), resps),
        PoolEvent::Respond(h, b) => if reqs.contains_key(h) && !resps.contains_key(h) {
            (reqs, resps.insert(h, b))
        } else {
            (reqs, resps)
        },
        PoolEvent::Consume(h) => if resps.contains_key(h) {
            (reqs.remove(h), resps.remove(h))
        } else {
            (reqs, resps)
        },
    }
}

/// The requests and responses after a sequence of operations.
pub open spec fn pool_run(
    reqs: Map<u64, BlockRequestEntry>,
    resps: Map<u64, Block>,
    evs: Seq<PoolEvent>,
) -> (Map<u64, BlockRequestEntry>, Map<u64, Block>)
    decreases evs.len(),
{
    if evs.len() == 0 {
        (reqs, resps)
    } else {
        let next = pool_step(reqs, resps, evs[0]);
        pool_run(next.0, next.1, evs.drop_first())
    }
}

/// Whether an operation ends the request for `h`.
pub open spec fn ends_request(ev: PoolEvent, h: u64) -> bool {
    match ev {
        PoolEvent::Withdraw(k) => k == h,
        PoolEvent::Consume(k) => k == h,
        _ => false,
    }
}

/// Once a request for `h` is in flight, it stays in flight through any run of
/// operations that neither withdraws it nor consumes the response for `h`, and
/// every further registration for `h` in that time is refused.
pub proof fn lemma_at_most_one_in_flight(
    reqs: Map<u64, BlockRequestEntry>,
    resps: Map<u64, Block>,
    h: u64,
    evs: Seq<PoolEvent>,
    e: BlockRequestEntry,
)
    requires
        reqs.contains_key(h),
        forall|i: int| 0 <= i < evs.len() ==> !ends_request(#[trigger] evs[i], h),
    ensures
        pool_run(reqs, resps, evs).0.contains_key(h),
        pool_run(reqs, resps, evs).0[h] == reqs[h],
        pool_step(pool_run(reqs, resps, evs).0, pool_run(reqs, resps, evs).1, PoolEvent::Request(h, e))
            == pool_run(reqs, resps, evs),
    decreases evs.len(),
{
    if evs.len() > 0 {
        let next = pool_step(reqs, resps, evs[0]);
        assert(!ends_request(evs[0], h));
        assert forall|i: int| 0 <= i < evs.drop_first().len() implies !ends_request(
            #[trigger] evs.drop_first()[i],
            h,
        ) by {
            assert(evs.drop_first()[i] == evs[i + 1]);
        }
        lemma_at_most_one_in_flight(next.0, next.1, h, evs.drop_first(), e);
    }
}

/// The bookkeeping of block synchronization: the requests in flight, the
/// responses that arrived for them, and the canonical height-to-hash locators.
///
/// At most one request is in flight per height, and a locator, once set, is
/// never changed.
pub struct SyncPool {
    requests: BTreeMap<u64, BlockRequestEntry>,
    responses: BTreeMap<u64, Block>,
    canon: BTreeMap<u64, BlockHash>,
}

impl SyncPool {
    /// The requests in flight, by height.
    pub closed spec fn requests(&self) -> Map<u64, BlockRequestEntry> {
        self.requests@
    }

    /// The responses waiting to be consumed, by the height they answer.
    pub closed spec fn responses(&self) -> Map<u64, Block> {
        self.responses@
    }

    /// The canonical locators.
    pub closed spec fn canon(&self) -> Map<u64, BlockHash> {
        self.canon@
    }

    /// An empty pool.
    pub fn new() -> (r: SyncPool)
        ensures
            r.requests() == Map::<u64, BlockRequestEntry>::empty(),
            r.responses() == Map::<u64, Block>::empty(),
            r.canon() == Map::<u64, BlockHash>::empty(),
    {
        SyncPool { requests: BTreeMap::new(), responses: BTreeMap::new(), canon: BTreeMap::new() }
    }

    /// Whether a request for `height` is in flight.
    pub fn is_in_flight(&self, height: u64) -> (r: bool)
        ensures
            r == self.requests().contains_key(height),
    {
        self.requests.contains_key(&height)
    }

    /// Whether a response for `height` is waiting.
    pub fn has_response(&self, height: u64) -> (r: bool)
        ensures
            r == self.responses().contains_key(height),
    {
        self.responses.contains_key(&height)
    }

    /// The canonical hash at `height`, if one is known.
    pub fn canon_hash(&self, height: u64) -> (r: Option<BlockHash>)
        ensures
            r == (if self.canon().contains_key(height) {
                Some(self.canon()[height])
            } else {
                None::<BlockHash>
            }),
    {
        match self.canon.get(&height) {
            Some(h) => Some(*h),
            None => None,
        }
    }

    /// Registers a request for `height` as in flight. Fails, and changes
    /// nothing, when one is in flight for that height already.
    pub fn insert_block_request(&mut self, height: u64, entry: BlockRequestEntry) -> (r: Result<
        (),
        AlreadyInFlight,
    >)
        ensures
            r is Ok <==> !old(self).requests().contains_key(height),
            r is Ok ==> final(self).requests() == old(self).requests().insert(height, entry),
            r is Err ==> r == Err::<(), AlreadyInFlight>(AlreadyInFlight { height }),
            r is Err ==> final(self).requests() == old(self).requests(),
            final(self).responses() == old(self).responses(),
            final(self).canon() == old(self).canon(),
            (final(self).requests(), final(self).responses()) == pool_step(
                old(self).requests(),
                old(self).responses(),
                PoolEvent::Request(height, entry),
            ),
    {
        if self.requests.contains_key(&height) {
            Err(AlreadyInFlight { height })
        } else {
            self.requests.insert(height, entry);
            Ok(())
        }
    }

    /// Withdraws the request for `height`, if any.
    pub fn remove_block_request(&mut self, height: u64)
        ensures
            final(self).requests() == old(self).requests().remove(height),
            final(self).responses() == old(self).responses(),
            final(self).canon() == old(self).canon(),
            (final(self).requests(), final(self).responses()) == pool_step(
                old(self).requests(),
                old(self).responses(),
                PoolEvent::Withdraw(height),
            ),
    {
        self.requests.remove(&height);
    }

    /// Stores a response that a peer delivered for `height`. It is accepted
    /// only while a request for that height is in flight and no response for
    /// it is waiting yet; otherwise nothing changes.
    pub fn insert_block_response(&mut self, height: u64, block: Block) -> (r: Result<
        (),
        UnrequestedResponse,
    >)
        ensures
            r is Ok <==> (old(self).requests().contains_key(height)
                && !old(self).responses().contains_key(height)),
            r is Ok ==> final(self).responses() == old(self).responses().insert(height, block),
            r is Err ==> r == Err::<(), UnrequestedResponse>(UnrequestedResponse { height }),
            r is Err ==> final(self).responses() == old(self).responses(),
            final(self).requests() == old(self).requests(),
            final(self).canon() == old(self).canon(),
            (final(self).requests(), final(self).responses()) == pool_step(
                old(self).requests(),
                old(self).responses(),
                PoolEvent::Respond(height, block),
            ),
    {
        if self.requests.contains_key(&height) && !self.responses.contains_key(&height) {
            self.responses.insert(height, block);
            Ok(())
        } else {
            Err(UnrequestedResponse { height })
        }
    }

    /// Takes the response waiting for `height`, if any. Consuming a response
    /// also ends the request it answered.
    pub fn remove_block_response(&mut self, height: u64) -> (r: Option<Block>)
        ensures
            r == (if old(self).responses().contains_key(height) {
                Some(old(self).responses()[height])
            } else {
                None::<Block>
            }),
            final(self).responses() == old(self).responses().remove(height),
            r is Some ==> final(self).requests() == old(self).requests().remove(height),
            r is None ==> final(self).requests() == old(self).requests(),
            final(self).canon() == old(self).canon(),
            (final(self).requests(), final(self).responses()) == pool_step(
                old(self).requests(),
                old(self).responses(),
                PoolEvent::Consume(height),
            ),
    {
        let r = self.responses.remove(&height);
        if r.is_some() {
            self.requests.remove(&height);
        }
        proof {
            if r is None {
                assert(old(self).responses().remove(height) =~= old(self).responses());
            }
        }
        r
    }

    /// Binds `height` to `hash` as canonical. Fails, and changes nothing, when
    /// the height is bound to a different hash already.
    pub fn insert_canon_locator(&mut self, height: u64, hash: BlockHash) -> (r: Result<
        (),
        LocatorConflict,
    >)
        ensures
            r is Ok <==> add_locator(old(self).canon(), height, hash) is Ok,
            r is Ok ==> final(self).canon() == old(self).canon().insert(height, hash),
            r is Err ==> r->Err_0 == add_locator(old(self).canon(), height, hash)->Err_0,
            r is Err ==> final(self).canon() == old(self).canon(),
            final(self).requests() == old(self).requests(),
            final(self).responses() == old(self).responses(),
    {
        match self.canon.get(&height) {
            Some(known) => {
                let known = *known;
                if known != hash {
                    return Err(LocatorConflict { height, known, offered: hash });
                }
            },
            None => {},
        }
        self.canon.insert(height, hash);
        Ok(())
    }

    /// Adds a batch of canonical locators, in order. Either all of them are
    /// added, or, when one conflicts with a known locator or with an earlier
    /// one of the batch, none is and the first conflict is returned.
    pub fn insert_canon_locators(&mut self, batch: Vec<(u64, BlockHash)>) -> (r: Result<
        (),
        LocatorConflict,
    >)
        ensures
            r is Ok <==> add_locators(old(self).canon(), batch@) is Ok,
            r is Ok ==> final(self).canon() == add_locators(old(self).canon(), batch@)->Ok_0,
            r is Err ==> r->Err_0 == add_locators(old(self).canon(), batch@)->Err_0,
            r is Err ==> final(self).canon() == old(self).canon(),
            final(self).requests() == old(self).requests(),
            final(self).responses() == old(self).responses(),
    {
        let mut next = self.canon.clone();
        let mut i: usize = 0;
        proof {
            assert(batch@.subrange(0, batch@.len() as int) =~= batch@);
        }
        while i < batch.len()
            invariant
                0 <= i <= batch.len(),
                add_locators(self.canon@, batch@) == add_locators(
                    next@,
                    batch@.subrange(i as int, batch@.len() as int),
                ),
            decreases batch.len() - i,
        {
            let (height, hash) = batch[i];
            proof {
                let rest = batch@.subrange(i as int, batch@.len() as int);
                assert(rest[0] == (height, hash));
                assert(rest.drop_first() =~= batch@.subrange(i + 1, batch@.len() as int));
            }
            match next.get(&height) {
                Some(known) => {
                    let known = *known;
                    if known != hash {
                        return Err(LocatorConflict { height, known, offered: hash });
                    }
                },
                None => {},
            }
            next.insert(height, hash);
            i = i + 1;
        }
        proof {
            assert(batch@.subrange(i as int, batch@.len() as int).len() == 0);
        }
        self.canon = next;
        Ok(())
    }
}

} // verus!
