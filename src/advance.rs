use vstd::prelude::*;

use crate::sync_pool::SyncPool;
use crate::types::Block;

verus! {

/// What the driver of an [`Advancer`] is asked to do next.
#[derive(Clone, Copy, Debug, PartialEq, Eq, Structural)]
pub enum AdvanceStep {
    /// Check the block against the ledger, then report with
    /// [`Advancer::on_checked`].
    Check(Block),
    /// Append the block to the ledger, then report with
    /// [`Advancer::on_appended`].
    Append(Block),
    /// The response for the next height holds a block of another height; it
    /// was discarded and advancement stops.
    HeightMismatch { expected: u64, found: u64 },
    /// Advancement stops for this cycle.
    Stop,
}

/// Where an [`Advancer`] stands.
#[derive(Clone, Copy, Debug, PartialEq, Eq, Structural)]
pub enum AdvancePhase {
    /// Ready to take the next response.
    Idle,
    /// Waiting for the ledger's verdict on this block.
    Checking(Block),
    /// Waiting for the ledger to append this block.
    Appending(Block),
    /// Done for this cycle.
    Halted,
}

/// Advances the ledger greedily, one height at a time, from the responses in
/// the pool. A block is appended only at the height right above the ledger's
/// latest, and only after the ledger accepted it; the first response that is
/// missing, of the wrong height, invalid, or that fails to append ends the
/// attempt for this cycle.
pub struct Advancer {
    height: u64,
    phase: AdvancePhase,
}

impl Advancer {
    /// The ledger height as far as this advancer knows it.
    pub closed spec fn height(&self) -> u64 {
        self.height
    }

    /// The current phase.
    pub closed spec fn phase(&self) -> AdvancePhase {
        self.phase
    }

    /// The advancer's internal consistency: a block under way is the one for
    /// the next height.
    pub open spec fn wf(&self) -> bool {
        match self.phase() {
            AdvancePhase::Checking(b) => b.height == self.height() + 1,
            AdvancePhase::Appending(b) => b.height == self.height() + 1,
            _ => true,
        }
    }

    /// An advancer for a ledger at `latest_height`.
    pub fn new(latest_height: u64) -> (r: Advancer)
        ensures
            r.wf(),
            r.height() == latest_height,
            r.phase() == AdvancePhase::Idle,
    {
        Advancer { height: latest_height, phase: AdvancePhase::Idle }
    }

    /// The ledger height as far as this advancer knows it.
    pub fn current_height(&self) -> (r: u64)
        ensures
            r == self.height(),
    {
        self.height
    }

    /// Whether the attempt for this cycle has ended.
    pub fn is_halted(&self) -> (r: bool)
        ensures
            r == (self.phase() == AdvancePhase::Halted),
    {
        match self.phase {
            AdvancePhase::Halted => true,
            _ => false,
        }
    }

    /// Takes the response for the next height out of the pool. A block of that
    /// height is handed out for checking; a block of another height is
    /// discarded and stops advancement; no response stops it too.
    pub fn next(&mut self, pool: &mut SyncPool) -> (r: AdvanceStep)
        requires
            old(self).wf(),
        ensures
            final(self).wf(),
            final(self).height() == old(self).height(),
            final(pool).canon() == old(pool).canon(),
            old(self).phase() != AdvancePhase::Idle || old(self).height() == u64::MAX ==> {
                &&& r == AdvanceStep::Stop
                &&& final(self).phase() == AdvancePhase::Halted
                &&& final(pool).requests() == old(pool).requests()
                &&& final(pool).responses() == old(pool).responses()
            },
            old(self).phase() == AdvancePhase::Idle && old(self).height() < u64::MAX ==> {
                let h = (old(self).height() + 1) as u64;
                &&& final(pool).responses() == old(pool).responses().remove(h)
                &&& if !old(pool).responses().contains_key(h) {
                    &&& r == AdvanceStep::Stop
                    &&& final(self).phase() == AdvancePhase::Halted
                    &&& final(pool).requests() == old(pool).requests()
                } else {
                    let b = old(pool).responses()[h];
                    &&& final(pool).requests() == old(pool).requests().remove(h)
                    &&& if b.height != h {
                        &&& r == AdvanceStep::HeightMismatch { expected: h, found: b.height }
                        &&& final(self).phase() == AdvancePhase::Halted
                    } else {
                        &&& r == AdvanceStep::Check(b)
                        &&& final(self).phase() == AdvancePhase::Checking(b)
                    }
                }
            },
    {
        match self.phase {
            AdvancePhase::Idle => {},
            _ => {
                self.phase = AdvancePhase::Halted;
                return AdvanceStep::Stop;
            },
        }
        if self.height == u64::MAX {
            self.phase = AdvancePhase::Halted;
            return AdvanceStep::Stop;
        }
        let expected = self.height + 1;
        match pool.remove_block_response(expected) {
            None => {
                self.phase = AdvancePhase::Halted;
                AdvanceStep::Stop
            },
            Some(block) => {
                if block.height != expected {
                    self.phase = AdvancePhase::Halted;
                    AdvanceStep::HeightMismatch { expected, found: block.height }
                } else {
                    self.phase = AdvancePhase::Checking(block);
                    AdvanceStep::Check(block)
                }
            },
        }
    }

    /// Takes the ledger's verdict on the block under check: a valid block is
    /// handed out for appending, an invalid one is discarded and stops
    /// advancement.
    pub fn on_checked(&mut self, valid: bool) -> (r: AdvanceStep)
        requires
            old(self).wf(),
            old(self).phase() is Checking,
        ensures
            final(self).wf(),
            final(self).height() == old(self).height(),
            ({
                let b = old(self).phase()->Checking_0;
                if valid {
                    &&& r == AdvanceStep::Append(b)
                    &&& b.height == old(self).height() + 1
                    &&& final(self).phase() == AdvancePhase::Appending(b)
                } else {
                    &&& r == AdvanceStep::Stop
                    &&& final(self).phase() == AdvancePhase::Halted
                }
            }),
    {
        match self.phase {
            AdvancePhase::Checking(block) => {
                if valid {
                    self.phase = AdvancePhase::Appending(block);
                    AdvanceStep::Append(block)
                } else {
                    self.phase = AdvancePhase::Halted;
                    AdvanceStep::Stop
                }
            },
            _ => AdvanceStep::Stop,
        }
    }

    /// Takes the outcome of appending the block. On success the height goes
    /// up by exactly one and the block's height and hash become canonical in
    /// the pool (a conflicting locator already there is kept); on failure
    /// advancement stops with the height unchanged.
    pub fn on_appended(&mut self, pool: &mut SyncPool, appended: bool)
        requires
            old(self).wf(),
            old(self).phase() is Appending,
        ensures
            final(self).wf(),
            final(pool).requests() == old(pool).requests(),
            final(pool).responses() == old(pool).responses(),
            ({
                let b = old(self).phase()->Appending_0;
                if appended {
                    &&& final(self).height() == old(self).height() + 1
                    &&& final(self).height() == b.height
                    &&& final(self).phase() == AdvancePhase::Idle
                    &&& final(pool).canon() == (if old(pool).canon().contains_key(b.height) {
                        old(pool).canon()
                    } else {
                        old(pool).canon().insert(b.height, b.hash)
                    })
                } else {
                    &&& final(self).height() == old(self).height()
                    &&& final(self).phase() == AdvancePhase::Halted
                    &&& final(pool).canon() == old(pool).canon()
                }
            }),
    {
        match self.phase {
            AdvancePhase::Appending(block) => {
                if appended {
                    let _ = pool.insert_canon_locator(block.height, block.hash);
                    proof {
                        if old(pool).canon().contains_key(block.height) && old(pool).canon()[block.height] == block.hash {
                            assert(old(pool).canon().insert(block.height, block.hash) =~= old(pool).canon());
                        }
                    }
                    self.height = block.height;
                    self.phase = AdvancePhase::Idle;
                } else {
                    self.phase = AdvancePhase::Halted;
                }
            },
            _ => {},
        }
    }
}

} // verus!
