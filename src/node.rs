use vstd::prelude::*;

use crate::advance::{AdvancePhase, AdvanceStep, Advancer};
use crate::dispatch::{next_step_effect, send_result_effect, DispatchStep, RequestDispatcher};
use crate::generator::is_producer;
use crate::supervisor::{teardown_plan, TaskState, TaskSupervisor, TeardownAction};
use crate::sync_pool::{add_locators, LocatorConflict, SyncPool};
use crate::types::{Block, BlockHash, BlockRequestEntry, PeerAddr};

verus! {

/// How the node catches up with the network.
#[derive(Clone, Copy, Debug, PartialEq, Eq, Structural)]
pub enum SyncStrategy {
    /// Rely on the consensus engine's own block propagation alone.
    ConsensusOnly,
    /// Run the block-synchronization loop as well.
    SyncProtocol,
}

/// The settings a validator node is built from.
#[derive(Clone, Debug)]
pub struct NodeConfig {
    /// The address the router listens on.
    pub node_ip: PeerAddr,
    /// The address of the query surface, if one is served.
    pub rest_ip: Option<PeerAddr>,
    /// The snapshot source to fast-forward the ledger from, if any.
    pub cdn: Option<String>,
    /// The instance index in development mode.
    pub dev: Option<u16>,
    /// How the node catches up with the network.
    pub strategy: SyncStrategy,
}

/// One step of building a validator node. The steps are carried out in order
/// and the first failure aborts construction.
#[derive(Clone, Copy, Debug, PartialEq, Eq, Structural)]
pub enum StartupStep {
    /// Install the signal handler, whose slot receives the node at the end.
    InstallSignalHandler,
    /// Load the ledger from the genesis block.
    LoadLedger,
    /// Fast-forward the ledger from the snapshot source.
    SyncFromSnapshot,
    /// Build the consensus engine and wait for it to start.
    StartConsensus,
    /// Build the router on the listening address.
    StartRouter,
    /// Start the transaction-generation loop.
    StartTransactionPool,
    /// Start the query surface.
    StartRest,
    /// Load the ledger's locators into the sync pool and start the sync loop.
    StartSync,
    /// Start the routing handlers.
    StartRouting,
    /// Hand the finished node to the signal handler.
    PublishNode,
}

/// The construction sequence for a configuration.
pub open spec fn startup_steps(config: NodeConfig) -> Seq<StartupStep> {
    seq![StartupStep::InstallSignalHandler, StartupStep::LoadLedger]
        + (if config.cdn is Some { seq![StartupStep::SyncFromSnapshot] } else { Seq::empty() })
        + seq![StartupStep::StartConsensus, StartupStep::StartRouter, StartupStep::StartTransactionPool]
        + (if config.rest_ip is Some { seq![StartupStep::StartRest] } else { Seq::empty() })
        + (if config.strategy == SyncStrategy::SyncProtocol {
        seq![StartupStep::StartSync]
    } else {
        Seq::empty()
    }) + seq![StartupStep::StartRouting, StartupStep::PublishNode]
}

/// The construction sequence for `config`.
pub fn startup_plan(config: &NodeConfig) -> (r: Vec<StartupStep>)
    ensures
        r@ == startup_steps(*config),
{
    let mut steps: Vec<StartupStep> = Vec::new();
    steps.push(StartupStep::InstallSignalHandler);
    steps.push(StartupStep::LoadLedger);
    if config.cdn.is_some() {
        steps.push(StartupStep::SyncFromSnapshot);
    }
    steps.push(StartupStep::StartConsensus);
    steps.push(StartupStep::StartRouter);
    steps.push(StartupStep::StartTransactionPool);
    if config.rest_ip.is_some() {
        steps.push(StartupStep::StartRest);
    }
    if config.strategy == SyncStrategy::SyncProtocol {
        steps.push(StartupStep::StartSync);
    }
    steps.push(StartupStep::StartRouting);
    steps.push(StartupStep::PublishNode);
    proof {
        assert(steps@ =~= startup_steps(*config));
    }
    steps
}

/// The construction step to carry out after `done` steps, the last of which
/// succeeded where `last_ok`. Construction is all or nothing: after a failed
/// step nothing more runs, and in particular the node is never handed to the
/// signal handler.
pub fn next_startup_step(config: &NodeConfig, done: usize, last_ok: bool) -> (r: Option<StartupStep>)
    ensures
        !last_ok ==> r is None,
        last_ok && done < startup_steps(*config).len() ==> r == Some(
            startup_steps(*config)[done as int],
        ),
        last_ok && done >= startup_steps(*config).len() ==> r is None,
{
    if !last_ok {
        return None;
    }
    let steps = startup_plan(config);
    if done < steps.len() {
        Some(steps[done])
    } else {
        None
    }
}

/// The steps carried out when the step at position `failed` is the first to
/// fail: those up to and including it.
pub open spec fn steps_run(config: NodeConfig, failed: nat) -> Seq<StartupStep> {
    startup_steps(config).take(failed as int + 1)
}

/// The construction sequence holds each step at most once, with the node
/// handed to the signal handler last. The ledger is loaded, and fast-forwarded
/// from the snapshot source, before the consensus engine, the router, the
/// transaction pool and the query surface start. So where a step fails
/// before the last, the node is never published, and a failed ledger load or
/// snapshot sync means no peer connection and no consensus.
pub proof fn lemma_startup_order(config: NodeConfig, failed: nat)
    requires
        failed + 1 < startup_steps(config).len(),
    ensures
        startup_steps(config).last() == StartupStep::PublishNode,
        startup_steps(config).no_duplicates(),
        !steps_run(config, failed).contains(StartupStep::PublishNode),
        startup_steps(config)[failed as int] == StartupStep::LoadLedger
            || startup_steps(config)[failed as int] == StartupStep::SyncFromSnapshot ==> {
            &&& !steps_run(config, failed).contains(StartupStep::StartConsensus)
            &&& !steps_run(config, failed).contains(StartupStep::StartRouter)
            &&& !steps_run(config, failed).contains(StartupStep::StartTransactionPool)
            &&& !steps_run(config, failed).contains(StartupStep::StartRest)
        },
{
    let s = startup_steps(config);
    let run = steps_run(config, failed);
    assert(s.len() >= 7);
    assert(s[0] == StartupStep::InstallSignalHandler);
    assert(s[1] == StartupStep::LoadLedger);
    if config.cdn is Some {
        assert(s[2] == StartupStep::SyncFromSnapshot);
    }
    assert(forall|i: int, j: int| 0 <= i < j < s.len() ==> s[i] != s[j]);
    assert(s.no_duplicates());
    assert forall|i: int| 0 <= i < run.len() implies run[i] != StartupStep::PublishNode by {
        assert(run[i] == s[i]);
    }
    if s[failed as int] == StartupStep::LoadLedger || s[failed as int] == StartupStep::SyncFromSnapshot {
        assert(failed <= 2);
        assert forall|i: int| 0 <= i < run.len() implies {
            &&& run[i] != StartupStep::StartConsensus
            &&& run[i] != StartupStep::StartRouter
            &&& run[i] != StartupStep::StartTransactionPool
            &&& run[i] != StartupStep::StartRest
        } by {
            assert(run[i] == s[i]);
        }
    }
}

/// The state a validator node keeps for its orchestration: its settings, the
/// sync pool and the supervisor of its background tasks.
pub struct Validator {
    config: NodeConfig,
    pool: SyncPool,
    supervisor: TaskSupervisor,
}

impl Validator {
    /// The node's settings.
    pub closed spec fn spec_config(&self) -> &NodeConfig {
        &self.config
    }

    /// The node's sync pool.
    pub closed spec fn spec_pool(&self) -> &SyncPool {
        &self.pool
    }

    /// The supervisor of the node's background tasks.
    pub closed spec fn spec_supervisor(&self) -> &TaskSupervisor {
        &self.supervisor
    }

    /// The node's settings.
    #[verifier::when_used_as_spec(spec_config)]
    pub fn config(&self) -> (r: &NodeConfig)
        ensures
            r == self.spec_config(),
    {
        &self.config
    }

    /// The node's sync pool.
    #[verifier::when_used_as_spec(spec_pool)]
    pub fn pool(&self) -> (r: &SyncPool)
        ensures
            r == self.spec_pool(),
    {
        &self.pool
    }

    /// The supervisor of the node's background tasks.
    #[verifier::when_used_as_spec(spec_supervisor)]
    pub fn supervisor(&self) -> (r: &TaskSupervisor)
        ensures
            r == self.spec_supervisor(),
    {
        &self.supervisor
    }

    /// A node with an empty sync pool and no background task.
    pub fn new(config: NodeConfig) -> (r: Validator)
        ensures
            *r.config() == config,
            r.pool().requests() == Map::<u64, BlockRequestEntry>::empty(),
            r.pool().responses() == Map::<u64, Block>::empty(),
            r.pool().canon() == Map::<u64, BlockHash>::empty(),
            r.supervisor().tasks() == Seq::<TaskState>::empty(),
            !r.supervisor().shutdown_flag(),
    {
        Validator { config, pool: SyncPool::new(), supervisor: TaskSupervisor::new() }
    }

    /// Registers a long-running task and returns its identity.
    pub fn spawn(&mut self) -> (r: usize)
        requires
            old(self).supervisor().tasks().len() < usize::MAX,
        ensures
            r == old(self).supervisor().tasks().len(),
            final(self).supervisor().tasks() == old(self).supervisor().tasks().push(TaskState::Running),
            final(self).supervisor().shutdown_flag() == old(self).supervisor().shutdown_flag(),
            final(self).pool() == old(self).pool(),
            final(self).config() == old(self).config(),
    {
        self.supervisor.spawn()
    }

    /// Prepares block synchronization: adds the ledger's canonical locators
    /// to the pool and registers the sync loop as a task, returning its
    /// identity. A conflicting locator fails the whole step and changes
    /// nothing. Each cycle of the loop then runs a [`RequestDispatcher`]
    /// through [`Validator::next_request_step`] and
    /// [`Validator::on_request_sent`], and an [`Advancer`] through
    /// [`Validator::next_advance_step`] and [`Validator::on_block_appended`].
    pub fn initialize_sync(&mut self, locators: Vec<(u64, BlockHash)>) -> (r: Result<
        usize,
        LocatorConflict,
    >)
        requires
            old(self).supervisor().tasks().len() < usize::MAX,
        ensures
            r is Ok <==> add_locators(old(self).pool().canon(), locators@) is Ok,
            final(self).pool().requests() == old(self).pool().requests(),
            final(self).pool().responses() == old(self).pool().responses(),
            final(self).supervisor().shutdown_flag() == old(self).supervisor().shutdown_flag(),
            final(self).config() == old(self).config(),
            r is Ok ==> {
                &&& final(self).pool().canon() == add_locators(old(self).pool().canon(), locators@)->Ok_0
                &&& r->Ok_0 == old(self).supervisor().tasks().len()
                &&& final(self).supervisor().tasks() == old(self).supervisor().tasks().push(
                    TaskState::Running,
                )
            },
            r is Err ==> {
                &&& r->Err_0 == add_locators(old(self).pool().canon(), locators@)->Err_0
                &&& final(self).pool().canon() == old(self).pool().canon()
                &&& final(self).supervisor().tasks() == old(self).supervisor().tasks()
            },
    {
        match self.pool.insert_canon_locators(locators) {
            Ok(()) => Ok(self.supervisor.spawn()),
            Err(e) => Err(e),
        }
    }

    /// Takes up the next proposal of a sync cycle against the node's pool: a
    /// height in flight already is skipped and nothing is sent for it; any
    /// other is registered before the send to its first peer is asked for.
    pub fn next_request_step(&mut self, dispatcher: &mut RequestDispatcher) -> (r: DispatchStep)
        requires
            old(dispatcher).wf(),
            !old(dispatcher).awaiting(),
        ensures
            final(dispatcher).wf(),
            final(dispatcher).proposals() == old(dispatcher).proposals(),
            final(dispatcher).index() <= final(dispatcher).proposals().len(),
            next_step_effect(
                *old(dispatcher),
                *final(dispatcher),
                old(self).pool().requests(),
                final(self).pool().requests(),
                r,
            ),
            final(self).pool().responses() == old(self).pool().responses(),
            final(self).pool().canon() == old(self).pool().canon(),
            final(self).supervisor() == old(self).supervisor(),
            final(self).config() == old(self).config(),
    {
        dispatcher.next_step(&mut self.pool)
    }

    /// Takes the outcome of the awaited send of a sync cycle. A failed send
    /// withdraws that height's request from the node's pool and ends the
    /// cycle, so no further peer is asked.
    pub fn on_request_sent(&mut self, dispatcher: &mut RequestDispatcher, sent: bool) -> (r: DispatchStep)
        requires
            old(dispatcher).wf(),
            old(dispatcher).awaiting(),
        ensures
            final(dispatcher).wf(),
            final(dispatcher).proposals() == old(dispatcher).proposals(),
            final(dispatcher).index() <= final(dispatcher).proposals().len(),
            send_result_effect(
                *old(dispatcher),
                *final(dispatcher),
                old(self).pool().requests(),
                final(self).pool().requests(),
                sent,
                r,
            ),
            final(self).pool().responses() == old(self).pool().responses(),
            final(self).pool().canon() == old(self).pool().canon(),
            final(self).supervisor() == old(self).supervisor(),
            final(self).config() == old(self).config(),
    {
        dispatcher.on_send_result(&mut self.pool, sent)
    }

    /// Takes the response for the advancer's next height out of the node's
    /// pool (see [`Advancer::next`]).
    pub fn next_advance_step(&mut self, advancer: &mut Advancer) -> (r: AdvanceStep)
        requires
            old(advancer).wf(),
        ensures
            final(advancer).wf(),
            final(advancer).height() == old(advancer).height(),
            final(self).pool().canon() == old(self).pool().canon(),
            final(self).supervisor() == old(self).supervisor(),
            final(self).config() == old(self).config(),
            old(advancer).phase() != AdvancePhase::Idle || old(advancer).height() == u64::MAX ==> {
                &&& r == AdvanceStep::Stop
                &&& final(advancer).phase() == AdvancePhase::Halted
                &&& final(self).pool().requests() == old(self).pool().requests()
                &&& final(self).pool().responses() == old(self).pool().responses()
            },
            old(advancer).phase() == AdvancePhase::Idle && old(advancer).height() < u64::MAX ==> {
                let h = (old(advancer).height() + 1) as u64;
                let resps = old(self).pool().responses();
                &&& final(self).pool().responses() == resps.remove(h)
                &&& if !resps.contains_key(h) {
                    &&& r == AdvanceStep::Stop
                    &&& final(advancer).phase() == AdvancePhase::Halted
                    &&& final(self).pool().requests() == old(self).pool().requests()
                } else {
                    &&& final(self).pool().requests() == old(self).pool().requests().remove(h)
                    &&& if resps[h].height != h {
                        &&& r == AdvanceStep::HeightMismatch { expected: h, found: resps[h].height }
                        &&& final(advancer).phase() == AdvancePhase::Halted
                    } else {
                        &&& r == AdvanceStep::Check(resps[h])
                        &&& final(advancer).phase() == AdvancePhase::Checking(resps[h])
                    }
                }
            },
    {
        advancer.next(&mut self.pool)
    }

    /// Takes the outcome of appending the advancer's block (see
    /// [`Advancer::on_appended`]): on success the height goes up by exactly
    /// one and the block becomes canonical in the node's pool.
    pub fn on_block_appended(&mut self, advancer: &mut Advancer, appended: bool)
        requires
            old(advancer).wf(),
            old(advancer).phase() is Appending,
        ensures
            final(advancer).wf(),
            final(self).pool().requests() == old(self).pool().requests(),
            final(self).pool().responses() == old(self).pool().responses(),
            final(self).supervisor() == old(self).supervisor(),
            final(self).config() == old(self).config(),
            ({
                let b = old(advancer).phase()->Appending_0;
                let canon = old(self).pool().canon();
                if appended {
                    &&& final(advancer).height() == old(advancer).height() + 1
                    &&& final(advancer).height() == b.height
                    &&& final(advancer).phase() == AdvancePhase::Idle
                    &&& final(self).pool().canon() == (if canon.contains_key(b.height) {
                        canon
                    } else {
                        canon.insert(b.height, b.hash)
                    })
                } else {
                    &&& final(advancer).height() == old(advancer).height()
                    &&& final(advancer).phase() == AdvancePhase::Halted
                    &&& final(self).pool().canon() == canon
                }
            }),
    {
        advancer.on_appended(&mut self.pool, appended)
    }

    /// Registers the transaction-generation loop as a task, returning its
    /// identity, and whether this instance produces transactions at all.
    pub fn initialize_transaction_pool(&mut self) -> (r: (usize, bool))
        requires
            old(self).supervisor().tasks().len() < usize::MAX,
        ensures
            r.0 == old(self).supervisor().tasks().len(),
            r.1 == is_producer(old(self).config().dev),
            final(self).supervisor().tasks() == old(self).supervisor().tasks().push(TaskState::Running),
            final(self).supervisor().shutdown_flag() == old(self).supervisor().shutdown_flag(),
            final(self).pool() == old(self).pool(),
            final(self).config() == old(self).config(),
    {
        let producer = match self.config.dev {
            Some(index) => index == 0,
            None => true,
        };
        (self.supervisor.spawn(), producer)
    }

    /// Whether a background loop should run another iteration: only until
    /// shutdown is signalled.
    pub fn keep_running(&self) -> (r: bool)
        ensures
            r == !self.supervisor().shutdown_flag(),
    {
        !self.supervisor.is_shutdown()
    }

    /// Records that the task `id` ended on its own.
    pub fn on_task_finished(&mut self, id: usize)
        requires
            id < old(self).supervisor().tasks().len(),
        ensures
            final(self).supervisor().tasks() == (if old(self).supervisor().tasks()[id as int]
                == TaskState::Running {
                old(self).supervisor().tasks().update(id as int, TaskState::Finished)
            } else {
                old(self).supervisor().tasks()
            }),
            final(self).supervisor().shutdown_flag() == old(self).supervisor().shutdown_flag(),
            final(self).pool() == old(self).pool(),
            final(self).config() == old(self).config(),
    {
        self.supervisor.on_task_finished(id)
    }

    /// Shuts the node down: sets the shutdown flag, cancels every running
    /// task, and returns the teardown to carry out in order (the tasks, then
    /// the router, then the consensus engine). The flag is never cleared.
    pub fn shut_down(&mut self) -> (r: Vec<TeardownAction>)
        ensures
            final(self).supervisor().shutdown_flag(),
            final(self).supervisor().tasks().len() == old(self).supervisor().tasks().len(),
            forall|i: int|
                0 <= i < final(self).supervisor().tasks().len()
                    ==> #[trigger] final(self).supervisor().tasks()[i] != TaskState::Running,
            forall|i: int|
                0 <= i < final(self).supervisor().tasks().len() ==> (
                #[trigger] final(self).supervisor().tasks()[i] == TaskState::Aborted
                    <==> old(self).supervisor().tasks()[i] != TaskState::Finished),
            r@ == teardown_plan(old(self).supervisor().tasks()),
            final(self).pool() == old(self).pool(),
            final(self).config() == old(self).config(),
    {
        self.supervisor.shut_down()
    }
}

} // verus!
