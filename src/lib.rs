//! Orchestration core of a validator node: the block-synchronization engine,
//! the background-task supervisor and the transaction-generation policy.
//!
//! Everything here works on plain values. The network transport, the ledger
//! and the consensus engine are driven by the surrounding program, which
//! performs the actions these state machines ask for and reports the outcome.

mod types;
mod sync_pool;
mod dispatch;
mod advance;
mod supervisor;
mod generator;
mod node;

pub use types::{Block, BlockHash, BlockRequestEntry, BlockRequestMessage, PeerAddr};
pub use sync_pool::{
    add_locator, add_locators, ends_request, lemma_at_most_one_in_flight, pool_run, pool_step,
    AlreadyInFlight, LocatorConflict, PoolEvent, SyncPool, UnrequestedResponse,
};
pub use dispatch::{
    next_step_effect, request_for, same_entry, send_result_effect, DispatchStep, RequestDispatcher,
};
pub use advance::{AdvancePhase, AdvanceStep, Advancer};
pub use supervisor::{
    abort_actions, lemma_shutdown_complete, teardown_plan, TaskState, TaskSupervisor,
    TeardownAction,
};
pub use generator::{
    broadcasts_over, cycle_action, cycle_broadcasts, generator_cycle, is_producer,
    lemma_non_producer_silent, should_broadcast, GeneratorAction, MINT_AMOUNT,
};
pub use node::{
    lemma_startup_order, next_startup_step, startup_plan, startup_steps, steps_run,
    NodeConfig, StartupStep, SyncStrategy, Validator,
};
