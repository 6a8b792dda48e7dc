use vstd::prelude::*;

verus! {

/// The amount each generated transaction mints.
pub const MINT_AMOUNT: u64 = 1;

/// What the transaction generator does in one cycle.
#[derive(Clone, Copy, Debug, PartialEq, Eq, Structural)]
pub enum GeneratorAction {
    /// Build and execute a transaction, and broadcast it if execution succeeds.
    Generate,
    /// Do nothing this cycle.
    Skip,
}

/// Whether this instance produces transactions: outside development mode
/// always, in development mode only the instance with index zero.
pub open spec fn is_producer(dev: Option<u16>) -> bool {
    match dev {
        Some(index) => index == 0,
        None => true,
    }
}

/// The generator's action in a cycle.
pub open spec fn cycle_action(dev: Option<u16>) -> GeneratorAction {
    if is_producer(dev) {
        GeneratorAction::Generate
    } else {
        GeneratorAction::Skip
    }
}

/// Whether a cycle broadcasts a transaction, given whether its execution
/// succeeded: only where it generates and execution succeeds.
pub open spec fn cycle_broadcasts(dev: Option<u16>, executed: bool) -> bool {
    cycle_action(dev) == GeneratorAction::Generate && executed
}

/// The number of broadcasts over a run of cycles, given the execution
/// outcome of each.
pub open spec fn broadcasts_over(dev: Option<u16>, executed: Seq<bool>) -> nat
    decreases executed.len(),
{
    if executed.len() == 0 {
        0
    } else {
        broadcasts_over(dev, executed.drop_last()) + if cycle_broadcasts(dev, executed.last()) {
            1nat
        } else {
            0nat
        }
    }
}

/// Decides the generator's action for a cycle.
pub fn generator_cycle(dev: Option<u16>) -> (r: GeneratorAction)
    ensures
        r == cycle_action(dev),
{
    match dev {
        Some(index) => if index != 0 {
            GeneratorAction::Skip
        } else {
            GeneratorAction::Generate
        },
        None => GeneratorAction::Generate,
    }
}

/// Whether the transaction of a cycle is broadcast, given whether its
/// execution succeeded. A failed execution skips the cycle.
pub fn should_broadcast(dev: Option<u16>, executed: bool) -> (r: bool)
    ensures
        r == cycle_broadcasts(dev, executed),
{
    match generator_cycle(dev) {
        GeneratorAction::Generate => executed,
        GeneratorAction::Skip => false,
    }
}

/// An instance in development mode with a non-zero index never broadcasts a
/// transaction, over any number of cycles and whatever execution yields.
pub proof fn lemma_non_producer_silent(dev: Option<u16>, executed: Seq<bool>)
    requires
        dev is Some,
        dev->Some_0 != 0,
    ensures
        broadcasts_over(dev, executed) == 0,
    decreases executed.len(),
{
    if executed.len() > 0 {
        lemma_non_producer_silent(dev, executed.drop_last());
    }
}

} // verus!
