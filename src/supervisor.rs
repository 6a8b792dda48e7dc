use vstd::prelude::*;

verus! {

/// The state of one background task.
#[derive(Clone, Copy, Debug, PartialEq, Eq, Structural)]
pub enum TaskState {
    Running,
    /// The task ended on its own.
    Finished,
    /// The task was cancelled.
    Aborted,
}

/// One step of the node's teardown, in the order they must be carried out.
#[derive(Clone, Copy, Debug, PartialEq, Eq, Structural)]
pub enum TeardownAction {
    /// Cancel the task with this identity.
    Abort(usize),
    /// Shut down the router, so that no new peer traffic comes in.
    StopRouter,
    /// Shut down the consensus engine.
    StopConsensus,
}

/// The cancellations that shutdown asks for among the first `n` tasks: one
/// for each task still running, by ascending identity.
pub open spec fn abort_actions(tasks: Seq<TaskState>, n: nat) -> Seq<TeardownAction>
    decreases n,
{
    if n == 0 {
        Seq::empty()
    } else {
        let prev = abort_actions(tasks, (n - 1) as nat);
        if tasks[n - 1] == TaskState::Running {
            prev.push(TeardownAction::Abort((n - 1) as usize))
        } else {
            prev
        }
    }
}

/// The whole teardown for a set of tasks: cancel each running task, then stop
/// the router, then the consensus engine.
pub open spec fn teardown_plan(tasks: Seq<TaskState>) -> Seq<TeardownAction> {
    abort_actions(tasks, tasks.len()) + seq![TeardownAction::StopRouter, TeardownAction::StopConsensus]
}

/// Keeps track of the node's long-running background tasks and of its
/// shutdown flag. A task's identity is its position in registration order.
/// The shutdown flag, once set, stays set.
pub struct TaskSupervisor {
    tasks: Vec<TaskState>,
    shutdown: bool,
}

impl TaskSupervisor {
    /// The state of each registered task, by identity.
    pub closed spec fn tasks(&self) -> Seq<TaskState> {
        self.tasks@
    }

    /// The shutdown flag.
    pub closed spec fn shutdown_flag(&self) -> bool {
        self.shutdown
    }

    /// A supervisor with no tasks, not shut down.
    pub fn new() -> (r: TaskSupervisor)
        ensures
            r.tasks() == Seq::<TaskState>::empty(),
            !r.shutdown_flag(),
    {
        TaskSupervisor { tasks: Vec::new(), shutdown: false }
    }

    /// Registers a newly started task and returns its identity.
    pub fn spawn(&mut self) -> (r: usize)
        requires
            old(self).tasks().len() < usize::MAX,
        ensures
            r == old(self).tasks().len(),
            final(self).tasks() == old(self).tasks().push(TaskState::Running),
            final(self).shutdown_flag() == old(self).shutdown_flag(),
    {
        let id = self.tasks.len();
        self.tasks.push(TaskState::Running);
        id
    }

    /// The number of registered tasks.
    pub fn len(&self) -> (r: usize)
        ensures
            r == self.tasks().len(),
    {
        self.tasks.len()
    }

    /// The state of the task `id`.
    pub fn state(&self, id: usize) -> (r: TaskState)
        requires
            id < self.tasks().len(),
        ensures
            r == self.tasks()[id as int],
    {
        self.tasks[id]
    }

    /// Whether shutdown has been signalled; loops check this once per
    /// iteration.
    pub fn is_shutdown(&self) -> (r: bool)
        ensures
            r == self.shutdown_flag(),
    {
        self.shutdown
    }

    /// Records that the task `id` ended on its own. A task that was cancelled
    /// already stays cancelled.
    pub fn on_task_finished(&mut self, id: usize)
        requires
            id < old(self).tasks().len(),
        ensures
            final(self).tasks() == (if old(self).tasks()[id as int] == TaskState::Running {
                old(self).tasks().update(id as int, TaskState::Finished)
            } else {
                old(self).tasks()
            }),
            final(self).shutdown_flag() == old(self).shutdown_flag(),
    {
        if self.tasks[id] == TaskState::Running {
            self.tasks.set(id, TaskState::Finished);
        }
    }

    /// Shuts the node down: sets the shutdown flag, marks every running task
    /// as cancelled, and returns the teardown to carry out, in order: the
    /// cancellation of each task that was running, then the router, then the
    /// consensus engine. Tasks that ended already are left as they are.
    pub fn shut_down(&mut self) -> (r: Vec<TeardownAction>)
        ensures
            final(self).shutdown_flag(),
            final(self).tasks().len() == old(self).tasks().len(),
            forall|i: int|
                0 <= i < final(self).tasks().len() ==> #[trigger] final(self).tasks()[i] != TaskState::Running,
            forall|i: int|
                0 <= i < final(self).tasks().len() ==> (#[trigger] final(self).tasks()[i] == TaskState::Aborted
                    <==> old(self).tasks()[i] != TaskState::Finished),
            r@ == teardown_plan(old(self).tasks()),
    {
        self.shutdown = true;
        let ghost before = self.tasks@;
        let mut plan: Vec<TeardownAction> = Vec::new();
        let mut i: usize = 0;
        while i < self.tasks.len()
            invariant
                0 <= i <= self.tasks@.len(),
                self.tasks@.len() == before.len(),
                self.shutdown,
                plan@ == abort_actions(before, i as nat),
                forall|j: int| i <= j < before.len() ==> #[trigger] self.tasks@[j] == before[j],
                forall|j: int|
                    0 <= j < i ==> (#[trigger] self.tasks@[j] == TaskState::Aborted <==> before[j]
                        != TaskState::Finished),
                forall|j: int| 0 <= j < i ==> #[trigger] self.tasks@[j] != TaskState::Running,
            decreases self.tasks@.len() - i,
        {
            if self.tasks[i] == TaskState::Running {
                plan.push(TeardownAction::Abort(i));
            }
            if self.tasks[i] != TaskState::Finished {
                self.tasks.set(i, TaskState::Aborted);
            }
            i = i + 1;
        }
        plan.push(TeardownAction::StopRouter);
        plan.push(TeardownAction::StopConsensus);
        proof {
            assert(plan@ =~= teardown_plan(before));
        }
        plan
    }
}

/// After shutdown, the flag reads true and no registered task is running,
/// whatever the tasks' states were; each task that was running is cancelled
/// before the router and the consensus engine are stopped.
pub proof fn lemma_shutdown_complete(tasks: Seq<TaskState>, i: int)
    requires
        0 <= i < tasks.len(),
        tasks[i] == TaskState::Running,
    ensures
        abort_actions(tasks, tasks.len()).contains(TeardownAction::Abort(i as usize)),
        teardown_plan(tasks).last() == TeardownAction::StopConsensus,
        teardown_plan(tasks)[teardown_plan(tasks).len() - 2] == TeardownAction::StopRouter,
{
    lemma_abort_listed(tasks, i, tasks.len());
}

proof fn lemma_abort_listed(tasks: Seq<TaskState>, i: int, n: nat)
    requires
        0 <= i < n <= tasks.len(),
        tasks[i] == TaskState::Running,
    ensures
        abort_actions(tasks, n).contains(TeardownAction::Abort(i as usize)),
    decreases n,
{
    let prev = abort_actions(tasks, (n - 1) as nat);
    if i == n - 1 {
        let cur = prev.push(TeardownAction::Abort(i as usize));
        assert(cur[cur.len() - 1] == TeardownAction::Abort(i as usize));
    } else {
        lemma_abort_listed(tasks, i, (n - 1) as nat);
        let k = choose|k: int| 0 <= k < prev.len() && prev[k] == TeardownAction::Abort(i as usize);
        if tasks[n - 1] == TaskState::Running {
            let cur = prev.push(TeardownAction::Abort((n - 1) as usize));
            assert(cur[k] == TeardownAction::Abort(i as usize));
        }
    }
}

} // verus!
