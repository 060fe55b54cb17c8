//! The session and its background-task registry. The registry is append-only
//! while the session lives; teardown closes it, hands every registered handle
//! out for cancellation exactly once, and from then on accepts nothing — so
//! no task registered before teardown can be orphaned.

use vstd::prelude::*;

use crate::errors::ExitCode;
use crate::subscription::TonWalletSubscription;

verus! {

/// Registry of spawned background-task handles, identified by the numbers the
/// driver assigns its join handles.
#[derive(Debug, Clone)]
pub struct TaskManager {
    pub tasks: Vec<u64>,
    pub torn_down: bool,
}

impl TaskManager {
    /// An open, empty registry.
    pub fn new() -> (r: TaskManager)
        ensures
            r.tasks@ == Seq::<u64>::empty(),
            !r.torn_down,
    {
        TaskManager { tasks: Vec::new(), torn_down: false }
    }

    /// Registers a task handle: recorded at the end of the registry unless
    /// teardown has begun, in which case nothing is accepted and nothing
    /// changes.
    pub fn track(&mut self, task: u64) -> (accepted: bool)
        ensures
            accepted == !old(self).torn_down,
            final(self).torn_down == old(self).torn_down,
            final(self).tasks@ == (if old(self).torn_down {
                old(self).tasks@
            } else {
                old(self).tasks@.push(task)
            }),
    {
        if self.torn_down {
            false
        } else {
            self.tasks.push(task);
            true
        }
    }

    /// Tears the registry down: every registered handle is returned for
    /// cancellation, exactly once and in registration order, and the registry
    /// is closed for good.
    pub fn teardown(&mut self) -> (cancelled: Vec<u64>)
        ensures
            cancelled@ == old(self).tasks@,
            final(self).torn_down,
            final(self).tasks@ == Seq::<u64>::empty(),
    {
        self.torn_down = true;
        let cancelled = self.tasks.split_off(0);
        proof {
            assert(cancelled@ =~= old(self).tasks@);
            assert(self.tasks@ =~= Seq::<u64>::empty());
        }
        cancelled
    }
}

impl Default for TaskManager {
    /// The default registry is open and empty.
    fn default() -> (r: TaskManager)
        ensures
            r.tasks@ == Seq::<u64>::empty(),
            !r.torn_down,
    {
        TaskManager::new()
    }
}

/// The registry contents after a further sequence of accepted registrations.
pub open spec fn registry_after(tasks: Seq<u64>, ops: Seq<u64>) -> Seq<u64>
    decreases ops.len(),
{
    if ops.len() == 0 {
        tasks
    } else {
        registry_after(tasks.push(ops[0]), ops.skip(1))
    }
}

/// Teardown is linearizable with spawning: a handle registered at any point
/// stays in the registry through every later registration, and teardown
/// returns exactly the registry — so every task registered before teardown
/// began receives its cancellation, and none is orphaned.
pub proof fn lemma_registered_task_is_cancelled(tasks: Seq<u64>, ops: Seq<u64>, task: u64)
    requires
        tasks.contains(task),
    ensures
        registry_after(tasks, ops).contains(task),
    decreases ops.len(),
{
    if ops.len() > 0 {
        let i = choose|i: int| 0 <= i < tasks.len() && tasks[i] == task;
        assert(tasks.push(ops[0])[i] == task);
        lemma_registered_task_is_cancelled(tasks.push(ops[0]), ops.skip(1), task);
    }
}

/// The shared context of one session: the tracked wallet and the registry of
/// background tasks; the transport and key-store handles live with the
/// driver.
#[derive(Debug, Clone)]
pub struct Context {
    pub wallet_state: TonWalletSubscription,
    pub manager: TaskManager,
}

impl Context {
    /// Bundles a session's shared state around a fresh wallet subscription.
    pub fn new(wallet_state: TonWalletSubscription, manager: TaskManager) -> (r: Context)
        ensures
            r.wallet_state == wallet_state,
            r.manager == manager,
    {
        Context { wallet_state, manager }
    }

    /// Registers a background task with the session before control returns to
    /// the caller; once teardown has begun the task is refused and the caller
    /// is told the runtime is gone.
    pub fn spawn(&mut self, task: u64) -> (r: ExitCode)
        ensures
            final(self).wallet_state == old(self).wallet_state,
            final(self).manager.torn_down == old(self).manager.torn_down,
            final(self).manager.tasks@ == (if old(self).manager.torn_down {
                old(self).manager.tasks@
            } else {
                old(self).manager.tasks@.push(task)
            }),
            r == (if old(self).manager.torn_down {
                ExitCode::RuntimeIsNotInitialized
            } else {
                ExitCode::Success
            }),
    {
        if self.manager.track(task) {
            ExitCode::Success
        } else {
            ExitCode::RuntimeIsNotInitialized
        }
    }
}

} // verus!
