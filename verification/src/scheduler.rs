//! Cooperative scheduling abstractions, independent of any threading or
//! context-switching model.

use vstd::prelude::*;

verus! {

/// A schedulable task, such as a thread or a process.
pub trait SchedulableTask {
    /// A unique, stable identifier of the task.
    fn id(&self) -> u64;

    /// Called by the scheduler when the task is selected to run.
    fn on_scheduled(&mut self);
}

/// A cooperative scheduler: it decides which task runs next, and leaves
/// the context switch to the surrounding kernel code.
pub trait Scheduler<T: SchedulableTask> {
    /// Whether the scheduler, as it is now, may know of `n` tasks. Unless
    /// an implementation says more, any number may be; only an
    /// implementation verified with Verus can say more.
    open spec fn may_have(&self, n: nat) -> bool {
        true
    }

    /// Adds a task to the run queue, on top of the tasks known before.
    fn add_task(&mut self, task: T)
        ensures
            forall|n: nat| #[trigger] old(self).may_have(n) ==> final(self).may_have(n + 1),
    ;

    /// Selects the next task to run, if any.
    fn next_task(&mut self) -> Option<T>;

    /// The number of tasks the scheduler knows of.
    fn len(&self) -> (n: usize)
        ensures
            self.may_have(n as nat),
    ;

    /// Whether the scheduler has no task, as `len` reports it.
    fn is_empty(&self) -> (empty: bool)
        ensures
            exists|n: nat| #[trigger] self.may_have(n) && empty == (n == 0),
    {
        let n = self.len();
        assert(self.may_have(n as nat));
        n == 0
    }
}

/// A scheduler whose count of tasks is determined is not empty right after
/// a task is added: `before` knew of `n` tasks, `after` is what `add_task`
/// left, and `empty` is what `is_empty` reports of `after`.
pub proof fn scheduler_is_not_empty_after_add<T: SchedulableTask, S: Scheduler<T>>(
    before: S,
    after: S,
    n: nat,
    empty: bool,
)
    requires
        before.may_have(n),
        forall|m: nat| #[trigger] before.may_have(m) ==> after.may_have(m + 1),
        forall|m1: nat, m2: nat| after.may_have(m1) && after.may_have(m2) ==> m1 == m2,
        exists|m: nat| #[trigger] after.may_have(m) && empty == (m == 0),
    ensures
        !empty,
{
    assert(after.may_have(n + 1));
}

} // verus!
