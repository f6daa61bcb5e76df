use vstd::prelude::*;

verus! {

/// Counts up from 0.
#[derive(Clone)]
pub struct Counter {
    n: u64,
}

/// The id of a task that the interface listens to.
#[derive(Debug, Clone, Copy, PartialEq, Eq, Hash, Structural)]
pub struct TaskId(pub u64);

impl Counter {
    /// The last number handed out (0 before the first).
    pub closed spec fn value(self) -> u64 {
        self.n
    }

    /// A counter at 0.
    pub fn new() -> (r: Counter)
        ensures
            r.value() == 0,
    {
        Counter { n: 0 }
    }

    /// Moves on by one and gives the new number.
    pub fn next(&mut self) -> (r: u64)
        requires
            old(self).value() < u64::MAX,
        ensures
            r == old(self).value() + 1,
            final(self).value() == r,
    {
        self.n = self.n + 1;
        self.n
    }
}

/// Hands out task ids, each one larger than the last.
#[derive(Clone)]
pub struct IdCounter {
    counter: Counter,
}

impl IdCounter {
    /// The number of the last id handed out (0 before the first).
    pub closed spec fn value(self) -> u64 {
        self.counter.value()
    }

    /// A counter that has handed out no id yet.
    pub fn new() -> (r: IdCounter)
        ensures
            r.value() == 0,
    {
        IdCounter { counter: Counter::new() }
    }

    /// The next task id.
    pub fn next(&mut self) -> (r: TaskId)
        requires
            old(self).value() < u64::MAX,
        ensures
            r == TaskId((old(self).value() + 1) as u64),
            final(self).value() == r.0,
    {
        TaskId(self.counter.next())
    }
}

/// The interface's bookkeeping: the counter that names its tasks.
pub struct GuiManagement {
    pub task_id_counter: IdCounter,
}


/// Whether `states` and `ids` are a run of `IdCounter::next` from a new
/// counter: `states[0]` is as `IdCounter::new` makes it, and the `i`-th call
/// turns `states[i]` into `states[i + 1]` and gives `ids[i]`, as the
/// contract of `next` says.
pub open spec fn is_id_run(states: Seq<IdCounter>, ids: Seq<TaskId>) -> bool {
    &&& states.len() == ids.len() + 1
    &&& states[0].value() == 0
    &&& forall|i: int|
        0 <= i < ids.len() ==> (#[trigger] states[i]).value() < u64::MAX && ids[i] == TaskId(
            (states[i].value() + 1) as u64,
        ) && states[i + 1].value() == ids[i].0
}

proof fn lemma_id_run_value(states: Seq<IdCounter>, ids: Seq<TaskId>, i: int)
    requires
        is_id_run(states, ids),
        0 <= i < states.len(),
    ensures
        states[i].value() == i,
    decreases i,
{
    if i > 0 {
        lemma_id_run_value(states, ids, i - 1);
        assert(states[i - 1].value() < u64::MAX);
    }
}

/// A new counter hands out the ids 1, 2, 3, ... in turn: the `i`-th call of
/// `next` (counting from 0) gives `TaskId(i + 1)`, so every id is larger
/// than the ones before it and none is handed out twice.
pub proof fn lemma_ids_count_up(states: Seq<IdCounter>, ids: Seq<TaskId>)
    requires
        is_id_run(states, ids),
    ensures
        forall|i: int| 0 <= i < ids.len() ==> #[trigger] ids[i] == TaskId((i + 1) as u64),
        forall|i: int, j: int| 0 <= i < j < ids.len() ==> (#[trigger] ids[i]).0 < (#[trigger] ids[j]).0,
{
    assert forall|i: int| 0 <= i < ids.len() implies #[trigger] ids[i] == TaskId((i + 1) as u64) by {
        lemma_id_run_value(states, ids, i);
        assert(states[i].value() < u64::MAX);
    }
    assert forall|i: int, j: int| 0 <= i < j < ids.len() implies (#[trigger] ids[i]).0 < (#[trigger] ids[j]).0 by {
        lemma_id_run_value(states, ids, i);
        lemma_id_run_value(states, ids, j);
        assert(states[i].value() < u64::MAX);
        assert(states[j].value() < u64::MAX);
    }
}

}
