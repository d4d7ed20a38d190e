//! Listing the tasks of the user a token names, at most a given number.
use crate::tasks::{Task, TaskView};
use vstd::prelude::*;

verus! {

/// Gathers the tasks that a cursor over the collection yields, in the order
/// it yields them, and asks for no more once `limit` have been gathered.
pub struct TaskCollector {
    tasks: Vec<Task>,
    limit: u16,
}

impl TaskCollector {
    #[verifier::type_invariant]
    spec fn within_limit(self) -> bool {
        self.tasks.len() <= self.limit
    }

    /// The tasks gathered so far, in order.
    pub closed spec fn collected(&self) -> Seq<TaskView> {
        self.tasks@.map_values(|t: Task| t@)
    }

    /// The most tasks this collector gathers.
    pub closed spec fn limit(&self) -> nat {
        self.limit as nat
    }

    /// An empty collector that gathers at most `counter` tasks.
    pub fn new(counter: u16) -> (c: Self)
        ensures
            c.collected() == Seq::<TaskView>::empty(),
            c.limit() == counter,
    {
        let c = TaskCollector { tasks: Vec::new(), limit: counter };
        assert(c.collected() =~= Seq::<TaskView>::empty());
        c
    }

    /// Whether the cursor should be asked for another task: fewer than the
    /// limit have been gathered.
    pub fn wants_more(&self) -> (b: bool)
        ensures
            b == (self.collected().len() < self.limit()),
            self.collected().len() <= self.limit(),
    {
        proof {
            use_type_invariant(self);
        }
        self.tasks.len() < self.limit as usize
    }

    /// Gathers the next task that the cursor yielded.
    pub fn push(&mut self, task: Task)
        requires
            old(self).collected().len() < old(self).limit(),
        ensures
            final(self).collected() == old(self).collected().push(task@),
            final(self).limit() == old(self).limit(),
    {
        proof {
            use_type_invariant(&*self);
        }
        let mut tasks: Vec<Task> = Vec::new();
        std::mem::swap(&mut tasks, &mut self.tasks);
        let ghost before = tasks@;
        tasks.push(task);
        assert(tasks@.map_values(|t: Task| t@) =~= before.map_values(|t: Task| t@).push(task@));
        self.tasks = tasks;
    }

    /// The gathered tasks, never more than the limit.
    pub fn into_tasks(self) -> (v: Vec<Task>)
        ensures
            v@.map_values(|t: Task| t@) == self.collected(),
            v.len() <= self.limit(),
    {
        proof {
            use_type_invariant(&self);
        }
        self.tasks
    }
}

} // verus!
