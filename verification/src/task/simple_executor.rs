//! The first, deliberately simple executor: a bare FIFO of tasks.
//!
//! Its run loop — driven by the runtime glue, which owns the actual
//! computations — repeatedly takes the front task and polls it.  A
//! pending task is dropped, not re-queued: this stage is only
//! adequate for computations that self-drive to completion, and the
//! wakeup-aware executor is the authoritative model.

use vstd::prelude::*;

verus! {

use std::collections::VecDeque;
use crate::task::task::Task;

/// FIFO executor without wakeup support.
pub struct SimpleExecutor {
    task_queue: VecDeque<Task>,
}

impl SimpleExecutor {
    /// The queued tasks' identities, front first.
    pub closed spec fn queue(&self) -> Seq<u64> {
        self.task_queue@.map_values(|t: Task| t.spec_id())
    }

    pub fn new() -> (e: SimpleExecutor)
        ensures
            e.queue() == Seq::<u64>::empty(),
    {
        let e = SimpleExecutor { task_queue: VecDeque::new() };
        proof {
            assert(e.queue() =~= Seq::<u64>::empty());
        }
        e
    }

    /// Appends a task behind every task spawned before it.
    pub fn spawn(&mut self, task: Task)
        ensures
            final(self).queue() == old(self).queue().push(task.spec_id()),
    {
        let ghost q0 = self.queue();
        self.task_queue.push_back(task);
        proof {
            assert(self.queue() =~= q0.push(task.spec_id()));
        }
    }

    /// Hands out the front task for one poll.  Tasks come out in
    /// spawn order; a task the glue reports pending is simply
    /// dropped by this executor.
    pub fn take_next(&mut self) -> (r: Option<Task>)
        ensures
            match r {
                Some(task) => {
                    &&& old(self).queue().len() > 0
                    &&& task.spec_id() == old(self).queue()[0]
                    &&& final(self).queue() == old(self).queue().drop_first()
                },
                None => {
                    &&& old(self).queue().len() == 0
                    &&& final(self).queue() == old(self).queue()
                },
            },
    {
        let ghost q0 = self.queue();
        let r = self.task_queue.pop_front();
        proof {
            if q0.len() > 0 {
                assert(self.queue() =~= q0.drop_first());
            } else {
                assert(self.queue() =~= q0);
            }
        }
        r
    }
}

} // verus!
