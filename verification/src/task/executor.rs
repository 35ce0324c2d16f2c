//! The wakeup-aware executor: the authoritative run-loop model.
//!
//! The executor tracks every spawned, not-yet-completed task and
//! keeps a FIFO ready queue of task identities.  The runtime glue
//! drives the loop: it takes the front ready task, polls the
//! computation, and reports the outcome.  A completed task leaves
//! the executor for good and is never polled again; a pending task
//! stays tracked but is re-queued only when its waker fires.  Waking
//! a task that is not tracked — already completed, or never spawned
//! — is a safe no-op, and wake signals arriving before the re-poll
//! coalesce: a task sits in the ready queue at most once.
//!
//! When the ready queue is empty the processor may idle.  To avoid
//! the missed-wakeup race, the glue must disable interrupts before
//! consulting `should_sleep` and re-enable them atomically with the
//! halt instruction, so an interrupt between check and halt is never
//! lost.

use vstd::prelude::*;

verus! {

use crate::task::task::Task;
use crate::task::task::TaskPoll;

/// No identity occurs twice.
pub open spec fn ids_unique(s: Seq<u64>) -> bool {
    forall|i: int, j: int| #![trigger s[i], s[j]] 0 <= i < j < s.len() ==> s[i] != s[j]
}

/// `s` without the (unique) occurrence of `id`, or `s` itself when
/// `id` is absent.
pub open spec fn remove_id(s: Seq<u64>, id: u64) -> Seq<u64> {
    if s.contains(id) {
        s.remove(s.index_of(id))
    } else {
        s
    }
}

/// FIFO executor with waker-driven re-queueing.
pub struct Executor {
    tasks: Vec<Task>,
    ready_queue: Vec<u64>,
}

impl Executor {
    /// Identities of every spawned, not-yet-completed task, in spawn
    /// order.
    pub closed spec fn tracked_ids(&self) -> Seq<u64> {
        self.tasks@.map_values(|t: Task| t.spec_id())
    }

    /// Identities ready to be polled, front first.
    pub closed spec fn ready(&self) -> Seq<u64> {
        self.ready_queue@
    }

    /// Identities are unique, and only tracked tasks wait in the
    /// ready queue.
    pub open spec fn inv(&self) -> bool {
        &&& ids_unique(self.tracked_ids())
        &&& ids_unique(self.ready())
        &&& forall|i: int|
            0 <= i < self.ready().len() ==> self.tracked_ids().contains(#[trigger] self.ready()[i])
    }

    pub fn new() -> (e: Executor)
        ensures
            e.inv(),
            e.tracked_ids() == Seq::<u64>::empty(),
            e.ready() == Seq::<u64>::empty(),
    {
        let e = Executor { tasks: Vec::new(), ready_queue: Vec::new() };
        proof {
            assert(e.tracked_ids() =~= Seq::<u64>::empty());
        }
        e
    }

    /// Takes a task in: it is tracked and immediately ready, behind
    /// everything spawned or woken before it.  Spawning a second
    /// task under a tracked identity is a design error, excluded
    /// outright.
    pub fn spawn(&mut self, task: Task)
        requires
            old(self).inv(),
            !old(self).tracked_ids().contains(task.spec_id()),
        ensures
            final(self).inv(),
            final(self).tracked_ids() == old(self).tracked_ids().push(task.spec_id()),
            final(self).ready() == old(self).ready().push(task.spec_id()),
    {
        let ghost t0 = self.tracked_ids();
        let id = task.id();
        self.tasks.push(task);
        self.ready_queue.push(id);
        proof {
            assert(self.tracked_ids() =~= t0.push(task.spec_id()));
            assert forall|i: int| 0 <= i < self.ready().len() implies self.tracked_ids().contains(
                #[trigger] self.ready()[i],
            ) by {
                if i < self.ready().len() - 1 {
                    let w = choose|k: int|
                        0 <= k < t0.len() && t0[k] == old(self).ready()[i];
                    assert(self.tracked_ids()[w] == old(self).ready()[i]);
                } else {
                    assert(self.tracked_ids()[t0.len() as int] == task.spec_id());
                }
            }
        }
    }

    /// Whether `id` belongs to a tracked task.
    fn tracked_contains(&self, id: u64) -> (r: bool)
        ensures
            r == self.tracked_ids().contains(id),
    {
        let mut i: usize = 0;
        while i < self.tasks.len()
            invariant
                0 <= i <= self.tasks.len(),
                forall|k: int| 0 <= k < i ==> self.tracked_ids()[k] != id,
            decreases self.tasks.len() - i,
        {
            if self.tasks[i].id() == id {
                proof {
                    assert(self.tracked_ids()[i as int] == id);
                }
                return true;
            }
            i = i + 1;
        }
        proof {
            if self.tracked_ids().contains(id) {
                let k = choose|k: int|
                    0 <= k < self.tracked_ids().len() && self.tracked_ids()[k] == id;
                assert(false);
            }
        }
        false
    }

    /// Whether `id` already waits in the ready queue.
    fn ready_contains(&self, id: u64) -> (r: bool)
        ensures
            r == self.ready().contains(id),
    {
        let mut i: usize = 0;
        while i < self.ready_queue.len()
            invariant
                0 <= i <= self.ready_queue.len(),
                forall|k: int| 0 <= k < i ==> self.ready()[k] != id,
            decreases self.ready_queue.len() - i,
        {
            if self.ready_queue[i] == id {
                proof {
                    assert(self.ready()[i as int] == id);
                }
                return true;
            }
            i = i + 1;
        }
        proof {
            if self.ready().contains(id) {
                let k = choose|k: int| 0 <= k < self.ready().len() && self.ready()[k] == id;
                assert(false);
            }
        }
        false
    }

    /// Marks `id` ready to be re-polled.  Nothing happens for an
    /// identity that is not tracked — a waker outliving its task is
    /// safe — or that already waits in the queue: wake signals
    /// coalesce.
    pub fn wake_task(&mut self, id: u64)
        requires
            old(self).inv(),
        ensures
            final(self).inv(),
            final(self).tracked_ids() == old(self).tracked_ids(),
            final(self).ready() == if old(self).tracked_ids().contains(id) && !old(
                self,
            ).ready().contains(id) {
                old(self).ready().push(id)
            } else {
                old(self).ready()
            },
    {
        if !self.tracked_contains(id) {
            return ;
        }
        if self.ready_contains(id) {
            return ;
        }
        self.ready_queue.push(id);
        proof {
            assert forall|i: int| 0 <= i < self.ready().len() implies self.tracked_ids().contains(
                #[trigger] self.ready()[i],
            ) by {
                if i == self.ready().len() - 1 {
                    assert(self.tracked_ids().contains(id));
                }
            }
        }
    }

    /// Hands out the front ready task for one poll, or reports an
    /// empty queue.  Every identity handed out is a tracked task.
    pub fn take_next(&mut self) -> (r: Option<u64>)
        requires
            old(self).inv(),
        ensures
            final(self).inv(),
            final(self).tracked_ids() == old(self).tracked_ids(),
            match r {
                Some(id) => {
                    &&& old(self).ready().len() > 0
                    &&& id == old(self).ready()[0]
                    &&& old(self).tracked_ids().contains(id)
                    &&& !final(self).ready().contains(id)
                    &&& final(self).ready() == old(self).ready().drop_first()
                },
                None => {
                    &&& old(self).ready().len() == 0
                    &&& final(self).ready() == old(self).ready()
                },
            },
    {
        if self.ready_queue.len() == 0 {
            return None;
        }
        let id = self.ready_queue.remove(0);
        proof {
            assert(self.ready() =~= old(self).ready().drop_first());
            assert(old(self).tracked_ids().contains(old(self).ready()[0]));
            if self.ready().contains(id) {
                let k = choose|k: int| 0 <= k < self.ready().len() && self.ready()[k] == id;
                assert(old(self).ready()[k + 1] == old(self).ready()[0]);
            }
        }
        Some(id)
    }

    /// Records the outcome the runtime glue observed when it polled
    /// the task it last took: a completed task leaves the executor
    /// for good and can never be polled again, a pending task stays
    /// tracked and waits for its waker.
    #[verifier::loop_isolation(false)]
    pub fn report_poll(&mut self, id: u64, outcome: TaskPoll)
        requires
            old(self).inv(),
            !old(self).ready().contains(id),
        ensures
            final(self).inv(),
            final(self).ready() == old(self).ready(),
            final(self).tracked_ids() == if outcome is Ready {
                remove_id(old(self).tracked_ids(), id)
            } else {
                old(self).tracked_ids()
            },
    {
        match outcome {
            TaskPoll::Pending => {},
            TaskPoll::Ready => {
                let ghost t0 = self.tracked_ids();
                let mut i: usize = 0;
                while i < self.tasks.len()
                    invariant
                        0 <= i <= self.tasks.len(),
                        forall|k: int| 0 <= k < i ==> t0[k] != id,
                        *self == *old(self),
                        t0 == self.tracked_ids(),
                    decreases self.tasks.len() - i,
                {
                    if self.tasks[i].id() == id {
                        self.tasks.remove(i);
                        proof {
                            assert(t0[i as int] == id);
                            assert(t0.contains(id));
                            assert(ids_unique(t0));
                            assert(t0[t0.index_of(id)] == id);
                            assert(t0.index_of(id) == i as int);
                            assert(self.tracked_ids() =~= t0.remove(i as int));
                            lemma_remove_keeps_others(t0, i as int);
                            assert forall|k: int|
                                0 <= k < self.ready().len() implies self.tracked_ids().contains(
                                #[trigger] self.ready()[k],
                            ) by {
                                assert(self.ready()[k] != id);
                                assert(t0.contains(self.ready()[k]));
                            }
                        }
                        return ;
                    }
                    i = i + 1;
                }
                proof {
                    assert(!t0.contains(id));
                }
            },
        }
    }

    /// The idle decision: the processor may halt exactly when no
    /// task waits to be polled.  The glue must take interrupts down
    /// before asking and bring them up atomically with the halt.
    pub fn should_sleep(&self) -> (r: bool)
        ensures
            r == (self.ready().len() == 0),
    {
        self.ready_queue.len() == 0
    }
}

/// Removing one position keeps every other value present, and keeps
/// uniqueness.
proof fn lemma_remove_keeps_others(s: Seq<u64>, i: int)
    requires
        ids_unique(s),
        0 <= i < s.len(),
    ensures
        ids_unique(s.remove(i)),
        forall|x: u64| s.contains(x) && x != s[i] ==> (#[trigger] s.remove(i).contains(x)),
{
    let r = s.remove(i);
    assert forall|x: u64| s.contains(x) && x != s[i] implies (#[trigger] r.contains(x)) by {
        let k = choose|k: int| 0 <= k < s.len() && s[k] == x;
        if k < i {
            assert(r[k] == x);
        } else {
            assert(r[k - 1] == x);
        }
    }
}

/// A waiting task can never move backwards in the ready queue: one
/// executor pass hands out exactly the front task, advancing every
/// other waiting task one position, and a newly spawned or woken
/// task joins behind everything already waiting.
pub proof fn lemma_no_overtake(q: Seq<u64>, i: int, newcomer: u64)
    requires
        0 <= i < q.len(),
    ensures
        i >= 1 ==> q.drop_first()[i - 1] == q[i],
        q.push(newcomer)[i] == q[i],
{
}

/// One full executor pass as the ready queue sees it: the front task
/// is taken and polled; if the glue reports it pending and its waker
/// fires it re-enters at the back, otherwise it leaves the queue.
pub open spec fn pass(q: Seq<u64>, requeue_front: bool) -> Seq<u64> {
    if q.len() == 0 {
        q
    } else if requeue_front {
        q.drop_first().push(q[0])
    } else {
        q.drop_first()
    }
}

/// The ready queue after `n` passes, one requeue decision per pass.
pub open spec fn run_passes(q: Seq<u64>, requeue: Seq<bool>, n: int) -> Seq<u64>
    decreases n,
{
    if n <= 0 {
        q
    } else {
        run_passes(pass(q, requeue[0]), requeue.drop_first(), n - 1)
    }
}

/// Executor liveness: a task `i` places from the front of the ready
/// queue is the one polled on its `i + 1`-th pass, whatever becomes
/// of the tasks ahead of it — completed and gone, or pending and
/// re-queued behind it.  A task that never completes but always
/// yields costs every other task one poll per pass, never its turn.
pub proof fn lemma_fifo_liveness(q: Seq<u64>, requeue: Seq<bool>, i: int)
    requires
        0 <= i < q.len(),
        requeue.len() >= i,
    ensures
        run_passes(q, requeue, i)[0] == q[i],
    decreases i,
{
    if i > 0 {
        lemma_fifo_liveness(pass(q, requeue[0]), requeue.drop_first(), i - 1);
    }
}

} // verus!
