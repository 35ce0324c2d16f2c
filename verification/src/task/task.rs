//! The unit of cooperative execution.
//!
//! A task wraps one suspension-capable computation behind a uniform
//! poll discipline: each poll either completes the task — after which
//! it must never be polled again — or leaves it pending.  The
//! computation itself lives with the unverified runtime glue, at a
//! stable storage address; the kernel tracks it through this record
//! under a stable identity.

use vstd::prelude::*;

verus! {

/// What one poll of a task's computation produced.
#[derive(Clone, Copy, Debug, PartialEq, Eq, Structural)]
pub enum TaskPoll {
    /// The computation finished; its output is discarded — the
    /// kernel only cares about its side effects.
    Ready,
    /// The computation suspended and waits to be woken.
    Pending,
}

/// The kernel's record of one not-yet-completed computation: its
/// stable identity with the runtime glue that owns the computation.
#[derive(Clone, Copy, Debug, PartialEq, Eq, Structural)]
pub struct Task {
    id: u64,
}

impl Task {
    /// The stable identity of the wrapped computation.
    pub closed spec fn spec_id(&self) -> u64 {
        self.id
    }

    /// Wraps the computation registered under `id` with the runtime
    /// glue.
    pub fn new(id: u64) -> (t: Task)
        ensures
            t.spec_id() == id,
    {
        Task { id }
    }

    pub fn id(&self) -> (r: u64)
        ensures
            r == self.spec_id(),
    {
        self.id
    }
}

} // verus!
