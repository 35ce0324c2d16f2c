//! The interrupt vector subsystem: a write-once descriptor table and
//! the delivery discipline for the two vectors this kernel serves.
//!
//! The table goes from unloaded to loaded exactly once at boot, with
//! every required vector bound before the load; after that it is
//! read-only for the rest of the kernel's life.  The breakpoint
//! vector is recoverable: its handler records the captured machine
//! state and returns, so execution resumes at the saved successor
//! instruction.  The double-fault vector is fatal: it runs on a
//! dedicated alternate stack — chosen by an index supplied by the
//! descriptor-table collaborator — so it stays reachable even when
//! the ordinary stack is exhausted or corrupted, and it halts the
//! machine after recording the state.  Issuing the hardware load
//! instruction itself, and the handlers' diagnostic printing, belong
//! to the unverified boot glue around this model.

use vstd::prelude::*;

verus! {

/// Vector -> handler bindings relevant to this kernel, plus the
/// loaded flag of the one-shot boot transition.
pub struct InterruptDescriptorTable {
    /// The breakpoint vector has its handler bound.
    pub breakpoint_bound: bool,
    /// The double-fault vector has its handler bound.
    pub double_fault_bound: bool,
    /// Index of the dedicated alternate stack the double-fault
    /// handler runs on, if one was configured.
    pub double_fault_stack_index: Option<u8>,
    /// The table has been handed to the CPU; no further mutation is
    /// permitted.
    pub loaded: bool,
}

impl InterruptDescriptorTable {
    /// A fresh table: nothing bound, not loaded.
    pub fn new() -> (idt: InterruptDescriptorTable)
        ensures
            !idt.breakpoint_bound,
            !idt.double_fault_bound,
            idt.double_fault_stack_index is None,
            !idt.loaded,
    {
        InterruptDescriptorTable {
            breakpoint_bound: false,
            double_fault_bound: false,
            double_fault_stack_index: None,
            loaded: false,
        }
    }

    /// Binds the breakpoint handler.  Rebinding a loaded table is a
    /// design error, excluded outright.
    pub fn bind_breakpoint(&mut self)
        requires
            !old(self).loaded,
        ensures
            *final(self) == (InterruptDescriptorTable { breakpoint_bound: true, ..*old(self) }),
    {
        self.breakpoint_bound = true;
    }

    /// Binds the double-fault handler and selects the alternate stack
    /// it runs on.
    pub fn bind_double_fault(&mut self, stack_index: u8)
        requires
            !old(self).loaded,
        ensures
            *final(self) == (InterruptDescriptorTable {
                double_fault_bound: true,
                double_fault_stack_index: Some(stack_index),
                ..*old(self)
            }),
    {
        self.double_fault_bound = true;
        self.double_fault_stack_index = Some(stack_index);
    }

    /// The one-shot unloaded-to-loaded transition.  Every vector this
    /// kernel requires must be bound first.
    pub fn load(&mut self)
        requires
            !old(self).loaded,
            old(self).breakpoint_bound,
            old(self).double_fault_bound,
            old(self).double_fault_stack_index is Some,
        ensures
            *final(self) == (InterruptDescriptorTable { loaded: true, ..*old(self) }),
    {
        self.loaded = true;
    }
}

/// Builds the kernel's descriptor table with both required vectors
/// bound — the double-fault handler on the alternate stack named by
/// the descriptor-table collaborator — and performs the one-shot
/// load.
pub fn init_idt(double_fault_stack_index: u8) -> (idt: InterruptDescriptorTable)
    ensures
        idt.loaded,
        idt.breakpoint_bound,
        idt.double_fault_bound,
        idt.double_fault_stack_index == Some(double_fault_stack_index),
{
    let mut idt = InterruptDescriptorTable::new();
    idt.bind_breakpoint();
    idt.bind_double_fault(double_fault_stack_index);
    idt.load();
    idt
}

/// The machine state captured when an exception is delivered.
#[derive(Clone, Copy, Debug, PartialEq, Eq, Structural)]
pub struct InterruptStackFrame {
    /// Where execution continues if the handler returns; for a
    /// breakpoint the hardware saves the instruction after the
    /// breakpoint instruction.
    pub instruction_pointer: u64,
    pub stack_pointer: u64,
    pub cpu_flags: u64,
}

/// The exception vectors this kernel binds.
#[derive(Clone, Copy, Debug, PartialEq, Eq, Structural)]
pub enum InterruptVector {
    Breakpoint,
    DoubleFault,
}

/// What becomes of an exception once delivery is attempted.
#[derive(Clone, Copy, Debug, PartialEq, Eq, Structural)]
pub enum InterruptOutcome {
    /// The handler ran and returned; execution resumes at this
    /// address.
    Resumed { at: u64 },
    /// The handler ran, logged the state, and halted for good.
    Halted,
    /// No handler could be reached; the machine resets.
    TripleFault,
}

/// Delivery discipline of the hardware: a breakpoint with a bound
/// handler and a usable stack resumes; anything else escalates to
/// the double-fault path, which reaches its handler — and halts —
/// whenever it is bound and either has its own alternate stack or
/// the ordinary stack still works.
pub open spec fn spec_dispatch(
    idt: InterruptDescriptorTable,
    vector: InterruptVector,
    frame: InterruptStackFrame,
    stack_usable: bool,
) -> InterruptOutcome {
    match vector {
        InterruptVector::Breakpoint => if idt.breakpoint_bound && stack_usable {
            InterruptOutcome::Resumed { at: frame.instruction_pointer }
        } else {
            spec_deliver_double_fault(idt, stack_usable)
        },
        InterruptVector::DoubleFault => spec_deliver_double_fault(idt, stack_usable),
    }
}

/// The double-fault path: reachable on the alternate stack however
/// the ordinary stack was lost.
pub open spec fn spec_deliver_double_fault(
    idt: InterruptDescriptorTable,
    stack_usable: bool,
) -> InterruptOutcome {
    if idt.double_fault_bound && (idt.double_fault_stack_index is Some || stack_usable) {
        InterruptOutcome::Halted
    } else {
        InterruptOutcome::TripleFault
    }
}

/// Delivers one exception against the loaded table.
pub fn dispatch_interrupt(
    idt: &InterruptDescriptorTable,
    vector: InterruptVector,
    frame: InterruptStackFrame,
    stack_usable: bool,
) -> (outcome: InterruptOutcome)
    requires
        idt.loaded,
    ensures
        outcome == spec_dispatch(*idt, vector, frame, stack_usable),
{
    match vector {
        InterruptVector::Breakpoint => {
            if idt.breakpoint_bound && stack_usable {
                let resume_at = breakout_handler(frame);
                InterruptOutcome::Resumed { at: resume_at }
            } else {
                deliver_double_fault(idt, stack_usable)
            }
        },
        InterruptVector::DoubleFault => deliver_double_fault(idt, stack_usable),
    }
}

/// The breakpoint handler: records the captured state and returns
/// normally, so execution resumes at the saved successor
/// instruction.  The recorded state is printed by the boot glue.
pub fn breakout_handler(stack_frame: InterruptStackFrame) -> (resume_at: u64)
    ensures
        resume_at == stack_frame.instruction_pointer,
{
    stack_frame.instruction_pointer
}

/// Attempts double-fault delivery: with a bound handler on a
/// dedicated alternate stack this always reaches the handler, which
/// halts; without one, a dead stack means a machine reset.
fn deliver_double_fault(idt: &InterruptDescriptorTable, stack_usable: bool) -> (outcome:
    InterruptOutcome)
    ensures
        outcome == spec_deliver_double_fault(*idt, stack_usable),
{
    if idt.double_fault_bound && (idt.double_fault_stack_index.is_some() || stack_usable) {
        InterruptOutcome::Halted
    } else {
        InterruptOutcome::TripleFault
    }
}

/// A breakpoint against the boot-configured table round-trips:
/// the handler runs and control returns exactly to the instruction
/// after the breakpoint.
pub proof fn lemma_breakpoint_round_trip(idt: InterruptDescriptorTable, frame: InterruptStackFrame)
    requires
        idt.breakpoint_bound,
    ensures
        spec_dispatch(idt, InterruptVector::Breakpoint, frame, true) == (InterruptOutcome::Resumed {
            at: frame.instruction_pointer,
        }),
{
}

/// With the double-fault handler bound on its own alternate stack,
/// exhausting the ordinary stack — or faulting inside another
/// handler — reaches that handler and halts: never a triple fault,
/// whatever the state of the ordinary stack.
pub proof fn lemma_double_fault_halts(
    idt: InterruptDescriptorTable,
    frame: InterruptStackFrame,
    stack_usable: bool,
)
    requires
        idt.double_fault_bound,
        idt.double_fault_stack_index is Some,
    ensures
        spec_dispatch(idt, InterruptVector::DoubleFault, frame, stack_usable)
            == InterruptOutcome::Halted,
        spec_dispatch(idt, InterruptVector::DoubleFault, frame, stack_usable)
            != InterruptOutcome::TripleFault,
{
}

} // verus!
