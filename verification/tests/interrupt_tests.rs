use p0nd_os::interrupts::InterruptDescriptorTable;
use p0nd_os::interrupts::InterruptOutcome;
use p0nd_os::interrupts::InterruptStackFrame;
use p0nd_os::interrupts::InterruptVector;
use p0nd_os::interrupts::dispatch_interrupt;
use p0nd_os::interrupts::init_idt;

fn frame(instruction_pointer: u64) -> InterruptStackFrame {
    InterruptStackFrame { instruction_pointer, stack_pointer: 0x5000, cpu_flags: 0x202 }
}

#[test]
fn init_idt_loads_with_both_vectors_bound() {
    let idt = init_idt(1);
    assert!(idt.loaded);
    assert!(idt.breakpoint_bound);
    assert!(idt.double_fault_bound);
    assert_eq!(idt.double_fault_stack_index, Some(1));
}

#[test]
fn breakpoint_resumes_at_the_following_instruction() {
    // The hardware saves the address after the breakpoint
    // instruction; the handler returns there.
    let idt = init_idt(1);
    let outcome = dispatch_interrupt(&idt, InterruptVector::Breakpoint, frame(0x1001), true);
    assert_eq!(outcome, InterruptOutcome::Resumed { at: 0x1001 });
}

#[test]
fn double_fault_halts_on_its_alternate_stack() {
    // Even with the ordinary stack exhausted, the handler is
    // reached exactly once and halts: no triple fault.
    let idt = init_idt(1);
    let dead_stack = dispatch_interrupt(&idt, InterruptVector::DoubleFault, frame(0x2000), false);
    assert_eq!(dead_stack, InterruptOutcome::Halted);
    let live_stack = dispatch_interrupt(&idt, InterruptVector::DoubleFault, frame(0x2000), true);
    assert_eq!(live_stack, InterruptOutcome::Halted);
}

#[test]
fn breakpoint_on_a_dead_stack_escalates_to_double_fault() {
    let idt = init_idt(1);
    let outcome = dispatch_interrupt(&idt, InterruptVector::Breakpoint, frame(0x3000), false);
    assert_eq!(outcome, InterruptOutcome::Halted);
}

#[test]
fn without_an_alternate_stack_a_dead_stack_resets_the_machine() {
    // A table that skipped the alternate-stack setup — impossible
    // through `init_idt` — would triple-fault here.
    let idt = InterruptDescriptorTable {
        breakpoint_bound: true,
        double_fault_bound: true,
        double_fault_stack_index: None,
        loaded: true,
    };
    let outcome = dispatch_interrupt(&idt, InterruptVector::DoubleFault, frame(0x4000), false);
    assert_eq!(outcome, InterruptOutcome::TripleFault);
}
