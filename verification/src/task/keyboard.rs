//! The scancode stream: interrupt-context production bridged to one
//! task-context consumer.
//!
//! The keyboard interrupt handler pushes raw scancode bytes into a
//! bounded lock-free ring; the producer never blocks — a byte that
//! finds the ring full is dropped, observable only as a diagnostic.
//! The consumer task drains the ring one byte per poll; when the
//! ring is empty it registers its waker in a single-slot,
//! overwrite-on-register cell and re-checks once, closing the race
//! with a byte that arrived in between, before yielding pending.
//! Decoding the bytes into key events is a pluggable collaborator of
//! the unverified glue, not part of this core.

use vstd::prelude::*;

verus! {

use core::task::Waker;

/// Declared so the consumer's waker can appear in signatures; its
/// contents stay opaque here.
#[verifier::external_type_specification]
#[verifier::external_body]
pub struct ExWaker(Waker);

/// How many scancodes the ring holds before it drops input.
pub const SCANCODE_QUEUE_CAPACITY: usize = 100;

/// The state shared between the interrupt-context producer and the
/// consumer task: the bounded scancode ring and the single-slot
/// waker cell.  The verified logic reads it through `queued` and
/// `capacity` alone.
#[verifier::external_body]
pub struct ScancodeQueue {
    queue: crossbeam_queue::ArrayQueue<u8>,
    waker: futures_util::task::AtomicWaker,
}

/// The bytes waiting in the ring, oldest first.
pub uninterp spec fn queued(q: ScancodeQueue) -> Seq<u8>;

/// The fixed capacity the ring was created with.
pub uninterp spec fn capacity(q: ScancodeQueue) -> nat;

impl ScancodeQueue {
    /// Relies on crossbeam_queue::ArrayQueue::new for an empty ring
    /// of the given capacity, and on
    /// futures_util::task::AtomicWaker::new for an empty waker slot.
    /// ArrayQueue::new panics on a zero capacity and on one too
    /// large for its slot buffer; both are excluded here.
    #[verifier::external_body]
    fn new(cap: usize) -> (q: ScancodeQueue)
        requires
            0 < cap <= 0x10000,
        ensures
            queued(q) == Seq::<u8>::empty(),
            capacity(q) == cap,
    {
        ScancodeQueue {
            queue: crossbeam_queue::ArrayQueue::new(cap),
            waker: futures_util::task::AtomicWaker::new(),
        }
    }

    /// Relies on crossbeam_queue::ArrayQueue::push: a ring below its
    /// capacity takes the byte at the back; a full ring hands it
    /// back and stays as it is.
    #[verifier::external_body]
    fn push_scancode(&mut self, scancode: u8) -> (accepted: bool)
        ensures
            capacity(*final(self)) == capacity(*old(self)),
            accepted <==> queued(*old(self)).len() < capacity(*old(self)),
            queued(*final(self)) == if accepted {
                queued(*old(self)).push(scancode)
            } else {
                queued(*old(self))
            },
    {
        self.queue.push(scancode).is_ok()
    }

    /// Relies on crossbeam_queue::ArrayQueue::pop: takes the oldest
    /// byte, or reports an empty ring.
    #[verifier::external_body]
    fn pop_scancode(&mut self) -> (r: Option<u8>)
        ensures
            capacity(*final(self)) == capacity(*old(self)),
            match r {
                Some(scancode) => {
                    &&& queued(*old(self)).len() > 0
                    &&& scancode == queued(*old(self))[0]
                    &&& queued(*final(self)) == queued(*old(self)).drop_first()
                },
                None => {
                    &&& queued(*old(self)).len() == 0
                    &&& queued(*final(self)) == queued(*old(self))
                },
            },
    {
        self.queue.pop()
    }

    /// Relies on futures_util::task::AtomicWaker::register: stores
    /// the consumer's waker in the slot, replacing any previous one;
    /// the ring contents are untouched.
    #[verifier::external_body]
    fn register_waker(&mut self, waker: &Waker)
        ensures
            capacity(*final(self)) == capacity(*old(self)),
            queued(*final(self)) == queued(*old(self)),
    {
        self.waker.register(waker);
    }

    /// Relies on futures_util::task::AtomicWaker::take: empties the
    /// waker slot; the ring contents are untouched.
    #[verifier::external_body]
    fn take_waker(&mut self) -> (w: Option<Waker>)
        ensures
            capacity(*final(self)) == capacity(*old(self)),
            queued(*final(self)) == queued(*old(self)),
    {
        self.waker.take()
    }

    /// Relies on futures_util::task::AtomicWaker::wake: takes and
    /// invokes the registered waker, if any; the ring contents are
    /// untouched.  The invoked waker itself is the consumer's — its
    /// wake must return normally, as the executor's wakers do.
    #[verifier::external_body]
    fn wake_consumer(&mut self)
        ensures
            capacity(*final(self)) == capacity(*old(self)),
            queued(*final(self)) == queued(*old(self)),
    {
        self.waker.wake();
    }
}

/// What one poll of the consumer produced.  The stream itself never
/// ends, so readiness always carries a byte.
#[derive(Clone, Copy, Debug, PartialEq, Eq, Structural)]
pub enum ScancodePoll {
    Ready(u8),
    Pending,
}

/// The consumer's end of the scancode ring.  One live consumer
/// exists per kernel: the unverified glue keeps the stream in its
/// process-wide write-once cell, and constructing it twice there is
/// a programmer error, not a recoverable condition.
pub struct ScancodeStream {
    queue: ScancodeQueue,
}

impl ScancodeStream {
    /// The bytes waiting for the consumer, oldest first.
    pub closed spec fn scancodes(&self) -> Seq<u8> {
        queued(self.queue)
    }

    /// The ring's fixed capacity.
    pub closed spec fn spec_capacity(&self) -> nat {
        capacity(self.queue)
    }

    /// The ring never holds more than its capacity.  Every
    /// construction and operation of the stream maintains this.
    pub open spec fn wf(&self) -> bool {
        self.scancodes().len() <= self.spec_capacity()
    }

    /// Brings up the stream over a fresh, empty ring.
    pub fn new() -> (s: ScancodeStream)
        ensures
            s.wf(),
            s.scancodes() == Seq::<u8>::empty(),
            s.spec_capacity() == SCANCODE_QUEUE_CAPACITY,
    {
        ScancodeStream { queue: ScancodeQueue::new(SCANCODE_QUEUE_CAPACITY) }
    }

    /// One consumer poll: drain the oldest byte if one waits;
    /// otherwise register the waker and re-check once — a byte that
    /// arrived in between is taken immediately and the waker slot
    /// cleared — before yielding pending.
    pub fn poll_next(&mut self, waker: &Waker) -> (r: ScancodePoll)
        requires
            old(self).wf(),
        ensures
            final(self).wf(),
            final(self).spec_capacity() == old(self).spec_capacity(),
            match r {
                ScancodePoll::Ready(scancode) => {
                    &&& old(self).scancodes().len() > 0
                    &&& scancode == old(self).scancodes()[0]
                    &&& final(self).scancodes() == old(self).scancodes().drop_first()
                },
                ScancodePoll::Pending => {
                    &&& old(self).scancodes().len() == 0
                    &&& final(self).scancodes() == old(self).scancodes()
                },
            },
    {
        match self.queue.pop_scancode() {
            Some(scancode) => {
                return ScancodePoll::Ready(scancode);
            },
            None => {},
        }
        self.queue.register_waker(waker);
        match self.queue.pop_scancode() {
            Some(scancode) => {
                self.queue.take_waker();
                ScancodePoll::Ready(scancode)
            },
            None => ScancodePoll::Pending,
        }
    }
}

/// The producer's entry point, called by the keyboard interrupt
/// handler: queue one byte and wake the consumer.  It never blocks:
/// a full ring drops the byte and reports `false`, and the caller
/// emits the diagnostic — a dropped scancode is never a crash.
pub fn add_scancode(stream: &mut ScancodeStream, scancode: u8) -> (accepted: bool)
    requires
        old(stream).wf(),
    ensures
        final(stream).wf(),
        final(stream).spec_capacity() == old(stream).spec_capacity(),
        accepted <==> old(stream).scancodes().len() < old(stream).spec_capacity(),
        final(stream).scancodes() == if accepted {
            old(stream).scancodes().push(scancode)
        } else {
            old(stream).scancodes()
        },
{
    if stream.queue.push_scancode(scancode) {
        stream.queue.wake_consumer();
        true
    } else {
        false
    }
}

/// A whole burst of scancodes, queued in order: everything up to the
/// ring's free space is kept FIFO, and only the excess is dropped.
pub fn add_scancodes(stream: &mut ScancodeStream, scancodes: &Vec<u8>) -> (accepted_count: usize)
    requires
        old(stream).wf(),
    ensures
        final(stream).wf(),
        final(stream).spec_capacity() == old(stream).spec_capacity(),
        accepted_count == if scancodes@.len() <= old(stream).spec_capacity() - old(
            stream,
        ).scancodes().len() {
            scancodes@.len() as int
        } else {
            old(stream).spec_capacity() - old(stream).scancodes().len()
        },
        final(stream).scancodes() == old(stream).scancodes() + scancodes@.take(
            accepted_count as int,
        ),
{
    let ghost s0 = stream.scancodes();
    let ghost space = stream.spec_capacity() - stream.scancodes().len();
    let mut accepted_count: usize = 0;
    let mut i: usize = 0;
    proof {
        assert(s0 + scancodes@.take(0) =~= s0);
    }
    #[verifier::loop_isolation(false)]
    while i < scancodes.len()
        invariant
            0 <= i <= scancodes@.len(),
            stream.wf(),
            stream.spec_capacity() == old(stream).spec_capacity(),
            accepted_count == if i as int <= space {
                i as int
            } else {
                space
            },
            stream.scancodes() == s0 + scancodes@.take(accepted_count as int),
        decreases scancodes@.len() - i,
    {
        let accepted = add_scancode(stream, scancodes[i]);
        proof {
            if accepted {
                assert(s0 + scancodes@.take(accepted_count as int + 1) =~= (s0 + scancodes@.take(
                    accepted_count as int,
                )).push(scancodes@[i as int]));
            }
        }
        if accepted {
            accepted_count = accepted_count + 1;
        }
        i = i + 1;
    }
    accepted_count
}

} // verus!
