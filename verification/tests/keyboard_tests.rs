use futures_util::task::noop_waker;
use p0nd_os::task::keyboard::ScancodePoll;
use p0nd_os::task::keyboard::ScancodeStream;
use p0nd_os::task::keyboard::add_scancode;
use p0nd_os::task::keyboard::add_scancodes;

#[test]
fn polling_an_empty_stream_yields_pending() {
    let waker = noop_waker();
    let mut stream = ScancodeStream::new();
    assert_eq!(stream.poll_next(&waker), ScancodePoll::Pending);
    assert_eq!(stream.poll_next(&waker), ScancodePoll::Pending);
}

#[test]
fn queued_scancodes_come_out_fifo() {
    let waker = noop_waker();
    let mut stream = ScancodeStream::new();
    assert!(add_scancode(&mut stream, 0x1e));
    assert!(add_scancode(&mut stream, 0x30));
    assert!(add_scancode(&mut stream, 0x2e));
    assert_eq!(stream.poll_next(&waker), ScancodePoll::Ready(0x1e));
    assert_eq!(stream.poll_next(&waker), ScancodePoll::Ready(0x30));
    assert_eq!(stream.poll_next(&waker), ScancodePoll::Ready(0x2e));
    assert_eq!(stream.poll_next(&waker), ScancodePoll::Pending);
}

#[test]
fn overflow_drops_only_the_excess() {
    // Push more bytes than the ring's capacity of 100: the first 100
    // are kept and later retrievable in FIFO order; only the excess
    // is dropped, and nothing crashes.
    let waker = noop_waker();
    let mut stream = ScancodeStream::new();
    let burst: Vec<u8> = (0..105u32).map(|i| (i % 256) as u8).collect();
    let accepted = add_scancodes(&mut stream, &burst);
    assert_eq!(accepted, 100);
    for expected in 0..100u8 {
        assert_eq!(stream.poll_next(&waker), ScancodePoll::Ready(expected));
    }
    assert_eq!(stream.poll_next(&waker), ScancodePoll::Pending);
}

#[test]
fn a_full_ring_reports_the_drop() {
    let mut stream = ScancodeStream::new();
    for i in 0..100u8 {
        assert!(add_scancode(&mut stream, i));
    }
    // The producer must never block: the byte is dropped and the
    // caller told, so it can emit the diagnostic.
    assert!(!add_scancode(&mut stream, 0xff));
}

#[test]
fn draining_makes_room_again() {
    let waker = noop_waker();
    let mut stream = ScancodeStream::new();
    for i in 0..100u8 {
        assert!(add_scancode(&mut stream, i));
    }
    assert!(!add_scancode(&mut stream, 0xaa));
    assert_eq!(stream.poll_next(&waker), ScancodePoll::Ready(0));
    assert!(add_scancode(&mut stream, 0xaa));
}
