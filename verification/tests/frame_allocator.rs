use p0nd_os::memory::BootInfoFrameAllocator;
use p0nd_os::memory::EmptyFrameAllocator;
use p0nd_os::memory::FrameAllocator;
use p0nd_os::memory::MemoryRegion;

fn usable(start: u64, end: u64) -> MemoryRegion {
    MemoryRegion { start, end, usable: true }
}

fn reserved(start: u64, end: u64) -> MemoryRegion {
    MemoryRegion { start, end, usable: false }
}

#[test]
fn one_region_yields_each_frame_once_then_absence() {
    // One usable region of 0x0..0x100000: 256 frames of 4 KiB.
    let map = vec![usable(0x0, 0x100000)];
    let mut allocator = BootInfoFrameAllocator::init(map);
    let mut previous: Option<u64> = None;
    for i in 0..256u64 {
        let frame = allocator.allocate_frame().expect("allocator ran dry early");
        assert_eq!(frame.start, i * 4096);
        if let Some(p) = previous {
            assert!(frame.start > p);
        }
        previous = Some(frame.start);
    }
    // The 257th call reports absence.
    assert!(allocator.allocate_frame().is_none());
    // Exhaustion is permanent.
    assert!(allocator.allocate_frame().is_none());
}

#[test]
fn reserved_regions_are_skipped() {
    let map = vec![
        reserved(0x0, 0x4000),
        usable(0x4000, 0x6000),
        reserved(0x6000, 0x8000),
        usable(0x9000, 0xa000),
    ];
    let mut allocator = BootInfoFrameAllocator::init(map);
    assert_eq!(allocator.allocate_frame().unwrap().start, 0x4000);
    assert_eq!(allocator.allocate_frame().unwrap().start, 0x5000);
    assert_eq!(allocator.allocate_frame().unwrap().start, 0x9000);
    assert!(allocator.allocate_frame().is_none());
}

#[test]
fn partial_trailing_frame_counts_once() {
    // A region of two and a half frames still yields three stride
    // addresses, like stepping the range by 4096.
    let map = vec![usable(0x1000, 0x3800)];
    let mut allocator = BootInfoFrameAllocator::init(map);
    assert_eq!(allocator.allocate_frame().unwrap().start, 0x1000);
    assert_eq!(allocator.allocate_frame().unwrap().start, 0x2000);
    assert_eq!(allocator.allocate_frame().unwrap().start, 0x3000);
    assert!(allocator.allocate_frame().is_none());
}

#[test]
fn returned_frames_are_aligned() {
    let map = vec![usable(0x0, 0x10000)];
    let mut allocator = BootInfoFrameAllocator::init(map);
    while let Some(frame) = allocator.allocate_frame() {
        assert_eq!(frame.start % 4096, 0);
    }
}

#[test]
fn empty_allocator_always_refuses() {
    let mut allocator = EmptyFrameAllocator;
    assert!(allocator.allocate_frame().is_none());
    assert!(allocator.allocate_frame().is_none());
}

#[test]
fn empty_map_is_exhausted_at_once() {
    let map: Vec<MemoryRegion> = Vec::new();
    let mut allocator = BootInfoFrameAllocator::init(map);
    assert!(allocator.allocate_frame().is_none());
}
