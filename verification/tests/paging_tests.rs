use p0nd_os::memory::BootInfoFrameAllocator;
use p0nd_os::memory::EmptyFrameAllocator;
use p0nd_os::memory::MemoryRegion;
use p0nd_os::memory::PhysFrame;
use p0nd_os::paging::MappingError;
use p0nd_os::paging::Page;
use p0nd_os::paging::PageTableEntry;
use p0nd_os::paging::PageTableFlags;
use p0nd_os::paging::create_example_mapping;
use p0nd_os::paging::establish_virtual_memory;

fn boot_allocator() -> BootInfoFrameAllocator {
    BootInfoFrameAllocator::init(vec![MemoryRegion { start: 0x0, end: 0x100000, usable: true }])
}

#[test]
fn fresh_space_translates_nothing() {
    let space = establish_virtual_memory(0);
    assert_eq!(space.translate(0x0), None);
    assert_eq!(space.translate(0xb8000), None);
    assert_eq!(space.translate(0xdead_beef), None);
    assert_eq!(space.translate(u64::MAX), None);
}

#[test]
fn example_mapping_translates_to_vga_buffer() {
    // Map virtual page 0xb8000 to physical frame 0xb8000 with
    // present and writable flags, then translate 0xb8000 + 5.
    let mut space = establish_virtual_memory(0);
    let mut allocator = boot_allocator();
    let page = Page::containing_address(0xb8000);
    create_example_mapping(page, &mut space, &mut allocator).expect("mapping failed");
    assert_eq!(space.translate(0xb8000 + 5), Some(0xb8005));
    assert_eq!(space.translate(0xb8000), Some(0xb8000));
    assert_eq!(space.translate(0xb8000 + 4095), Some(0xb8fff));
}

#[test]
fn install_mapping_binds_page_to_frame() {
    let mut space = establish_virtual_memory(0);
    let mut allocator = boot_allocator();
    let page = Page::containing_address(0x4000_0000);
    let frame = PhysFrame::containing_address(0x7000);
    let flags = PageTableFlags { present: true, writable: true };
    space.install_mapping(page, frame, flags, &mut allocator).expect("mapping failed");
    assert_eq!(space.translate(0x4000_0000), Some(0x7000));
    assert_eq!(space.translate(0x4000_0123), Some(0x7123));
    // The neighbouring page stays unmapped.
    assert_eq!(space.translate(0x4000_1000), None);
}

#[test]
fn remapping_a_mapped_page_is_refused() {
    let mut space = establish_virtual_memory(0);
    let mut allocator = boot_allocator();
    let page = Page::containing_address(0xb8000);
    create_example_mapping(page, &mut space, &mut allocator).expect("first mapping failed");
    let second = create_example_mapping(page, &mut space, &mut allocator);
    assert_eq!(second, Err(MappingError::PageAlreadyMapped));
}

#[test]
fn exhausted_allocator_fails_the_mapping() {
    // A fresh space needs three intermediate tables, which the empty
    // allocator can never back.
    let mut space = establish_virtual_memory(0);
    let mut allocator = EmptyFrameAllocator;
    let page = Page::containing_address(0xb8000);
    let r = create_example_mapping(page, &mut space, &mut allocator);
    assert_eq!(r, Err(MappingError::FrameAllocationFailed));
}

#[test]
fn huge_parent_entry_is_refused() {
    let mut space = establish_virtual_memory(0);
    // Plant a huge-page entry where the walk for 0x2000 starts.
    space.level_4.entries[0] = PageTableEntry { present: true, writable: true, huge: true, addr: 0 };
    let mut allocator = boot_allocator();
    let page = Page::containing_address(0x2000);
    let frame = PhysFrame::containing_address(0x3000);
    let flags = PageTableFlags { present: true, writable: true };
    let r = space.install_mapping(page, frame, flags, &mut allocator);
    assert_eq!(r, Err(MappingError::ParentEntryHugePage));
}

#[test]
fn non_present_flags_leave_the_page_unmapped() {
    let mut space = establish_virtual_memory(0);
    let mut allocator = boot_allocator();
    let page = Page::containing_address(0x5000);
    let frame = PhysFrame::containing_address(0x9000);
    let flags = PageTableFlags { present: false, writable: false };
    space.install_mapping(page, frame, flags, &mut allocator).expect("install failed");
    assert_eq!(space.translate(0x5000), None);
}

#[test]
fn physical_addresses_are_reachable_through_the_offset() {
    let space = establish_virtual_memory(0x1_0000_0000);
    assert_eq!(space.phys_to_virt(0xb8000), 0x1_000b_8000);
    assert_eq!(space.phys_to_virt(0), 0x1_0000_0000);
}

#[test]
fn distinct_pages_keep_distinct_mappings() {
    let mut space = establish_virtual_memory(0);
    let mut allocator = boot_allocator();
    let flags = PageTableFlags { present: true, writable: true };
    let pairs: [(u64, u64); 3] = [(0x1000, 0x20000), (0x2000, 0x30000), (0x8000_0000, 0x40000)];
    for (va, pa) in pairs {
        let page = Page::containing_address(va);
        let frame = PhysFrame::containing_address(pa);
        space.install_mapping(page, frame, flags, &mut allocator).expect("install failed");
    }
    for (va, pa) in pairs {
        assert_eq!(space.translate(va), Some(pa));
        assert_eq!(space.translate(va + 7), Some(pa + 7));
    }
}
