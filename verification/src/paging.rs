//! The four-level page-table model: walking, translation and mapping
//! installation.
//!
//! Hardware keeps page tables in physical frames and software reaches
//! them through the boot-time offset mapping: physical address `P` is
//! readable at virtual address `offset + P` for the kernel's whole
//! life.  This model holds each level's tables as explicit data, and
//! an intermediate entry names the next-level table directly; the
//! frame backing a new table still comes out of the frame allocator,
//! so the allocation discipline is the same as on hardware.  Leaf
//! entries hold the physical frame start address itself.
//!
//! A virtual address decomposes into four 9-bit table indices and a
//! 12-bit page offset; translation resolves one entry per level.  An
//! entry that is not present ends the walk with absence — an unmapped
//! address is a first-class outcome, not an error.  A huge-page entry
//! is unsupported here and is reported as a distinct failure rather
//! than a wrong answer.

use vstd::prelude::*;

verus! {

use crate::FRAME_SIZE;
use crate::memory::FrameAllocator;
use crate::memory::PhysFrame;
use crate::memory::align_down;

/// Entries per table at every level.
pub const ENTRY_COUNT: usize = 512;

/// One page-table entry: presence and writability flags, the
/// huge-page marker, and the target address — the next-level table
/// for levels 4 to 2, the mapped frame's start address at level 1.
#[derive(Clone, Copy, Debug, PartialEq, Eq, Structural)]
pub struct PageTableEntry {
    pub present: bool,
    pub writable: bool,
    pub huge: bool,
    pub addr: u64,
}

impl PageTableEntry {
    /// An entry mapping nothing.
    pub fn absent() -> (e: PageTableEntry)
        ensures
            !e.present,
            !e.huge,
    {
        PageTableEntry { present: false, writable: false, huge: false, addr: 0 }
    }
}

/// One hardware page table: a fixed run of entries.
#[derive(Debug)]
pub struct PageTable {
    pub entries: Vec<PageTableEntry>,
}

/// A table has exactly its hardware-defined number of entries.
pub open spec fn table_wf(t: PageTable) -> bool {
    t.entries.len() == ENTRY_COUNT
}

/// A table whose entries map nothing.
pub open spec fn table_empty(t: PageTable) -> bool {
    forall|i: int| 0 <= i < t.entries.len() ==> !(#[trigger] t.entries@[i]).present
}

/// Builds a table with every entry absent.
fn empty_table() -> (t: PageTable)
    ensures
        table_wf(t),
        table_empty(t),
{
    let mut entries: Vec<PageTableEntry> = Vec::new();
    let mut i: usize = 0;
    while i < ENTRY_COUNT
        invariant
            i == entries.len(),
            i <= ENTRY_COUNT,
            forall|k: int| 0 <= k < i ==> !(#[trigger] entries@[k]).present,
        decreases ENTRY_COUNT - i,
    {
        entries.push(PageTableEntry::absent());
        i = i + 1;
    }
    PageTable { entries }
}

/// A 4 KiB virtual page, identified by its aligned start address.
#[derive(Clone, Copy, Debug, PartialEq, Eq, Structural)]
pub struct Page {
    pub start: u64,
}

impl Page {
    /// The page is aligned to the page size.
    pub open spec fn wf(self) -> bool {
        self.start % FRAME_SIZE == 0
    }

    /// The page containing the given virtual address.
    pub fn containing_address(addr: u64) -> (page: Page)
        ensures
            page.start == align_down(addr),
            page.wf(),
    {
        let frame = PhysFrame::containing_address(addr);
        Page { start: frame.start }
    }
}

/// The flag set given to a leaf mapping.
#[derive(Clone, Copy, Debug, PartialEq, Eq, Structural)]
pub struct PageTableFlags {
    pub present: bool,
    pub writable: bool,
}

/// Why installing a mapping failed.  Every case is fatal to the
/// bootstrap path that asked for the mapping.
#[derive(Clone, Copy, Debug, PartialEq, Eq, Structural)]
pub enum MappingError {
    /// The frame allocator was exhausted while a missing intermediate
    /// table needed a backing frame.
    FrameAllocationFailed,
    /// An intermediate entry on the walk is a huge-page mapping,
    /// which this kernel does not support.
    ParentEntryHugePage,
    /// The leaf entry for the page is already in use.
    PageAlreadyMapped,
}

/// The page number: the virtual address without its page offset.
pub open spec fn page_number(va: u64) -> int {
    va as int / FRAME_SIZE as int
}

/// Table index resolved at level 1 for a virtual address.
pub open spec fn l1_index(va: u64) -> int {
    page_number(va) % 512
}

/// Table index resolved at level 2 for a virtual address.
pub open spec fn l2_index(va: u64) -> int {
    (page_number(va) / 512) % 512
}

/// Table index resolved at level 3 for a virtual address.
pub open spec fn l3_index(va: u64) -> int {
    (page_number(va) / 512 / 512) % 512
}

/// Table index resolved at level 4 for a virtual address.
pub open spec fn l4_index(va: u64) -> int {
    (page_number(va) / 512 / 512 / 512) % 512
}

/// Two virtual addresses resolve through the same entry chain: all
/// four table indices agree.  Four-level translation reads 36 index
/// bits, so addresses a multiple of the level-4 span apart share
/// their chain.
pub open spec fn shares_walk(va: u64, vb: u64) -> bool {
    &&& l4_index(va) == l4_index(vb)
    &&& l3_index(va) == l3_index(vb)
    &&& l2_index(va) == l2_index(vb)
    &&& l1_index(va) == l1_index(vb)
}

/// The kernel's view of its virtual address space: the active
/// level-4 table, the lower-level tables, and the boot-supplied
/// physical-memory offset under which every physical address is
/// readable.
pub struct MemorySpace {
    pub physical_memory_offset: u64,
    pub level_4: PageTable,
    pub level_3: Vec<PageTable>,
    pub level_2: Vec<PageTable>,
    pub level_1: Vec<PageTable>,
}

/// Every present, non-huge entry of `t` names a table below `bound`.
pub open spec fn entries_link(t: PageTable, bound: int) -> bool {
    forall|i: int|
        0 <= i < t.entries.len() && (#[trigger] t.entries@[i]).present && !t.entries@[i].huge
            ==> t.entries@[i].addr < bound
}

/// Every present entry of leaf table `t` maps an aligned frame.
pub open spec fn leaf_entries_wf(t: PageTable) -> bool {
    forall|i: int|
        0 <= i < t.entries.len() && (#[trigger] t.entries@[i]).present ==> t.entries@[i].addr
            % FRAME_SIZE == 0
}

/// No two intermediate entries of table `tb` share a target.
pub open spec fn table_links_injective(tb: PageTable) -> bool {
    forall|i: int, j: int|
        #![trigger tb.entries@[i], tb.entries@[j]]
        0 <= i < tb.entries.len() && 0 <= j < tb.entries.len() && tb.entries@[i].present
            && !tb.entries@[i].huge && tb.entries@[j].present && !tb.entries@[j].huge && i != j
            ==> tb.entries@[i].addr != tb.entries@[j].addr
}

/// No two intermediate entries of the tables in `ts` share a target:
/// every next-level table has a single owner, as under an allocation
/// discipline that backs each new table with a fresh frame.
pub open spec fn links_injective(ts: Seq<PageTable>) -> bool {
    forall|t: int, i: int, u: int, j: int|
        #![trigger ts[t].entries@[i], ts[u].entries@[j]]
        0 <= t < ts.len() && 0 <= i < ts[t].entries.len() && 0 <= u < ts.len() && 0 <= j
            < ts[u].entries.len() && ts[t].entries@[i].present && !ts[t].entries@[i].huge
            && ts[u].entries@[j].present && !ts[u].entries@[j].huge && (t != u || i != j)
            ==> ts[t].entries@[i].addr != ts[u].entries@[j].addr
}

impl MemorySpace {
    /// Structural soundness: all tables have their full entry run,
    /// intermediate entries stay inside the next level, and leaf
    /// entries map aligned frames.
    pub open spec fn wf(self) -> bool {
        &&& table_wf(self.level_4)
        &&& forall|t: int| 0 <= t < self.level_3.len() ==> table_wf(#[trigger] self.level_3@[t])
        &&& forall|t: int| 0 <= t < self.level_2.len() ==> table_wf(#[trigger] self.level_2@[t])
        &&& forall|t: int| 0 <= t < self.level_1.len() ==> table_wf(#[trigger] self.level_1@[t])
        &&& entries_link(self.level_4, self.level_3.len() as int)
        &&& forall|t: int|
            0 <= t < self.level_3.len() ==> entries_link(
                #[trigger] self.level_3@[t],
                self.level_2.len() as int,
            )
        &&& forall|t: int|
            0 <= t < self.level_2.len() ==> entries_link(
                #[trigger] self.level_2@[t],
                self.level_1.len() as int,
            )
        &&& forall|t: int| 0 <= t < self.level_1.len() ==> leaf_entries_wf(#[trigger] self.level_1@[t])
        &&& table_links_injective(self.level_4)
        &&& links_injective(self.level_3@)
        &&& links_injective(self.level_2@)
    }

    /// The walk for `va` meets a huge-page entry on its existing
    /// prefix of levels.
    pub open spec fn walk_hits_huge(self, va: u64) -> bool {
        let e4 = self.level_4.entries@[l4_index(va)];
        e4.present && (e4.huge || {
            let e3 = self.level_3@[e4.addr as int].entries@[l3_index(va)];
            e3.present && (e3.huge || {
                let e2 = self.level_2@[e3.addr as int].entries@[l2_index(va)];
                e2.present && e2.huge
            })
        })
    }

    /// The walk for `va` ends at an entry that is not present, at any
    /// of the four levels: the address is unmapped.
    pub open spec fn walk_reaches_absence(self, va: u64) -> bool {
        let e4 = self.level_4.entries@[l4_index(va)];
        !e4.present || {
            let e3 = self.level_3@[e4.addr as int].entries@[l3_index(va)];
            !e3.present || {
                let e2 = self.level_2@[e3.addr as int].entries@[l2_index(va)];
                !e2.present || {
                    let e1 = self.level_1@[e2.addr as int].entries@[l1_index(va)];
                    !e1.present
                }
            }
        }
    }

    /// What translation yields for `va`: the mapped frame's start
    /// plus the page offset once the whole walk resolves, absence as
    /// soon as a level is unmapped.  Only meaningful on walks free of
    /// huge-page entries.
    pub open spec fn spec_translate(self, va: u64) -> Option<u64> {
        let e4 = self.level_4.entries@[l4_index(va)];
        if !e4.present || e4.huge {
            None
        } else {
            let e3 = self.level_3@[e4.addr as int].entries@[l3_index(va)];
            if !e3.present || e3.huge {
                None
            } else {
                let e2 = self.level_2@[e3.addr as int].entries@[l2_index(va)];
                if !e2.present || e2.huge {
                    None
                } else {
                    let e1 = self.level_1@[e2.addr as int].entries@[l1_index(va)];
                    if !e1.present {
                        None
                    } else {
                        Some((e1.addr + va % FRAME_SIZE) as u64)
                    }
                }
            }
        }
    }

    /// `other` leaves every walk that does not go through `anchor`'s
    /// entry chain exactly as it is in `self`.
    pub open spec fn agrees_off_walk(self, other: MemorySpace, anchor: u64) -> bool {
        forall|va: u64|
            !shares_walk(va, anchor) ==> #[trigger] other.spec_translate(va)
                == self.spec_translate(va) && (other.walk_hits_huge(va)
                <==> self.walk_hits_huge(va))
    }

    /// How many intermediate tables the walk for `va` still lacks.
    pub open spec fn missing_tables(self, va: u64) -> int {
        let e4 = self.level_4.entries@[l4_index(va)];
        if !e4.present {
            3
        } else {
            let e3 = self.level_3@[e4.addr as int].entries@[l3_index(va)];
            if !e3.present {
                2
            } else {
                let e2 = self.level_2@[e3.addr as int].entries@[l2_index(va)];
                if !e2.present {
                    1
                } else {
                    0
                }
            }
        }
    }

    /// Binds `page` to `frame` with the given leaf flags, creating
    /// missing intermediate tables out of the allocator's frames.
    /// This runs only on the controlled bootstrap path; every failure
    /// is fatal to the caller that needed the mapping.
    ///
    /// On hardware, the stale translation-cache entry for the page
    /// must be invalidated before the mapping counts as live; this
    /// model holds the authoritative tables themselves, so the
    /// returned state is the live one.
    pub fn install_mapping<A: FrameAllocator>(
        &mut self,
        page: Page,
        frame: PhysFrame,
        flags: PageTableFlags,
        allocator: &mut A,
    ) -> (r: Result<(), MappingError>)
        requires
            old(self).wf(),
            page.wf(),
            frame.wf(),
            old(allocator).inv(),
        ensures
            final(self).wf(),
            final(allocator).inv(),
            final(self).physical_memory_offset == old(self).physical_memory_offset,
            old(self).agrees_off_walk(*final(self), page.start),
            match r {
                Ok(_) => {
                    &&& !old(self).walk_hits_huge(page.start)
                    &&& old(self).walk_reaches_absence(page.start)
                    &&& old(allocator).available().len() >= old(self).missing_tables(page.start)
                    &&& final(allocator).available() == old(allocator).available().skip(
                        old(self).missing_tables(page.start),
                    )
                    &&& forall|va: u64|
                        align_down(va) == page.start ==> !(#[trigger] final(self).walk_hits_huge(
                            va,
                        ))
                    &&& forall|va: u64|
                        align_down(va) == page.start ==> #[trigger] final(self).spec_translate(va)
                            == (if flags.present {
                            Some((frame.start + va % FRAME_SIZE) as u64)
                        } else {
                            None::<u64>
                        })
                },
                Err(MappingError::ParentEntryHugePage) => {
                    &&& old(self).walk_hits_huge(page.start)
                    &&& *final(self) == *old(self)
                    &&& *final(allocator) == *old(allocator)
                },
                Err(MappingError::PageAlreadyMapped) => {
                    &&& !old(self).walk_hits_huge(page.start)
                    &&& !old(self).walk_reaches_absence(page.start)
                    &&& old(self).spec_translate(page.start) is Some
                    &&& *final(self) == *old(self)
                    &&& *final(allocator) == *old(allocator)
                },
                Err(MappingError::FrameAllocationFailed) => {
                    &&& !old(self).walk_hits_huge(page.start)
                    &&& old(self).walk_reaches_absence(page.start)
                    &&& old(allocator).available().len() < old(self).missing_tables(page.start)
                    &&& final(allocator).available().len() == 0
                },
            },
    {
        let p: u64 = page.start / FRAME_SIZE;
        let i4: usize = ((p / 512 / 512 / 512) % 512) as usize;
        let i3: usize = ((p / 512 / 512) % 512) as usize;
        let i2: usize = ((p / 512) % 512) as usize;
        let i1: usize = (p % 512) as usize;
        let ghost avail0 = allocator.available();

        let e4 = self.level_4.entries[i4];
        if e4.present && e4.huge {
            return Err(MappingError::ParentEntryHugePage);
        }
        let t3: usize;
        if e4.present {
            t3 = e4.addr as usize;
        } else {
            match allocator.allocate_frame() {
                None => {
                    return Err(MappingError::FrameAllocationFailed);
                },
                Some(_backing) => {
                    // The allocated frame backs the new level-3
                    // table; the model stores the table by its
                    // position instead of by that address.
                    t3 = self.level_3.len();
                    self.level_3.push(empty_table());
                    self.level_4.entries[i4] = PageTableEntry {
                        present: true,
                        writable: true,
                        huge: false,
                        addr: t3 as u64,
                    };
                    proof {
                        let sa = *old(self);
                        assert forall|t: int| 0 <= t < self.level_3.len() implies table_wf(
                            #[trigger] self.level_3@[t],
                        ) by {}
                        assert forall|va: u64| !shares_walk(va, page.start) implies (
                        #[trigger] self.spec_translate(va)) == sa.spec_translate(va) && (
                        self.walk_hits_huge(va) <==> sa.walk_hits_huge(va)) by {
                            let l4i = l4_index(va);
                            if l4i != i4 as int {
                                assert(self.level_4.entries@[l4i] == sa.level_4.entries@[l4i]);
                                let ep = sa.level_4.entries@[l4i];
                                if ep.present && !ep.huge {
                                    assert(ep.addr < sa.level_3.len());
                                    assert(self.level_3@[ep.addr as int] == sa.level_3@[ep.addr as int]);
                                }
                            } else {
                                assert(!sa.level_4.entries@[i4 as int].present);
                                assert(table_empty(self.level_3@[t3 as int]));
                                assert(!self.level_3@[t3 as int].entries@[l3_index(va)].present);
                            }
                        }
                    }
                },
            }
        }
        proof {
            assert(self.level_4.entries@[i4 as int].present);
            assert(!self.level_4.entries@[i4 as int].huge);
            assert(self.level_4.entries@[i4 as int].addr == t3 as u64);
            assert((t3 as int) < self.level_3.len());
            assert(self.wf());
            assert(old(self).agrees_off_walk(*self, page.start));
        }

        let ghost sa3 = *self;
        let e3 = self.level_3[t3].entries[i3];
        if e3.present && e3.huge {
            return Err(MappingError::ParentEntryHugePage);
        }
        let t2: usize;
        if e3.present {
            t2 = e3.addr as usize;
        } else {
            match allocator.allocate_frame() {
                None => {
                    return Err(MappingError::FrameAllocationFailed);
                },
                Some(_backing) => {
                    t2 = self.level_2.len();
                    self.level_2.push(empty_table());
                    self.level_3[t3].entries[i3] = PageTableEntry {
                        present: true,
                        writable: true,
                        huge: false,
                        addr: t2 as u64,
                    };
                },
            }
        }

        let e2 = self.level_2[t2].entries[i2];
        if e2.present && e2.huge {
            return Err(MappingError::ParentEntryHugePage);
        }
        let t1: usize;
        if e2.present {
            t1 = e2.addr as usize;
        } else {
            match allocator.allocate_frame() {
                None => {
                    return Err(MappingError::FrameAllocationFailed);
                },
                Some(_backing) => {
                    t1 = self.level_1.len();
                    self.level_1.push(empty_table());
                    self.level_2[t2].entries[i2] = PageTableEntry {
                        present: true,
                        writable: true,
                        huge: false,
                        addr: t1 as u64,
                    };
                },
            }
        }

        let e1 = self.level_1[t1].entries[i1];
        if e1.present {
            return Err(MappingError::PageAlreadyMapped);
        }
        self.level_1[t1].entries[i1] = PageTableEntry {
            present: flags.present,
            writable: flags.writable,
            huge: false,
            addr: frame.start,
        };
        proof {
            assert forall|va: u64| align_down(va) == page.start implies !(
            #[trigger] self.walk_hits_huge(va)) && self.spec_translate(va) == (if flags.present {
                Some((frame.start + va % FRAME_SIZE) as u64)
            } else {
                None::<u64>
            }) by {
                lemma_same_page_number(page.start, va);
            }
            assert(allocator.available() =~= avail0.skip(old(self).missing_tables(page.start)));
        }
        Ok(())
    }

    /// The boot-supplied offset-mapping invariant, made explicit:
    /// physical address `p` is readable at this virtual address.
    pub fn phys_to_virt(&self, p: u64) -> (va: u64)
        requires
            p <= u64::MAX - self.physical_memory_offset,
        ensures
            va == self.physical_memory_offset + p,
    {
        self.physical_memory_offset + p
    }

    /// Walks all four levels and translates `va` to its physical
    /// address, or reports absence at the first unmapped level.
    pub fn translate(&self, virtual_address: u64) -> (r: Option<u64>)
        requires
            self.wf(),
            !self.walk_hits_huge(virtual_address),
        ensures
            r == self.spec_translate(virtual_address),
            r is None <==> self.walk_reaches_absence(virtual_address),
    {
        let p: u64 = virtual_address / FRAME_SIZE;
        let i4: usize = ((p / 512 / 512 / 512) % 512) as usize;
        let i3: usize = ((p / 512 / 512) % 512) as usize;
        let i2: usize = ((p / 512) % 512) as usize;
        let i1: usize = (p % 512) as usize;
        let e4 = self.level_4.entries[i4];
        if !e4.present {
            return None;
        }
        let e3 = self.level_3[e4.addr as usize].entries[i3];
        if !e3.present {
            return None;
        }
        let e2 = self.level_2[e3.addr as usize].entries[i2];
        if !e2.present {
            return None;
        }
        let e1 = self.level_1[e2.addr as usize].entries[i1];
        if !e1.present {
            return None;
        }
        proof {
            lemma_aligned_below_last_frame(e1.addr);
        }
        Some(e1.addr + virtual_address % FRAME_SIZE)
    }
}

/// Addresses inside one page share their page number, and with it all
/// four table indices.
proof fn lemma_same_page_number(page_start: u64, va: u64)
    requires
        page_start % FRAME_SIZE == 0,
        align_down(va) == page_start,
    ensures
        page_number(va) == page_number(page_start),
{
    let q = va as int / FRAME_SIZE as int;
    vstd::arithmetic::div_mod::lemma_div_by_multiple(q, FRAME_SIZE as int);
}

/// An aligned address leaves room for a whole frame below the top of
/// the address space.
proof fn lemma_aligned_below_last_frame(a: u64)
    requires
        a % FRAME_SIZE == 0,
    ensures
        a <= u64::MAX - (FRAME_SIZE - 1),
{
    assert(a % 4096 == 0 ==> a <= 0xFFFF_FFFF_FFFF_F000u64) by (bit_vector);
}

/// Takes over a virtual address space under the boot-supplied
/// physical-memory offset, with a fresh top-level table: nothing is
/// mapped yet, and every translation reports absence.
pub fn establish_virtual_memory(physical_memory_offset: u64) -> (space: MemorySpace)
    ensures
        space.wf(),
        space.physical_memory_offset == physical_memory_offset,
        forall|va: u64| #[trigger] space.spec_translate(va) is None,
        forall|va: u64| !(#[trigger] space.walk_hits_huge(va)),
        forall|va: u64| #[trigger] space.walk_reaches_absence(va),
        forall|va: u64| #[trigger] space.missing_tables(va) == 3,
{
    MemorySpace {
        physical_memory_offset,
        level_4: empty_table(),
        level_3: Vec::new(),
        level_2: Vec::new(),
        level_1: Vec::new(),
    }
}

/// The start of the VGA text buffer, used by the example mapping.
pub const VGA_BUFFER_FRAME: u64 = 0xb8000;

/// Binds `page` to the VGA text-buffer frame with present and
/// writable flags, so writes through the new page reach the screen
/// buffer.
pub fn create_example_mapping<A: FrameAllocator>(
    page: Page,
    mapper: &mut MemorySpace,
    frame_allocator: &mut A,
) -> (r: Result<(), MappingError>)
    requires
        page.wf(),
        old(mapper).wf(),
        old(frame_allocator).inv(),
    ensures
        final(mapper).wf(),
        final(frame_allocator).inv(),
        old(mapper).agrees_off_walk(*final(mapper), page.start),
        r is Ok <==> !old(mapper).walk_hits_huge(page.start) && old(mapper).walk_reaches_absence(
            page.start,
        ) && old(frame_allocator).available().len() >= old(mapper).missing_tables(page.start),
        r is Ok ==> forall|va: u64|
            align_down(va) == page.start ==> #[trigger] final(mapper).spec_translate(va) == Some(
                (VGA_BUFFER_FRAME + va % FRAME_SIZE) as u64,
            ) && !final(mapper).walk_hits_huge(va),
{
    let frame = PhysFrame::containing_address(VGA_BUFFER_FRAME);
    let flags = PageTableFlags { present: true, writable: true };
    mapper.install_mapping(page, frame, flags, frame_allocator)
}

/// Reaching an unmapped level makes translation report absence —
/// never a fault and never a stale answer.
pub proof fn lemma_absent_level_translates_none(space: MemorySpace, va: u64)
    requires
        space.wf(),
        !space.walk_hits_huge(va),
        space.walk_reaches_absence(va),
    ensures
        space.spec_translate(va) is None,
{
}

} // verus!
