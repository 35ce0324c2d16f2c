//! Physical frame allocation over the usable-memory map handed over at
//! boot.
//!
//! The bootstrap collaborator reports physical memory as a list of
//! address ranges, each tagged usable or reserved.  The allocator
//! derives from that list the sequence of all 4 KiB-aligned frame start
//! addresses inside usable regions and hands them out in order, never
//! returning the same position twice: the cursor `next` only grows.

use vstd::prelude::*;

verus! {

use crate::FRAME_SIZE;

/// One physical address range of the boot memory map, tagged usable or
/// reserved.  `start` is inclusive, `end` exclusive.
#[derive(Clone, Copy, Debug)]
pub struct MemoryRegion {
    pub start: u64,
    pub end: u64,
    pub usable: bool,
}

/// A 4 KiB physical page frame, identified by its aligned start address.
#[derive(Clone, Copy, Debug, PartialEq, Eq, Structural)]
pub struct PhysFrame {
    pub start: u64,
}

impl PhysFrame {
    /// The frame is aligned to the frame size.
    pub open spec fn wf(self) -> bool {
        self.start % FRAME_SIZE == 0
    }

    /// The frame containing the given physical address.
    pub fn containing_address(addr: u64) -> (frame: PhysFrame)
        ensures
            frame.start == align_down(addr),
            frame.wf(),
    {
        proof {
            lemma_align_down_aligned(addr);
        }
        PhysFrame { start: addr / FRAME_SIZE * FRAME_SIZE }
    }
}

/// The largest multiple of the frame size that is at most `addr`.
pub open spec fn align_down(addr: u64) -> u64 {
    ((addr / FRAME_SIZE) * (FRAME_SIZE as int)) as u64
}

proof fn lemma_align_down_aligned(addr: u64)
    ensures
        align_down(addr) % FRAME_SIZE == 0,
        align_down(addr) <= addr,
{
    assert(addr / 4096 * 4096 % 4096 == 0 && addr / 4096 * 4096 <= addr) by (nonlinear_arith);
}

/// Number of frame start addresses one region contributes: one for
/// every full or partial frame-size stride in it.
pub open spec fn region_frame_count(r: MemoryRegion) -> nat {
    if r.start <= r.end {
        let span = r.end - r.start;
        (span / (FRAME_SIZE as int) + if span % (FRAME_SIZE as int) != 0 {
            1int
        } else {
            0int
        }) as nat
    } else {
        0
    }
}

/// The frame start addresses derived from one region: the stride
/// addresses `start`, `start + 4096`, ... below `end`, each aligned
/// down to a frame boundary.
pub open spec fn region_frames(r: MemoryRegion) -> Seq<u64> {
    Seq::new(region_frame_count(r), |k: int| align_down((r.start + k * FRAME_SIZE) as u64))
}

/// The full allocation sequence derived from a memory map: the frames
/// of every usable region, in map order.
pub open spec fn usable_frames(regions: Seq<MemoryRegion>) -> Seq<u64>
    decreases regions.len(),
{
    if regions.len() == 0 {
        Seq::empty()
    } else {
        usable_frames(regions.drop_last()) + if regions.last().usable {
            region_frames(regions.last())
        } else {
            Seq::empty()
        }
    }
}

/// A memory map the allocator can work over: region bounds are ordered,
/// and the derived frame sequence is addressable by a cursor.
pub open spec fn map_wf(regions: Seq<MemoryRegion>) -> bool {
    &&& forall|i: int| 0 <= i < regions.len() ==> (#[trigger] regions[i]).start <= regions[i].end
    &&& usable_frames(regions).len() < usize::MAX
}

/// Splitting a memory map splits its derived frame sequence.
proof fn lemma_usable_frames_append(a: Seq<MemoryRegion>, b: Seq<MemoryRegion>)
    ensures
        usable_frames(a + b) == usable_frames(a) + usable_frames(b),
    decreases b.len(),
{
    if b.len() == 0 {
        assert(a + b =~= a);
        assert(usable_frames(a) + usable_frames(b) =~= usable_frames(a));
    } else {
        lemma_usable_frames_append(a, b.drop_last());
        assert((a + b).drop_last() =~= a + b.drop_last());
        assert((a + b).last() == b.last());
        assert(usable_frames(a + b) =~= usable_frames(a) + usable_frames(b));
    }
}

/// A stride index below the derived count of a span stays inside the span.
proof fn lemma_stride_in_span(span: u64, j: u64)
    requires
        j < span / FRAME_SIZE + if span % FRAME_SIZE != 0 {
            1u64
        } else {
            0u64
        },
    ensures
        j * FRAME_SIZE < span,
{
    let q = span as int / FRAME_SIZE as int;
    let m = span as int % FRAME_SIZE as int;
    vstd::arithmetic::div_mod::lemma_fundamental_div_mod(span as int, FRAME_SIZE as int);
    vstd::arithmetic::div_mod::lemma_mod_bound(span as int, FRAME_SIZE as int);
    if m != 0 {
        vstd::arithmetic::mul::lemma_mul_inequality(j as int, q, FRAME_SIZE as int);
    } else {
        vstd::arithmetic::mul::lemma_mul_inequality(j as int, q - 1, FRAME_SIZE as int);
    }
}

/// Looks up position `idx` of the frame sequence derived from
/// `regions`, walking the usable regions in map order.
#[verifier::loop_isolation(false)]
fn frame_lookup(regions: &Vec<MemoryRegion>, idx: usize) -> (r: Option<u64>)
    requires
        map_wf(regions@),
    ensures
        match r {
            Some(addr) => idx < usable_frames(regions@).len() && addr == usable_frames(
                regions@,
            )[idx as int] && addr % FRAME_SIZE == 0,
            None => idx >= usable_frames(regions@).len(),
        },
{
    let ghost all = usable_frames(regions@);
    let mut i: usize = 0;
    let mut seen: usize = 0;
    while i < regions.len()
        invariant
            0 <= i <= regions@.len(),
            seen == usable_frames(regions@.take(i as int)).len(),
            seen <= idx,
        decreases regions@.len() - i,
    {
        let ghost pre = regions@.take(i as int);
        let ghost here = regions@.take(i as int + 1);
        let r = regions[i];
        proof {
            assert(here.drop_last() =~= pre);
            assert(here.last() == regions@[i as int]);
            assert(regions@ =~= here + regions@.skip(i as int + 1));
            lemma_usable_frames_append(here, regions@.skip(i as int + 1));
        }
        if r.usable {
            let span: u64 = r.end - r.start;
            let count: u64 = span / FRAME_SIZE + if span % FRAME_SIZE != 0 {
                1
            } else {
                0
            };
            proof {
                assert(usable_frames(here) =~= usable_frames(pre) + region_frames(r));
                assert(region_frame_count(r) == count);
                assert(all.len() == usable_frames(here).len() + usable_frames(
                    regions@.skip(i as int + 1),
                ).len());
            }
            // The whole derived sequence is addressable, so this
            // region's share fits the cursor type as well.
            let count_us: usize = count as usize;
            if idx - seen < count_us {
                let j: u64 = (idx - seen) as u64;
                proof {
                    lemma_stride_in_span(span, j);
                    assert(all[idx as int] == region_frames(r)[j as int]);
                }
                let base: u64 = r.start + j * FRAME_SIZE;
                proof {
                    lemma_align_down_aligned(base);
                }
                return Some(base / FRAME_SIZE * FRAME_SIZE);
            }
            seen = seen + count_us;
            proof {
                assert(seen == usable_frames(here).len());
            }
        } else {
            proof {
                assert(usable_frames(here) =~= usable_frames(pre));
            }
        }
        i = i + 1;
    }
    proof {
        assert(regions@.take(i as int) =~= regions@);
    }
    None
}

/// Every usable region starts on a frame boundary.
pub open spec fn usable_aligned(regions: Seq<MemoryRegion>) -> bool {
    forall|i: int|
        0 <= i < regions.len() && (#[trigger] regions[i]).usable ==> regions[i].start % FRAME_SIZE
            == 0
}

/// No two usable regions overlap.
pub open spec fn usable_disjoint(regions: Seq<MemoryRegion>) -> bool {
    forall|i: int, j: int|
        0 <= i < j < regions.len() && (#[trigger] regions[i]).usable && (
        #[trigger] regions[j]).usable ==> regions[i].end <= regions[j].start || regions[j].end
            <= regions[i].start
}

/// The address lies in a region tagged usable.
pub open spec fn frame_in_usable_region(regions: Seq<MemoryRegion>, f: u64) -> bool {
    exists|i: int|
        0 <= i < regions.len() && (#[trigger] regions[i]).usable && regions[i].start <= f
            < regions[i].end
}

/// Position `k` of the derived frame sequence is frame `j` of usable
/// region `i`.
spec fn region_pos(regions: Seq<MemoryRegion>, k: int, i: int, j: int) -> bool {
    &&& 0 <= i < regions.len()
    &&& regions[i].usable
    &&& 0 <= j < region_frame_count(regions[i])
    &&& k == usable_frames(regions.take(i)).len() + j
    &&& usable_frames(regions)[k] == region_frames(regions[i])[j]
}

/// Every position of the derived frame sequence comes from some usable
/// region of the map.
proof fn lemma_region_pos_exists(regions: Seq<MemoryRegion>, k: int)
    requires
        0 <= k < usable_frames(regions).len(),
    ensures
        exists|i: int, j: int| region_pos(regions, k, i, j),
    decreases regions.len(),
{
    let d = regions.drop_last();
    if k < usable_frames(d).len() {
        lemma_region_pos_exists(d, k);
        let (i, j): (int, int) = choose|i: int, j: int| region_pos(d, k, i, j);
        assert(regions.take(i) =~= d.take(i));
        assert(region_pos(regions, k, i, j));
    } else {
        let i = regions.len() - 1;
        let j = k - usable_frames(d).len();
        assert(regions.take(i) =~= d);
        assert(region_pos(regions, k, i, j));
    }
}

/// With a frame-aligned region start, frame `j` of the region is the
/// plain stride address, and it lies inside the region.
proof fn lemma_region_frame_value(r: MemoryRegion, j: int)
    requires
        r.start <= r.end,
        r.start % FRAME_SIZE == 0,
        0 <= j < region_frame_count(r),
    ensures
        region_frames(r)[j] == r.start + j * FRAME_SIZE,
        r.start <= region_frames(r)[j] < r.end,
{
    lemma_stride_in_span((r.end - r.start) as u64, j as u64);
    let v = (r.start + j * FRAME_SIZE) as u64;
    vstd::arithmetic::div_mod::lemma_mod_multiples_vanish(j, r.start as int, FRAME_SIZE as int);
    vstd::arithmetic::div_mod::lemma_fundamental_div_mod(v as int, FRAME_SIZE as int);
    assert(align_down(v) == v);
}

/// No two successive positions of the derived frame sequence hold the
/// same frame, and every position holds a frame inside a usable
/// region: the allocator never hands the same frame out twice in a
/// row, and never an address outside the usable memory.
pub proof fn lemma_frames_distinct_and_usable(regions: Seq<MemoryRegion>, k: int)
    requires
        map_wf(regions),
        usable_aligned(regions),
        usable_disjoint(regions),
        0 <= k < usable_frames(regions).len(),
    ensures
        frame_in_usable_region(regions, usable_frames(regions)[k]),
        k + 1 < usable_frames(regions).len() ==> usable_frames(regions)[k] != usable_frames(
            regions,
        )[k + 1],
{
    lemma_region_pos_exists(regions, k);
    let (i, j): (int, int) = choose|i: int, j: int| region_pos(regions, k, i, j);
    lemma_region_frame_value(regions[i], j);
    assert(frame_in_usable_region(regions, usable_frames(regions)[k]));
    if k + 1 < usable_frames(regions).len() {
        let kk = k + 1;
        lemma_region_pos_exists(regions, kk);
        let (i2, j2): (int, int) = choose|i2: int, j2: int| region_pos(regions, kk, i2, j2);
        lemma_region_frame_value(regions[i2], j2);
        if i == i2 {
            assert(j2 == j + 1);
        }
    }
}

/// A source of physical frames for installing page-table mappings.
/// `available()` is the sequence of frame start addresses the source
/// will hand out, in order.
pub trait FrameAllocator: Sized {
    spec fn available(&self) -> Seq<u64>;

    spec fn inv(&self) -> bool;

    /// Hands out the next frame of `available()`, or reports permanent
    /// exhaustion with `None`.
    fn allocate_frame(&mut self) -> (r: Option<PhysFrame>)
        requires
            old(self).inv(),
        ensures
            final(self).inv(),
            match r {
                Some(frame) => {
                    &&& old(self).available().len() > 0
                    &&& frame.start == old(self).available()[0]
                    &&& frame.wf()
                    &&& final(self).available() == old(self).available().drop_first()
                },
                None => {
                    &&& old(self).available().len() == 0
                    &&& final(self).available() == old(self).available()
                },
            },
    ;
}

/// Frame allocator over the boot-reported memory map.  It owns a copy
/// of the map and a monotonically growing cursor into the derived
/// frame sequence.
pub struct BootInfoFrameAllocator {
    memory_map: Vec<MemoryRegion>,
    next: usize,
}

impl BootInfoFrameAllocator {
    /// The full frame sequence this allocator draws from.
    pub closed spec fn frames(&self) -> Seq<u64> {
        usable_frames(self.memory_map@)
    }

    /// How many positions of the frame sequence have been consumed.
    pub closed spec fn cursor(&self) -> int {
        self.next as int
    }

    pub closed spec fn wf(&self) -> bool {
        map_wf(self.memory_map@)
    }

    /// Builds an allocator over the given memory map, with no frame
    /// handed out yet.
    pub fn init(memory_map: Vec<MemoryRegion>) -> (a: BootInfoFrameAllocator)
        requires
            map_wf(memory_map@),
        ensures
            a.wf(),
            a.frames() == usable_frames(memory_map@),
            a.cursor() == 0,
    {
        BootInfoFrameAllocator { memory_map, next: 0 }
    }
}

impl FrameAllocator for BootInfoFrameAllocator {
    /// The frames not yet handed out, in hand-out order.
    open spec fn available(&self) -> Seq<u64> {
        if self.cursor() <= self.frames().len() {
            self.frames().skip(self.cursor())
        } else {
            Seq::empty()
        }
    }

    open spec fn inv(&self) -> bool {
        self.wf()
    }

    fn allocate_frame(&mut self) -> (r: Option<PhysFrame>) {
        let found = frame_lookup(&self.memory_map, self.next);
        // The cursor grows on every call; it can never pass the
        // derived sequence's length by more than the map allows.
        if self.next < usize::MAX {
            self.next = self.next + 1;
        }
        match found {
            Some(addr) => {
                proof {
                    assert(old(self).available()[0] == old(self).frames()[old(self).cursor()]);
                    assert(self.available() =~= old(self).available().drop_first());
                }
                Some(PhysFrame { start: addr })
            },
            None => {
                proof {
                    assert(self.available() =~= old(self).available());
                    assert(old(self).available().len() == 0);
                }
                None
            },
        }
    }
}

/// A frame allocator that never yields a frame, for callers that must
/// show they need none: mapping into already-present tables only.
pub struct EmptyFrameAllocator;

impl FrameAllocator for EmptyFrameAllocator {
    open spec fn available(&self) -> Seq<u64> {
        Seq::empty()
    }

    open spec fn inv(&self) -> bool {
        true
    }

    fn allocate_frame(&mut self) -> (r: Option<PhysFrame>) {
        None
    }
}

} // verus!
