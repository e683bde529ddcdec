//! The physical page-frame allocator that the boot sequence brings up from the
//! memory regions of the hardware description.

use vstd::prelude::*;
use crate::description::MemoryRegion;
use crate::paging::{is_page_aligned, PAGE_SIZE};

verus! {

/// `page` is the base of a whole page frame inside `region`, and the frame
/// ends at an address that a machine word can hold.
pub open spec fn region_holds_page(region: MemoryRegion, page: int) -> bool {
    &&& is_page_aligned(page)
    &&& region.base <= page
    &&& page + 4096 <= region.base + region.length
    &&& page + 4096 <= u64::MAX
}

/// `page` is the base of a whole page frame inside one of `regions`.
pub open spec fn page_in_regions(regions: Seq<MemoryRegion>, page: int) -> bool {
    exists|i: int| 0 <= i < regions.len() && #[trigger] region_holds_page(regions[i], page)
}

/// `page` can still be served: it lies in a region and at or above the
/// cursor, below which every frame is taken.
pub open spec fn page_free(regions: Seq<MemoryRegion>, cursor: int, page: int) -> bool {
    cursor <= page && page_in_regions(regions, page)
}

/// `page` is the lowest frame that can still be served.
pub open spec fn lowest_free(regions: Seq<MemoryRegion>, cursor: int, page: int) -> bool {
    &&& page_free(regions, cursor, page)
    &&& forall|q: int| #[trigger] page_free(regions, cursor, q) ==> page <= q
}

/// The frames at `a` and `b` share at least one byte.
pub open spec fn pages_overlap(a: int, b: int) -> bool {
    a < b + 4096 && b < a + 4096
}

/// Hands out page frames from the discovered regions, lowest address first,
/// each at most once.
#[derive(Debug)]
pub struct PhysicalAllocator {
    regions: Vec<MemoryRegion>,
    cursor: u64,
}

/// The lowest frame of `region` at or above `cursor`, if it has one.
fn first_page_from(region: &MemoryRegion, cursor: u64) -> (r: Option<u64>)
    requires
        is_page_aligned(cursor as int),
    ensures
        match r {
            Some(p) => {
                &&& region_holds_page(*region, p as int)
                &&& cursor <= p
                &&& forall|q: int| #[trigger]
                    region_holds_page(*region, q) && cursor <= q ==> p <= q
            },
            None => forall|q: int| !(#[trigger] region_holds_page(*region, q) && cursor <= q),
        },
{
    let rem: u64 = region.base % PAGE_SIZE;
    let mut start: u64 = region.base;
    if rem != 0 {
        let gap: u64 = PAGE_SIZE - rem;
        if region.base > u64::MAX - gap {
            return None;
        }
        start = region.base + gap;
    }
    let candidate: u64 = if start < cursor { cursor } else { start };
    let end: u64 = if region.length > u64::MAX - region.base {
        u64::MAX
    } else {
        region.base + region.length
    };
    if candidate > end || end - candidate < PAGE_SIZE {
        None
    } else {
        Some(candidate)
    }
}

impl PhysicalAllocator {
    #[verifier::type_invariant]
    spec fn cursor_aligned(self) -> bool {
        is_page_aligned(self.cursor as int)
    }

    /// The regions that the allocator serves from.
    pub closed spec fn regions(self) -> Seq<MemoryRegion> {
        self.regions@
    }

    /// Every frame below this address is taken.
    pub closed spec fn cursor(self) -> int {
        self.cursor as int
    }

    /// `page` can still be served.
    pub open spec fn is_free(self, page: int) -> bool {
        page_free(self.regions(), self.cursor(), page)
    }

    /// At least one frame can still be served.
    pub open spec fn has_free_page(self) -> bool {
        exists|p: int| #[trigger] self.is_free(p)
    }

    /// `post` is what remains of `self` once it has served `page`.
    pub open spec fn serves(self, page: int, post: PhysicalAllocator) -> bool {
        &&& lowest_free(self.regions(), self.cursor(), page)
        &&& post.regions() == self.regions()
        &&& post.cursor() == page + 4096
    }

    /// Brings the allocator up over `regions`. It comes up exactly when some
    /// region holds a whole page frame, and can then serve a frame at once.
    pub fn init(regions: Vec<MemoryRegion>) -> (r: Option<PhysicalAllocator>)
        ensures
            r.is_some() <==> exists|p: int| #[trigger] page_in_regions(regions@, p),
            r.is_some() ==> {
                &&& r.unwrap().regions() == regions@
                &&& r.unwrap().cursor() == 0
                &&& r.unwrap().has_free_page()
            },
    {
        let allocator = PhysicalAllocator { regions, cursor: 0 };
        match allocator.peek() {
            Some(p) => {
                assert(allocator.is_free(p as int));
                assert(page_in_regions(regions@, p as int));
                Some(allocator)
            },
            None => {
                assert forall|p: int| !#[trigger] page_in_regions(regions@, p) by {
                    if page_in_regions(regions@, p) {
                        assert(allocator.is_free(p));
                    }
                }
                None
            },
        }
    }

    /// The frame that the next allocation would serve, if any is left.
    pub fn peek(&self) -> (r: Option<u64>)
        ensures
            match r {
                Some(p) => lowest_free(self.regions(), self.cursor(), p as int),
                None => !self.has_free_page(),
            },
    {
        proof {
            use_type_invariant(self);
        }
        let mut best: Option<u64> = None;
        let ghost mut witness: int = 0;
        let mut i: usize = 0;
        while i < self.regions.len()
            invariant
                i <= self.regions.len(),
                is_page_aligned(self.cursor as int),
                match best {
                    Some(p) => {
                        &&& 0 <= witness < i
                        &&& region_holds_page(self.regions@[witness], p as int)
                        &&& self.cursor <= p
                        &&& forall|j: int, q: int|
                            0 <= j < i && #[trigger] region_holds_page(self.regions@[j], q)
                                && self.cursor <= q ==> p <= q
                    },
                    None => forall|j: int, q: int|
                        0 <= j < i ==> !(#[trigger] region_holds_page(self.regions@[j], q)
                            && self.cursor <= q),
                },
            decreases self.regions.len() - i,
        {
            let found = first_page_from(&self.regions[i], self.cursor);
            match found {
                Some(p) => {
                    let better: bool = match best {
                        Some(b) => p < b,
                        None => true,
                    };
                    if better {
                        best = Some(p);
                        proof {
                            witness = i as int;
                        }
                    }
                },
                None => {},
            }
            i = i + 1;
        }
        proof {
            match best {
                Some(p) => {
                    assert(page_in_regions(self.regions@, p as int));
                },
                None => {
                    assert forall|q: int| !#[trigger] self.is_free(q) by {
                        if self.is_free(q) {
                            let j = choose|j: int|
                                0 <= j < self.regions@.len() && #[trigger] region_holds_page(
                                    self.regions@[j],
                                    q,
                                );
                            assert(region_holds_page(self.regions@[j], q));
                        }
                    }
                },
            }
        }
        best
    }

    /// Serves the lowest free frame, if any is left: its base address, which
    /// is page-aligned and inside a region. The frame is never served again.
    pub fn alloc_page(&mut self) -> (r: Option<u64>)
        ensures
            match r {
                Some(p) => {
                    &&& old(self).serves(p as int, *final(self))
                    &&& is_page_aligned(p as int)
                    &&& !final(self).is_free(p as int)
                },
                None => !old(self).has_free_page() && *final(self) == *old(self),
            },
    {
        match self.peek() {
            Some(p) => {
                self.cursor = p + PAGE_SIZE;
                Some(p)
            },
            None => None,
        }
    }
}

/// After `page` was served, the cursor stays above it through every later
/// allocation.
proof fn lemma_cursor_grows(states: Seq<PhysicalAllocator>, pages: Seq<int>, i: int, k: int)
    requires
        states.len() == pages.len() + 1,
        forall|n: int| 0 <= n < pages.len() ==> states[n].serves(#[trigger] pages[n], states[n + 1]),
        0 <= i < k <= pages.len(),
    ensures
        pages[i] + 4096 <= states[k].cursor(),
    decreases k - i,
{
    if k == i + 1 {
        assert(states[i].serves(pages[i], states[i + 1]));
    } else {
        lemma_cursor_grows(states, pages, i, k - 1);
        assert(states[k - 1].serves(pages[k - 1], states[k]));
    }
}

/// No two frames served by one allocator overlap: in any run of allocations,
/// a later frame starts at or after the end of every earlier one.
pub proof fn lemma_allocations_never_overlap(
    states: Seq<PhysicalAllocator>,
    pages: Seq<int>,
    i: int,
    j: int,
)
    requires
        states.len() == pages.len() + 1,
        forall|n: int| 0 <= n < pages.len() ==> states[n].serves(#[trigger] pages[n], states[n + 1]),
        0 <= i < j < pages.len(),
    ensures
        pages[i] + 4096 <= pages[j],
        !pages_overlap(pages[i], pages[j]),
{
    lemma_cursor_grows(states, pages, i, j);
    assert(states[j].serves(pages[j], states[j + 1]));
}

} // verus!
