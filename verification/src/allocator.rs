//! The kernel heap: a fixed window of virtual memory that is backed by frames
//! page by page before it is used, and then handed out piece by piece.

use vstd::prelude::*;
use crate::addr::{Page, PhysFrame, VirtAddr, PAGE_SIZE};
use crate::memory::BootInfoFrameAllocator;

verus! {

/// First address of the heap window.
pub const HEAP_START: u64 = 0x4444_4444_0000;

/// Size of the heap window in bytes.
pub const HEAP_SIZE: u64 = 100 * 1024;

/// Number of pages of the heap window.
pub const HEAP_PAGES: u64 = HEAP_SIZE / PAGE_SIZE;

/// Why a page could not be mapped.
#[derive(Clone, Copy, Debug)]
pub enum MapToError {
    /// A frame was needed and the frame allocator had none left.
    FrameAllocationFailed,
    /// The page lies inside a huge page that is mapped already.
    ParentEntryHugePage,
    /// The page is mapped already, to this frame.
    PageAlreadyMapped(PhysFrame),
}

/// The first address of the page `index` of the heap window.
pub open spec fn heap_page(index: int) -> u64 {
    (HEAP_START + index * PAGE_SIZE) as u64
}

/// What is to be done next to back the heap.
#[derive(Clone, Copy, Debug)]
pub enum HeapStep {
    /// The page is to be mapped to the frame, present and writable.
    MapPage { page: Page, frame: PhysFrame },
    /// Every page of the window is backed: the heap can be used.
    Done,
    /// The heap cannot be backed: the boot is over.
    Failed(MapToError),
}

/// How far the backing of the heap window has come.
#[derive(Debug)]
pub struct HeapInit {
    mapped: u64,
    failed: bool,
}

impl HeapInit {
    #[verifier::type_invariant]
    spec fn valid(self) -> bool {
        self.mapped <= HEAP_PAGES
    }

    /// The number of pages that a frame has been drawn for.
    pub closed spec fn mapped(self) -> nat {
        self.mapped as nat
    }

    /// Whether the frame allocator has run dry before the window was backed.
    pub closed spec fn failed(self) -> bool {
        self.failed
    }

    /// Nothing is backed yet.
    pub fn new() -> (init: HeapInit)
        ensures
            init.mapped() == 0,
            !init.failed(),
    {
        HeapInit { mapped: 0, failed: false }
    }

    /// The next step: the next page of the window with a frame that is drawn
    /// for it, until all pages have one. Once the frame allocator has had no
    /// frame for a page, every step is the failure.
    pub fn next(&mut self, frame_allocator: &mut BootInfoFrameAllocator) -> (step: HeapStep)
        ensures
            final(frame_allocator).memory_map() == old(frame_allocator).memory_map(),
            final(self).mapped() <= HEAP_PAGES,
            final(self).failed() == (step is Failed),
            step matches HeapStep::Failed(error) ==> error is FrameAllocationFailed,
            step is Failed <==> old(self).failed() || (old(self).mapped() < HEAP_PAGES
                && old(frame_allocator).remaining().len() == 0),
            step is Done <==> !old(self).failed() && old(self).mapped() == HEAP_PAGES,
            step matches HeapStep::MapPage { page, frame } ==> page@ == heap_page(
                old(self).mapped() as int,
            ) && frame@ == old(frame_allocator).remaining()[0],
            final(self).mapped() == old(self).mapped() + (if step is MapPage {
                1nat
            } else {
                0nat
            }),
            final(frame_allocator).remaining() == (if step is MapPage {
                old(frame_allocator).remaining().skip(1)
            } else {
                old(frame_allocator).remaining()
            }),
    {
        proof {
            use_type_invariant(&*self);
        }
        if self.failed {
            return HeapStep::Failed(MapToError::FrameAllocationFailed);
        }
        if self.mapped >= HEAP_PAGES {
            return HeapStep::Done;
        }
        match frame_allocator.allocate_frame() {
            Some(frame) => {
                let start: VirtAddr = VirtAddr::zero().add_offset(HEAP_START + self.mapped * PAGE_SIZE);
                let page = Page::containing_address(start);
                self.mapped = self.mapped + 1;
                HeapStep::MapPage { page, frame }
            },
            None => {
                self.failed = true;
                HeapStep::Failed(MapToError::FrameAllocationFailed)
            },
        }
    }
}

/// The least multiple of `align` that is not below `addr`.
pub open spec fn align_up(addr: u64, align: u64) -> int {
    if addr % align == 0 {
        addr as int
    } else {
        addr + align - addr % align
    }
}

/// The next multiple of `align` from `addr` on is a multiple of `align`, and
/// it lies less than `align` above `addr`.
pub proof fn lemma_align_up(addr: u64, align: u64)
    requires
        align > 0,
    ensures
        align_up(addr, align) % (align as int) == 0,
        addr <= align_up(addr, align) < addr + align,
{
    let rest = addr % align;
    if rest != 0 {
        assert((addr + align - rest) % (align as int) == 0) by (nonlinear_arith)
            requires
                align > 0,
                rest == addr % align,
        ;
    }
}

/// The heap: a window of memory from which pieces are handed out one after
/// another. The memory comes back only when every piece has been returned.
#[derive(Debug)]
pub struct Heap {
    heap_start: u64,
    heap_end: u64,
    next: u64,
    allocations: u64,
}

impl Heap {
    #[verifier::type_invariant]
    spec fn valid(self) -> bool {
        self.heap_start <= self.next <= self.heap_end
    }

    /// The first address of the window.
    pub closed spec fn heap_start(self) -> u64 {
        self.heap_start
    }

    /// The first address above the window.
    pub closed spec fn heap_end(self) -> u64 {
        self.heap_end
    }

    /// The first address that has not been handed out.
    pub closed spec fn next(self) -> u64 {
        self.next
    }

    /// The number of pieces that are handed out and not returned.
    pub closed spec fn allocations(self) -> u64 {
        self.allocations
    }

    /// Whether a piece of `size` bytes that begins on a multiple of `align`
    /// can still be handed out.
    pub open spec fn fits(self, size: u64, align: u64) -> bool {
        align_up(self.next(), align) + size <= self.heap_end() && self.allocations() < u64::MAX
    }

    /// A heap over the `heap_size` bytes from `heap_start`, all of them free.
    pub fn new(heap_start: u64, heap_size: u64) -> (heap: Heap)
        requires
            heap_start + heap_size <= u64::MAX,
        ensures
            heap.heap_start() == heap_start,
            heap.heap_end() == heap_start + heap_size,
            heap.next() == heap_start,
            heap.allocations() == 0,
    {
        Heap { heap_start, heap_end: heap_start + heap_size, next: heap_start, allocations: 0 }
    }

    /// Hands out `size` bytes that begin on the first multiple of `align`
    /// that is free, or `None` where the window has not that much left.
    pub fn allocate(&mut self, size: u64, align: u64) -> (r: Option<u64>)
        requires
            align > 0,
        ensures
            final(self).heap_start() == old(self).heap_start(),
            final(self).heap_end() == old(self).heap_end(),
            old(self).heap_start() <= old(self).next() <= old(self).heap_end(),
            old(self).fits(size, align) ==> r == Some(align_up(old(self).next(), align) as u64)
                && final(self).next() == align_up(old(self).next(), align) + size && final(self).allocations() == old(self).allocations() + 1,
            !old(self).fits(size, align) ==> r.is_none() && final(self).next() == old(self).next()
                && final(self).allocations() == old(self).allocations(),
            r matches Some(start) ==> start % align == 0 && old(self).next() <= start && start
                + size <= old(self).heap_end(),
    {
        proof {
            use_type_invariant(&*self);
            lemma_align_up(self.next, align);
        }
        let rest: u64 = self.next % align;
        let padding: u64 = if rest == 0 {
            0
        } else {
            align - rest
        };
        if self.allocations == u64::MAX || padding > self.heap_end - self.next {
            return None;
        }
        let start: u64 = self.next + padding;
        if size > self.heap_end - start {
            return None;
        }
        self.next = start + size;
        self.allocations = self.allocations + 1;
        Some(start)
    }

    /// Takes one piece back. When the last piece has come back, the whole
    /// window is free again.
    pub fn deallocate(&mut self)
        ensures
            final(self).heap_start() == old(self).heap_start(),
            final(self).heap_end() == old(self).heap_end(),
            old(self).allocations() == 0 ==> final(self).allocations() == 0 && final(self).next()
                == old(self).next(),
            old(self).allocations() > 0 ==> final(self).allocations() == old(self).allocations()
                - 1,
            old(self).allocations() > 1 ==> final(self).next() == old(self).next(),
            old(self).allocations() == 1 ==> final(self).next() == old(self).heap_start(),
    {
        proof {
            use_type_invariant(&*self);
        }
        if self.allocations > 0 {
            if self.allocations == 1 {
                self.next = self.heap_start;
            }
            self.allocations = self.allocations - 1;
        }
    }
}

/// Backs the whole heap window with frames from `frame_allocator`, one for
/// each page, and gives the heap. Where the frame allocator has fewer frames
/// left than the window has pages, it is drained and the heap is refused.
/// Frames that the page tables themselves take are drawn by whoever writes
/// the mappings, between the steps of a `HeapInit`.
pub fn init_heap(frame_allocator: &mut BootInfoFrameAllocator) -> (r: Result<Heap, MapToError>)
    ensures
        final(frame_allocator).memory_map() == old(frame_allocator).memory_map(),
        r.is_ok() <==> old(frame_allocator).remaining().len() >= HEAP_PAGES,
        r matches Ok(heap) ==> heap.heap_start() == HEAP_START && heap.heap_end() == HEAP_START
            + HEAP_SIZE && heap.next() == HEAP_START && heap.allocations() == 0 && final(frame_allocator).remaining() == old(frame_allocator).remaining().skip(HEAP_PAGES as int),
        r matches Err(error) ==> error is FrameAllocationFailed && final(frame_allocator).remaining().len() == 0,
{
    let mut init = HeapInit::new();
    loop
        invariant
            frame_allocator.memory_map() == old(frame_allocator).memory_map(),
            !init.failed(),
            init.mapped() <= HEAP_PAGES,
            init.mapped() <= old(frame_allocator).remaining().len(),
            frame_allocator.remaining() == old(frame_allocator).remaining().skip(
                init.mapped() as int,
            ),
        decreases HEAP_PAGES - init.mapped(),
    {
        match init.next(frame_allocator) {
            HeapStep::MapPage { page, frame } => {},
            HeapStep::Done => {
                return Ok(Heap::new(HEAP_START, HEAP_SIZE));
            },
            HeapStep::Failed(error) => {
                return Err(error);
            },
        }
    }
}

} // verus!
