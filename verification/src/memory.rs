//! The boot memory map and the forward-only allocator of physical frames.

use vstd::prelude::*;
use crate::addr::{
    align_down, canonical, reaches, PhysAddr, PhysFrame, VirtAddr, PAGE_SIZE, PHYS_ADDR_LIMIT,
};

verus! {

/// What a region of the boot memory map is used for.
#[derive(Clone, Copy, Debug, PartialEq, Eq, Structural)]
pub enum MemoryRegionKind {
    /// Unused conventional memory, free for the kernel.
    Usable,
    /// Memory that the bootloader holds.
    Bootloader,
    /// A region of a UEFI memory type that is not known, with its tag.
    UnknownUefi(u32),
    /// A region of a BIOS memory type that is not known, with its tag.
    UnknownBios(u32),
}

/// One entry of the boot memory map: the bytes from `start` up to `end`,
/// `end` excluded.
#[derive(Clone, Copy, Debug, PartialEq, Eq, Structural)]
pub struct MemoryRegion {
    pub start: u64,
    pub end: u64,
    pub kind: MemoryRegionKind,
}

impl MemoryRegion {
    /// Whether frames are drawn from the region: it is usable and not empty.
    pub open spec fn yields_frames(self) -> bool {
        self.kind == MemoryRegionKind::Usable && self.start < self.end
    }

    /// The number of bytes of the region that count as usable.
    pub open spec fn usable_bytes(self) -> nat {
        if self.yields_frames() {
            (self.end - self.start) as nat
        } else {
            0
        }
    }

    /// The number of 4096-byte strides that begin inside the region.
    pub open spec fn frame_count(self) -> nat {
        if self.yields_frames() {
            ((self.end - self.start + PAGE_SIZE - 1) / (PAGE_SIZE as int)) as nat
        } else {
            0
        }
    }

    /// The first address of the frame that holds the region's stride `k`.
    pub open spec fn frame_at(self, k: int) -> u64 {
        align_down((self.start + k * PAGE_SIZE) as u64)
    }

    /// The frames of the region, one for each stride, from `start` upwards.
    pub open spec fn frames(self) -> Seq<u64> {
        Seq::new(self.frame_count(), |k: int| self.frame_at(k))
    }

    /// Whether every stride of the region begins at a physical address.
    pub open spec fn addressable(self) -> bool {
        self.yields_frames() ==> self.end <= PHYS_ADDR_LIMIT
    }

    /// Whether the region begins and ends on a frame boundary.
    pub open spec fn page_aligned(self) -> bool {
        self.yields_frames() ==> self.start % PAGE_SIZE == 0 && self.end % PAGE_SIZE == 0
    }
}

/// The frames of the regions from index `from` on, in map order.
pub open spec fn frames_from(regions: Seq<MemoryRegion>, from: int) -> Seq<u64>
    decreases regions.len() - from,
{
    if 0 <= from < regions.len() {
        regions[from].frames() + frames_from(regions, from + 1)
    } else {
        Seq::empty()
    }
}

/// The frames that a memory map yields: those of its usable regions, in map
/// order, each region from its first stride to its last.
pub open spec fn usable_frames(regions: Seq<MemoryRegion>) -> Seq<u64> {
    frames_from(regions, 0)
}

/// Whether every usable region of the map lies below the end of physical
/// address space.
pub open spec fn addressable(regions: Seq<MemoryRegion>) -> bool {
    forall|i: int| 0 <= i < regions.len() ==> (#[trigger] regions[i]).addressable()
}

/// Tells whether every usable region of the map lies below the end of
/// physical address space.
pub fn memory_map_addressable(memory_map: &[MemoryRegion]) -> (r: bool)
    ensures
        r == addressable(memory_map@),
{
    let mut i: usize = 0;
    while i < memory_map.len()
        invariant
            i <= memory_map@.len(),
            forall|j: int| 0 <= j < i ==> (#[trigger] memory_map@[j]).addressable(),
        decreases memory_map@.len() - i,
    {
        let region: MemoryRegion = memory_map[i];
        match region.kind {
            MemoryRegionKind::Usable => {
                if region.start < region.end && region.end > PHYS_ADDR_LIMIT {
                    assert(!memory_map@[i as int].addressable());
                    return false;
                }
            },
            _ => {},
        }
        i = i + 1;
    }
    true
}

/// Hands out the frames of a memory map one by one, in map order, and never
/// the same stride twice. Nothing is ever given back to it.
pub struct BootInfoFrameAllocator<'a> {
    memory_map: &'a [MemoryRegion],
    /// Index of the region that the next frame is looked for in.
    region: usize,
    /// Number of frames already drawn from that region.
    stride: u64,
}

impl<'a> BootInfoFrameAllocator<'a> {
    #[verifier::type_invariant]
    spec fn valid(self) -> bool {
        &&& addressable(self.memory_map@)
        &&& self.region <= self.memory_map@.len()
        &&& self.region < self.memory_map@.len() ==> self.stride
            <= self.memory_map@[self.region as int].frame_count()
    }

    /// The memory map that the frames are drawn from.
    pub closed spec fn memory_map(self) -> Seq<MemoryRegion> {
        self.memory_map@
    }

    /// The frames that are still to come, the next one first.
    pub closed spec fn remaining(self) -> Seq<u64> {
        if self.region < self.memory_map@.len() {
            self.memory_map@[self.region as int].frames().skip(self.stride as int) + frames_from(
                self.memory_map@,
                self.region + 1,
            )
        } else {
            Seq::empty()
        }
    }

    /// An allocator that has all frames of `memory_map` still to give.
    pub fn new(memory_map: &'a [MemoryRegion]) -> (allocator: Self)
        requires
            addressable(memory_map@),
        ensures
            allocator.memory_map() == memory_map@,
            allocator.remaining() == usable_frames(memory_map@),
    {
        let allocator = BootInfoFrameAllocator { memory_map, region: 0, stride: 0 };
        assert(allocator.remaining() =~= usable_frames(memory_map@));
        allocator
    }

    /// The next frame, or `None` once the map is used up, and from then on.
    pub fn allocate_frame(&mut self) -> (frame: Option<PhysFrame>)
        ensures
            final(self).memory_map() == old(self).memory_map(),
            old(self).remaining().len() == 0 ==> frame.is_none() && final(self).remaining()
                == old(self).remaining(),
            old(self).remaining().len() > 0 ==> frame.is_some() && frame.unwrap()@
                == old(self).remaining()[0] && final(self).remaining()
                == old(self).remaining().skip(1),
    {
        loop
            invariant
                self.memory_map() == old(self).memory_map(),
                self.remaining() == old(self).remaining(),
            decreases self.memory_map@.len() - self.region,
        {
            proof {
                use_type_invariant(&*self);
            }
            if self.region >= self.memory_map.len() {
                return None;
            }
            let region: MemoryRegion = self.memory_map[self.region];
            let usable: bool = match region.kind {
                MemoryRegionKind::Usable => true,
                _ => false,
            };
            let ghost frames = region.frames();
            let ghost rest = frames_from(self.memory_map@, self.region + 1);
            if usable && region.start < region.end && self.stride * PAGE_SIZE < region.end
                - region.start {
                let addr: u64 = region.start + self.stride * PAGE_SIZE;
                let frame = PhysFrame::containing_address(PhysAddr::new(addr));
                self.stride = self.stride + 1;
                assert(self.remaining() =~= old(self).remaining().skip(1)) by {
                    assert(frames.skip(self.stride as int) + rest =~= (frames.skip(
                        self.stride - 1,
                    ) + rest).skip(1));
                }
                return Some(frame);
            }
            assert(frames.skip(self.stride as int) =~= Seq::<u64>::empty());
            self.stride = 0;
            self.region = self.region + 1;
            assert(self.remaining() =~= rest) by {
                if self.region < self.memory_map@.len() {
                    assert(self.memory_map@[self.region as int].frames().skip(0)
                        =~= self.memory_map@[self.region as int].frames());
                }
            }
        }
    }
}

/// The view of the active page-table hierarchy through the offset mapping:
/// all of physical memory appears in virtual memory, moved by one fixed offset.
#[derive(Clone, Copy, Debug)]
pub struct OffsetPageTable {
    level_4_table: VirtAddr,
    phys_offset: VirtAddr,
}

impl OffsetPageTable {
    /// The virtual address at which the top-level table is reached.
    pub closed spec fn spec_level_4_table(self) -> u64 {
        self.level_4_table@
    }

    /// The offset between a physical address and the virtual address that
    /// shows it.
    pub closed spec fn spec_phys_offset(self) -> u64 {
        self.phys_offset@
    }

    /// The virtual address at which the top-level table is reached.
    pub fn level_4_table(&self) -> (table: VirtAddr)
        ensures
            table@ == self.spec_level_4_table(),
    {
        self.level_4_table
    }

    /// The offset of the mapping.
    pub fn phys_offset(&self) -> (offset: VirtAddr)
        ensures
            offset@ == self.spec_phys_offset(),
    {
        self.phys_offset
    }

    /// The virtual address that shows the physical address `addr`, or `None`
    /// where the offset mapping does not reach it.
    pub fn phys_to_virt(&self, addr: PhysAddr) -> (r: Option<VirtAddr>)
        ensures
            r.is_some() <==> reaches(self.spec_phys_offset(), addr@),
            r.is_some() ==> r.unwrap()@ == canonical((self.spec_phys_offset() + addr@) as u64),
    {
        self.phys_offset.checked_add(addr.as_u64())
    }
}

/// The virtual address of the top-level page table, which lies in the frame
/// `level_4_table_frame`, under the offset mapping.
pub fn active_level_4_table(physical_memory_offset: VirtAddr, level_4_table_frame: PhysFrame) -> (table:
    VirtAddr)
    requires
        reaches(physical_memory_offset@, level_4_table_frame@),
    ensures
        table@ == canonical((physical_memory_offset@ + level_4_table_frame@) as u64),
{
    let phys: PhysAddr = level_4_table_frame.start_address();
    physical_memory_offset.add_offset(phys.as_u64())
}

/// The offset mapper over the page-table hierarchy whose top-level table lies
/// in `level_4_table_frame`.
pub fn init(physical_memory_offset: VirtAddr, level_4_table_frame: PhysFrame) -> (mapper:
    OffsetPageTable)
    requires
        reaches(physical_memory_offset@, level_4_table_frame@),
    ensures
        mapper.spec_phys_offset() == physical_memory_offset@,
        mapper.spec_level_4_table() == canonical(
            (physical_memory_offset@ + level_4_table_frame@) as u64,
        ),
{
    let level_4_table: VirtAddr = active_level_4_table(physical_memory_offset, level_4_table_frame);
    OffsetPageTable { level_4_table, phys_offset: physical_memory_offset }
}

} // verus!
