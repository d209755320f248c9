use p_os::addr::{PhysAddr, PhysFrame};
use p_os::memory::{memory_map_addressable, BootInfoFrameAllocator, MemoryRegion, MemoryRegionKind};

fn usable(start: u64, end: u64) -> MemoryRegion {
    MemoryRegion { start, end, kind: MemoryRegionKind::Usable }
}

fn drain(map: &[MemoryRegion]) -> Vec<u64> {
    assert!(memory_map_addressable(map));
    let mut allocator = BootInfoFrameAllocator::new(map);
    let mut frames = Vec::new();
    while let Some(frame) = allocator.allocate_frame() {
        frames.push(frame.start_address().as_u64());
    }
    assert!(allocator.allocate_frame().is_none());
    frames
}

#[test]
fn one_usable_region_yields_256_frames_then_exhausts() {
    let map = [
        MemoryRegion { start: 0, end: 0x100000, kind: MemoryRegionKind::Bootloader },
        usable(0x100000, 0x200000),
        MemoryRegion { start: 0x200000, end: 0x300000, kind: MemoryRegionKind::UnknownUefi(7) },
    ];
    assert!(memory_map_addressable(&map));
    let mut allocator = BootInfoFrameAllocator::new(&map);
    for k in 0..256u64 {
        let frame = allocator.allocate_frame().expect("a frame is left");
        assert_eq!(frame.start_address().as_u64(), 0x100000 + k * 4096);
    }
    assert!(allocator.allocate_frame().is_none());
    assert!(allocator.allocate_frame().is_none());
}

#[test]
fn frames_come_in_map_order_and_only_from_usable_regions() {
    let map = [
        usable(0x5000, 0x7000),
        MemoryRegion { start: 0x7000, end: 0x9000, kind: MemoryRegionKind::UnknownBios(2) },
        usable(0x1000, 0x2000),
        MemoryRegion { start: 0x9000, end: 0xa000, kind: MemoryRegionKind::Bootloader },
        usable(0xa000, 0xd000),
    ];
    assert_eq!(drain(&map), vec![0x5000, 0x6000, 0x1000, 0xa000, 0xb000, 0xc000]);
}

#[test]
fn frame_count_is_usable_bytes_over_frame_size() {
    let map = [usable(0x10000, 0x20000), usable(0x40000, 0x48000), usable(0x80000, 0x81000)];
    let usable_bytes: u64 = (0x20000 - 0x10000) + (0x48000 - 0x40000) + (0x81000 - 0x80000);
    let frames = drain(&map);
    assert_eq!(frames.len() as u64, usable_bytes / 4096);
    for frame in &frames {
        assert_eq!(frame % 4096, 0);
        assert!(map.iter().any(|r| r.start <= *frame && frame + 4096 <= r.end));
    }
    let mut sorted = frames.clone();
    sorted.sort();
    sorted.dedup();
    assert_eq!(sorted.len(), frames.len());
}

#[test]
fn empty_map_yields_nothing() {
    assert_eq!(drain(&[]), Vec::<u64>::new());
}

#[test]
fn empty_and_reversed_regions_yield_nothing() {
    let map = [usable(0x3000, 0x3000), usable(0x9000, 0x4000), usable(0x2000, 0x3000)];
    assert_eq!(drain(&map), vec![0x2000]);
}

#[test]
fn one_frame_for_each_stride_that_begins_in_the_region() {
    assert_eq!(drain(&[usable(0x1000, 0x1800)]), vec![0x1000]);
    assert_eq!(drain(&[usable(0x1000, 0x2001)]), vec![0x1000, 0x2000]);
    assert_eq!(drain(&[usable(0x1234, 0x3000)]), vec![0x1000, 0x2000]);
}

#[test]
fn regions_above_physical_memory_are_not_addressable() {
    let limit: u64 = 1 << 52;
    assert!(memory_map_addressable(&[usable(limit - 0x1000, limit)]));
    assert!(!memory_map_addressable(&[usable(limit - 0x1000, limit + 1)]));
    let reserved = MemoryRegion { start: limit, end: u64::MAX, kind: MemoryRegionKind::Bootloader };
    assert!(memory_map_addressable(&[reserved]));
    assert!(memory_map_addressable(&[usable(u64::MAX, limit + 5)]));
    assert_eq!(drain(&[usable(limit - 0x1000, limit)]), vec![limit - 0x1000]);
}

#[test]
fn containing_address_aligns_down() {
    let frame = PhysFrame::containing_address(PhysAddr::new(0x1234_5678));
    assert_eq!(frame.start_address().as_u64(), 0x1234_5000);
    let frame = PhysFrame::containing_address(PhysAddr::new(0xfff));
    assert_eq!(frame.start_address().as_u64(), 0);
}
