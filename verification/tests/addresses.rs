use p_os::addr::{Page, PhysAddr, PhysFrame, VirtAddr};
use p_os::memory::{active_level_4_table, init};

#[test]
fn physical_addresses_have_52_bits() {
    assert_eq!(PhysAddr::new(0x1234).as_u64(), 0x1234);
    assert_eq!(PhysAddr::try_new((1 << 52) - 1).map(|a| a.as_u64()), Some((1 << 52) - 1));
    assert!(PhysAddr::try_new(1 << 52).is_none());
    assert!(PhysAddr::try_new(u64::MAX).is_none());
}

#[test]
fn virtual_addresses_are_made_canonical() {
    assert_eq!(VirtAddr::zero().as_u64(), 0);
    assert_eq!(VirtAddr::try_new(0x7fff_ffff_ffff).map(|a| a.as_u64()), Some(0x7fff_ffff_ffff));
    assert_eq!(
        VirtAddr::try_new(0x8000_0000_0000).map(|a| a.as_u64()),
        Some(0xffff_8000_0000_0000)
    );
    assert_eq!(
        VirtAddr::try_new(0xffff_8000_0000_0000).map(|a| a.as_u64()),
        Some(0xffff_8000_0000_0000)
    );
    assert!(VirtAddr::try_new(0x1_0000_0000_0000).is_none());
    assert!(VirtAddr::try_new(0xffff_7fff_ffff_ffff).is_none());
}

#[test]
fn virtual_addresses_add_offsets() {
    let base = VirtAddr::try_new(0x1000).unwrap();
    assert_eq!(base.add_offset(0x234).as_u64(), 0x1234);
    assert_eq!(base.checked_add(0x234).map(|a| a.as_u64()), Some(0x1234));
    assert_eq!(
        base.checked_add(0x7fff_ffff_f000).map(|a| a.as_u64()),
        Some(0xffff_8000_0000_0000)
    );
    assert!(base.checked_add(0xffff_ffff_f000).is_none());
    let high = VirtAddr::try_new(0xffff_ffff_ffff_f000).unwrap();
    assert!(high.checked_add(0x1000).is_none());
    assert_eq!(high.checked_add(0xfff).map(|a| a.as_u64()), Some(u64::MAX));
}

#[test]
fn pages_align_down() {
    let page = Page::containing_address(VirtAddr::try_new(0x4444_4444_0abc).unwrap());
    assert_eq!(page.start_address().as_u64(), 0x4444_4444_0000);
    let page = Page::containing_address(VirtAddr::try_new(0xffff_8000_0000_0fff).unwrap());
    assert_eq!(page.start_address().as_u64(), 0xffff_8000_0000_0000);
}

#[test]
fn the_top_level_table_is_reached_through_the_offset() {
    let offset = VirtAddr::try_new(0x1800_0000_0000).unwrap();
    let frame = PhysFrame::containing_address(PhysAddr::new(0x1234));
    assert_eq!(active_level_4_table(offset, frame).as_u64(), 0x1800_0000_1000);
    let mapper = init(offset, frame);
    assert_eq!(mapper.level_4_table().as_u64(), 0x1800_0000_1000);
    assert_eq!(mapper.phys_offset().as_u64(), 0x1800_0000_0000);
    assert_eq!(
        mapper.phys_to_virt(PhysAddr::new(0xb8000)).map(|a| a.as_u64()),
        Some(0x1800_000b_8000)
    );
}

#[test]
fn the_offset_mapping_ends_where_addresses_end() {
    let offset = VirtAddr::try_new(0xffff_ffff_ffff_0000).unwrap();
    let mapper = init(offset, PhysFrame::containing_address(PhysAddr::new(0x1000)));
    assert!(mapper.phys_to_virt(PhysAddr::new(0x10000)).is_none());
    assert_eq!(mapper.phys_to_virt(PhysAddr::new(0xffff)).map(|a| a.as_u64()), Some(u64::MAX));
}
