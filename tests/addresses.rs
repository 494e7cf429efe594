use krabbos::addr::{PageOffset, PageTableIndex, PageTableLevel, PhysAddr, VirtAddr};

#[test]
fn canonicalize_sign_extends_bit_47() {
    assert_eq!(u64::new_virt_truncate(0x0000_8000_0000_0000), 0xFFFF_8000_0000_0000);
    assert_eq!(u64::new_virt_truncate(0x1234_7FFF_FFFF_FFFF), 0x0000_7FFF_FFFF_FFFF);
    assert_eq!(u64::new_virt_truncate(0xFFFF_8000_0000_1000), 0xFFFF_8000_0000_1000);
    assert_eq!(u64::new_virt_truncate(0), 0);
}

#[test]
fn canonicalize_is_idempotent() {
    for a in [0u64, 1, 0x0000_8000_0000_0000, 0x0123_4567_89AB_CDEF, u64::MAX, 0x8000_0000_0000_0000] {
        let c = u64::new_virt_truncate(a);
        assert_eq!(u64::new_virt_truncate(c), c);
        let high = c >> 48;
        let bit47 = (c >> 47) & 1;
        assert_eq!(high, if bit47 == 1 { 0xFFFF } else { 0 });
    }
}

#[test]
fn indices_and_offset_reassemble() {
    let a: u64 = 0xFFFF_8123_4567_89AB;
    let p4 = u64::from(a.p4_index().into_u64());
    let p3 = a.p3_index().into_u64();
    let p2 = a.p2_index().into_u64();
    let p1 = a.p1_index().into_u64();
    let off = a.page_offset().into_u64();
    assert!(p4 < 512 && p3 < 512 && p2 < 512 && p1 < 512 && off < 4096);
    let back = u64::new_virt_truncate(p4 << 39 | p3 << 30 | p2 << 21 | p1 << 12 | off);
    assert_eq!(back, a);
    assert_eq!(off, 0x9AB);
    assert_eq!(p1, (a >> 12) & 0x1FF);
    assert_eq!(p4, (a >> 39) & 0x1FF);
}

#[test]
fn page_table_index_by_level() {
    let a: u64 = (5 << 39) | (6 << 30) | (7 << 21) | (8 << 12);
    assert_eq!(a.page_table_index(PageTableLevel::Four).as_u16(), 5);
    assert_eq!(a.page_table_index(PageTableLevel::Three).as_u16(), 6);
    assert_eq!(a.page_table_index(PageTableLevel::Two).as_u16(), 7);
    assert_eq!(a.page_table_index(PageTableLevel::One).as_u16(), 8);
}

#[test]
fn index_and_offset_constructors() {
    assert_eq!(PageTableIndex::new(511).as_u16(), 511);
    assert_eq!(PageTableIndex::new_truncate(512).as_u16(), 0);
    assert_eq!(PageTableIndex::new_truncate(0x3FF).as_usize(), 0x1FF);
    assert_eq!(PageOffset::new(4095).into_u64(), 4095);
    assert_eq!(PageOffset::new_truncate(4096 + 7).into_u64(), 7);
}

#[test]
fn levels() {
    assert_eq!(PageTableLevel::Four.next_lower_level(), Some(PageTableLevel::Three));
    assert_eq!(PageTableLevel::One.next_lower_level(), None);
    assert_eq!(PageTableLevel::Four.next_higher_level(), None);
    assert_eq!(PageTableLevel::One.next_higher_level(), Some(PageTableLevel::Two));
    assert_eq!(PageTableLevel::One.entry_address_space_alignment(), 0x1000);
    assert_eq!(PageTableLevel::Two.entry_address_space_alignment(), 0x20_0000);
    assert_eq!(PageTableLevel::One.table_address_space_alignment(), 0x20_0000);
    assert_eq!(PageTableLevel::Four.table_address_space_alignment(), 0x1_0000_0000_0000);
    assert_eq!(PageTableLevel::Three.as_u8(), 3);
}

#[test]
fn alignment_helpers() {
    assert_eq!(0x1234u64.align_down(0x1000), 0x1000);
    assert_eq!(0x2000u64.align_down(0x1000), 0x2000);
    assert!(0x20_0000u64.is_aligned(0x20_0000));
    assert!(!0x20_1000u64.is_aligned(0x20_0000));
    assert_eq!(u64::new_truncate(0xFFF0_0000_0000_1234), 0x0000_0000_0000_1234);
}

#[test]
fn forward_checked() {
    assert_eq!(u64::forward_checked_u64(0x1000, 0x1000), Some(0x2000));
    assert_eq!(u64::forward_checked_u64(u64::MAX, 1), None);
    assert_eq!(u64::forward_checked_u64(0, 0x1_0000_0000_0001), None);
    assert_eq!(u64::forward_checked_impl(5, 7usize), Some(12));
}

#[test]
fn forward_jumps_the_gap() {
    assert_eq!(u64::forward_checked_u64(0x7FFF_FFFF_F000, 0x1000), Some(0xFFFF_8000_0000_0000));
    assert_eq!(u64::forward_checked_u64(0xFFFF_8000_0000_0000, 0x10), Some(0xFFFF_8000_0000_0010));
    assert_eq!(u64::forward_checked_u64(0x7FFF_FFFF_FFFF, 0x1_0000_0000_0000), None);
    assert_eq!(u64::forward_checked_u64(0xFFFF_FFFF_FFFF_F000, 0x1000), None);
    assert_eq!(u64::forward_checked_u64(0x0003_0000_0000_0000, 0), None);
}
