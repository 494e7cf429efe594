use krabbos::paging::{FrameError, PageTable, PageTableEntry, PageTableFlags};

fn flags(bits: u64) -> PageTableFlags {
    PageTableFlags::from_bits_truncate(bits)
}

#[test]
fn new_entry_is_unused() {
    let e = PageTableEntry::new();
    assert!(e.is_unused());
    assert_eq!(e.addr(), 0);
    assert_eq!(e.frame(), Err(FrameError::FrameNotPresent));
}

#[test]
fn frame_not_present_when_present_flag_clear() {
    let mut e = PageTableEntry::new();
    e.set_addr(0x5000, flags(PageTableFlags::WRITABLE));
    assert_eq!(e.frame(), Err(FrameError::FrameNotPresent));
}

#[test]
fn frame_huge_when_huge_flag_set() {
    let mut e = PageTableEntry::new();
    e.set_addr(0x20_0000, flags(PageTableFlags::PRESENT | PageTableFlags::HUGE_PAGE));
    assert_eq!(e.frame(), Err(FrameError::HugeFrame));
}

#[test]
fn frame_returns_stored_address() {
    let mut e = PageTableEntry::new();
    e.set_frame(0x0000_0123_4567_8000, flags(PageTableFlags::PRESENT | PageTableFlags::WRITABLE | PageTableFlags::NO_EXECUTE));
    assert_eq!(e.frame(), Ok(0x0000_0123_4567_8000));
    assert_eq!(e.addr(), 0x0000_0123_4567_8000);
    assert!(e.flags().contains(PageTableFlags::NO_EXECUTE));
    assert!(!e.flags().contains(PageTableFlags::USER_ACCESSIBLE));
}

#[test]
fn set_flags_keeps_address() {
    let mut e = PageTableEntry::new();
    e.set_addr(0x7000, flags(PageTableFlags::PRESENT));
    e.set_flags(flags(PageTableFlags::PRESENT | PageTableFlags::DIRTY));
    assert_eq!(e.addr(), 0x7000);
    assert_eq!(e.flags().bits(), PageTableFlags::PRESENT | PageTableFlags::DIRTY);
    e.set_unused();
    assert!(e.is_unused());
}

#[test]
fn flags_truncate_and_check() {
    assert_eq!(flags(0x000F_0000_0000_F000).bits(), 0);
    assert_eq!(PageTableFlags::from_bits(0x1000), None);
    assert_eq!(PageTableFlags::from_bits(0x3).map(|f| f.bits()), Some(0x3));
    let mut f = PageTableFlags::empty();
    f.insert(PageTableFlags::GLOBAL | 0x1000);
    assert_eq!(f.bits(), PageTableFlags::GLOBAL);
    f.remove(PageTableFlags::GLOBAL);
    assert_eq!(f.bits(), 0);
}

#[test]
fn fresh_table_is_empty() {
    let t = PageTable::new();
    assert!(t.is_empty());
    assert_eq!(t.len(), 512);
    assert!(t.iter().iter().all(|e| e.is_unused()));
}

#[test]
fn set_then_clear_restores_empty() {
    let mut t = PageTable::new();
    t.index_mut(17).set_addr(0x3000, flags(PageTableFlags::PRESENT));
    assert!(!t.is_empty());
    assert_eq!(t.index(17).frame(), Ok(0x3000));
    t.index_mut(17).set_unused();
    assert!(t.is_empty());
}

#[test]
fn zero_clears_every_entry() {
    let mut t = PageTable::new();
    t.index_mut(0).set_addr(0x1000, flags(PageTableFlags::PRESENT));
    t.index_mut(511).set_addr(0x2000, flags(PageTableFlags::PRESENT));
    t.zero();
    assert!(t.is_empty());
    assert_eq!(t.iter().len(), 512);
}
