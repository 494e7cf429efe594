use krabbos::addr::{PageTableIndex, VirtAddr};
use krabbos::paging::{PageTable, PageTableEntry, PageTableFlags};
use krabbos::translate::{next_table, root_table_frame, table_virt_addr, PageWalk, PhysMemory, TranslateError, WalkStep};

const PRESENT: u64 = PageTableFlags::PRESENT;

fn table_with(index: usize, addr: u64, flags: u64) -> PageTable {
    let mut t = PageTable::new();
    t.index_mut(index).set_addr(addr, PageTableFlags::from_bits_truncate(flags));
    t
}

/// Four tables at 0x0, 0x1000, 0x2000 and 0x3000 that map the page with the
/// given indices to frame 0x4000.
fn chain(p4: usize, p3: usize, p2: usize, p1: usize, level3_flags: u64) -> PhysMemory {
    let mut mem = PhysMemory::new(0);
    mem.push(table_with(p4, 0x1000, PRESENT));
    mem.push(table_with(p3, 0x2000, level3_flags));
    mem.push(table_with(p2, 0x3000, PRESENT));
    mem.push(table_with(p1, 0x4000, PRESENT));
    mem
}

fn address(p4: u64, p3: u64, p2: u64, p1: u64, offset: u64) -> u64 {
    u64::new_virt_truncate(p4 << 39 | p3 << 30 | p2 << 21 | p1 << 12 | offset)
}

#[test]
fn walk_through_four_levels() {
    let mem = chain(1, 2, 3, 4, PRESENT);
    let addr = address(1, 2, 3, 4, 0x23);
    assert_eq!(mem.translate_addr(0, addr, 0), Ok(0x4023));
}

#[test]
fn walk_with_offset_memory() {
    let mut mem = PhysMemory::new(0x10_0000);
    mem.push(table_with(7, 0x1000, PRESENT));
    mem.push(table_with(0, 0x2000, PRESENT));
    mem.push(table_with(0, 0x3000, PRESENT));
    mem.push(table_with(9, 0xABC_D000, PRESENT));
    let addr = address(7, 0, 0, 9, 0xFFF);
    assert_eq!(mem.translate_addr(0, addr, 0x10_0000), Ok(0xABC_DFFF));
}

#[test]
fn level_three_not_present() {
    let mem = chain(1, 2, 3, 4, 0);
    let addr = address(1, 2, 3, 4, 0x23);
    assert_eq!(mem.translate_addr(0, addr, 0), Err(TranslateError::NotPresent));
}

#[test]
fn unselected_entry_not_present() {
    let mem = chain(1, 2, 3, 4, PRESENT);
    assert_eq!(mem.translate_addr(0, address(1, 2, 3, 5, 0), 0), Err(TranslateError::NotPresent));
}

#[test]
fn huge_entry_is_reported() {
    let mem = chain(1, 2, 3, 4, PRESENT | PageTableFlags::HUGE_PAGE);
    assert_eq!(mem.translate_addr(0, address(1, 2, 3, 4, 0), 0), Err(TranslateError::HugeFrame));
}

#[test]
fn table_outside_memory() {
    let mut mem = PhysMemory::new(0);
    mem.push(table_with(1, 0x9000, PRESENT));
    assert_eq!(mem.translate_addr(0, address(1, 0, 0, 0, 0), 0), Err(TranslateError::TableUnreadable));
    assert_eq!(mem.translate_addr(0x1000, 0, 0), Err(TranslateError::TableUnreadable));
    assert_eq!(mem.translate_addr(0, 0, u64::MAX), Err(TranslateError::TableUnreadable));
}

#[test]
fn walk_steps() {
    assert_eq!(root_table_frame(0x0000_0000_1234_5018), 0x1234_5000);
    assert_eq!(root_table_frame(0xFFF0_0000_0000_1000), 0x1000);
    assert_eq!(table_virt_addr(0xFFFF_8000_0000_0000, 0x2000), Some(0xFFFF_8000_0000_2000));
    assert_eq!(table_virt_addr(u64::MAX, 1), None);
    let mut e = PageTableEntry::new();
    assert_eq!(next_table(&e), Err(TranslateError::NotPresent));
    e.set_addr(0x8000, PageTableFlags::from_bits_truncate(PRESENT));
    assert_eq!(next_table(&e), Ok(0x8000));
    let i = PageTableIndex::new(3);
    assert_eq!(i.into_u64(), 3);
}

#[test]
fn walk_step_by_step() {
    let mem = chain(1, 2, 3, 4, PRESENT);
    let addr = address(1, 2, 3, 4, 0x23);
    let mut walk = PageWalk::new(0, addr, 0);
    let mut reads = Vec::new();
    let result = loop {
        match walk.step() {
            WalkStep::Done(r) => break r,
            WalkStep::Read { table, index } => {
                reads.push((table, index));
                let t = mem.table_at(table).unwrap();
                if let Err(e) = walk.advance(t.index(index)) {
                    break Err(e);
                }
            }
        }
    };
    assert_eq!(result, Ok(0x4023));
    assert_eq!(reads, vec![(0, 1), (0x1000, 2), (0x2000, 3), (0x3000, 4)]);
}

#[test]
fn walk_stops_on_absent_entry() {
    let mut walk = PageWalk::new(0x5000, 0, 0x100);
    assert_eq!(walk.step(), WalkStep::Read { table: 0x5100, index: 0 });
    assert_eq!(walk.advance(&PageTableEntry::new()), Err(TranslateError::NotPresent));
    let overflow = PageWalk::new(0x1000, 0, u64::MAX);
    assert_eq!(overflow.step(), WalkStep::Done(Err(TranslateError::TableUnreadable)));
}

#[test]
fn entry_from_raw_value() {
    let e = PageTableEntry::from_raw(0x8000_0000_0012_3003);
    assert_eq!(e.addr(), 0x12_3000);
    assert!(e.flags().contains(PageTableFlags::PRESENT | PageTableFlags::WRITABLE | PageTableFlags::NO_EXECUTE));
    assert_eq!(e.frame(), Ok(0x12_3000));
}
