use krabbos::addr::{PageTableIndex, PageTableLevel};
use krabbos::frame::PhysFrame;
use krabbos::page::{AddressNotAligned, Page, PageRange, Size1GiB, Size2MiB, Size4KiB};

fn page(addr: u64) -> Page<Size4KiB> {
    Page::from_start_address(addr).unwrap()
}

#[test]
fn from_start_address_requires_alignment() {
    assert_eq!(Page::<Size4KiB>::from_start_address(0x1000).map(|p| p.start_address()), Ok(0x1000));
    assert_eq!(Page::<Size4KiB>::from_start_address(0x1001), Err(AddressNotAligned));
    assert_eq!(Page::<Size2MiB>::from_start_address(0x1000), Err(AddressNotAligned));
    assert_eq!(Page::<Size1GiB>::from_start_address(0x4000_0000).map(|p| p.size()), Ok(0x4000_0000));
    assert_eq!(AddressNotAligned.message(), "the given address was not sufficiently aligned");
}

#[test]
fn containing_address_rounds_down() {
    let p = Page::<Size4KiB>::containing_address(0x1234_5678);
    assert_eq!(p.start_address(), 0x1234_5000);
    let q = Page::<Size2MiB>::containing_address(0x1234_5678);
    assert_eq!(q.start_address(), 0x1220_0000);
    assert!(q.start_address() <= 0x1234_5678 && 0x1234_5678 - q.start_address() < q.size());
    let f = PhysFrame::<Size4KiB>::containing_address(0xFFF);
    assert_eq!(f.start_address(), 0);
}

#[test]
fn page_arithmetic_round_trips() {
    let p = page(0x5000);
    let q = p.add_pages(7);
    assert_eq!(q.start_address(), 0xC000);
    assert_eq!(q.pages_since(p), 7);
    assert_eq!(q.sub_pages(7), p);
    let g = Page::<Size1GiB>::containing_address(0);
    assert_eq!(g.add_pages(3).pages_since(g), 3);
}

#[test]
fn page_indices() {
    let p = Page::from_page_table_indices(
        PageTableIndex::new(1),
        PageTableIndex::new(2),
        PageTableIndex::new(3),
        PageTableIndex::new(4),
    );
    assert_eq!(p.start_address(), (1 << 39) | (2 << 30) | (3 << 21) | (4 << 12));
    assert_eq!(p.p4_index().as_u16(), 1);
    assert_eq!(p.p3_index().as_u16(), 2);
    assert_eq!(p.p2_index().as_u16(), 3);
    assert_eq!(p.p1_index().as_u16(), 4);
    assert_eq!(p.page_table_index(PageTableLevel::Two).as_u16(), 3);
    let high = Page::from_page_table_indices_1gib(PageTableIndex::new(511), PageTableIndex::new(0));
    assert_eq!(high.start_address(), 0xFFFF_FF80_0000_0000);
    let mid = Page::from_page_table_indices_2mib(PageTableIndex::new(0), PageTableIndex::new(1), PageTableIndex::new(2));
    assert_eq!(mid.start_address(), 0x4040_0000);
}

#[test]
fn range_yields_pages_in_order() {
    let mut r = Page::range(page(0x1000), page(0x5000));
    assert_eq!(r.len(), 4);
    assert_eq!(r.size(), 0x4000);
    let mut seen = Vec::new();
    while let Some(p) = r.next() {
        seen.push(p.start_address());
    }
    assert_eq!(seen, vec![0x1000, 0x2000, 0x3000, 0x4000]);
    assert!(r.is_empty());
}

#[test]
fn empty_and_single_ranges() {
    let x = page(0x9000);
    let mut r = Page::range(x, x);
    assert!(r.is_empty());
    assert_eq!(r.len(), 0);
    assert_eq!(r.next(), None);
    let backwards = Page::range(page(0x9000), page(0x1000));
    assert_eq!(backwards.len(), 0);
    let mut i = Page::range_inclusive(x, x);
    assert_eq!(i.len(), 1);
    assert_eq!(i.next(), Some(x));
    assert_eq!(i.next(), None);
}

#[test]
fn inclusive_range_reaches_last_page() {
    let last = page(u64::MAX - 0xFFF);
    let mut r = Page::range_inclusive(last.sub_pages(1), last);
    assert_eq!(r.len(), 2);
    assert_eq!(r.next().map(|p| p.start_address()), Some(u64::MAX - 0x1FFF));
    assert_eq!(r.next().map(|p| p.start_address()), Some(u64::MAX - 0xFFF));
    assert_eq!(r.next(), None);
    assert!(r.is_empty());
}

#[test]
fn huge_range_as_small_pages() {
    let r: PageRange<Size2MiB> = Page::range(
        Page::containing_address(0x20_0000),
        Page::containing_address(0x60_0000),
    );
    assert_eq!(r.len(), 2);
    let small = r.as_4kib_page_range();
    assert_eq!(small.len(), 1024);
    assert_eq!(small.start.start_address(), 0x20_0000);
}

#[test]
fn frame_ranges() {
    let a = PhysFrame::<Size4KiB>::from_start_address(0x1000).unwrap();
    let b = PhysFrame::<Size4KiB>::from_start_address(0x3000).unwrap();
    let mut r = PhysFrame::range(a, b);
    assert_eq!(r.len(), 2);
    assert_eq!(r.size(), 0x2000);
    assert_eq!(r.next(), Some(a));
    let mut i = PhysFrame::range_inclusive(a, b);
    assert_eq!(i.len(), 3);
    assert_eq!(i.size(), 0x3000);
    assert_eq!(i.next(), Some(a));
    assert_eq!(b.frames_since(a), 2);
    assert_eq!(a.add_frames(2), b);
    assert!(PhysFrame::<Size4KiB>::from_start_address(0x1800).is_err());
    let last = PhysFrame::<Size4KiB>::containing_address(u64::MAX);
    let mut top = PhysFrame::range_inclusive(last, last);
    assert_eq!(top.next(), Some(last));
    assert_eq!(top.next(), None);
}

#[test]
fn unchecked_constructors() {
    let p = Page::<Size2MiB>::from_start_address_unchecked(0x40_0000);
    assert_eq!(p.start_address(), 0x40_0000);
    let f = PhysFrame::<Size4KiB>::from_start_address_unchecked(0x7000);
    assert_eq!(f.start_address(), 0x7000);
}
