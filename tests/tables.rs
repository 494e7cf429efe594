use krabbos::gdt::{build_gdt, kernel_code_selector, kernel_data_selector, tss_selector, GDTEntry, GlobalDescriptorTable};
use krabbos::handlers::{handler_for, DiagnosticPolicy, PageFaultCauses};
use krabbos::idt::{build_idt, IDTEntry, InterruptDescriptorTable};
use krabbos::interrupts::{read, InterruptStackFrame, InterruptStackFrameValue, RFlags};
use krabbos::pit::divisor_bytes;
use krabbos::selectors::SegmentSelector;
use krabbos::tss::{TaskStateSegment, DOUBLE_FAULT_IST_INDEX};

#[test]
fn selectors() {
    let s = SegmentSelector::new(7, 0, 0);
    assert_eq!(s.0, 0x38);
    let u = SegmentSelector::new(5, 1, 3);
    assert_eq!(u.0, 0x2F);
    assert_eq!((u.index(), u.table(), u.rpl()), (5, 1, 3));
    assert_eq!(kernel_code_selector().0, 0x10);
    assert_eq!(kernel_data_selector().0, 0x18);
    assert_eq!(tss_selector().0, 0x38);
}

#[test]
fn gdt_layout() {
    let tss_base: u64 = 0xFFFF_8000_1234_5678;
    let gdt = build_gdt(tss_base);
    assert_eq!(gdt.0[0].to_u64(), 0);
    assert_eq!(gdt.0[1].to_u64(), 0x00CF_9A00_0000_FFFF);
    assert_eq!(gdt.0[2].to_u64(), 0x00AF_9A00_0000_FFFF);
    assert_eq!(gdt.0[3].to_u64(), 0x00CF_9200_0000_FFFF);
    assert_eq!(gdt.0[4].to_u64(), 0x00CF_FA00_0000_FFFF);
    assert_eq!(gdt.0[5].to_u64(), 0x00AF_FA00_0000_FFFF);
    assert_eq!(gdt.0[6].to_u64(), 0x00CF_F200_0000_FFFF);
    assert_eq!(gdt.0[7].to_u64(), 0x1230_8934_5678_0067);
    assert_eq!(gdt.0[8].to_u64(), 0xFFFF_8000);
    assert_eq!(gdt.0[9].to_u64(), 0);
    assert_eq!(gdt.limit(), 0xFFFF);
    let p = gdt.pointer(0x5000);
    assert_eq!((p.base, p.limit), (0x5000, 0xFFFF));
}

#[test]
fn gdt_entries() {
    let mut e = GDTEntry::null();
    assert_eq!(e.to_u64(), 0);
    e.set_entry(0x1122_3344, 0x000A_BCDE, 0x9A, 0xC5);
    assert_eq!(e.to_u64(), 0x11CA_9A22_3344_BCDE);
    assert_eq!(GDTEntry::from_u64(0x0123_4567_89AB_CDEF).to_u64(), 0x0123_4567_89AB_CDEF);
    let mut t = GlobalDescriptorTable::new();
    t.set_tss(0x0000_0001_0000_2000, 3);
    assert_eq!(t.0[4].to_u64(), 1);
    assert_eq!(t.0[2].to_u64(), 0);
}

#[test]
fn tss_holds_double_fault_stack() {
    let t = TaskStateSegment::new();
    assert_eq!(t.iomap_base, 104);
    assert_eq!(t.interrupt_stack_table, [0; 7]);
    let k = TaskStateSegment::with_double_fault_stack(0x10_0000);
    assert_eq!(k.interrupt_stack_table[DOUBLE_FAULT_IST_INDEX as usize], 0x10_5000);
    assert_eq!(k.privilege_stack_table, [0; 3]);
}

fn handler_addresses() -> [u64; 256] {
    let mut h = [0u64; 256];
    for (v, slot) in h.iter_mut().enumerate() {
        *slot = 0xFFFF_8000_0010_0000 + (v as u64) * 0x100;
    }
    h
}

#[test]
fn double_fault_gate_uses_reserved_stack() {
    let cs = SegmentSelector::new(2, 0, 0);
    let idt = build_idt(&handler_addresses(), cs);
    let df = idt.entry(8);
    assert!(df.present());
    assert_eq!(df.stack_index(), Some(DOUBLE_FAULT_IST_INDEX));
    assert_eq!(df.options(), 0x8E01);
}

#[test]
fn idt_gates() {
    let cs = SegmentSelector::new(2, 0, 0);
    let handlers = handler_addresses();
    let idt = build_idt(&handlers, cs);
    let pf = idt.entry(14);
    assert!(pf.present());
    assert_eq!(pf.handler_addr(), handlers[14]);
    assert_eq!(pf.selector(), cs);
    assert_eq!(pf.stack_index(), None);
    assert!(!idt.entry(9).present());
    assert!(!idt.entry(15).present());
    assert!(idt.entry(32).present());
    assert!(idt.entry(33).present());
    assert!(!idt.entry(34).present());
    assert!(!idt.entry(255).present());
    assert_eq!(idt.pointer(0x7000).limit, 4095);
    let raw = pf.to_raw();
    assert_eq!(raw.0, (handlers[14] & 0xFFFF) | (0x10 << 16) | (0x8E00 << 32) | (((handlers[14] >> 16) & 0xFFFF) << 48));
    assert_eq!(raw.1, handlers[14] >> 32);
}

#[test]
fn gate_options() {
    let mut e = IDTEntry::missing();
    assert!(!e.present());
    assert_eq!(e.options(), 0x0E00);
    assert_eq!(e.to_raw(), (0x0E00 << 32, 0));
    e.set_entry(0x1234_5678_9ABC_DEF0, SegmentSelector(0x08), None);
    assert!(e.present());
    assert_eq!(e.handler_addr(), 0x1234_5678_9ABC_DEF0);
    e.set_privilege_level(3);
    assert_eq!(e.privilege_level(), 3);
    assert_eq!(e.options(), 0xEE00);
    e.disable_interrupts(false);
    assert_eq!(e.options(), 0xEF00);
    e.disable_interrupts(true);
    e.set_ist_index(2);
    assert_eq!(e.stack_index(), Some(2));
    e.set_present(false);
    assert!(!e.present());
    assert_eq!(e.to_raw().1, 0x1234_5678);
    let mut t = InterruptDescriptorTable::new();
    t.exceptions[3].set_entry(0x1000, SegmentSelector(0x08), Some(0x0F00));
    assert_eq!(t.entry(3).options(), 0x8F00);
    t.reset();
    assert!(!t.entry(3).present());
}

#[test]
fn handler_table() {
    assert_eq!(handler_for(9), None);
    assert_eq!(handler_for(15), None);
    let bp = handler_for(3).unwrap();
    assert_eq!(bp.policy, DiagnosticPolicy::Recoverable);
    assert!(!bp.error_code);
    let df = handler_for(8).unwrap();
    assert!(df.error_code && df.dedicated_stack);
    assert_eq!(df.policy, DiagnosticPolicy::Fatal);
    assert_eq!(handler_for(14).unwrap().policy, DiagnosticPolicy::Decoded);
    assert_eq!(handler_for(33).unwrap().policy, DiagnosticPolicy::Device);
    assert!(handler_for(17).unwrap().error_code);
    assert!(!handler_for(0).unwrap().error_code);
}

#[test]
fn page_fault_error_code() {
    let c = PageFaultCauses::from_error_code(0b101_0011);
    assert!(c.protection_violation && c.caused_by_write && c.malformed_table == false);
    assert!(c.instruction_fetch && c.shadow_stack);
    assert!(!c.user_mode && !c.protection_key);
    assert_eq!(PageFaultCauses::from_error_code(0), PageFaultCauses {
        protection_violation: false,
        caused_by_write: false,
        user_mode: false,
        malformed_table: false,
        instruction_fetch: false,
        protection_key: false,
        shadow_stack: false,
    });
}

#[test]
fn flags_and_frames() {
    let f = read(0xFFFF_FFFF_FFFF_FFFF);
    assert_eq!(f.bits(), RFlags::ALL);
    assert!(read(0x202).contains(RFlags::INTERRUPT_FLAG));
    assert!(!read(0x2).contains(RFlags::INTERRUPT_FLAG));
    let frame = InterruptStackFrame::new(0x1000, SegmentSelector(8), read(0x202), 0x2000, SegmentSelector(0));
    assert_eq!(frame.value().instruction_pointer, 0x1000);
    assert_eq!(frame.value().stack_pointer, 0x2000);
    let v = InterruptStackFrameValue::new(1, SegmentSelector(8), RFlags::from_bits_truncate(0), 2, SegmentSelector(16));
    assert_eq!(v.stack_segment, SegmentSelector(16));
}

#[test]
fn timer_divisor() {
    // 1193180 / 50 = 23863 = 0x5D37
    assert_eq!(divisor_bytes(50), (0x37, 0x5D));
    assert_eq!(divisor_bytes(1_193_180), (1, 0));
    assert_eq!(divisor_bytes(2_000_000), (0, 0));
}

#[test]
fn defaults() {
    let t: TaskStateSegment = Default::default();
    assert_eq!(t.iomap_base, 104);
    let e: krabbos::paging::PageTableEntry = Default::default();
    assert!(e.is_unused());
    let p: krabbos::paging::PageTable = Default::default();
    assert!(p.is_empty());
}

#[test]
fn rflags_write_keeps_reserved_bits() {
    let merged = krabbos::interrupts::merged_value(0xFFFF_0000_0000_0002, RFlags::from_bits_truncate(RFlags::INTERRUPT_FLAG));
    assert_eq!(merged, 0xFFFF_0000_0000_0202);
}
