//! The global descriptor table: segment descriptors and the two-slot task
//! state segment descriptor.
use crate::selectors::{DescriptorTablePointer, SegmentSelector};
use crate::tss::TSS_SIZE;
use vstd::prelude::*;

verus! {

/// Number of slots in the table.
pub const GDT_SLOTS: usize = 8192;

/// Limit of the flat code and data segments.
pub const SEGMENT_LIMIT: u32 = 0xFFFF_FFFF;
/// Base of the flat code and data segments.
pub const SEGMENT_BASE: u32 = 0;

/// Access byte: set by the CPU when the segment is used.
pub const ACCESS_ACCESSED: u8 = 0x01;
/// Access byte: code readable, or data writable.
pub const ACCESS_READWRITE: u8 = 0x02;
/// Access byte: data segment grows down.
pub const ACCESS_EXPANSION: u8 = 0x04;
/// Access byte: executable code segment.
pub const ACCESS_EXEC_CODE: u8 = 0x08;
/// Access byte: code or data segment (clear for system segments).
pub const ACCESS_CODEDATA: u8 = 0x10;
/// Access byte: descriptor privilege level 3.
pub const ACCESS_DPL: u8 = 0x60;
/// Access byte: the segment is present in memory.
pub const ACCESS_MEMORY: u8 = 0x80;

/// Granularity byte: the high four bits of the limit.
pub const GRAN_LIMITHI_MASK: u8 = 0x0f;
/// Granularity byte: available to the OS.
pub const GRAN_OS: u8 = 0x10;
/// Granularity byte: 64-bit code segment.
pub const GRAN_64BIT: u8 = 0x20;
/// Granularity byte: 32-bit segment.
pub const GRAN_32BIT: u8 = 0x40;
/// Granularity byte: the limit counts 4 KiB units.
pub const GRAN_4K: u8 = 0x80;

/// Slot of the 32-bit kernel code segment.
pub const KERNEL_CODE32_SLOT: u16 = 1;
/// Slot of the 64-bit kernel code segment.
pub const KERNEL_CODE_SLOT: u16 = 2;
/// Slot of the kernel data segment.
pub const KERNEL_DATA_SLOT: u16 = 3;
/// Slot of the 32-bit user code segment.
pub const USER_CODE32_SLOT: u16 = 4;
/// Slot of the 64-bit user code segment.
pub const USER_CODE_SLOT: u16 = 5;
/// Slot of the user data segment.
pub const USER_DATA_SLOT: u16 = 6;
/// First of the two slots of the task state segment descriptor.
pub const TSS_SLOT: u16 = 7;

/// The 8-byte descriptor of a segment with base `base`, limit `limit`,
/// access byte `access` and the high nibble of `gran` as flags.
pub open spec fn descriptor(base: u32, limit: u32, access: u8, gran: u8) -> u64 {
    ((limit & 0xFFFF) as u64) | (((base & 0xFFFF) as u64) << 16u64) | ((((base >> 16u32) & 0xFF)
        as u64) << 32u64) | ((access as u64) << 40u64) | (((((limit >> 16u32) & 0x0F) as u8 | (gran
        & 0xF0)) as u64) << 48u64) | ((((base >> 24u32) & 0xFF) as u64) << 56u64)
}

/// One 8-byte slot of the table.
#[derive(Debug, Clone, Copy)]
pub struct GDTEntry {
    limit_low: u16,
    base_low: u16,
    base_mid: u8,
    access_byte: u8,
    granularity: u8,
    base_high: u8,
}

impl View for GDTEntry {
    type V = u64;

    /// The descriptor as the CPU reads it, least significant byte first.
    closed spec fn view(&self) -> u64 {
        (self.limit_low as u64) | ((self.base_low as u64) << 16u64) | ((self.base_mid as u64)
            << 32u64) | ((self.access_byte as u64) << 40u64) | ((self.granularity as u64) << 48u64)
            | ((self.base_high as u64) << 56u64)
    }
}

proof fn lemma_fields(base: u32, limit: u32, access: u8, gran: u8)
    by (bit_vector)
    ensures
        (((limit & 0xFFFF) as u16) as u64) | ((((base & 0xFFFF) as u16) as u64) << 16u64) | (((((
        base >> 16u32) & 0xFF) as u8) as u64) << 32u64) | ((access as u64) << 40u64) | (((((limit
        >> 16u32) & 0x0F) as u8 | (gran & 0xF0)) as u64) << 48u64) | (((((base >> 24u32) & 0xFF)
        as u8) as u64) << 56u64) == descriptor(base, limit, access, gran),
{
}

proof fn lemma_split(v: u64)
    by (bit_vector)
    ensures
        ((v as u16) as u64) | (((v >> 16u64) as u16 as u64) << 16u64) | (((v >> 32u64) as u8 as u64)
            << 32u64) | (((v >> 40u64) as u8 as u64) << 40u64) | (((v >> 48u64) as u8 as u64)
            << 48u64) | (((v >> 56u64) as u8 as u64) << 56u64) == v,
        (0u16 as u64) | ((0u16 as u64) << 16u64) | ((0u8 as u64) << 32u64) | ((0u8 as u64)
            << 40u64) | ((0u8 as u64) << 48u64) | ((0u8 as u64) << 56u64) == 0,
{
}

impl GDTEntry {
    /// The null descriptor.
    pub fn null() -> (r: Self)
        ensures
            r@ == 0,
    {
        proof {
            lemma_split(0);
        }
        GDTEntry {
            limit_low: 0,
            base_low: 0,
            base_mid: 0,
            access_byte: 0,
            granularity: 0,
            base_high: 0,
        }
    }

    /// Makes the slot the descriptor of a segment with base `base`, limit
    /// `limit`, access byte `access_byte` and the flags in the high nibble of `gran`.
    pub fn set_entry(&mut self, base: u32, limit: u32, access_byte: u8, gran: u8)
        ensures
            final(self)@ == descriptor(base, limit, access_byte, gran),
    {
        proof {
            lemma_fields(base, limit, access_byte, gran);
        }
        self.base_low = (base & 0xFFFF) as u16;
        self.base_mid = ((base >> 16) & 0xFF) as u8;
        self.base_high = ((base >> 24) & 0xFF) as u8;
        self.limit_low = (limit & 0xFFFF) as u16;
        self.granularity = ((limit >> 16) & 0x0F) as u8;
        self.granularity = self.granularity | (gran & 0xF0);
        self.access_byte = access_byte;
    }

    /// Makes the slot the low half of the descriptor of the task state
    /// segment at address `tss_base`.
    pub fn set_tss_low(&mut self, tss_base: u64)
        ensures
            final(self)@ == descriptor(
                (tss_base & 0xFFFF_FFFF) as u32,
                (TSS_SIZE - 1) as u32,
                ACCESS_MEMORY | ACCESS_ACCESSED | ACCESS_EXEC_CODE,
                GRAN_64BIT | GRAN_OS,
            ),
    {
        let base = (tss_base & 0xFFFF_FFFF) as u32;
        let limit = (TSS_SIZE - 1) as u32;
        let access_byte = ACCESS_MEMORY | ACCESS_ACCESSED | ACCESS_EXEC_CODE;
        let granularity = GRAN_64BIT | GRAN_OS;
        self.set_entry(base, limit, access_byte, granularity);
    }

    /// Makes the slot the high half of the descriptor of the task state
    /// segment at address `tss_base`: bits 32..63 of the address.
    pub fn set_tss_high(&mut self, tss_base: u64)
        ensures
            final(self)@ == (tss_base >> 32u64) & 0xFFFF_FFFF,
    {
        *self = GDTEntry::from_u64((tss_base >> 32) & 0xFFFF_FFFF);
    }

    /// The slot that holds the raw descriptor `value`.
    pub fn from_u64(value: u64) -> (r: Self)
        ensures
            r@ == value,
    {
        proof {
            lemma_split(value);
        }
        GDTEntry {
            limit_low: value as u16,
            base_low: (value >> 16) as u16,
            base_mid: (value >> 32) as u8,
            access_byte: (value >> 40) as u8,
            granularity: (value >> 48) as u8,
            base_high: (value >> 56) as u8,
        }
    }

    /// The raw descriptor.
    pub fn to_u64(&self) -> (r: u64)
        ensures
            r == self@,
    {
        (self.limit_low as u64) | ((self.base_low as u64) << 16) | ((self.base_mid as u64) << 32)
            | ((self.access_byte as u64) << 40) | ((self.granularity as u64) << 48) | ((
        self.base_high as u64) << 56)
    }
}

/// The global descriptor table.
pub struct GlobalDescriptorTable(pub [GDTEntry; 8192]);

impl GlobalDescriptorTable {
    /// A table of null descriptors.
    pub fn new() -> (r: Self)
        ensures
            forall|i: int| 0 <= i < GDT_SLOTS ==> (#[trigger] r.0@[i])@ == 0,
    {
        GlobalDescriptorTable([GDTEntry::null(); 8192])
    }

    /// Size of the table in bytes, minus one.
    pub fn limit(&self) -> (r: u16)
        ensures
            r == GDT_SLOTS * 8 - 1,
    {
        (GDT_SLOTS * 8 - 1) as u16
    }

    /// The operand of the load instruction for this table placed at `base`.
    pub fn pointer(&self, base: u64) -> (r: DescriptorTablePointer)
        ensures
            r.base == base,
            r.limit == GDT_SLOTS * 8 - 1,
    {
        DescriptorTablePointer { base, limit: self.limit() }
    }

    /// Writes the descriptor of the task state segment at address `tss_base`
    /// into slots `index` and `index + 1`.
    pub fn set_tss(&mut self, tss_base: u64, index: usize)
        requires
            index + 1 < GDT_SLOTS,
        ensures
            final(self).0@[index as int]@ == descriptor(
                (tss_base & 0xFFFF_FFFF) as u32,
                (TSS_SIZE - 1) as u32,
                ACCESS_MEMORY | ACCESS_ACCESSED | ACCESS_EXEC_CODE,
                GRAN_64BIT | GRAN_OS,
            ),
            final(self).0@[index + 1]@ == (tss_base >> 32u64) & 0xFFFF_FFFF,
            forall|i: int|
                0 <= i < GDT_SLOTS && i != index && i != index + 1 ==> final(self).0@[i]
                    == old(self).0@[i],
    {
        self.0[index].set_tss_low(tss_base);
        self.0[index + 1].set_tss_high(tss_base);
    }
}

/// The kernel's table: null in slot 0; flat kernel code (32 and 64-bit),
/// kernel data, user code (32 and 64-bit) and user data in slots 1 to 6; the
/// task state segment at `tss_base` in slots 7 and 8; null elsewhere.
pub fn build_gdt(tss_base: u64) -> (r: GlobalDescriptorTable)
    ensures
        r.0@[0]@ == 0,
        r.0@[1]@ == descriptor(
            SEGMENT_BASE,
            SEGMENT_LIMIT,
            ACCESS_READWRITE | ACCESS_EXEC_CODE | ACCESS_CODEDATA | ACCESS_MEMORY,
            GRAN_4K | GRAN_32BIT | GRAN_LIMITHI_MASK,
        ),
        r.0@[2]@ == descriptor(
            SEGMENT_BASE,
            SEGMENT_LIMIT,
            ACCESS_READWRITE | ACCESS_EXEC_CODE | ACCESS_CODEDATA | ACCESS_MEMORY,
            GRAN_4K | GRAN_64BIT | GRAN_LIMITHI_MASK,
        ),
        r.0@[3]@ == descriptor(
            SEGMENT_BASE,
            SEGMENT_LIMIT,
            ACCESS_READWRITE | ACCESS_CODEDATA | ACCESS_MEMORY,
            GRAN_4K | GRAN_32BIT | GRAN_LIMITHI_MASK,
        ),
        r.0@[4]@ == descriptor(
            SEGMENT_BASE,
            SEGMENT_LIMIT,
            ACCESS_DPL | ACCESS_READWRITE | ACCESS_EXEC_CODE | ACCESS_CODEDATA | ACCESS_MEMORY,
            GRAN_4K | GRAN_32BIT | GRAN_LIMITHI_MASK,
        ),
        r.0@[5]@ == descriptor(
            SEGMENT_BASE,
            SEGMENT_LIMIT,
            ACCESS_DPL | ACCESS_READWRITE | ACCESS_EXEC_CODE | ACCESS_CODEDATA | ACCESS_MEMORY,
            GRAN_4K | GRAN_64BIT | GRAN_LIMITHI_MASK,
        ),
        r.0@[6]@ == descriptor(
            SEGMENT_BASE,
            SEGMENT_LIMIT,
            ACCESS_DPL | ACCESS_READWRITE | ACCESS_CODEDATA | ACCESS_MEMORY,
            GRAN_4K | GRAN_32BIT | GRAN_LIMITHI_MASK,
        ),
        r.0@[7]@ == descriptor(
            (tss_base & 0xFFFF_FFFF) as u32,
            (TSS_SIZE - 1) as u32,
            ACCESS_MEMORY | ACCESS_ACCESSED | ACCESS_EXEC_CODE,
            GRAN_64BIT | GRAN_OS,
        ),
        r.0@[8]@ == (tss_base >> 32u64) & 0xFFFF_FFFF,
        forall|i: int| 9 <= i < GDT_SLOTS ==> (#[trigger] r.0@[i])@ == 0,
{
    let mut gdt = GlobalDescriptorTable::new();
    gdt.0[1].set_entry(
        SEGMENT_BASE,
        SEGMENT_LIMIT,
        ACCESS_READWRITE | ACCESS_EXEC_CODE | ACCESS_CODEDATA | ACCESS_MEMORY,
        GRAN_4K | GRAN_32BIT | GRAN_LIMITHI_MASK,
    );
    gdt.0[2].set_entry(
        SEGMENT_BASE,
        SEGMENT_LIMIT,
        ACCESS_READWRITE | ACCESS_EXEC_CODE | ACCESS_CODEDATA | ACCESS_MEMORY,
        GRAN_4K | GRAN_64BIT | GRAN_LIMITHI_MASK,
    );
    gdt.0[3].set_entry(
        SEGMENT_BASE,
        SEGMENT_LIMIT,
        ACCESS_READWRITE | ACCESS_CODEDATA | ACCESS_MEMORY,
        GRAN_4K | GRAN_32BIT | GRAN_LIMITHI_MASK,
    );
    gdt.0[4].set_entry(
        SEGMENT_BASE,
        SEGMENT_LIMIT,
        ACCESS_DPL | ACCESS_READWRITE | ACCESS_EXEC_CODE | ACCESS_CODEDATA | ACCESS_MEMORY,
        GRAN_4K | GRAN_32BIT | GRAN_LIMITHI_MASK,
    );
    gdt.0[5].set_entry(
        SEGMENT_BASE,
        SEGMENT_LIMIT,
        ACCESS_DPL | ACCESS_READWRITE | ACCESS_EXEC_CODE | ACCESS_CODEDATA | ACCESS_MEMORY,
        GRAN_4K | GRAN_64BIT | GRAN_LIMITHI_MASK,
    );
    gdt.0[6].set_entry(
        SEGMENT_BASE,
        SEGMENT_LIMIT,
        ACCESS_DPL | ACCESS_READWRITE | ACCESS_CODEDATA | ACCESS_MEMORY,
        GRAN_4K | GRAN_32BIT | GRAN_LIMITHI_MASK,
    );
    gdt.set_tss(tss_base, TSS_SLOT as usize);
    gdt
}

/// The selector of the 64-bit kernel code segment.
pub fn kernel_code_selector() -> (r: SegmentSelector)
    ensures
        r.0 == KERNEL_CODE_SLOT * 8,
{
    SegmentSelector::new(KERNEL_CODE_SLOT, 0, 0)
}

/// The selector of the kernel data segment.
pub fn kernel_data_selector() -> (r: SegmentSelector)
    ensures
        r.0 == KERNEL_DATA_SLOT * 8,
{
    SegmentSelector::new(KERNEL_DATA_SLOT, 0, 0)
}

/// The selector of the task state segment descriptor.
pub fn tss_selector() -> (r: SegmentSelector)
    ensures
        r.0 == TSS_SLOT * 8,
{
    SegmentSelector::new(TSS_SLOT, 0, 0)
}

} // verus!
