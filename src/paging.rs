//! Page table entries, their flags, and 512-entry page tables.
use crate::addr::PhysAddr;
use vstd::prelude::*;

verus! {

/// Bits 12..51 of an entry: the physical address it maps.
pub const ENTRY_ADDR_MASK: u64 = 0x000f_ffff_ffff_f000;

/// The flags of a page table entry.
#[derive(Clone, Copy, PartialEq, Eq, Structural, Hash, Debug)]
pub struct PageTableFlags {
    bits: u64,
}

impl View for PageTableFlags {
    type V = u64;

    closed spec fn view(&self) -> u64 {
        self.bits
    }
}

impl PageTableFlags {
    /// The mapped frame or table is loaded in memory.
    pub const PRESENT: u64 = 1;
    /// Writes to the mapped range are allowed.
    pub const WRITABLE: u64 = 0x2;
    /// Accesses from ring 3 are allowed.
    pub const USER_ACCESSIBLE: u64 = 0x4;
    /// Write-through caching instead of write-back.
    pub const WRITE_THROUGH: u64 = 0x8;
    /// Caching is disabled.
    pub const NO_CACHE: u64 = 0x10;
    /// Set by the CPU when the entry is used.
    pub const ACCESSED: u64 = 0x20;
    /// Set by the CPU on a write to the mapped frame.
    pub const DIRTY: u64 = 0x40;
    /// The entry maps a huge frame instead of a table (level 2 or 3 only).
    pub const HUGE_PAGE: u64 = 0x80;
    /// The mapping is kept in the TLB across address space switches.
    pub const GLOBAL: u64 = 0x100;
    /// Available to the OS.
    pub const BIT_9: u64 = 0x200;
    /// Available to the OS.
    pub const BIT_10: u64 = 0x400;
    /// Available to the OS.
    pub const BIT_11: u64 = 0x800;
    /// Available to the OS.
    pub const BIT_52: u64 = 0x10000000000000;
    /// Available to the OS.
    pub const BIT_53: u64 = 0x20000000000000;
    /// Available to the OS.
    pub const BIT_54: u64 = 0x40000000000000;
    /// Available to the OS.
    pub const BIT_55: u64 = 0x80000000000000;
    /// Available to the OS.
    pub const BIT_56: u64 = 0x100000000000000;
    /// Available to the OS.
    pub const BIT_57: u64 = 0x200000000000000;
    /// Available to the OS.
    pub const BIT_58: u64 = 0x400000000000000;
    /// Available to the OS.
    pub const BIT_59: u64 = 0x800000000000000;
    /// Available to the OS.
    pub const BIT_60: u64 = 0x1000000000000000;
    /// Available to the OS.
    pub const BIT_61: u64 = 0x2000000000000000;
    /// Available to the OS.
    pub const BIT_62: u64 = 0x4000000000000000;
    /// Code execution from the mapped frames is forbidden.
    pub const NO_EXECUTE: u64 = 0x8000000000000000;
    /// Every defined flag: bits 0..11 and 52..63.
    pub const ALL: u64 = 0xFFF0_0000_0000_0FFF;

    #[verifier::type_invariant]
    closed spec fn inv(self) -> bool {
        self.bits & !Self::ALL == 0
    }

    /// No flag set.
    pub fn empty() -> (r: Self)
        ensures
            r@ == 0,
    {
        proof {
            assert(0u64 & !0xFFF0_0000_0000_0FFFu64 == 0) by (bit_vector);
        }
        PageTableFlags { bits: 0 }
    }

    /// The flags of `bits`, dropping bits that name no flag.
    pub fn from_bits_truncate(bits: u64) -> (r: Self)
        ensures
            r@ == bits & Self::ALL,
    {
        proof {
            assert((bits & 0xFFF0_0000_0000_0FFFu64) & !0xFFF0_0000_0000_0FFFu64 == 0)
                by (bit_vector);
        }
        PageTableFlags { bits: bits & Self::ALL }
    }

    /// The flags of `bits`, or `None` when a bit names no flag.
    pub fn from_bits(bits: u64) -> (r: Option<Self>)
        ensures
            r.is_some() <==> bits & !Self::ALL == 0,
            r.is_some() ==> r.unwrap()@ == bits,
    {
        if bits & !Self::ALL == 0 {
            Some(PageTableFlags { bits })
        } else {
            None
        }
    }

    /// The raw bits.
    pub fn bits(&self) -> (r: u64)
        ensures
            r == self@,
    {
        self.bits
    }

    /// Whether every bit of `mask` is set.
    pub fn contains(&self, mask: u64) -> (r: bool)
        ensures
            r == (self@ & mask == mask),
    {
        self.bits & mask == mask
    }

    /// Sets the defined bits of `mask`.
    pub fn insert(&mut self, mask: u64)
        ensures
            final(self)@ == old(self)@ | (mask & Self::ALL),
    {
        proof {
            use_type_invariant(&*self);
            let b = self.bits;
            assert(b & !0xFFF0_0000_0000_0FFFu64 == 0 ==> (b | (mask & 0xFFF0_0000_0000_0FFFu64))
                & !0xFFF0_0000_0000_0FFFu64 == 0) by (bit_vector);
        }
        self.bits = self.bits | (mask & Self::ALL);
    }

    /// Clears the bits of `mask`.
    pub fn remove(&mut self, mask: u64)
        ensures
            final(self)@ == old(self)@ & !mask,
    {
        proof {
            use_type_invariant(&*self);
            let b = self.bits;
            assert(b & !0xFFF0_0000_0000_0FFFu64 == 0 ==> (b & !mask) & !0xFFF0_0000_0000_0FFFu64
                == 0) by (bit_vector);
        }
        self.bits = self.bits & !mask;
    }
}

/// Why an entry maps no 4 KiB frame.
#[derive(Debug, Clone, Copy, PartialEq, Eq, Structural)]
pub enum FrameError {
    /// The entry does not have the present flag set.
    FrameNotPresent,
    /// The entry has the huge-page flag set: it maps a 2 MiB or 1 GiB frame.
    HugeFrame,
}

/// What the entry with raw value `e` maps, read as a pointer to a 4 KiB frame
/// or to the next table.
pub open spec fn frame_of(e: u64) -> Result<u64, FrameError> {
    if e & PageTableFlags::PRESENT == 0 {
        Err(FrameError::FrameNotPresent)
    } else if e & PageTableFlags::HUGE_PAGE != 0 {
        Err(FrameError::HugeFrame)
    } else {
        Ok(e & ENTRY_ADDR_MASK)
    }
}

proof fn lemma_entry_bits(e: u64)
    by (bit_vector)
    ensures
        ((e & 0xFFF0_0000_0000_0FFFu64) & 1u64 == 1u64) == (e & 1u64 != 0),
        ((e & 0xFFF0_0000_0000_0FFFu64) & 0x80u64 == 0x80u64) == (e & 0x80u64 != 0),
        (e & 0x000f_ffff_ffff_f000u64) % 0x1000 == 0,
{
}

/// A 64-bit page table entry: a 4 KiB aligned physical address and flags.
#[derive(Clone, Copy, PartialEq, Eq, Structural, Debug)]
pub struct PageTableEntry {
    entry: u64,
}

impl View for PageTableEntry {
    type V = u64;

    closed spec fn view(&self) -> u64 {
        self.entry
    }
}

impl PageTableEntry {
    /// An unused (zero) entry.
    pub fn new() -> (r: Self)
        ensures
            r@ == 0,
    {
        PageTableEntry { entry: 0 }
    }

    /// The entry whose raw value is `raw`.
    pub fn from_raw(raw: u64) -> (r: Self)
        ensures
            r@ == raw,
    {
        PageTableEntry { entry: raw }
    }

    /// Whether the entry is zero.
    pub fn is_unused(&self) -> (r: bool)
        ensures
            r == (self@ == 0),
    {
        self.entry == 0
    }

    /// Sets the entry to zero.
    pub fn set_unused(&mut self)
        ensures
            final(self)@ == 0,
    {
        self.entry = 0;
    }

    /// The flags of the entry.
    pub fn flags(&self) -> (r: PageTableFlags)
        ensures
            r@ == self@ & PageTableFlags::ALL,
    {
        PageTableFlags::from_bits_truncate(self.entry)
    }

    /// The physical address that the entry holds; may be zero.
    pub fn addr(&self) -> (r: u64)
        ensures
            r == self@ & ENTRY_ADDR_MASK,
    {
        self.entry & ENTRY_ADDR_MASK
    }

    /// The 4 KiB frame (or next table) that the entry maps: fails with
    /// `FrameNotPresent` when the present flag is clear, else with `HugeFrame`
    /// when the huge-page flag is set.
    pub fn frame(&self) -> (r: Result<u64, FrameError>)
        ensures
            r == frame_of(self@),
    {
        proof {
            lemma_entry_bits(self.entry);
            vstd::arithmetic::power2::lemma2_to64();
            assert(12 < 64 && 0x1000 == vstd::arithmetic::power2::pow2(12));
        }
        if !self.flags().contains(PageTableFlags::PRESENT) {
            Err(FrameError::FrameNotPresent)
        } else if self.flags().contains(PageTableFlags::HUGE_PAGE) {
            Err(FrameError::HugeFrame)
        } else {
            Ok(self.addr().align_down(0x1000))
        }
    }

    /// Maps the entry to `addr`, which must be 4 KiB aligned, with `flags`.
    pub fn set_addr(&mut self, addr: u64, flags: PageTableFlags)
        requires
            addr % 0x1000 == 0,
        ensures
            final(self)@ == addr | flags@,
    {
        self.entry = addr | flags.bits();
    }

    /// Maps the entry to the 4 KiB frame at `frame` with `flags`, which must
    /// not hold the huge-page flag.
    pub fn set_frame(&mut self, frame: u64, flags: PageTableFlags)
        requires
            frame % 0x1000 == 0,
            flags@ & PageTableFlags::HUGE_PAGE == 0,
        ensures
            final(self)@ == frame | flags@,
    {
        self.set_addr(frame, flags)
    }

    /// Replaces the flags of the entry, keeping its address.
    pub fn set_flags(&mut self, flags: PageTableFlags)
        ensures
            final(self)@ == (old(self)@ & ENTRY_ADDR_MASK) | flags@,
    {
        self.entry = self.addr() | flags.bits();
    }
}

impl Default for PageTableEntry {
    fn default() -> (r: Self)
        ensures
            r@ == 0,
    {
        Self::new()
    }
}

/// Every entry of `entries` is unused.
pub open spec fn all_unused(entries: Seq<PageTableEntry>) -> bool {
    forall|i: int| 0 <= i < entries.len() ==> (#[trigger] entries[i])@ == 0
}

/// A page table: 512 entries, 4 KiB in all.
#[derive(Clone, Copy)]
pub struct PageTable {
    entries: [PageTableEntry; 512],
}

impl View for PageTable {
    type V = Seq<PageTableEntry>;

    closed spec fn view(&self) -> Seq<PageTableEntry> {
        self.entries@
    }
}

impl PageTable {
    /// A table whose entries are all unused.
    pub fn new() -> (r: Self)
        ensures
            r@.len() == 512,
            all_unused(r@),
    {
        let t = PageTable { entries: [PageTableEntry::new(); 512] };
        assert(t@.len() == 512);
        t
    }

    /// The number of entries, always 512.
    pub fn len(&self) -> (r: usize)
        ensures
            r == self@.len(),
            r == 512,
    {
        512
    }

    /// Sets every entry to unused.
    pub fn zero(&mut self)
        ensures
            final(self)@.len() == 512,
            all_unused(final(self)@),
    {
        let mut i: usize = 0;
        while i < 512
            invariant
                0 <= i <= 512,
                self@.len() == 512,
                forall|j: int| 0 <= j < i ==> (#[trigger] self@[j])@ == 0,
            decreases 512 - i,
        {
            self.entries[i].set_unused();
            i = i + 1;
        }
    }

    /// The entries, in order.
    pub fn iter(&self) -> (r: Vec<PageTableEntry>)
        ensures
            r@ == self@,
    {
        let mut v: Vec<PageTableEntry> = Vec::new();
        let mut i: usize = 0;
        while i < 512
            invariant
                0 <= i <= 512,
                self@.len() == 512,
                v@ == self@.subrange(0, i as int),
            decreases 512 - i,
        {
            v.push(self.entries[i]);
            i = i + 1;
        }
        assert(v@ =~= self@);
        v
    }

    /// Whether every entry is unused.
    pub fn is_empty(&self) -> (r: bool)
        ensures
            r == all_unused(self@),
    {
        let mut i: usize = 0;
        while i < 512
            invariant
                0 <= i <= 512,
                self@.len() == 512,
                forall|j: int| 0 <= j < i ==> (#[trigger] self@[j])@ == 0,
            decreases 512 - i,
        {
            if !self.entries[i].is_unused() {
                return false;
            }
            i = i + 1;
        }
        true
    }

    /// The entry at `index`.
    pub fn index(&self, index: usize) -> (r: &PageTableEntry)
        requires
            index < 512,
        ensures
            *r == self@[index as int],
    {
        &self.entries[index]
    }

    /// The entry at `index`, for changing it in place.
    pub fn index_mut(&mut self, index: usize) -> (r: &mut PageTableEntry)
        requires
            index < 512,
        ensures
            *r == old(self)@[index as int],
            final(self)@ == old(self)@.update(index as int, *final(r)),
    {
        &mut self.entries[index]
    }
}

impl Default for PageTable {
    fn default() -> (r: Self)
        ensures
            r@.len() == 512,
            all_unused(r@),
    {
        Self::new()
    }
}

/// Setting one entry of an empty table and then clearing it leaves the table empty.
pub proof fn lemma_set_then_clear(t: Seq<PageTableEntry>, i: int, e: PageTableEntry, z: PageTableEntry)
    requires
        all_unused(t),
        0 <= i < t.len(),
        z@ == 0,
    ensures
        all_unused(t.update(i, e).update(i, z)),
{
    assert(t.update(i, e).update(i, z) =~= t.update(i, z));
}

} // verus!
