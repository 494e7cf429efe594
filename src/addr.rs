//! Raw 64-bit addresses: per-level table indices, page offsets, alignment
//! and canonical (sign-extended) form.
use vstd::arithmetic::power2::pow2;
use vstd::prelude::*;

verus! {

/// Number of entries in one page table.
pub const ENTRY_COUNT: usize = 512;

/// Size of the part of the address space that 48-bit addresses describe.
pub const ADDRESS_SPACE_SIZE: u64 = 0x1_0000_0000_0000;

/// Bit 47, the highest implemented bit of a virtual address.
pub const SIGN_BIT: u64 = 0x0000_8000_0000_0000;

/// Bits 48..63 of an address.
pub const HIGH_BITS: u64 = 0xFFFF_0000_0000_0000;

/// Bits 0..47 of an address.
pub const LOW_BITS: u64 = 0x0000_FFFF_FFFF_FFFF;

/// The canonical form of `a`: bit 47 copied into bits 48..63.
pub open spec fn canonical(a: u64) -> u64 {
    if a & SIGN_BIT == 0 {
        a & LOW_BITS
    } else {
        a | HIGH_BITS
    }
}

/// `a` is a canonical address.
pub open spec fn is_canonical(a: u64) -> bool {
    canonical(a) == a
}

/// The 12-bit offset of `a` inside its 4 KiB page.
pub open spec fn offset_of(a: u64) -> int {
    a as int % 0x1000
}

/// The 9-bit table index that `a` selects at `level` (1 = leaf, 4 = root).
pub open spec fn index_of(a: u64, level: int) -> int {
    if level == 1 {
        (a as int / 0x1000) % 512
    } else if level == 2 {
        (a as int / 0x20_0000) % 512
    } else if level == 3 {
        (a as int / 0x4000_0000) % 512
    } else {
        (a as int / 0x80_0000_0000) % 512
    }
}

/// The address whose table indices are `p4`, `p3`, `p2`, `p1` and whose page
/// offset is `off`, before canonicalization.
pub open spec fn assemble(p4: u64, p3: u64, p2: u64, p1: u64, off: u64) -> u64 {
    (p4 << 39u64) | (p3 << 30u64) | (p2 << 21u64) | (p1 << 12u64) | off
}

/// `v` is a power of two.
pub open spec fn is_power_of_two(v: u64) -> bool {
    exists|n: nat| n < 64 && v == #[trigger] pow2(n)
}

/// How the shifts and masks of this module read as arithmetic on one address.
proof fn lemma_address_bits(a: u64)
    by (bit_vector)
    ensures
        ((a >> 12u64) as u16) % 512 == (a / 0x1000) % 512,
        ((a >> 21u64) as u16) % 512 == (a / 0x20_0000) % 512,
        ((a >> 30u64) as u16) % 512 == (a / 0x4000_0000) % 512,
        ((a >> 39u64) as u16) % 512 == (a / 0x80_0000_0000) % 512,
        (a as u16) % 0x1000 == a % 0x1000,
        ((a << 16u64) as i64 >> 16u64) as u64 == canonical(a),
{
}

/// Alignment to a power of two by masking agrees with the arithmetic remainder.
proof fn lemma_align_mask(a: u64, v: u64)
    requires
        is_power_of_two(v),
    ensures
        v > 0,
        a & !((v - 1) as u64) == a - a % v,
        a % v < v,
{
    let n = choose|n: nat| n < 64 && v == #[trigger] pow2(n);
    vstd::bits::lemma_u64_low_bits_mask_is_mod(a, n);
    vstd::arithmetic::power2::lemma_pow2_pos(n);
    let m = (v - 1) as u64;
    assert(a & !m == a - (a & m)) by (bit_vector);
}

/// Canonicalization is idempotent, and its result has bits 48..63 equal to bit 47.
pub proof fn lemma_canonical_idempotent(a: u64)
    by (bit_vector)
    ensures
        canonical(canonical(a)) == canonical(a),
        canonical(a) & SIGN_BIT == 0 ==> canonical(a) & HIGH_BITS == 0,
        canonical(a) & SIGN_BIT != 0 ==> canonical(a) & HIGH_BITS == HIGH_BITS,
        canonical(a) & LOW_BITS == a & LOW_BITS,
{
}

/// Every table index lies in `0..512` and the page offset in `0..4096`;
/// putting the indices and the offset of `a` back together and canonicalizing
/// gives the canonical form of `a`, hence `a` itself when `a` is canonical.
pub proof fn lemma_reassemble(a: u64)
    ensures
        0 <= index_of(a, 1) < 512,
        0 <= index_of(a, 2) < 512,
        0 <= index_of(a, 3) < 512,
        0 <= index_of(a, 4) < 512,
        0 <= offset_of(a) < 4096,
        canonical(
            assemble(
                index_of(a, 4) as u64,
                index_of(a, 3) as u64,
                index_of(a, 2) as u64,
                index_of(a, 1) as u64,
                offset_of(a) as u64,
            ),
        ) == canonical(a),
        is_canonical(a) ==> canonical(
            assemble(
                index_of(a, 4) as u64,
                index_of(a, 3) as u64,
                index_of(a, 2) as u64,
                index_of(a, 1) as u64,
                offset_of(a) as u64,
            ),
        ) == a,
{
    assert(canonical(
        assemble(
            ((a / 0x80_0000_0000) % 512) as u64,
            ((a / 0x4000_0000) % 512) as u64,
            ((a / 0x20_0000) % 512) as u64,
            ((a / 0x1000) % 512) as u64,
            (a % 0x1000) as u64,
        ),
    ) == canonical(a)) by (bit_vector);
}

/// A 9-bit index into a page table: always in `0..512`.
#[derive(Clone, Copy, PartialEq, Eq, Structural, PartialOrd, Ord, Hash, Debug)]
pub struct PageTableIndex(u16);

impl PageTableIndex {
    #[verifier::type_invariant]
    pub closed spec fn inv(self) -> bool {
        self.0 < 512
    }

    /// The index as a number.
    pub closed spec fn value(self) -> u16 {
        self.0
    }

    /// The index `index`, which must be below 512.
    pub fn new(index: u16) -> (r: Self)
        requires
            index < 512,
        ensures
            r.value() == index,
    {
        PageTableIndex(index)
    }

    /// The index made of the low 9 bits of `index`.
    pub fn new_truncate(index: u16) -> (r: Self)
        ensures
            r.value() == index % 512,
    {
        PageTableIndex(index % 512)
    }

    /// The index as a `u64`.
    pub fn into_u64(self) -> (r: u64)
        ensures
            r == self.value(),
            r < 512,
    {
        proof {
            use_type_invariant(&self);
        }
        self.0 as u64
    }

    /// The index as a `u16`.
    pub fn as_u16(self) -> (r: u16)
        ensures
            r == self.value(),
            r < 512,
    {
        proof {
            use_type_invariant(&self);
        }
        self.0
    }

    /// The index as a `usize`, ready to select a table entry.
    pub fn as_usize(self) -> (r: usize)
        ensures
            r == self.value(),
            r < 512,
    {
        proof {
            use_type_invariant(&self);
        }
        self.0 as usize
    }
}

/// A 12-bit offset into a 4 KiB page: always in `0..4096`.
#[derive(Clone, Copy, PartialEq, Eq, Structural, PartialOrd, Ord, Hash, Debug)]
pub struct PageOffset(u16);

impl PageOffset {
    #[verifier::type_invariant]
    pub closed spec fn inv(self) -> bool {
        self.0 < 4096
    }

    /// The offset as a number.
    pub closed spec fn value(self) -> u16 {
        self.0
    }

    /// The offset `offset`, which must be below 4096.
    pub fn new(offset: u16) -> (r: Self)
        requires
            offset < 4096,
        ensures
            r.value() == offset,
    {
        PageOffset(offset)
    }

    /// The offset made of the low 12 bits of `offset`.
    pub fn new_truncate(offset: u16) -> (r: Self)
        ensures
            r.value() == offset % 4096,
    {
        PageOffset(offset % 4096)
    }

    /// The offset as a `u64`.
    pub fn into_u64(self) -> (r: u64)
        ensures
            r == self.value(),
            r < 4096,
    {
        proof {
            use_type_invariant(&self);
        }
        self.0 as u64
    }
}

/// A page table level, from 1 (the leaf table) to 4 (the root).
#[derive(Clone, Copy, PartialEq, Eq, Structural, PartialOrd, Ord, Hash, Debug)]
pub enum PageTableLevel {
    One,
    Two,
    Three,
    Four,
}

impl PageTableLevel {
    /// The level as a number in `1..=4`.
    pub open spec fn num(self) -> int {
        match self {
            PageTableLevel::One => 1,
            PageTableLevel::Two => 2,
            PageTableLevel::Three => 3,
            PageTableLevel::Four => 4,
        }
    }

    /// The level as a number in `1..=4`.
    pub fn as_u8(self) -> (r: u8)
        ensures
            r == self.num(),
    {
        match self {
            PageTableLevel::One => 1,
            PageTableLevel::Two => 2,
            PageTableLevel::Three => 3,
            PageTableLevel::Four => 4,
        }
    }

    /// The level below this one, or `None` for level 1.
    pub fn next_lower_level(self) -> (r: Option<Self>)
        ensures
            self.num() == 1 ==> r.is_none(),
            self.num() > 1 ==> r.is_some() && r.unwrap().num() == self.num() - 1,
    {
        match self {
            PageTableLevel::Four => Some(PageTableLevel::Three),
            PageTableLevel::Three => Some(PageTableLevel::Two),
            PageTableLevel::Two => Some(PageTableLevel::One),
            PageTableLevel::One => None,
        }
    }

    /// The level above this one, or `None` for level 4.
    pub fn next_higher_level(self) -> (r: Option<Self>)
        ensures
            self.num() == 4 ==> r.is_none(),
            self.num() < 4 ==> r.is_some() && r.unwrap().num() == self.num() + 1,
    {
        match self {
            PageTableLevel::Four => None,
            PageTableLevel::Three => Some(PageTableLevel::Four),
            PageTableLevel::Two => Some(PageTableLevel::Three),
            PageTableLevel::One => Some(PageTableLevel::Two),
        }
    }

    /// Bytes of address space that one entry of a table at `level` covers:
    /// 4 KiB at level 1, then 512 times more per level.
    pub open spec fn entry_span(level: int) -> int {
        if level == 1 {
            0x1000
        } else if level == 2 {
            0x20_0000
        } else if level == 3 {
            0x4000_0000
        } else {
            0x80_0000_0000
        }
    }

    /// The alignment of the address space that a whole table of this level describes.
    pub fn table_address_space_alignment(self) -> (r: u64)
        ensures
            r == 512 * Self::entry_span(self.num()),
    {
        proof {
            lemma_level_spans();
        }
        let shift: u64 = self.as_u8() as u64 * 9 + 12;
        1u64 << shift
    }

    /// The alignment of the address space that one entry of a table of this level describes.
    pub fn entry_address_space_alignment(self) -> (r: u64)
        ensures
            r == Self::entry_span(self.num()),
    {
        proof {
            lemma_level_spans();
        }
        let shift: u64 = (self.as_u8() as u64 - 1) * 9 + 12;
        1u64 << shift
    }
}

proof fn lemma_level_spans()
    by (bit_vector)
    ensures
        1u64 << 12u64 == 0x1000u64,
        1u64 << 21u64 == 0x20_0000u64,
        1u64 << 30u64 == 0x4000_0000u64,
        1u64 << 39u64 == 0x80_0000_0000u64,
        1u64 << 48u64 == 0x1_0000_0000_0000u64,
        1u64 << 52u64 == 0x10_0000_0000_0000u64,
{
}

/// Operations on a virtual address held as a raw `u64`.
pub trait VirtAddr {
    /// The offset of the address inside its 4 KiB page.
    fn page_offset(self) -> PageOffset;

    /// The level-4 table index of the address.
    fn p4_index(self) -> PageTableIndex;

    /// The level-3 table index of the address.
    fn p3_index(self) -> PageTableIndex;

    /// The level-2 table index of the address.
    fn p2_index(self) -> PageTableIndex;

    /// The level-1 table index of the address.
    fn p1_index(self) -> PageTableIndex;

    /// The table index of the address at `level`.
    fn page_table_index(self, level: PageTableLevel) -> PageTableIndex;

    /// The canonical form of `addr`: bit 47 copied into bits 48..63.
    fn new_virt_truncate(addr: u64) -> u64;

    /// `start` moved forward by `count` bytes, or `None` when that leaves the
    /// address space.
    fn forward_checked_u64(start: Self, count: u64) -> Option<Self> where Self: Sized;

    /// `forward_checked_u64` with a `usize` count.
    fn forward_checked_impl(start: Self, count: usize) -> Option<Self> where Self: Sized;
}

impl VirtAddr for u64 {
    fn page_offset(self) -> (r: PageOffset)
        ensures
            r.value() == offset_of(self),
    {
        proof {
            lemma_address_bits(self);
        }
        PageOffset::new_truncate(self as u16)
    }

    fn p1_index(self) -> (r: PageTableIndex)
        ensures
            r.value() == index_of(self, 1),
    {
        proof {
            lemma_address_bits(self);
        }
        PageTableIndex::new_truncate((self >> 12) as u16)
    }

    fn p2_index(self) -> (r: PageTableIndex)
        ensures
            r.value() == index_of(self, 2),
    {
        proof {
            lemma_address_bits(self);
        }
        PageTableIndex::new_truncate((self >> 21) as u16)
    }

    fn p3_index(self) -> (r: PageTableIndex)
        ensures
            r.value() == index_of(self, 3),
    {
        proof {
            lemma_address_bits(self);
        }
        PageTableIndex::new_truncate((self >> 30) as u16)
    }

    fn p4_index(self) -> (r: PageTableIndex)
        ensures
            r.value() == index_of(self, 4),
    {
        proof {
            lemma_address_bits(self);
        }
        PageTableIndex::new_truncate((self >> 39) as u16)
    }

    fn page_table_index(self, level: PageTableLevel) -> (r: PageTableIndex)
        ensures
            r.value() == index_of(self, level.num()),
    {
        match level {
            PageTableLevel::One => self.p1_index(),
            PageTableLevel::Two => self.p2_index(),
            PageTableLevel::Three => self.p3_index(),
            PageTableLevel::Four => self.p4_index(),
        }
    }

    fn new_virt_truncate(addr: u64) -> (r: u64)
        ensures
            r == canonical(addr),
    {
        proof {
            lemma_address_bits(addr);
        }
        // An arithmetic right shift on the signed value repeats bit 47.
        ((addr << 16) as i64 >> 16) as u64
    }

    fn forward_checked_u64(start: u64, count: u64) -> (r: Option<u64>)
        ensures
            r == forward(start, count),
            r.is_some() ==> is_canonical(r.unwrap()),
            is_canonical(start) && count <= ADDRESS_SPACE_SIZE && start + count <= u64::MAX
                ==> (r.is_none() <==> ((start + count) as u64) >> 47u64 == 2),
    {
        if count > ADDRESS_SPACE_SIZE {
            return None;
        }
        let mut addr = start.checked_add(count)?;
        proof {
            lemma_forward_bits(start, count, addr);
        }
        match addr >> 47 {
            0x1 => {
                // Jump the gap: moved past the lower half, into the upper one.
                addr |= 0xFFFF_8000_0000_0000;
            },
            0x2 => {
                // Moved past the end of the upper half.
                return None;
            },
            0x0 | 0x1FFFF => {},
            _ => {
                // Started outside the canonical ranges.
                return None;
            },
        }
        Some(addr)
    }

    fn forward_checked_impl(start: u64, count: usize) -> (r: Option<u64>)
        ensures
            r == forward(start, count as u64),
            r.is_some() ==> is_canonical(r.unwrap()),
    {
        Self::forward_checked_u64(start, count as u64)
    }
}

/// `start` moved forward by `count` bytes in the canonical address space:
/// `None` when `count` exceeds the address space, the sum overflows, or the
/// sum (bits 47..63) leaves the canonical ranges other than by moving from
/// the lower half into the gap, which is jumped by sign extension.
pub open spec fn forward(start: u64, count: u64) -> Option<u64> {
    if count > ADDRESS_SPACE_SIZE || start + count > u64::MAX {
        None
    } else {
        let a = (start + count) as u64;
        if a >> 47u64 == 1 {
            Some(a | 0xFFFF_8000_0000_0000)
        } else if a >> 47u64 == 0 || a >> 47u64 == 0x1FFFF {
            Some(a)
        } else {
            None
        }
    }
}

proof fn lemma_forward_bits(start: u64, count: u64, a: u64)
    by (bit_vector)
    requires
        a == start + count,
    ensures
        a >> 47u64 == 1 ==> canonical(a | 0xFFFF_8000_0000_0000) == a | 0xFFFF_8000_0000_0000,
        (a >> 47u64 == 0 || a >> 47u64 == 0x1FFFF) ==> canonical(a) == a,
        canonical(start) == start && count <= 0x1_0000_0000_0000 ==> (a >> 47u64 == 0 || a
            >> 47u64 == 1 || a >> 47u64 == 2 || a >> 47u64 == 0x1FFFF),
{
}

/// Alignment operations on a physical address held as a raw `u64`.
pub trait PhysAddr {
    /// Whether the address is a multiple of `value`, a power of two.
    fn is_aligned(&self, value: u64) -> bool
        requires
            is_power_of_two(value),
    ;

    /// The address rounded down to a multiple of `value`, a power of two.
    fn align_down(&self, value: u64) -> Self where Self: Sized
        requires
            is_power_of_two(value),
    ;

    /// The address cut to the 52 bits that a physical address may have.
    fn new_truncate(addr: u64) -> Self where Self: Sized;
}

impl PhysAddr for u64 {
    fn is_aligned(&self, value: u64) -> (r: bool)
        ensures
            r == (*self % value == 0),
    {
        self.align_down(value) == *self
    }

    fn align_down(&self, value: u64) -> (r: u64)
        ensures
            r == *self - *self % value,
            r <= *self,
            r % value == 0,
            *self - r < value,
    {
        proof {
            lemma_align_mask(*self, value);
            vstd::arithmetic::div_mod::lemma_fundamental_div_mod(*self as int, value as int);
            vstd::arithmetic::div_mod::lemma_mod_multiples_basic(
                *self as int / value as int,
                value as int,
            );
            assert((*self as int / value as int) * value as int == value as int * (*self as int
                / value as int)) by (nonlinear_arith);
        }
        *self & !(value - 1)
    }

    fn new_truncate(addr: u64) -> (r: u64)
        ensures
            r == addr % 0x10_0000_0000_0000,
    {
        proof {
            lemma_level_spans();
        }
        addr % (1u64 << 52)
    }
}

} // verus!
