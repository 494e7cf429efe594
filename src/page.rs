//! Virtual pages and physical frames of 4 KiB, 2 MiB or 1 GiB, and ranges of them.
use crate::addr::{assemble, canonical, index_of, is_power_of_two, PageTableIndex, PageTableLevel, PhysAddr, VirtAddr};
use core::marker::PhantomData;
use vstd::arithmetic::div_mod::{lemma_fundamental_div_mod, lemma_mod_multiples_vanish, lemma_small_mod};
use vstd::arithmetic::power2::{lemma2_to64, pow2};
use vstd::prelude::*;

verus! {

/// One of the three page sizes of x86_64.
pub trait PageSize: Copy {
    /// The page size in bytes.
    spec fn spec_size() -> u64;

    /// The page size in bytes.
    fn size() -> (r: u64)
        ensures
            r == Self::spec_size(),
    ;

    /// The size is 4 KiB, 2 MiB or 1 GiB.
    proof fn lemma_size()
        ensures
            Self::spec_size() == 0x1000 || Self::spec_size() == 0x20_0000 || Self::spec_size()
                == 0x4000_0000,
    ;
}

/// The page sizes below 1 GiB.
pub trait NotGiantPageSize: PageSize {}

/// A standard 4 KiB page.
#[derive(Debug, Clone, Copy, PartialEq, Eq, PartialOrd, Ord, Hash)]
pub struct Size4KiB;

/// A huge 2 MiB page.
#[derive(Debug, Clone, Copy, PartialEq, Eq, PartialOrd, Ord, Hash)]
pub struct Size2MiB;

/// A giant 1 GiB page.
#[derive(Debug, Clone, Copy, PartialEq, Eq, PartialOrd, Ord, Hash)]
pub struct Size1GiB;

impl PageSize for Size4KiB {
    open spec fn spec_size() -> u64 {
        0x1000
    }

    fn size() -> (r: u64) {
        0x1000
    }

    proof fn lemma_size() {
    }
}

impl NotGiantPageSize for Size4KiB {}

impl PageSize for Size2MiB {
    open spec fn spec_size() -> u64 {
        0x20_0000
    }

    fn size() -> (r: u64) {
        0x20_0000
    }

    proof fn lemma_size() {
    }
}

impl NotGiantPageSize for Size2MiB {}

impl PageSize for Size1GiB {
    open spec fn spec_size() -> u64 {
        0x4000_0000
    }

    fn size() -> (r: u64) {
        0x4000_0000
    }

    proof fn lemma_size() {
    }
}

/// What every page size satisfies.
pub proof fn lemma_page_size<S: PageSize>()
    ensures
        S::spec_size() >= 0x1000,
        S::spec_size() % 0x1000 == 0,
        S::spec_size() <= 0x4000_0000,
        is_power_of_two(S::spec_size()),
{
    S::lemma_size();
    lemma2_to64();
    if S::spec_size() == 0x1000 {
        assert(12 < 64 && S::spec_size() == pow2(12));
    } else if S::spec_size() == 0x20_0000 {
        assert(21 < 64 && S::spec_size() == pow2(21));
    } else {
        assert(30 < 64 && S::spec_size() == pow2(30));
    }
}

/// Arithmetic on multiples of `size`.
pub proof fn lemma_multiples(a: int, b: int, n: int, size: int)
    requires
        size > 0,
        a % size == 0,
        b % size == 0,
    ensures
        (a + n * size) % size == 0,
        (a - n * size) % size == 0,
        (b - a) % size == 0,
        (b - a) / size * size == b - a,
        a < b ==> a + size <= b,
        a <= b < a + size ==> a == b,
{
    lemma_mod_multiples_vanish(n, a, size);
    lemma_mod_multiples_vanish(-n, a, size);
    assert(size * n == n * size) by (nonlinear_arith);
    assert(size * (-n) == -(n * size)) by (nonlinear_arith);
    lemma_fundamental_div_mod(a, size);
    lemma_mod_multiples_vanish(-(a / size), b, size);
    assert(size * (-(a / size)) == -(size * (a / size))) by (nonlinear_arith);
    assert(size * (-(a / size)) + b == b - a);
    lemma_fundamental_div_mod(b - a, size);
    assert(size * ((b - a) / size) == (b - a) / size * size) by (nonlinear_arith);
    if a < b && b - a < size {
        lemma_small_mod((b - a) as nat, size as nat);
    }
    if a <= b && b < a + size {
        lemma_small_mod((b - a) as nat, size as nat);
    }
}

/// Facts on the address that a set of table indices selects.
proof fn lemma_indices_address(p4: u64, p3: u64, p2: u64, p1: u64)
    by (bit_vector)
    requires
        p4 < 512,
        p3 < 512,
        p2 < 512,
        p1 < 512,
    ensures
        0u64 | (p4 << 39u64) | (p3 << 30u64) == assemble(p4, p3, 0, 0, 0),
        0u64 | (p4 << 39u64) | (p3 << 30u64) | (p2 << 21u64) == assemble(p4, p3, p2, 0, 0),
        0u64 | (p4 << 39u64) | (p3 << 30u64) | (p2 << 21u64) | (p1 << 12u64) == assemble(
            p4,
            p3,
            p2,
            p1,
            0,
        ),
        canonical(assemble(p4, p3, 0, 0, 0)) % 0x4000_0000 == 0,
        canonical(assemble(p4, p3, p2, 0, 0)) % 0x20_0000 == 0,
        canonical(assemble(p4, p3, p2, p1, 0)) % 0x1000 == 0,
        (canonical(assemble(p4, p3, p2, p1, 0)) / 0x80_0000_0000) % 512 == p4,
        (canonical(assemble(p4, p3, p2, p1, 0)) / 0x4000_0000) % 512 == p3,
        (canonical(assemble(p4, p3, p2, p1, 0)) / 0x20_0000) % 512 == p2,
        (canonical(assemble(p4, p3, p2, p1, 0)) / 0x1000) % 512 == p1,
{
}

/// The given address is not a multiple of the page size.
#[derive(Debug, Clone, Copy, PartialEq, Eq, Structural)]
pub struct AddressNotAligned;

impl AddressNotAligned {
    /// A description of the error.
    pub fn message(&self) -> &'static str {
        "the given address was not sufficiently aligned"
    }
}

/// A virtual memory page of size `S`.
#[derive(Copy, PartialEq, Eq, PartialOrd, Ord, Hash, Debug)]
pub struct Page<S: PageSize = Size4KiB> {
    start_address: u64,
    size: PhantomData<S>,
}

impl<S: PageSize> Clone for Page<S> {
    fn clone(&self) -> (r: Self)
        ensures
            r == *self,
    {
        *self
    }
}

impl<S: PageSize> Page<S> {
    #[verifier::type_invariant]
    closed spec fn inv(self) -> bool {
        self.start_address % S::spec_size() == 0
    }

    /// The first address of the page.
    pub closed spec fn start(self) -> u64 {
        self.start_address
    }

    /// The page that starts at `address`; fails when `address` is not a
    /// multiple of the page size.
    pub fn from_start_address(address: u64) -> (r: Result<Self, AddressNotAligned>)
        ensures
            r.is_ok() <==> address % S::spec_size() == 0,
            r.is_ok() ==> r.unwrap().start() == address,
    {
        proof {
            lemma_page_size::<S>();
        }
        if !address.is_aligned(S::size()) {
            return Err(AddressNotAligned);
        }
        Ok(Page::containing_address(address))
    }

    /// The page that starts at `start_address`, which must be a multiple of
    /// the page size.
    pub fn from_start_address_unchecked(start_address: u64) -> (r: Self)
        requires
            start_address % S::spec_size() == 0,
        ensures
            r.start() == start_address,
    {
        Page { start_address, size: PhantomData }
    }

    /// The page that contains `address`.
    pub fn containing_address(address: u64) -> (r: Self)
        ensures
            r.start() == address - address % S::spec_size(),
            r.start() <= address,
            address - r.start() < S::spec_size(),
    {
        proof {
            lemma_page_size::<S>();
        }
        Page { start_address: address.align_down(S::size()), size: PhantomData }
    }

    /// The first address of the page.
    pub fn start_address(self) -> (r: u64)
        ensures
            r == self.start(),
            r % S::spec_size() == 0,
    {
        proof {
            use_type_invariant(&self);
        }
        self.start_address
    }

    /// The size of the page in bytes.
    pub fn size(self) -> (r: u64)
        ensures
            r == S::spec_size(),
    {
        S::size()
    }

    /// The level-4 table index of the page.
    pub fn p4_index(self) -> (r: PageTableIndex)
        ensures
            r.value() == index_of(self.start(), 4),
    {
        self.start_address().p4_index()
    }

    /// The level-3 table index of the page.
    pub fn p3_index(self) -> (r: PageTableIndex)
        ensures
            r.value() == index_of(self.start(), 3),
    {
        self.start_address().p3_index()
    }

    /// The table index of the page at `level`.
    pub fn page_table_index(self, level: PageTableLevel) -> (r: PageTableIndex)
        ensures
            r.value() == index_of(self.start(), level.num()),
    {
        self.start_address().page_table_index(level)
    }

    /// The pages from `start` up to, not including, `end`.
    pub fn range(start: Self, end: Self) -> (r: PageRange<S>)
        ensures
            r.start == start,
            r.end == end,
    {
        PageRange { start, end }
    }

    /// The pages from `start` up to and including `end`.
    pub fn range_inclusive(start: Self, end: Self) -> (r: PageRangeInclusive<S>)
        ensures
            r.start == start,
            r.end == end,
    {
        PageRangeInclusive { start, end }
    }

    /// The page `count` pages after this one.
    pub fn add_pages(self, count: u64) -> (r: Self)
        requires
            self.start() + count * S::spec_size() <= u64::MAX,
        ensures
            r.start() == self.start() + count * S::spec_size(),
    {
        proof {
            use_type_invariant(&self);
            lemma_page_size::<S>();
            lemma_multiples(self.start() as int, 0, count as int, S::spec_size() as int);
            assert(0 <= count * S::spec_size()) by (nonlinear_arith);
        }
        Page::containing_address(self.start_address + count * S::size())
    }

    /// The page `count` pages before this one.
    pub fn sub_pages(self, count: u64) -> (r: Self)
        requires
            count * S::spec_size() <= self.start(),
        ensures
            r.start() == self.start() - count * S::spec_size(),
    {
        proof {
            use_type_invariant(&self);
            lemma_page_size::<S>();
            lemma_multiples(self.start() as int, 0, count as int, S::spec_size() as int);
            assert(0 <= count * S::spec_size()) by (nonlinear_arith);
        }
        Page::containing_address(self.start_address - count * S::size())
    }

    /// The number of pages from `earlier` to this page.
    pub fn pages_since(self, earlier: Self) -> (r: u64)
        requires
            earlier.start() <= self.start(),
        ensures
            r == (self.start() - earlier.start()) / S::spec_size() as int,
    {
        proof {
            lemma_page_size::<S>();
        }
        (self.start_address - earlier.start_address) / S::size()
    }
}

impl<S: NotGiantPageSize> Page<S> {
    /// The level-2 table index of the page.
    pub fn p2_index(self) -> (r: PageTableIndex)
        ensures
            r.value() == index_of(self.start(), 2),
    {
        self.start_address().p2_index()
    }
}

impl Page<Size1GiB> {
    /// The 1 GiB page that the level-4 and level-3 indices select.
    pub fn from_page_table_indices_1gib(p4_index: PageTableIndex, p3_index: PageTableIndex) -> (r: Self)
        ensures
            r.start() == canonical(assemble(p4_index.value() as u64, p3_index.value() as u64, 0, 0, 0)),
    {
        let p4 = p4_index.into_u64();
        let p3 = p3_index.into_u64();
        proof {
            lemma_indices_address(p4, p3, 0, 0);
        }
        let mut addr: u64 = 0;
        addr |= p4 << 39;
        addr |= p3 << 30;
        Page::containing_address(u64::new_virt_truncate(addr))
    }
}

impl Page<Size2MiB> {
    /// The 2 MiB page that the level-4, level-3 and level-2 indices select.
    pub fn from_page_table_indices_2mib(
        p4_index: PageTableIndex,
        p3_index: PageTableIndex,
        p2_index: PageTableIndex,
    ) -> (r: Self)
        ensures
            r.start() == canonical(
                assemble(p4_index.value() as u64, p3_index.value() as u64, p2_index.value() as u64, 0, 0),
            ),
    {
        let p4 = p4_index.into_u64();
        let p3 = p3_index.into_u64();
        let p2 = p2_index.into_u64();
        proof {
            lemma_indices_address(p4, p3, p2, 0);
        }
        let mut addr: u64 = 0;
        addr |= p4 << 39;
        addr |= p3 << 30;
        addr |= p2 << 21;
        Page::containing_address(u64::new_virt_truncate(addr))
    }
}

impl Page<Size4KiB> {
    /// The 4 KiB page that the four table indices select; its indices are
    /// the given ones.
    pub fn from_page_table_indices(
        p4_index: PageTableIndex,
        p3_index: PageTableIndex,
        p2_index: PageTableIndex,
        p1_index: PageTableIndex,
    ) -> (r: Self)
        ensures
            r.start() == canonical(
                assemble(
                    p4_index.value() as u64,
                    p3_index.value() as u64,
                    p2_index.value() as u64,
                    p1_index.value() as u64,
                    0,
                ),
            ),
            index_of(r.start(), 4) == p4_index.value(),
            index_of(r.start(), 3) == p3_index.value(),
            index_of(r.start(), 2) == p2_index.value(),
            index_of(r.start(), 1) == p1_index.value(),
    {
        let p4 = p4_index.into_u64();
        let p3 = p3_index.into_u64();
        let p2 = p2_index.into_u64();
        let p1 = p1_index.into_u64();
        proof {
            lemma_indices_address(p4, p3, p2, p1);
        }
        let mut addr: u64 = 0;
        addr |= p4 << 39;
        addr |= p3 << 30;
        addr |= p2 << 21;
        addr |= p1 << 12;
        Page::containing_address(u64::new_virt_truncate(addr))
    }

    /// The level-1 table index of the page.
    pub fn p1_index(self) -> (r: PageTableIndex)
        ensures
            r.value() == index_of(self.start(), 1),
    {
        self.start_address().p1_index()
    }
}

/// For a page `p` and a page `q` that lies `count` pages after it (what
/// `add_pages` returns), the distance from `p` to `q` (what `pages_since`
/// returns) is `count`, and `count` pages before `q` (what `sub_pages`
/// returns) is `p` again.
pub proof fn lemma_page_add_sub<S: PageSize>(p: Page<S>, q: Page<S>, count: u64)
    requires
        p.start() % S::spec_size() == 0,
        q.start() == p.start() + count * S::spec_size(),
    ensures
        (q.start() - p.start()) / S::spec_size() as int == count,
        q.start() - count * S::spec_size() == p.start(),
{
    lemma_page_size::<S>();
    let size = S::spec_size();
    vstd::arithmetic::div_mod::lemma_div_multiples_vanish(count as int, size as int);
    assert(size * count == count * size) by (nonlinear_arith);
}

/// The start addresses of the pages from `start` (inclusive) to `end`
/// (exclusive), `size` bytes apart.
pub open spec fn exclusive_starts(start: u64, end: u64, size: u64) -> Seq<u64> {
    let n = if start < end {
        ((end - start) / size as int) as nat
    } else {
        0
    };
    Seq::new(n, |i: int| (start + i * size) as u64)
}

/// The start addresses of the pages from `start` to `end`, both inclusive.
pub open spec fn inclusive_starts(start: u64, end: u64, size: u64) -> Seq<u64> {
    let n = if start <= end {
        ((end - start) / size as int + 1) as nat
    } else {
        0
    };
    Seq::new(n, |i: int| (start + i * size) as u64)
}

/// The start addresses of a range, listed in increasing order and
/// `end - start` pages long.
pub proof fn lemma_starts_in_order(start: u64, end: u64, size: u64)
    requires
        size > 0,
        start % size == 0,
        end % size == 0,
    ensures
        exclusive_starts(start, end, size).len() == if start < end {
            (end - start) / size as int
        } else {
            0
        },
        forall|i: int, j: int|
            0 <= i < j < exclusive_starts(start, end, size).len() ==> exclusive_starts(start, end, size)[i]
                < exclusive_starts(start, end, size)[j],
        forall|i: int, j: int|
            0 <= i < j < inclusive_starts(start, end, size).len() ==> inclusive_starts(start, end, size)[i]
                < inclusive_starts(start, end, size)[j],
        start == end ==> exclusive_starts(start, end, size).len() == 0,
        start == end ==> inclusive_starts(start, end, size) == seq![start],
{
    lemma_multiples(start as int, end as int, 0, size as int);
    let ex = exclusive_starts(start, end, size);
    let inc = inclusive_starts(start, end, size);
    assert forall|i: int, j: int| 0 <= i < j < ex.len() implies ex[i] < ex[j] by {
        assert(i * size < j * size) by (nonlinear_arith)
            requires
                i < j,
                size > 0,
        ;
        assert(j * size <= (end - start) as int) by (nonlinear_arith)
            requires
                j < (end - start) / size as int,
                size > 0,
                (end - start) >= 0,
                0 <= i < j,
        ;
    }
    assert forall|i: int, j: int| 0 <= i < j < inc.len() implies inc[i] < inc[j] by {
        assert(i * size < j * size) by (nonlinear_arith)
            requires
                i < j,
                size > 0,
        ;
        assert(j * size <= (end - start) as int) by (nonlinear_arith)
            requires
                j <= (end - start) / size as int,
                size > 0,
                (end - start) >= 0,
                0 <= i < j,
        ;
    }
    if start == end {
        assert(inc =~= seq![start]);
    }
}

/// How the start addresses of a range change when its first page is taken off,
/// for start and end addresses that are multiples of `size`.
pub proof fn lemma_range_facts(s: u64, e: u64, size: u64)
    requires
        0x1000 <= size <= 0x4000_0000,
        s % size == 0,
        e % size == 0,
    ensures
        s < e ==> exclusive_starts(s, e, size).len() == (e - s) / size as int,
        s < e ==> exclusive_starts(s, e, size).len() >= 1,
        s < e ==> s + size <= e,
        s >= e ==> exclusive_starts(s, e, size).len() == 0,
        s <= e ==> inclusive_starts(s, e, size).len() == (e - s) / size as int + 1,
        s <= e ==> (e - s) / size as int * size == e - s,
        s <= e ==> (e - s) / size as int <= (e - s) / 2,
        s > e ==> inclusive_starts(s, e, size).len() == 0,
        s < e ==> exclusive_starts((s + size) as u64, e, size) == exclusive_starts(s, e, size).drop_first(),
        s <= e && s + size <= u64::MAX ==> inclusive_starts((s + size) as u64, e, size)
            == inclusive_starts(s, e, size).drop_first(),
        s <= e && s >= u64::MAX - (size - 1) ==> s == e && e >= size && inclusive_starts(
            s,
            (e - size) as u64,
            size,
        ) == inclusive_starts(s, e, size).drop_first(),
{
    let sz = size as int;
    lemma_multiples(s as int, e as int, 1, sz);
    if s <= e {
        let k = (e - s) / sz;
        vstd::arithmetic::div_mod::lemma_div_is_ordered_by_denominator((e - s) as int, 2, sz);
        if s < e {
            assert(k >= 1) by (nonlinear_arith)
                requires
                    k * sz == e - s,
                    e - s >= sz,
                    sz > 0,
            ;
            let ex0 = exclusive_starts(s, e, size);
            let ex1 = exclusive_starts((s + size) as u64, e, size);
            if s + size < e {
                lemma_multiples((s + size) as int, e as int, 0, sz);
            }
            assert((k - 1) * sz == e - (s + size)) by (nonlinear_arith)
                requires
                    k * sz == e - s,
                    sz == size,
            ;
            vstd::arithmetic::div_mod::lemma_div_multiples_vanish(k - 1, sz);
            assert(sz * (k - 1) == (k - 1) * sz) by (nonlinear_arith);
            assert(ex1.len() == ex0.len() - 1);
            assert forall|i: int| 0 <= i < ex1.len() implies ex1[i] == ex0.drop_first()[i] by {
                assert((s + size) + i * sz == s + (i + 1) * sz) by (nonlinear_arith)
                    requires
                        sz == size,
                ;
            }
            assert(ex1 =~= ex0.drop_first());
        }
        let in0 = inclusive_starts(s, e, size);
        if s + size <= u64::MAX {
            let in1 = inclusive_starts((s + size) as u64, e, size);
            if s + size <= e {
                lemma_multiples((s + size) as int, e as int, 0, sz);
                assert((k - 1) * sz == e - (s + size)) by (nonlinear_arith)
                    requires
                        k * sz == e - s,
                        sz == size,
                ;
                vstd::arithmetic::div_mod::lemma_div_multiples_vanish(k - 1, sz);
                assert(sz * (k - 1) == (k - 1) * sz) by (nonlinear_arith);
                assert(in1.len() == in0.len() - 1);
                assert forall|i: int| 0 <= i < in1.len() implies in1[i] == in0.drop_first()[i] by {
                    assert((s + size) + i * sz == s + (i + 1) * sz) by (nonlinear_arith)
                    requires
                        sz == size,
                ;
                }
                assert(in1 =~= in0.drop_first());
            } else {
                assert(s == e);
                assert(k == 0) by (nonlinear_arith)
                    requires
                        k * sz == e - s,
                        s == e,
                        sz > 0,
                ;
                assert(in1 =~= in0.drop_first());
            }
        }
        if s >= u64::MAX - (size - 1) {
            assert(s == e);
            assert(k == 0) by (nonlinear_arith)
                requires
                    k * sz == e - s,
                    s == e,
                    sz > 0,
            ;
            assert(inclusive_starts(s, (e - size) as u64, size) =~= in0.drop_first());
        }
    }
}

/// A range of pages with exclusive upper bound.
#[derive(Clone, Copy, PartialEq, Eq, Hash, Debug)]
pub struct PageRange<S: PageSize = Size4KiB> {
    /// The first page of the range.
    pub start: Page<S>,
    /// The page just past the range.
    pub end: Page<S>,
}

impl<S: PageSize> PageRange<S> {
    /// The start addresses of the pages of the range, in order.
    pub open spec fn starts(self) -> Seq<u64> {
        exclusive_starts(self.start.start(), self.end.start(), S::spec_size())
    }

    /// Whether the range holds no page.
    pub fn is_empty(&self) -> (r: bool)
        ensures
            r == (self.starts().len() == 0),
            r == (self.start.start() >= self.end.start()),
    {
        let s = self.start.start_address();
        let e = self.end.start_address();
        proof {
            lemma_page_size::<S>();
            lemma_range_facts(s, e, S::spec_size());
        }
        s >= e
    }

    /// The number of pages in the range.
    pub fn len(&self) -> (r: u64)
        ensures
            r == self.starts().len(),
    {
        let s = self.start.start_address();
        let e = self.end.start_address();
        proof {
            lemma_page_size::<S>();
            lemma_range_facts(s, e, S::spec_size());
        }
        if !self.is_empty() {
            self.end.pages_since(self.start)
        } else {
            0
        }
    }

    /// The number of bytes in the pages of the range.
    pub fn size(&self) -> (r: u64)
        ensures
            r == S::spec_size() * self.starts().len(),
    {
        let s = self.start.start_address();
        let e = self.end.start_address();
        let n = self.len();
        proof {
            lemma_page_size::<S>();
            lemma_range_facts(s, e, S::spec_size());
            assert(S::spec_size() * n == n * S::spec_size()) by (nonlinear_arith);
            if s < e {
                assert(n * S::spec_size() == e - s);
            } else {
                assert(S::spec_size() * n == 0) by (nonlinear_arith)
                    requires
                        n == 0,
                ;
            }
        }
        let size = S::size();
        size * n
    }

    /// Takes the first page off the range.
    pub fn next(&mut self) -> (r: Option<Page<S>>)
        ensures
            old(self).starts().len() == 0 ==> r.is_none() && *final(self) == *old(self),
            old(self).starts().len() > 0 ==> r == Some(old(self).start) && final(self).starts()
                == old(self).starts().drop_first() && final(self).end == old(self).end,
    {
        let s = self.start.start_address();
        let e = self.end.start_address();
        proof {
            lemma_page_size::<S>();
            lemma_range_facts(s, e, S::spec_size());
        }
        if s < e {
            let page = self.start;
            self.start = self.start.add_pages(1);
            Some(page)
        } else {
            None
        }
    }
}

impl PageRange<Size2MiB> {
    /// The same range, as 4 KiB pages.
    pub fn as_4kib_page_range(self) -> (r: PageRange<Size4KiB>)
        ensures
            r.start.start() == self.start.start(),
            r.end.start() == self.end.start(),
    {
        let s = self.start.start_address();
        let e = self.end.start_address();
        proof {
            lemma_fundamental_div_mod(s as int, 0x20_0000);
            lemma_fundamental_div_mod(e as int, 0x20_0000);
            lemma_multiples(0, 0, (s as int / 0x20_0000) * 0x200, 0x1000);
            lemma_multiples(0, 0, (e as int / 0x20_0000) * 0x200, 0x1000);
        }
        PageRange { start: Page::containing_address(s), end: Page::containing_address(e) }
    }
}

/// A range of pages with inclusive upper bound.
#[derive(Clone, Copy, PartialEq, Eq, Hash, Debug)]
pub struct PageRangeInclusive<S: PageSize = Size4KiB> {
    /// The first page of the range.
    pub start: Page<S>,
    /// The last page of the range.
    pub end: Page<S>,
}

impl<S: PageSize> PageRangeInclusive<S> {
    /// The start addresses of the pages of the range, in order.
    pub open spec fn starts(self) -> Seq<u64> {
        inclusive_starts(self.start.start(), self.end.start(), S::spec_size())
    }

    /// Whether the range holds no page.
    pub fn is_empty(&self) -> (r: bool)
        ensures
            r == (self.starts().len() == 0),
            r == (self.start.start() > self.end.start()),
    {
        let s = self.start.start_address();
        let e = self.end.start_address();
        proof {
            lemma_page_size::<S>();
            lemma_range_facts(s, e, S::spec_size());
        }
        s > e
    }

    /// The number of pages in the range.
    pub fn len(&self) -> (r: u64)
        ensures
            r == self.starts().len(),
    {
        let s = self.start.start_address();
        let e = self.end.start_address();
        proof {
            lemma_page_size::<S>();
            lemma_range_facts(s, e, S::spec_size());
        }
        if !self.is_empty() {
            self.end.pages_since(self.start) + 1
        } else {
            0
        }
    }

    /// The number of bytes in the pages of the range, which must fit in a `u64`.
    pub fn size(&self) -> (r: u64)
        requires
            S::spec_size() * self.starts().len() <= u64::MAX,
        ensures
            r == S::spec_size() * self.starts().len(),
    {
        S::size() * self.len()
    }

    /// Takes the first page off the range. When the first page is the last
    /// page of the address space, the end moves back instead, so that the
    /// largest page is still produced and the range then reads as empty.
    pub fn next(&mut self) -> (r: Option<Page<S>>)
        ensures
            old(self).starts().len() == 0 ==> r.is_none() && *final(self) == *old(self),
            old(self).starts().len() > 0 ==> r == Some(old(self).start) && final(self).starts()
                == old(self).starts().drop_first(),
    {
        let s = self.start.start_address();
        let e = self.end.start_address();
        proof {
            lemma_page_size::<S>();
            lemma_range_facts(s, e, S::spec_size());
        }
        if s <= e {
            let page = self.start;
            let max_page_addr = u64::MAX - (S::size() - 1);
            if s < max_page_addr {
                self.start = self.start.add_pages(1);
            } else {
                self.end = self.end.sub_pages(1);
            }
            Some(page)
        } else {
            None
        }
    }
}

} // verus!
