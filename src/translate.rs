//! Virtual to physical translation by walking the four levels of page tables.
//!
//! Physical memory is seen as an arena: a table is found from its physical
//! address by adding the physical-memory offset, the one rule that turns a
//! physical address into a readable one. `PageWalk` runs the walk one table
//! read at a time, so that the same walk serves `PhysMemory`, an arena held
//! in ordinary memory, and a reader of the real tables.
use crate::addr::{index_of, offset_of, PageTableLevel, PhysAddr, VirtAddr};
use crate::paging::{frame_of, FrameError, PageTable, PageTableEntry, ENTRY_ADDR_MASK};
use vstd::prelude::*;

verus! {

/// Why a virtual address has no translation.
#[derive(Debug, Clone, Copy, PartialEq, Eq, Structural)]
pub enum TranslateError {
    /// An entry on the way has the present flag clear: nothing is mapped.
    NotPresent,
    /// An entry on the way maps a huge frame; the walk does not follow those.
    HugeFrame,
    /// A table on the way lies outside the memory that can be read.
    TableUnreadable,
}

/// What the walk does with the entry `e`: go on to the frame it names, or stop.
pub open spec fn entry_step(e: u64) -> Result<u64, TranslateError> {
    match frame_of(e) {
        Ok(f) => Ok(f),
        Err(FrameError::FrameNotPresent) => Err(TranslateError::NotPresent),
        Err(FrameError::HugeFrame) => Err(TranslateError::HugeFrame),
    }
}

/// The physical address of the root table, from the value of the register
/// that holds it: its bits 12..51.
pub fn root_table_frame(cr3: u64) -> (r: u64)
    ensures
        r == cr3 & ENTRY_ADDR_MASK,
{
    proof {
        lemma_masked(cr3);
        vstd::arithmetic::power2::lemma2_to64();
        assert(12 < 64 && 0x1000 == vstd::arithmetic::power2::pow2(12));
    }
    let frame = cr3 & ENTRY_ADDR_MASK;
    frame.align_down(0x1000)
}

/// The readable address of the table at physical address `frame`, or `None`
/// when adding the offset overflows.
pub fn table_virt_addr(phys_mem_offset: u64, frame: u64) -> (r: Option<u64>)
    ensures
        r == (if phys_mem_offset + frame > u64::MAX {
            None
        } else {
            Some((phys_mem_offset + frame) as u64)
        }),
{
    phys_mem_offset.checked_add(frame)
}

/// The step of the walk that the entry `entry` decides.
pub fn next_table(entry: &PageTableEntry) -> (r: Result<u64, TranslateError>)
    ensures
        r == entry_step(entry@),
        r.is_ok() ==> r.unwrap() <= ENTRY_ADDR_MASK,
{
    proof {
        lemma_masked(entry@);
    }
    match entry.frame() {
        Ok(f) => Ok(f),
        Err(FrameError::FrameNotPresent) => Err(TranslateError::NotPresent),
        Err(FrameError::HugeFrame) => Err(TranslateError::HugeFrame),
    }
}

proof fn lemma_masked(e: u64)
    by (bit_vector)
    ensures
        e & 0x000f_ffff_ffff_f000u64 <= 0x000f_ffff_ffff_f000u64,
        (e & 0x000f_ffff_ffff_f000u64) % 0x1000 == 0,
{
}

/// The level with number `n` in `1..=4`.
fn level_of(n: u8) -> (r: PageTableLevel)
    requires
        1 <= n <= 4,
    ensures
        r.num() == n,
{
    if n == 1 {
        PageTableLevel::One
    } else if n == 2 {
        PageTableLevel::Two
    } else if n == 3 {
        PageTableLevel::Three
    } else {
        PageTableLevel::Four
    }
}

/// What memory holds at each readable address: the entries of the table
/// there, if one can be read.
pub type MemoryView = spec_fn(int) -> Option<Seq<PageTableEntry>>;

/// The frame that the walk reaches in `mem` from the table at physical
/// address `frame` through `level` more levels, looking up `addr`, each
/// table being read at its physical address plus `offset`.
pub open spec fn walk_in(mem: MemoryView, offset: u64, frame: u64, addr: u64, level: nat) -> Result<
    u64,
    TranslateError,
>
    decreases level,
{
    if level == 0 {
        Ok(frame)
    } else if offset + frame > u64::MAX {
        Err(TranslateError::TableUnreadable)
    } else {
        match mem(offset + frame) {
            None => Err(TranslateError::TableUnreadable),
            Some(t) => match entry_step(t[index_of(addr, level as int)]@) {
                Ok(next) => walk_in(mem, offset, next, addr, (level - 1) as nat),
                Err(e) => Err(e),
            },
        }
    }
}

/// The physical address that `addr` translates to in `mem`, walking from
/// the root table at physical address `root` through levels 4 to 1: the
/// frame that the level-1 entry maps plus the page offset of `addr`.
pub open spec fn translation_in(mem: MemoryView, offset: u64, root: u64, addr: u64) -> Result<
    u64,
    TranslateError,
> {
    match walk_in(mem, offset, root, addr, 4) {
        Ok(f) => Ok((f + offset_of(addr)) as u64),
        Err(e) => Err(e),
    }
}

/// What a walk asks for next.
#[derive(Debug, Clone, Copy, PartialEq, Eq)]
pub enum WalkStep {
    /// Read entry `index` of the table at readable address `table`, and hand
    /// it to `PageWalk::advance`.
    Read { table: u64, index: usize },
    /// The walk is over, with this translation.
    Done(Result<u64, TranslateError>),
}

/// A walk in progress: the address looked up, the physical-memory offset,
/// the physical address of the next table and the number of levels left.
pub struct PageWalk {
    addr: u64,
    offset: u64,
    frame: u64,
    level: u8,
}

impl PageWalk {
    /// The address looked up.
    pub closed spec fn addr_spec(self) -> u64 {
        self.addr
    }

    /// The physical-memory offset.
    pub closed spec fn offset_spec(self) -> u64 {
        self.offset
    }

    /// The physical address of the next table, or the final frame when no
    /// level is left.
    pub closed spec fn frame_spec(self) -> u64 {
        self.frame
    }

    /// The number of levels left to read.
    pub closed spec fn level_spec(self) -> nat {
        self.level as nat
    }

    /// At most four levels are left, and after the first read the frame
    /// came from an entry.
    pub closed spec fn well_formed(self) -> bool {
        &&& self.level <= 4
        &&& self.level < 4 ==> self.frame <= ENTRY_ADDR_MASK
    }

    /// The translation that this walk ends with when its tables are read from `mem`.
    pub open spec fn outcome(self, mem: MemoryView) -> Result<u64, TranslateError> {
        match walk_in(mem, self.offset_spec(), self.frame_spec(), self.addr_spec(), self.level_spec()) {
            Ok(f) => Ok((f + offset_of(self.addr_spec())) as u64),
            Err(e) => Err(e),
        }
    }

    /// A walk that looks up `addr` from the root table at physical address
    /// `root`; its outcome in any memory is the translation of `addr` there.
    pub fn new(root: u64, addr: u64, phys_mem_offset: u64) -> (r: Self)
        ensures
            r.well_formed(),
            r.addr_spec() == addr,
            r.offset_spec() == phys_mem_offset,
            r.frame_spec() == root,
            r.level_spec() == 4,
            forall|mem: MemoryView| #[trigger] r.outcome(mem) == translation_in(
                mem,
                phys_mem_offset,
                root,
                addr,
            ),
    {
        PageWalk { addr, offset: phys_mem_offset, frame: root, level: 4 }
    }

    /// What to do next: read an entry, or stop with the translation.
    pub fn step(&self) -> (r: WalkStep)
        requires
            self.well_formed(),
        ensures
            self.level_spec() == 0 ==> r == WalkStep::Done(
                Ok((self.frame_spec() + offset_of(self.addr_spec())) as u64),
            ),
            self.level_spec() > 0 && self.offset_spec() + self.frame_spec() > u64::MAX ==> r
                == WalkStep::Done(Err(TranslateError::TableUnreadable)),
            self.level_spec() > 0 && self.offset_spec() + self.frame_spec() <= u64::MAX ==> r
                == (WalkStep::Read {
                table: (self.offset_spec() + self.frame_spec()) as u64,
                index: index_of(self.addr_spec(), self.level_spec() as int) as usize,
            }),
            r matches WalkStep::Read { index, .. } ==> index < 512,
            forall|mem: MemoryView|
                #![trigger self.outcome(mem)]
                r matches WalkStep::Done(t) ==> t == self.outcome(mem),
    {
        if self.level == 0 {
            return WalkStep::Done(Ok(self.frame + self.addr.page_offset().into_u64()));
        }
        match table_virt_addr(self.offset, self.frame) {
            None => WalkStep::Done(Err(TranslateError::TableUnreadable)),
            Some(table) => {
                let index = self.addr.page_table_index(level_of(self.level)).as_usize();
                WalkStep::Read { table, index }
            },
        }
    }

    /// Takes in the entry that the last `step` asked to read: goes on to the
    /// table or frame it names, or stops with the reason it gives.
    pub fn advance(&mut self, entry: &PageTableEntry) -> (r: Result<(), TranslateError>)
        requires
            old(self).well_formed(),
            old(self).level_spec() > 0,
        ensures
            final(self).well_formed(),
            r == (match entry_step(entry@) {
                Ok(_) => Ok(()),
                Err(e) => Err(e),
            }),
            final(self).addr_spec() == old(self).addr_spec(),
            final(self).offset_spec() == old(self).offset_spec(),
            r.is_ok() ==> final(self).frame_spec() == entry_step(entry@).unwrap()
                && final(self).level_spec() == old(self).level_spec() - 1,
            forall|mem: MemoryView|
                #![trigger old(self).outcome(mem)]
                old(self).offset_spec() + old(self).frame_spec() <= u64::MAX && mem(
                    old(self).offset_spec() + old(self).frame_spec(),
                ).is_some() && mem(old(self).offset_spec() + old(self).frame_spec()).unwrap()[index_of(
                    old(self).addr_spec(),
                    old(self).level_spec() as int,
                )]@ == entry@ ==> match r {
                    Ok(_) => final(self).outcome(mem) == old(self).outcome(mem),
                    Err(e) => old(self).outcome(mem) == Err::<u64, TranslateError>(e),
                },
    {
        match next_table(entry) {
            Ok(f) => {
                self.frame = f;
                self.level = self.level - 1;
                Ok(())
            },
            Err(e) => Err(e),
        }
    }
}

/// Page tables held in ordinary memory: `tables[i]` is the table at readable
/// address `base + i * 4096`.
pub struct PhysMemory {
    /// The readable address of the first table.
    pub base: u64,
    /// The tables, 4 KiB apart.
    pub tables: Vec<PageTable>,
}

impl PhysMemory {
    /// The entries of the table at readable address `virt`, if one is there.
    pub open spec fn table_spec(self, virt: int) -> Option<Seq<PageTableEntry>> {
        if self.base <= virt <= u64::MAX && (virt - self.base) % 0x1000 == 0 && (virt - self.base)
            / 0x1000 < self.tables@.len() {
            Some(self.tables@[(virt - self.base) / 0x1000]@)
        } else {
            None
        }
    }

    /// The tables of this memory, by readable address.
    pub open spec fn view_of(self) -> MemoryView {
        |virt: int| self.table_spec(virt)
    }

    /// The physical address that `addr` translates to in this memory.
    pub open spec fn translate_spec(self, offset: u64, root: u64, addr: u64) -> Result<u64, TranslateError> {
        translation_in(self.view_of(), offset, root, addr)
    }

    /// An empty memory whose first table would sit at `base`.
    pub fn new(base: u64) -> (r: Self)
        ensures
            r.base == base,
            r.tables@.len() == 0,
    {
        PhysMemory { base, tables: Vec::new() }
    }

    /// Adds `table` after the others; returns its readable address.
    pub fn push(&mut self, table: PageTable) -> (r: u64)
        requires
            old(self).base + (old(self).tables@.len() + 1) * 0x1000 <= u64::MAX,
        ensures
            final(self).base == old(self).base,
            final(self).tables@ == old(self).tables@.push(table),
            r == old(self).base + old(self).tables@.len() * 0x1000,
    {
        let r = self.base + self.tables.len() as u64 * 0x1000;
        self.tables.push(table);
        r
    }

    /// The table at readable address `virt`, if one is there.
    pub fn table_at(&self, virt: u64) -> (r: Option<&PageTable>)
        ensures
            r.is_none() <==> self.table_spec(virt as int).is_none(),
            r.is_some() ==> Some(r.unwrap()@) == self.table_spec(virt as int),
    {
        if virt < self.base {
            return None;
        }
        let d = virt - self.base;
        if d % 0x1000 != 0 {
            return None;
        }
        let i = d / 0x1000;
        if i >= self.tables.len() as u64 {
            return None;
        }
        Some(&self.tables[i as usize])
    }

    /// Translates `addr` by walking from the root table at physical address
    /// `root`, reading each table at its physical address plus
    /// `phys_mem_offset`.
    pub fn translate_addr(&self, root: u64, addr: u64, phys_mem_offset: u64) -> (r: Result<
        u64,
        TranslateError,
    >)
        ensures
            r == self.translate_spec(phys_mem_offset, root, addr),
    {
        let mut walk = PageWalk::new(root, addr, phys_mem_offset);
        assert(walk.outcome(self.view_of()) == self.translate_spec(phys_mem_offset, root, addr));
        loop
            invariant
                walk.well_formed(),
                walk.outcome(self.view_of()) == self.translate_spec(phys_mem_offset, root, addr),
            decreases walk.level_spec(),
        {
            match walk.step() {
                WalkStep::Done(t) => {
                    return t;
                },
                WalkStep::Read { table, index } => {
                    let t = match self.table_at(table) {
                        Some(t) => t,
                        None => {
                            return Err(TranslateError::TableUnreadable);
                        },
                    };
                    let ghost before = walk;
                    let res = walk.advance(t.index(index));
                    assert(before.outcome(self.view_of()) == self.translate_spec(
                        phys_mem_offset,
                        root,
                        addr,
                    ));
                    match res {
                        Ok(()) => {},
                        Err(e) => {
                            return Err(e);
                        },
                    }
                },
            }
        }
    }
}

} // verus!
