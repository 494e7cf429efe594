//! Segment selectors and the descriptor-table pointer that the table-load
//! instructions read.
use vstd::prelude::*;

verus! {

/// A segment selector: bits 3..15 are the descriptor index, bit 2 the table
/// (0 = global, 1 = local), bits 0..1 the requested privilege level.
#[derive(Clone, Copy, PartialEq, Eq, Structural, Debug)]
pub struct SegmentSelector(pub u16);

impl SegmentSelector {
    /// The selector of descriptor `index` in table `table` with requested
    /// privilege level `rpl`.
    pub fn new(index: u16, table: u16, rpl: u16) -> (r: Self)
        requires
            index < 8192,
            table < 2,
            rpl < 4,
        ensures
            r.0 == index * 8 + table * 4 + rpl,
    {
        proof {
            assert(index < 8192 && table < 2 && rpl < 4 ==> (index << 3u16) | (table << 2u16) | rpl
                == index * 8 + table * 4 + rpl) by (bit_vector);
        }
        SegmentSelector((index << 3) | (table << 2) | rpl)
    }

    /// The descriptor index.
    pub fn index(self) -> (r: u16)
        ensures
            r == self.0 / 8,
    {
        proof {
            let v = self.0;
            assert(v >> 3u16 == v / 8) by (bit_vector);
        }
        self.0 >> 3
    }

    /// The table bit: 0 for the global table, 1 for the local one.
    pub fn table(self) -> (r: u16)
        ensures
            r == (self.0 / 4) % 2,
    {
        proof {
            let v = self.0;
            assert((v >> 2u16) & 1 == (v / 4) % 2) by (bit_vector);
        }
        (self.0 >> 2) & 1
    }

    /// The requested privilege level.
    pub fn rpl(self) -> (r: u16)
        ensures
            r == self.0 % 4,
    {
        proof {
            let v = self.0;
            assert(v & 3 == v % 4) by (bit_vector);
        }
        self.0 & 3
    }
}

/// The operand of the table-load instructions: the table's base address and
/// its size in bytes minus one.
#[derive(Debug, Clone, Copy, PartialEq, Eq, Structural)]
pub struct DescriptorTablePointer {
    /// Size of the table in bytes, minus one.
    pub limit: u16,
    /// Address of the table.
    pub base: u64,
}

} // verus!
