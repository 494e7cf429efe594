//! The interrupt descriptor table: one gate per vector, 32 exceptions and
//! 224 device interrupts.
use crate::handlers::{has_handler, DOUBLE_FAULT_VECTOR};
use crate::selectors::{DescriptorTablePointer, SegmentSelector};
use crate::tss::DOUBLE_FAULT_IST_INDEX;
use vstd::prelude::*;

verus! {

/// Gate options: the entry is present.
pub const OPTION_PRESENT: u16 = 0x8000;
/// Gate options: descriptor privilege level 3.
pub const OPTION_DPL_USER: u16 = 0x6000;
/// Gate options: 64-bit interrupt gate (interrupts masked on entry).
pub const OPTION_INTERRUPT_GATE: u16 = 0x0E00;
/// Gate options: 64-bit trap gate (interrupts left enabled).
pub const OPTION_TRAP_GATE: u16 = 0x0F00;

/// The low word of a gate descriptor with handler address `handler`,
/// code segment `selector` and options `options`: handler bits 0..15, the
/// selector, the options, handler bits 16..31.
pub open spec fn gate_low(handler: u64, selector: u16, options: u16) -> u64 {
    (handler & 0xFFFF) | ((selector as u64) << 16u64) | ((options as u64) << 32u64) | (((handler
        >> 16u64) & 0xFFFF) << 48u64)
}

/// The high word of a gate descriptor with handler address `handler` and a
/// zero reserved field: handler bits 32..63.
pub open spec fn gate_high(handler: u64) -> u64 {
    handler >> 32u64
}

/// The raw words of a descriptor with no handler: an interrupt gate whose
/// present bit, address, selector and reserved field are all zero.
pub open spec fn missing_words() -> (u64, u64) {
    ((OPTION_INTERRUPT_GATE as u64) << 32u64, 0u64)
}

proof fn lemma_words(pl: u16, cs: u16, op: u16, pm: u16, ph: u32, res: u32)
    by (bit_vector)
    ensures
        (pl as u64) | ((cs as u64) << 16u64) | ((op as u64) << 32u64) | ((pm as u64) << 48u64)
            == gate_low((pl as u64) | ((pm as u64) << 16u64) | ((ph as u64) << 32u64), cs, op),
        res == 0 ==> (ph as u64) | ((res as u64) << 32u64) == gate_high(
            (pl as u64) | ((pm as u64) << 16u64) | ((ph as u64) << 32u64),
        ),
        ((ph as u64) | ((res as u64) << 32u64)) >> 32u64 == res,
{
}

/// One gate descriptor.
#[derive(Debug, Clone, Copy)]
pub struct IDTEntry {
    pointer_low: u16,
    cs: SegmentSelector,
    options: u16,
    pointer_mid: u16,
    pointer_high: u32,
    reserved: u32,
}

impl IDTEntry {
    /// The address of the handler.
    pub closed spec fn handler_spec(self) -> u64 {
        (self.pointer_low as u64) | ((self.pointer_mid as u64) << 16u64) | ((self.pointer_high as u64)
            << 32u64)
    }

    /// The code segment selector that the handler runs with.
    pub closed spec fn selector_spec(self) -> u16 {
        self.cs.0
    }

    /// The options word: present bit 15, privilege level bits 13..14, gate
    /// type bits 8..11, interrupt stack table index bits 0..2.
    pub closed spec fn options_spec(self) -> u16 {
        self.options
    }

    /// The 16 bytes of the descriptor as two words, least significant first.
    pub closed spec fn raw_spec(self) -> (u64, u64) {
        (
            (self.pointer_low as u64) | ((self.cs.0 as u64) << 16u64) | ((self.options as u64)
                << 32u64) | ((self.pointer_mid as u64) << 48u64),
            (self.pointer_high as u64) | ((self.reserved as u64) << 32u64),
        )
    }

    /// The descriptor's low word is laid out from the handler address, the
    /// selector and the options; with a zero reserved field, so is its high word.
    pub proof fn lemma_gate_words(self)
        ensures
            self.raw_spec().0 == gate_low(self.handler_spec(), self.selector_spec(), self.options_spec()),
            self.raw_spec().1 >> 32u64 == 0 ==> self.raw_spec().1 == gate_high(self.handler_spec()),
    {
        lemma_words(
            self.pointer_low,
            self.cs.0,
            self.options,
            self.pointer_mid,
            self.pointer_high,
            self.reserved,
        );
    }

    /// A gate with no handler: an interrupt gate with the present bit clear
    /// and every other field zero.
    pub fn missing() -> (r: Self)
        ensures
            r.handler_spec() == 0,
            r.selector_spec() == 0,
            r.options_spec() == OPTION_INTERRUPT_GATE,
            r.raw_spec() == missing_words(),
    {
        proof {
            assert((0u16 as u64) | ((0u16 as u64) << 16u64) | ((0u32 as u64) << 32u64) == 0)
                by (bit_vector);
            assert((0u16 as u64) | ((0u16 as u64) << 16u64) | ((0x0E00u16 as u64) << 32u64) | ((
            0u16 as u64) << 48u64) == (0x0E00u16 as u64) << 32u64 && (0u32 as u64) | ((0u32 as u64)
                << 32u64) == 0) by (bit_vector);
        }
        IDTEntry {
            pointer_low: 0,
            pointer_mid: 0,
            pointer_high: 0,
            cs: SegmentSelector(0),
            options: OPTION_INTERRUPT_GATE,
            reserved: 0,
        }
    }

    /// Points the entry at the handler at `addr`, run with code segment `cs`,
    /// replaces the options with `opt` when given, and marks it present.
    pub fn set_entry(&mut self, addr: u64, cs: SegmentSelector, opt: Option<u16>)
        ensures
            final(self).handler_spec() == addr,
            final(self).selector_spec() == cs.0,
            final(self).options_spec() == (match opt {
                Some(o) => o,
                None => old(self).options_spec(),
            }) | OPTION_PRESENT,
            final(self).raw_spec().1 >> 32u64 == old(self).raw_spec().1 >> 32u64,
            old(self).raw_spec().1 >> 32u64 == 0 ==> final(self).raw_spec().1 == gate_high(addr),
    {
        proof {
            let res = self.reserved;
            lemma_words(0, 0, 0, 0, self.pointer_high, res);
            lemma_words(0, 0, 0, 0, (addr >> 32u64) as u32, res);
            assert(res == 0 ==> (((addr >> 32u64) as u32) as u64) | ((res as u64) << 32u64) == addr
                >> 32u64) by (bit_vector);
            assert((addr as u16 as u64) | (((addr >> 16u64) as u16 as u64) << 16u64) | (((addr
                >> 32u64) as u32 as u64) << 32u64) == addr) by (bit_vector);
        }
        self.pointer_low = addr as u16;
        self.pointer_mid = (addr >> 16) as u16;
        self.pointer_high = (addr >> 32) as u32;
        self.cs = cs;
        if let Some(o) = opt {
            self.options = o;
        }
        self.set_present(true);
    }

    /// Sets or clears the present bit.
    pub fn set_present(&mut self, present: bool)
        ensures
            final(self).options_spec() == if present {
                old(self).options_spec() | OPTION_PRESENT
            } else {
                old(self).options_spec() & !OPTION_PRESENT
            },
            final(self).handler_spec() == old(self).handler_spec(),
            final(self).selector_spec() == old(self).selector_spec(),
            final(self).raw_spec().1 == old(self).raw_spec().1,
    {
        if present {
            self.options = self.options | OPTION_PRESENT;
        } else {
            self.options = self.options & !OPTION_PRESENT;
        }
    }

    /// Whether the present bit is set.
    pub fn present(&self) -> (r: bool)
        ensures
            r == (self.options_spec() & OPTION_PRESENT != 0),
    {
        self.options & OPTION_PRESENT != 0
    }

    /// Makes the entry a trap gate (interrupts stay enabled in the handler)
    /// when `disable` is false, an interrupt gate when it is true.
    pub fn disable_interrupts(&mut self, disable: bool)
        ensures
            final(self).options_spec() == if disable {
                old(self).options_spec() & !0x100u16
            } else {
                old(self).options_spec() | 0x100u16
            },
            final(self).handler_spec() == old(self).handler_spec(),
            final(self).selector_spec() == old(self).selector_spec(),
            final(self).raw_spec().1 == old(self).raw_spec().1,
    {
        if disable {
            self.options = self.options & !0x100u16;
        } else {
            self.options = self.options | 0x100u16;
        }
    }

    /// Sets the privilege level needed to raise the vector by software.
    pub fn set_privilege_level(&mut self, dpl: u16)
        requires
            dpl <= 3,
        ensures
            final(self).options_spec() == (old(self).options_spec() & !0x6000u16) | (dpl << 13u16),
            (final(self).options_spec() >> 13u16) & 3 == dpl,
            final(self).handler_spec() == old(self).handler_spec(),
            final(self).selector_spec() == old(self).selector_spec(),
            final(self).raw_spec().1 == old(self).raw_spec().1,
    {
        proof {
            let o = self.options;
            assert(dpl <= 3 ==> ((((o & !0x6000u16) | (dpl << 13u16)) >> 13u16) & 3 == dpl))
                by (bit_vector);
        }
        self.options = (self.options & !0x6000u16) | (dpl << 13);
    }

    /// The privilege level needed to raise the vector by software.
    pub fn privilege_level(&self) -> (r: u16)
        ensures
            r == (self.options_spec() >> 13u16) & 3,
    {
        (self.options >> 13) & 3
    }

    /// Makes the handler run on the stack in slot `index` of the interrupt
    /// stack table; the options field holds `index + 1`.
    pub fn set_ist_index(&mut self, index: u16)
        requires
            index < 7,
        ensures
            final(self).options_spec() == (old(self).options_spec() & !7u16) | (index + 1) as u16,
            final(self).options_spec() & 7 == index + 1,
            final(self).options_spec() & 0xFFF8 == old(self).options_spec() & 0xFFF8,
            final(self).handler_spec() == old(self).handler_spec(),
            final(self).selector_spec() == old(self).selector_spec(),
            final(self).raw_spec().1 == old(self).raw_spec().1,
    {
        proof {
            let o = self.options;
            let i = (index + 1) as u16;
            assert(i <= 7 ==> (((o & !7u16) | i) & 7 == i && ((o & !7u16) | i) & 0xFFF8 == o
                & 0xFFF8)) by (bit_vector);
        }
        self.options = (self.options & !7u16) | (index + 1);
    }

    /// The slot of the interrupt stack table that the handler runs on, or
    /// `None` when it stays on the interrupted stack.
    pub fn stack_index(&self) -> (r: Option<u16>)
        ensures
            self.options_spec() & 7 == 0 ==> r.is_none(),
            self.options_spec() & 7 != 0 ==> r == Some(((self.options_spec() & 7) - 1) as u16),
    {
        let field = self.options & 7;
        if field == 0 {
            None
        } else {
            Some(field - 1)
        }
    }

    /// The options word.
    pub fn options(&self) -> (r: u16)
        ensures
            r == self.options_spec(),
    {
        self.options
    }

    /// The address of the handler.
    pub fn handler_addr(&self) -> (r: u64)
        ensures
            r == self.handler_spec(),
    {
        (self.pointer_low as u64) | ((self.pointer_mid as u64) << 16) | ((self.pointer_high as u64)
            << 32)
    }

    /// The code segment selector that the handler runs with.
    pub fn selector(&self) -> (r: SegmentSelector)
        ensures
            r.0 == self.selector_spec(),
    {
        self.cs
    }

    /// The descriptor as the CPU reads it: two words, least significant first.
    pub fn to_raw(&self) -> (r: (u64, u64))
        ensures
            r == self.raw_spec(),
    {
        (
            (self.pointer_low as u64) | ((self.cs.0 as u64) << 16) | ((self.options as u64) << 32)
                | ((self.pointer_mid as u64) << 48),
            (self.pointer_high as u64) | ((self.reserved as u64) << 32),
        )
    }
}

/// The entry that `build_idt` puts at vector `v`, given the handler address
/// `addr` for that vector and the code segment `cs`.
pub open spec fn built_gate(e: IDTEntry, v: int, addr: u64, cs: u16) -> bool {
    if has_handler(v) {
        &&& e.handler_spec() == addr
        &&& e.selector_spec() == cs
        &&& e.raw_spec() == (gate_low(addr, cs, e.options_spec()), gate_high(addr))
        &&& if v == DOUBLE_FAULT_VECTOR {
            e.options_spec() == (OPTION_INTERRUPT_GATE | OPTION_PRESENT) | (DOUBLE_FAULT_IST_INDEX
                + 1) as u16
        } else {
            e.options_spec() == OPTION_INTERRUPT_GATE | OPTION_PRESENT
        }
    } else {
        &&& e.handler_spec() == 0
        &&& e.selector_spec() == 0
        &&& e.options_spec() == OPTION_INTERRUPT_GATE
        &&& e.raw_spec() == missing_words()
    }
}

/// The interrupt descriptor table.
pub struct InterruptDescriptorTable {
    /// Gates of the exception vectors 0..31.
    pub exceptions: [IDTEntry; 32],
    /// Gates of the interrupt vectors 32..255.
    pub interrupts: [IDTEntry; 224],
}

impl InterruptDescriptorTable {
    /// The entry of vector `v`.
    pub open spec fn gate(self, v: int) -> IDTEntry {
        if v < 32 {
            self.exceptions@[v]
        } else {
            self.interrupts@[v - 32]
        }
    }

    /// A table whose gates all have no handler.
    pub fn new() -> (r: Self)
        ensures
            forall|v: int|
                0 <= v < 256 ==> (#[trigger] r.gate(v)).options_spec() == OPTION_INTERRUPT_GATE
                    && r.gate(v).handler_spec() == 0 && r.gate(v).selector_spec() == 0
                    && r.gate(v).raw_spec() == missing_words(),
    {
        let m = IDTEntry::missing();
        let r = InterruptDescriptorTable { exceptions: [m; 32], interrupts: [m; 224] };
        assert forall|v: int| 0 <= v < 256 implies (#[trigger] r.gate(v)).options_spec()
            == OPTION_INTERRUPT_GATE && r.gate(v).handler_spec() == 0 && r.gate(v).selector_spec()
            == 0 && r.gate(v).raw_spec() == missing_words() by {
            if v < 32 {
                assert(r.exceptions@[v] == m);
            } else {
                assert(r.interrupts@[v - 32] == m);
            }
        }
        r
    }

    /// Makes every gate a gate with no handler.
    pub fn reset(&mut self)
        ensures
            forall|v: int|
                0 <= v < 256 ==> (#[trigger] final(self).gate(v)).options_spec()
                    == OPTION_INTERRUPT_GATE && final(self).gate(v).handler_spec() == 0
                    && final(self).gate(v).selector_spec() == 0
                    && final(self).gate(v).raw_spec() == missing_words(),
    {
        *self = Self::new();
    }

    /// The entry of `vector`.
    pub fn entry(&self, vector: u8) -> (r: &IDTEntry)
        ensures
            *r == self.gate(vector as int),
    {
        if vector < 32 {
            &self.exceptions[vector as usize]
        } else {
            &self.interrupts[(vector - 32) as usize]
        }
    }

    /// The operand of the load instruction for this table placed at `base`:
    /// 256 gates of 16 bytes.
    pub fn pointer(&self, base: u64) -> (r: DescriptorTablePointer)
        ensures
            r.base == base,
            r.limit == 256 * 16 - 1,
    {
        DescriptorTablePointer { base, limit: 256 * 16 - 1 }
    }
}

/// The kernel's table: each vector that has a handler gets a present
/// interrupt gate to `handlers[vector]` with code segment `cs`, the double
/// fault running on the reserved stack; every other vector has no handler.
pub fn build_idt(handlers: &[u64; 256], cs: SegmentSelector) -> (r: InterruptDescriptorTable)
    ensures
        forall|v: int| 0 <= v < 256 ==> #[trigger] built_gate(r.gate(v), v, handlers@[v], cs.0),
        r.gate(DOUBLE_FAULT_VECTOR as int).options_spec() & OPTION_PRESENT != 0,
        r.gate(DOUBLE_FAULT_VECTOR as int).options_spec() & 7 == DOUBLE_FAULT_IST_INDEX + 1,
{
    let mut idt = InterruptDescriptorTable::new();
    let mut v: usize = 0;
    while v < 32
        invariant
            0 <= v <= 32,
            forall|j: int| 0 <= j < v ==> #[trigger] built_gate(idt.gate(j), j, handlers@[j], cs.0),
            forall|j: int|
                v <= j < 256 ==> (#[trigger] idt.gate(j)).options_spec() == OPTION_INTERRUPT_GATE
                    && idt.gate(j).handler_spec() == 0 && idt.gate(j).selector_spec() == 0
                    && idt.gate(j).raw_spec() == missing_words(),
        decreases 32 - v,
    {
        let ghost before = idt;
        assert(before.gate(v as int).options_spec() == OPTION_INTERRUPT_GATE);
        assert(0u64 >> 32u64 == 0) by (bit_vector);
        assert((v as u8) as int == v);
        if crate::handlers::handler_for(v as u8).is_some() {
            idt.exceptions[v].set_entry(handlers[v], cs, None);
            if v as u8 == DOUBLE_FAULT_VECTOR {
                idt.exceptions[v].set_ist_index(DOUBLE_FAULT_IST_INDEX);
            }
        }
        proof {
            assert(OPTION_INTERRUPT_GATE | OPTION_PRESENT == 0x8E00u16) by (bit_vector);
            assert((0x8E00u16 & !7u16) | 1u16 == 0x8E01u16) by (bit_vector);
            assert(0x8E00u16 | 1u16 == 0x8E01u16) by (bit_vector);
            assert forall|j: int| 0 <= j < 256 && j != v implies #[trigger] idt.gate(j) == before.gate(
                j,
            ) by {
                if j < 32 {
                    assert(idt.exceptions@[j] == before.exceptions@[j]);
                }
            }
            assert(idt.gate(v as int) == idt.exceptions@[v as int]);
            idt.gate(v as int).lemma_gate_words();
            assert(built_gate(idt.gate(v as int), v as int, handlers@[v as int], cs.0));
        }
        v = v + 1;
    }
    let mut i: usize = 0;
    while i < 224
        invariant
            0 <= i <= 224,
            forall|j: int|
                0 <= j < 32 + i ==> #[trigger] built_gate(idt.gate(j), j, handlers@[j], cs.0),
            forall|j: int|
                32 + i <= j < 256 ==> (#[trigger] idt.gate(j)).options_spec()
                    == OPTION_INTERRUPT_GATE && idt.gate(j).handler_spec() == 0
                    && idt.gate(j).selector_spec() == 0
                    && idt.gate(j).raw_spec() == missing_words(),
        decreases 224 - i,
    {
        let ghost before = idt;
        assert(before.gate(i + 32).options_spec() == OPTION_INTERRUPT_GATE);
        assert(0u64 >> 32u64 == 0) by (bit_vector);
        assert(((i + 32) as u8) as int == i + 32);
        if crate::handlers::handler_for((i + 32) as u8).is_some() {
            idt.interrupts[i].set_entry(handlers[i + 32], cs, None);
        }
        proof {
            assert forall|j: int| 0 <= j < 256 && j != i + 32 implies #[trigger] idt.gate(j)
                == before.gate(j) by {
                if j >= 32 {
                    assert(idt.interrupts@[j - 32] == before.interrupts@[j - 32]);
                }
            }
            assert(idt.gate(i + 32) == idt.interrupts@[i as int]);
            idt.gate(i + 32).lemma_gate_words();
            assert(built_gate(idt.gate(i + 32), i + 32, handlers@[i + 32], cs.0));
        }
        i = i + 1;
    }
    proof {
        assert(built_gate(idt.gate(8), 8, handlers@[8], cs.0));
        assert(((0x0E00u16 | 0x8000u16) | 1u16) & 0x8000u16 != 0 && ((0x0E00u16 | 0x8000u16) | 1u16)
            & 7 == 1) by (bit_vector);
    }
    idt
}

} // verus!
