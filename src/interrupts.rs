//! The flags register and the trap frame that the CPU saves on an interrupt.
use crate::selectors::SegmentSelector;
use vstd::prelude::*;

verus! {

/// The RFLAGS register.
#[derive(Clone, Copy, PartialEq, Eq, Structural, Hash, Debug)]
pub struct RFlags {
    bits: u64,
}

impl View for RFlags {
    type V = u64;

    closed spec fn view(&self) -> u64 {
        self.bits
    }
}

impl RFlags {
    /// The CPUID instruction is available.
    pub const ID: u64 = 0x20_0000;
    /// A virtual interrupt is pending.
    pub const VIRTUAL_INTERRUPT_PENDING: u64 = 0x10_0000;
    /// Virtual image of the interrupt flag.
    pub const VIRTUAL_INTERRUPT: u64 = 0x8_0000;
    /// Alignment checking in ring 3.
    pub const ALIGNMENT_CHECK: u64 = 0x4_0000;
    /// Virtual-8086 mode.
    pub const VIRTUAL_8086_MODE: u64 = 0x2_0000;
    /// Resume after an instruction breakpoint.
    pub const RESUME_FLAG: u64 = 0x1_0000;
    /// The current task is nested.
    pub const NESTED_TASK: u64 = 0x4000;
    /// High bit of the I/O privilege level.
    pub const IOPL_HIGH: u64 = 0x2000;
    /// Low bit of the I/O privilege level.
    pub const IOPL_LOW: u64 = 0x1000;
    /// Signed overflow of the last operation.
    pub const OVERFLOW_FLAG: u64 = 0x800;
    /// Strings are processed downwards.
    pub const DIRECTION_FLAG: u64 = 0x400;
    /// Maskable interrupts are enabled.
    pub const INTERRUPT_FLAG: u64 = 0x200;
    /// Single-step mode.
    pub const TRAP_FLAG: u64 = 0x100;
    /// The last result was negative.
    pub const SIGN_FLAG: u64 = 0x80;
    /// The last result was zero.
    pub const ZERO_FLAG: u64 = 0x40;
    /// Carry out of bit 3 of the last result.
    pub const AUXILIARY_CARRY_FLAG: u64 = 0x10;
    /// The last result has an even number of set bits.
    pub const PARITY_FLAG: u64 = 0x4;
    /// Carry out of the most significant bit of the last result.
    pub const CARRY_FLAG: u64 = 0x1;
    /// Every defined flag.
    pub const ALL: u64 = 0x3f_7fd5;

    /// The flags of `bits`, dropping bits that name no flag.
    pub fn from_bits_truncate(bits: u64) -> (r: Self)
        ensures
            r@ == bits & Self::ALL,
    {
        RFlags { bits: bits & Self::ALL }
    }

    /// The raw bits.
    pub fn bits(&self) -> (r: u64)
        ensures
            r == self@,
    {
        self.bits
    }

    /// Whether every bit of `mask` is set.
    pub fn contains(&self, mask: u64) -> (r: bool)
        ensures
            r == (self@ & mask == mask),
    {
        self.bits & mask == mask
    }
}

/// The flags held in a raw value of the RFLAGS register.
pub fn read(raw: u64) -> (r: RFlags)
    ensures
        r@ == raw & RFlags::ALL,
{
    RFlags::from_bits_truncate(raw)
}

/// The value to write to the RFLAGS register to set `flags` when it now
/// holds `current`: the bits that name no flag keep their current value.
pub fn merged_value(current: u64, flags: RFlags) -> (r: u64)
    ensures
        r == (current & !RFlags::ALL) | flags@,
{
    (current & !RFlags::ALL) | flags.bits()
}

/// The state that the CPU saves on entry to an interrupt or exception handler.
#[derive(Clone, Copy, Debug)]
pub struct InterruptStackFrameValue {
    /// Where execution resumes when the handler returns.
    pub instruction_pointer: u64,
    /// The code segment at the time of the interrupt.
    pub code_segment: SegmentSelector,
    /// The flags register before the handler ran.
    pub cpu_flags: RFlags,
    /// The stack pointer at the time of the interrupt.
    pub stack_pointer: u64,
    /// The stack segment at the time of the interrupt.
    pub stack_segment: SegmentSelector,
}

impl InterruptStackFrameValue {
    /// A frame with the given values.
    pub fn new(
        instruction_pointer: u64,
        code_segment: SegmentSelector,
        cpu_flags: RFlags,
        stack_pointer: u64,
        stack_segment: SegmentSelector,
    ) -> (r: Self)
        ensures
            r.instruction_pointer == instruction_pointer,
            r.code_segment == code_segment,
            r.cpu_flags == cpu_flags,
            r.stack_pointer == stack_pointer,
            r.stack_segment == stack_segment,
    {
        InterruptStackFrameValue {
            instruction_pointer,
            code_segment,
            cpu_flags,
            stack_pointer,
            stack_segment,
        }
    }
}

/// The trap frame handed to an interrupt handler.
#[derive(Clone, Copy, Debug)]
pub struct InterruptStackFrame(InterruptStackFrameValue);

impl InterruptStackFrame {
    /// The saved values.
    pub closed spec fn frame(self) -> InterruptStackFrameValue {
        self.0
    }

    /// A trap frame with the given values.
    pub fn new(
        instruction_pointer: u64,
        code_segment: SegmentSelector,
        cpu_flags: RFlags,
        stack_pointer: u64,
        stack_segment: SegmentSelector,
    ) -> (r: Self)
        ensures
            r.frame().instruction_pointer == instruction_pointer,
            r.frame().code_segment == code_segment,
            r.frame().cpu_flags == cpu_flags,
            r.frame().stack_pointer == stack_pointer,
            r.frame().stack_segment == stack_segment,
    {
        InterruptStackFrame(
            InterruptStackFrameValue::new(
                instruction_pointer,
                code_segment,
                cpu_flags,
                stack_pointer,
                stack_segment,
            ),
        )
    }

    /// The saved values.
    pub fn value(&self) -> (r: &InterruptStackFrameValue)
        ensures
            *r == self.frame(),
    {
        &self.0
    }
}

} // verus!
