//! The task state segment: the stacks that the CPU switches to on a
//! privilege change or through the interrupt stack table.
use vstd::prelude::*;

verus! {

/// Size in bytes of the hardware task state segment.
pub const TSS_SIZE: u16 = 104;

/// The slot of the interrupt stack table that holds the stack reserved for
/// the double-fault handler.
pub const DOUBLE_FAULT_IST_INDEX: u16 = 0;

/// Size in bytes of the stack reserved for the double-fault handler.
pub const DOUBLE_FAULT_STACK_SIZE: u64 = 0x5000;

/// The 64-bit task state segment.
#[derive(Debug, Clone, Copy)]
pub struct TaskStateSegment {
    /// Stack pointers loaded on a change to privilege levels 0, 1 and 2.
    pub privilege_stack_table: [u64; 3],
    /// Stack pointers that an interrupt gate may select.
    pub interrupt_stack_table: [u64; 7],
    /// Offset of the I/O permission bitmap from the start of the segment.
    pub iomap_base: u16,
}

impl TaskStateSegment {
    /// A segment with no stacks set and an empty I/O permission bitmap
    /// (the bitmap offset equals the segment size).
    pub fn new() -> (r: Self)
        ensures
            forall|i: int| 0 <= i < 3 ==> r.privilege_stack_table@[i] == 0,
            forall|i: int| 0 <= i < 7 ==> r.interrupt_stack_table@[i] == 0,
            r.iomap_base == TSS_SIZE,
    {
        TaskStateSegment {
            privilege_stack_table: [0; 3],
            interrupt_stack_table: [0; 7],
            iomap_base: TSS_SIZE,
        }
    }

    /// The segment of the kernel: a fresh segment whose double-fault slot of
    /// the interrupt stack table points at the top of the stack that starts
    /// at `stack_start` (stacks grow down).
    pub fn with_double_fault_stack(stack_start: u64) -> (r: Self)
        requires
            stack_start + DOUBLE_FAULT_STACK_SIZE <= u64::MAX,
        ensures
            r.interrupt_stack_table@[DOUBLE_FAULT_IST_INDEX as int] == stack_start
                + DOUBLE_FAULT_STACK_SIZE,
            forall|i: int|
                0 <= i < 7 && i != DOUBLE_FAULT_IST_INDEX ==> r.interrupt_stack_table@[i] == 0,
            forall|i: int| 0 <= i < 3 ==> r.privilege_stack_table@[i] == 0,
            r.iomap_base == TSS_SIZE,
    {
        let mut tss = TaskStateSegment::new();
        tss.interrupt_stack_table[DOUBLE_FAULT_IST_INDEX as usize] = stack_start
            + DOUBLE_FAULT_STACK_SIZE;
        tss
    }
}

impl Default for TaskStateSegment {
    fn default() -> (r: Self)
        ensures
            forall|i: int| 0 <= i < 3 ==> r.privilege_stack_table@[i] == 0,
            forall|i: int| 0 <= i < 7 ==> r.interrupt_stack_table@[i] == 0,
            r.iomap_base == TSS_SIZE,
    {
        Self::new()
    }
}

} // verus!
