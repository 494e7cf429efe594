//! Which vectors have handlers, how each is called and what it does, and the
//! decoding of the page-fault error code.
use vstd::prelude::*;

verus! {

/// Vector of the double fault.
pub const DOUBLE_FAULT_VECTOR: u8 = 8;
/// Vector of the breakpoint exception.
pub const BREAKPOINT_VECTOR: u8 = 3;
/// Vector of the page fault.
pub const PAGE_FAULT_VECTOR: u8 = 14;
/// Vector of the timer interrupt.
pub const TIMER_VECTOR: u8 = 32;
/// Vector of the keyboard interrupt.
pub const KEYBOARD_VECTOR: u8 = 33;

/// What a handler does after it runs.
#[derive(Debug, Clone, Copy, PartialEq, Eq, Structural)]
pub enum DiagnosticPolicy {
    /// Prints the trap frame and halts.
    Fatal,
    /// Prints the trap frame and resumes at the saved instruction pointer.
    Recoverable,
    /// Prints the faulting address, the decoded error code and the trap frame, and halts.
    Decoded,
    /// Serves a device and acknowledges the interrupt.
    Device,
}

/// How the handler of a vector is called and what it does.
#[derive(Debug, Clone, Copy, PartialEq, Eq, Structural)]
pub struct HandlerDescription {
    /// The CPU pushes an error code after the trap frame.
    pub error_code: bool,
    /// What the handler does.
    pub policy: DiagnosticPolicy,
    /// The handler runs on the stack reserved in the interrupt stack table.
    pub dedicated_stack: bool,
}

/// `v` is a vector that has a handler.
pub open spec fn has_handler(v: int) -> bool {
    (0 <= v <= 8) || (10 <= v <= 14) || (16 <= v <= 21) || (28 <= v <= 30) || v == TIMER_VECTOR
        || v == KEYBOARD_VECTOR
}

/// The CPU pushes an error code for exception vector `v`.
pub open spec fn pushes_error_code(v: int) -> bool {
    v == 8 || (10 <= v <= 14) || v == 17 || v == 21 || v == 29 || v == 30
}

/// What the handler of vector `v` does.
pub open spec fn policy_of(v: int) -> DiagnosticPolicy {
    if v == BREAKPOINT_VECTOR {
        DiagnosticPolicy::Recoverable
    } else if v == PAGE_FAULT_VECTOR {
        DiagnosticPolicy::Decoded
    } else if v == TIMER_VECTOR || v == KEYBOARD_VECTOR {
        DiagnosticPolicy::Device
    } else {
        DiagnosticPolicy::Fatal
    }
}

/// The handler of `vector`, or `None` when the vector has none.
pub fn handler_for(vector: u8) -> (r: Option<HandlerDescription>)
    ensures
        r.is_some() == has_handler(vector as int),
        r.is_some() ==> r.unwrap().error_code == pushes_error_code(vector as int),
        r.is_some() ==> r.unwrap().policy == policy_of(vector as int),
        r.is_some() ==> r.unwrap().dedicated_stack == (vector == DOUBLE_FAULT_VECTOR),
{
    let handled = vector <= 8 || (10 <= vector && vector <= 14) || (16 <= vector && vector <= 21)
        || (28 <= vector && vector <= 30) || vector == TIMER_VECTOR || vector == KEYBOARD_VECTOR;
    if !handled {
        return None;
    }
    let error_code = vector == 8 || (10 <= vector && vector <= 14) || vector == 17 || vector == 21
        || vector == 29 || vector == 30;
    let policy = if vector == BREAKPOINT_VECTOR {
        DiagnosticPolicy::Recoverable
    } else if vector == PAGE_FAULT_VECTOR {
        DiagnosticPolicy::Decoded
    } else if vector == TIMER_VECTOR || vector == KEYBOARD_VECTOR {
        DiagnosticPolicy::Device
    } else {
        DiagnosticPolicy::Fatal
    };
    Some(HandlerDescription { error_code, policy, dedicated_stack: vector == DOUBLE_FAULT_VECTOR })
}

/// The causes that a page-fault error code reports, bit by bit.
#[derive(Debug, Clone, Copy, PartialEq, Eq, Structural)]
pub struct PageFaultCauses {
    /// Bit 0: a protection violation (clear: the page was not present).
    pub protection_violation: bool,
    /// Bit 1: the access was a write (clear: a read).
    pub caused_by_write: bool,
    /// Bit 2: the access came from user mode (clear: supervisor mode).
    pub user_mode: bool,
    /// Bit 3: a reserved bit was set in a table entry.
    pub malformed_table: bool,
    /// Bit 4: the access was an instruction fetch.
    pub instruction_fetch: bool,
    /// Bit 5: a protection-key violation.
    pub protection_key: bool,
    /// Bit 6: a shadow-stack access.
    pub shadow_stack: bool,
}

impl PageFaultCauses {
    /// The causes reported by the error code `errcode`.
    pub fn from_error_code(errcode: u64) -> (r: Self)
        ensures
            r.protection_violation == (errcode & 0x1 != 0),
            r.caused_by_write == (errcode & 0x2 != 0),
            r.user_mode == (errcode & 0x4 != 0),
            r.malformed_table == (errcode & 0x8 != 0),
            r.instruction_fetch == (errcode & 0x10 != 0),
            r.protection_key == (errcode & 0x20 != 0),
            r.shadow_stack == (errcode & 0x40 != 0),
    {
        PageFaultCauses {
            protection_violation: errcode & 0x1 != 0,
            caused_by_write: errcode & 0x2 != 0,
            user_mode: errcode & 0x4 != 0,
            malformed_table: errcode & 0x8 != 0,
            instruction_fetch: errcode & 0x10 != 0,
            protection_key: errcode & 0x20 != 0,
            shadow_stack: errcode & 0x40 != 0,
        }
    }
}

} // verus!
