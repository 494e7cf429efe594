//! The privileged core of a small x86_64 kernel: descriptor tables, the
//! interrupt-vector map, the text console model, and the virtual-memory layer
//! (addresses, page table entries, pages and frames, and address translation).
use vstd::prelude::*;

pub mod addr;
pub mod frame;
pub mod gdt;
pub mod handlers;
pub mod idt;
pub mod interrupts;
pub mod page;
pub mod paging;
pub mod pit;
pub mod selectors;
pub mod translate;
pub mod tss;
pub mod vga;

verus! {

} // verus!
