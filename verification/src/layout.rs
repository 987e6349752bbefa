//! Address-space layout constants, derived once from the paging scheme's page
//! size and virtual-address width, plus the status-register flag bits that the
//! context-switch collaborator uses when it builds a trap frame.

use vstd::prelude::*;

verus! {

/// Size in bytes of a page at the smallest translation granularity.
pub const PAGE_SIZE_4K: u64 = 0x1000;

/// Total size of the user-visible virtual address space.
pub const TASK_SIZE: u64 = 0x40_0000_0000;

/// Size reserved for the main user stack.
pub const STACK_SIZE: u64 = 32 * PAGE_SIZE_4K;

/// Top of the user stack: the very top of the user address space.
pub const STACK_TOP: u64 = TASK_SIZE;

/// Preferred load base for a dynamically loaded interpreter: two thirds of
/// the way through the address space, out of the way of the program it loads
/// and leaving room for heap growth below.
pub const ELF_ET_DYN_BASE: u64 = (TASK_SIZE / 3) * 2;

/// Where the kernel starts searching for a free chunk of virtual memory when
/// it services a mapping request: one third of the address space, aligned
/// down to a page boundary.
pub const TASK_UNMAPPED_BASE: u64 = (TASK_SIZE / 3 / PAGE_SIZE_4K) * PAGE_SIZE_4K;

/// Status register: interrupt-enable bit of the previous privilege level.
pub const SR_SPIE: u64 = 0x0000_0020;

/// Status register: the previous privilege level was supervisor.
pub const SR_SPP: u64 = 0x0000_0100;

/// Status register: floating-point unit in its initial state.
pub const SR_FS_INITIAL: u64 = 0x0000_2000;

/// Status register: execution width is 64 bits in user mode.
pub const SR_UXL_64: u64 = 0x2_0000_0000;

/// Status register: supervisor access to user memory is permitted. When this
/// bit is clear, supervisor code can reach user pages only through the
/// fault-tolerant probe path.
pub const SR_SUM: u64 = 0x0004_0000;

/// Exception cause: page fault on an instruction fetch.
pub const EXC_INST_PAGE_FAULT: u64 = 12;

/// Exception cause: page fault on a load.
pub const EXC_LOAD_PAGE_FAULT: u64 = 13;

/// Exception cause: page fault on a store.
pub const EXC_STORE_PAGE_FAULT: u64 = 15;

} // verus!
