//! Architecture-level primitives of a kernel's hardware abstraction layer for
//! a 64-bit RISC machine with three-level paging.
//!
//! The library models the core-private privileged state of one processor core
//! — interrupt mask, page-table root register, translation cache, trap vector,
//! thread pointer — as an explicit [`machine::Machine`] value, and verifies the
//! operations the rest of the kernel relies on against it: interrupt masking,
//! address-space switching with its flush-on-change rule, translation-cache
//! invalidation, and the fault-tolerant probe of user memory built on the
//! bounds check [`uaccess::access_ok`].

mod layout;
mod machine;
mod paging;
mod uaccess;

pub use layout::{
    ELF_ET_DYN_BASE, EXC_INST_PAGE_FAULT, EXC_LOAD_PAGE_FAULT, EXC_STORE_PAGE_FAULT, PAGE_SIZE_4K,
    SR_FS_INITIAL, SR_SPIE, SR_SPP, SR_SUM, SR_UXL_64, STACK_SIZE, STACK_TOP, TASK_SIZE,
    TASK_UNMAPPED_BASE,
};
pub use machine::{Machine, MachineView, Mapping, TlbEntry};
pub use paging::{switch_needs_flush, PhysAddr, VirtAddr};
pub use uaccess::{access_ok, early_init, linux_err_efault};
