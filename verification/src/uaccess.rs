//! Fault-tolerant access to user memory.
//!
//! The kernel must be able to ask "is this user-supplied address actually
//! readable?" without crashing when it is not. The answer is a bounds check
//! followed by a single byte-sized probe load whose instruction is registered
//! with the external trap dispatcher: a page fault during the probe is
//! redirected to a fixed recovery path that hands back an error code instead
//! of escalating. Probing this way is both simpler and more truthful than
//! re-implementing the hardware's permission logic in software, which would
//! also race against concurrent unmapping.

use vstd::prelude::*;

use crate::layout::{PAGE_SIZE_4K, TASK_SIZE};
use crate::machine::{cached, walk, Machine, MachineView, Mapping, TlbEntry};
use crate::paging::page_of;

verus! {

/// Whether a block of `size` bytes starting at `addr` lies within the user
/// address range: the size fits the space and the start leaves room for it.
/// This rejects out-of-range pointers and any `addr + size` wraparound.
pub open spec fn range_ok(addr: u64, size: u64) -> bool {
    size <= TASK_SIZE && addr <= TASK_SIZE - size
}

/// Checks whether a block of user-space memory is acceptable to access:
/// `size` bytes starting at `addr` lie within the user address range.
/// Necessary but not sufficient — an in-range block can still be unmapped or
/// protected, so the probe must still run.
pub fn access_ok(addr: u64, size: u64) -> (r: bool)
    ensures
        r == range_ok(addr, size),
{
    size <= TASK_SIZE && addr <= TASK_SIZE - size
}

/// Relies on axerrno's `LinuxError::code`: the errno value of `EFAULT`
/// ("bad address") is 14.
#[verifier::external_body]
fn efault_code() -> (r: i32)
    ensures
        r == 14,
{
    axerrno::LinuxError::EFAULT.code()
}

/// The value the fault paths hand back: `EFAULT` in the kernel's
/// negative-errno convention, -14 in two's complement as a `u64` register
/// carries it.
pub open spec fn efault_errval() -> u64 {
    (u64::MAX - 13) as u64
}

/// The `EFAULT` return value in the negative-errno convention.
pub fn linux_err_efault() -> (r: u64)
    ensures
        r == efault_errval(),
{
    let code = efault_code();
    u64::MAX - (code as u64) + 1
}

/// Whether the active address space maps the page of `vaddr` readable — the
/// condition under which the probe load succeeds.
pub open spec fn spec_readable(m: MachineView, vaddr: u64) -> bool {
    walk(m.mappings, m.root, page_of(vaddr)) matches Some(e) && e.readable
}

/// Effect of the probe load on the machine: a successful load through a page
/// the TLB does not yet cache fills the cache with that page's translation,
/// as the hardware does on any access; everything else is unchanged.
pub open spec fn spec_probe(m: MachineView, vaddr: u64) -> MachineView {
    if cached(m.tlb, page_of(vaddr)) is Some {
        m
    } else {
        match walk(m.mappings, m.root, page_of(vaddr)) {
            Some(e) => if e.readable {
                MachineView {
                    tlb: m.tlb.push(TlbEntry { vpage: e.vpage, frame: e.frame, readable: e.readable }),
                    ..m
                }
            } else {
                m
            },
            None => m,
        }
    }
}

/// Outcome of the full probe: the fault value when the bounds check rejects
/// the block, success exactly when the active space maps the address
/// readable, the fault value otherwise.
pub open spec fn spec_fault_in_readable(m: MachineView, addr: u64, size: u64) -> u64 {
    if !range_ok(addr, size) {
        efault_errval()
    } else if spec_readable(m, addr) {
        0
    } else {
        efault_errval()
    }
}

impl Machine {
    /// The single byte-sized load from `ptr` that the fault-recovery table
    /// covers. Returns the loaded value — zeroed on the fault path, and
    /// discarded by every caller — together with an error word: zero when the
    /// load succeeded, the `EFAULT` value when it trapped and the external
    /// dispatcher redirected it to the recovery path.
    pub fn __get_user_asm(&mut self, ptr: u64) -> (r: (u8, u64))
        requires
            old(self)@.wf(),
        ensures
            final(self)@.wf(),
            final(self)@ == spec_probe(old(self)@, ptr),
            r.0 == 0,
            r.1 == (if spec_readable(old(self)@, ptr) {
                0u64
            } else {
                efault_errval()
            }),
    {
        let vp = ptr / PAGE_SIZE_4K;
        match self.lookup_tlb(vp) {
            Some(e) => {
                proof {
                    crate::paging::lemma_cached_in(self@.tlb, vp);
                    let k = choose|k: int| 0 <= k < self@.tlb.len() && self@.tlb[k] == e;
                    assert(self@.coherent_entry(self@.tlb[k]));
                }
                if e.readable {
                    (0, 0)
                } else {
                    (0, linux_err_efault())
                }
            },
            None => {
                match self.lookup_walk(self.root, vp) {
                    Some(m) => {
                        if m.readable {
                            let entry = TlbEntry {
                                vpage: m.vpage,
                                frame: m.frame,
                                readable: m.readable,
                            };
                            self.tlb.push(entry);
                            proof {
                                crate::paging::lemma_walk_found(
                                    old(self)@.mappings,
                                    old(self)@.root,
                                    vp,
                                );
                                assert forall|j: int|
                                    0 <= j < self@.tlb.len() implies self@.coherent_entry(
                                    #[trigger] self@.tlb[j],
                                ) by {
                                    if j < self@.tlb.len() - 1 {
                                        assert(old(self)@.coherent_entry(old(self)@.tlb[j]));
                                        assert(self@.tlb[j] == old(self)@.tlb[j]);
                                    } else {
                                        assert(self@.tlb[j] == entry);
                                        assert(m == (Mapping {
                                            root: self@.root,
                                            vpage: entry.vpage,
                                            frame: entry.frame,
                                            readable: entry.readable,
                                        }));
                                    }
                                }
                                assert(self@ =~= spec_probe(old(self)@, ptr));
                            }
                            (0, 0)
                        } else {
                            (0, linux_err_efault())
                        }
                    },
                    None => (0, linux_err_efault()),
                }
            },
        }
    }

    /// Probes whether `size` bytes of user memory at `addr` are actually
    /// readable, without crashing when they are not. A block that fails the
    /// bounds check is rejected with the `EFAULT` value before any hardware
    /// is touched; otherwise one byte-sized probe load runs under the
    /// fault-recovery table and its error word is passed through. Returns
    /// zero exactly when the block is in range and the active space maps
    /// `addr` readable.
    pub fn fault_in_readable(&mut self, addr: u64, size: u64) -> (r: u64)
        requires
            old(self)@.wf(),
        ensures
            final(self)@.wf(),
            r == spec_fault_in_readable(old(self)@, addr, size),
            !range_ok(addr, size) ==> final(self)@ == old(self)@,
            range_ok(addr, size) ==> final(self)@ == spec_probe(old(self)@, addr),
            (r == 0) <==> (range_ok(addr, size) && spec_readable(old(self)@, addr)),
    {
        if !access_ok(addr, size) {
            return linux_err_efault();
        }
        let probed = self.__get_user_asm(addr);
        if probed.1 != 0 {
            return probed.1;
        }
        0
    }
}

/// The bounds check rejects exactly the blocks whose size exceeds the user
/// address-space size or whose start lies past the last admissible start for
/// that size — and `fault_in_readable`'s contract returns the fault value on
/// every such block with the machine untouched.
pub proof fn lemma_range_check_rejects(addr: u64, size: u64)
    ensures
        !range_ok(addr, size) <==> (size > TASK_SIZE || addr > TASK_SIZE - size),
{
}

/// An accepted block never wraps around: its end stays within the user
/// address space.
pub proof fn lemma_range_ok_no_overflow(addr: u64, size: u64)
    requires
        range_ok(addr, size),
    ensures
        addr + size <= TASK_SIZE,
{
}

/// The probe's outcomes, by case: out-of-range blocks fault; in-range blocks
/// succeed exactly on memory the active space maps readable; and the fault
/// value is never mistaken for success.
pub proof fn lemma_probe_outcomes(m: MachineView, addr: u64, size: u64)
    ensures
        efault_errval() != 0,
        !range_ok(addr, size) ==> spec_fault_in_readable(m, addr, size) == efault_errval(),
        range_ok(addr, size) && spec_readable(m, addr) ==> spec_fault_in_readable(m, addr, size)
            == 0,
        range_ok(addr, size) && !spec_readable(m, addr) ==> spec_fault_in_readable(m, addr, size)
            == efault_errval(),
{
}

/// Bring-up hook of this layer. All real per-core setup — installing the trap
/// vector, building address spaces — is the bring-up sequence's
/// responsibility, so there is nothing to do here.
pub fn early_init() {
}

} // verus!

