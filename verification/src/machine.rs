//! The core-private privileged state of one processor core, modelled as an
//! explicit value.
//!
//! Every piece of state this layer manipulates — the interrupt mask, the
//! page-table root register, the translation cache, the trap vector, the
//! thread pointer — is private to the core that holds it, so the whole of it
//! is modelled as one [`Machine`] value and each privileged operation as a
//! method with a contract. The memory system the core translates through is
//! part of the model: the page tables that an external builder has
//! constructed, and the translation cache (TLB) the hardware fills as
//! accesses happen.

use vstd::prelude::*;

use crate::layout::PAGE_SIZE_4K;

verus! {

/// One entry of an address space's already constructed page tables: under the
/// table rooted at `root`, virtual page `vpage` translates to physical frame
/// `frame`, and a load from it succeeds iff `readable`.
#[derive(Clone, Copy, PartialEq, Eq, Structural, Debug)]
pub struct Mapping {
    /// Root of the address space this entry belongs to.
    pub root: u64,
    /// Virtual page number.
    pub vpage: u64,
    /// Physical frame number the page translates to.
    pub frame: u64,
    /// Whether a load from the page succeeds.
    pub readable: bool,
}

/// One translation cached by the core's TLB. The paging scheme carries no
/// address-space identifier, so a cached entry names no root: it is only
/// meaningful for the root that was active when it was filled, which is why a
/// root switch must flush the cache.
#[derive(Clone, Copy, PartialEq, Eq, Structural, Debug)]
pub struct TlbEntry {
    /// Virtual page number.
    pub vpage: u64,
    /// Physical frame number the page translates to.
    pub frame: u64,
    /// Whether a load through this translation succeeds.
    pub readable: bool,
}

/// The privileged state of one core, together with the memory system it
/// translates through.
pub struct Machine {
    /// Interrupt-enable bit: whether the core accepts asynchronous interrupts.
    pub sie: bool,
    /// Whether the previous privilege level was user mode.
    pub spp_user: bool,
    /// Whether supervisor access to user memory is permitted.
    pub sum: bool,
    /// Whether the core has entered its terminal idle state.
    pub halted: bool,
    /// Base address all traps vector to.
    pub stvec: u64,
    /// Thread pointer: base of the current thread-local storage block.
    pub tp: u64,
    /// Global pointer, set once by startup code.
    pub gp: u64,
    /// Physical address of the active top-level page table.
    pub root: u64,
    /// Page tables of every constructed address space.
    pub mappings: Vec<Mapping>,
    /// Translations the core currently caches.
    pub tlb: Vec<TlbEntry>,
}

/// The mathematical value of a [`Machine`].
#[verifier::ext_equal]
pub ghost struct MachineView {
    /// Interrupt-enable bit.
    pub sie: bool,
    /// Whether the previous privilege level was user mode.
    pub spp_user: bool,
    /// Whether supervisor access to user memory is permitted.
    pub sum: bool,
    /// Whether the core has entered its terminal idle state.
    pub halted: bool,
    /// Base address all traps vector to.
    pub stvec: u64,
    /// Thread pointer.
    pub tp: u64,
    /// Global pointer.
    pub gp: u64,
    /// Physical address of the active top-level page table.
    pub root: u64,
    /// Page tables of every constructed address space.
    pub mappings: Seq<Mapping>,
    /// Translations the core currently caches.
    pub tlb: Seq<TlbEntry>,
}

impl View for Machine {
    type V = MachineView;

    open spec fn view(&self) -> MachineView {
        MachineView {
            sie: self.sie,
            spp_user: self.spp_user,
            sum: self.sum,
            halted: self.halted,
            stvec: self.stvec,
            tp: self.tp,
            gp: self.gp,
            root: self.root,
            mappings: self.mappings@,
            tlb: self.tlb@,
        }
    }
}

/// The page-table walk the hardware performs, at page granularity: the
/// translation that the tables rooted at `root` give for virtual page
/// `vpage`, or `None` when the page is unmapped in that space.
pub open spec fn walk(mappings: Seq<Mapping>, root: u64, vpage: u64) -> Option<Mapping>
    decreases mappings.len(),
{
    if mappings.len() == 0 {
        None
    } else if mappings.last().root == root && mappings.last().vpage == vpage {
        Some(mappings.last())
    } else {
        walk(mappings.drop_last(), root, vpage)
    }
}

/// The translation the TLB caches for virtual page `vpage`, if any.
pub open spec fn cached(tlb: Seq<TlbEntry>, vpage: u64) -> Option<TlbEntry>
    decreases tlb.len(),
{
    if tlb.len() == 0 {
        None
    } else if tlb.last().vpage == vpage {
        Some(tlb.last())
    } else {
        cached(tlb.drop_last(), vpage)
    }
}

impl MachineView {
    /// A cached translation agrees with what the active root's tables give
    /// for its page.
    pub open spec fn coherent_entry(self, e: TlbEntry) -> bool {
        walk(self.mappings, self.root, e.vpage) == Some(
            Mapping { root: self.root, vpage: e.vpage, frame: e.frame, readable: e.readable },
        )
    }

    /// Coherence of the translation cache: no entry disagrees with the active
    /// root's page tables. This is the central invariant of the layer: a root
    /// switch that skipped the flush would leave entries of the previous
    /// space behind and break it, letting one task observe another's
    /// mappings.
    pub open spec fn tlb_coherent(self) -> bool {
        forall|i: int|
            0 <= i < self.tlb.len() ==> self.coherent_entry(#[trigger] self.tlb[i])
    }

    /// Well-formedness: the active root is page-aligned and the translation
    /// cache is coherent with it.
    pub open spec fn wf(self) -> bool {
        &&& self.root % PAGE_SIZE_4K == 0
        &&& self.tlb_coherent()
    }
}

/// The state a core resets to: interrupts masked, supervisor mode, supervisor
/// access to user memory withheld, no address space active, and an empty
/// translation cache.
pub open spec fn spec_reset() -> MachineView {
    MachineView {
        sie: false,
        spp_user: false,
        sum: false,
        halted: false,
        stvec: 0,
        tp: 0,
        gp: 0,
        root: 0,
        mappings: Seq::empty(),
        tlb: Seq::empty(),
    }
}

/// Allowing interrupts sets the interrupt-enable bit and changes nothing
/// else.
pub open spec fn spec_enable_irqs(m: MachineView) -> MachineView {
    MachineView { sie: true, ..m }
}

/// Masking interrupts clears the interrupt-enable bit and changes nothing
/// else.
pub open spec fn spec_disable_irqs(m: MachineView) -> MachineView {
    MachineView { sie: false, ..m }
}

/// Withdrawing supervisor access to user memory clears that bit and changes
/// nothing else.
pub open spec fn spec_disable_sum(m: MachineView) -> MachineView {
    MachineView { sum: false, ..m }
}

/// Halting masks interrupts and puts the core into its terminal idle state.
pub open spec fn spec_halt(m: MachineView) -> MachineView {
    MachineView { sie: false, halted: true, ..m }
}

/// Installing a trap vector records its base and changes nothing else.
pub open spec fn spec_set_trap_vector(m: MachineView, base: u64) -> MachineView {
    MachineView { stvec: base, ..m }
}

/// Writing the thread pointer records it and changes nothing else.
pub open spec fn spec_write_thread_pointer(m: MachineView, tp: u64) -> MachineView {
    MachineView { tp, ..m }
}

impl Machine {
    /// A core as it stands at reset.
    pub fn new() -> (r: Machine)
        ensures
            r@ == spec_reset(),
            r@.wf(),
    {
        let r = Machine {
            sie: false,
            spp_user: false,
            sum: false,
            halted: false,
            stvec: 0,
            tp: 0,
            gp: 0,
            root: 0,
            mappings: Vec::new(),
            tlb: Vec::new(),
        };
        proof {
            assert(r@ =~= spec_reset());
        }
        r
    }

    /// Whether the previous privilege level was user mode.
    pub fn user_mode(&self) -> (r: bool)
        ensures
            r == self@.spp_user,
    {
        self.spp_user
    }

    /// Withdraws supervisor access to user memory: with the bit clear,
    /// supervisor code can reach user pages only through the fault-tolerant
    /// probe path.
    pub fn disable_sum(&mut self)
        ensures
            final(self)@ == spec_disable_sum(old(self)@),
    {
        self.sum = false;
    }

    /// Whether supervisor access to user memory is currently permitted.
    pub fn sum_access_enabled(&self) -> (r: bool)
        ensures
            r == self@.sum,
    {
        self.sum
    }

    /// Allows the core to respond to interrupts.
    pub fn enable_irqs(&mut self)
        ensures
            final(self)@ == spec_enable_irqs(old(self)@),
    {
        self.sie = true;
    }

    /// Makes the core ignore interrupts.
    pub fn disable_irqs(&mut self)
        ensures
            final(self)@ == spec_disable_irqs(old(self)@),
    {
        self.sie = false;
    }

    /// Whether the core is currently allowed to respond to interrupts.
    pub fn irqs_enabled(&self) -> (r: bool)
        ensures
            r == self@.sie,
    {
        self.sie
    }

    /// Relaxes the core until an interrupt arrives. Interrupts must be
    /// enabled, otherwise no interrupt can end the wait and the core idles
    /// forever: that is a caller obligation, not a runtime check.
    pub fn wait_for_irqs(&self)
        requires
            self@.sie,
    {
    }

    /// Halts the core: masks interrupts and idles. With interrupts masked
    /// nothing ends the idling, so on hardware this never returns; the model
    /// records the terminal state in its `halted` flag.
    pub fn halt(&mut self)
        ensures
            final(self)@ == spec_halt(old(self)@),
    {
        self.sie = false;
        self.halted = true;
    }

    /// Whether the core has entered its terminal idle state.
    pub fn is_halted(&self) -> (r: bool)
        ensures
            r == self@.halted,
    {
        self.halted
    }

    /// Installs `base` as the landing address for every trap. All traps
    /// vector to this one address; the external dispatcher discriminates by
    /// cause. Idempotent.
    pub fn set_trap_vector_base(&mut self, base: u64)
        ensures
            final(self)@ == spec_set_trap_vector(old(self)@, base),
    {
        self.stvec = base;
    }

    /// The trap vector base currently installed.
    pub fn trap_vector_base(&self) -> (r: u64)
        ensures
            r == self@.stvec,
    {
        self.stvec
    }

    /// Reads the thread pointer, the base of the current thread-local
    /// storage block.
    pub fn read_thread_pointer(&self) -> (r: u64)
        ensures
            r == self@.tp,
    {
        self.tp
    }

    /// Writes the thread pointer. Subsequent thread-local accesses resolve
    /// against `tp`; the caller is responsible for `tp` being the base of a
    /// valid storage block.
    pub fn write_thread_pointer(&mut self, tp: u64)
        ensures
            final(self)@ == spec_write_thread_pointer(old(self)@, tp),
    {
        self.tp = tp;
    }

    /// The global pointer, as startup code left it.
    pub fn gp_in_global(&self) -> (r: u64)
        ensures
            r == self@.gp,
    {
        self.gp
    }

    /// Invalidates the core's instruction cache. The instruction cache is not
    /// part of this model, so the model state is unchanged; the real binding
    /// issues the fence.
    pub fn local_flush_icache_all(&self) {
    }

    /// Number of translations the TLB currently caches.
    pub fn tlb_len(&self) -> (r: usize)
        ensures
            r == self@.tlb.len(),
    {
        self.tlb.len()
    }
}

/// Interrupt-control round trip: after masking, the core does not accept
/// interrupts; after then unmasking, it does — and nothing besides the
/// interrupt-enable bit has changed, whatever state the core started in.
pub proof fn lemma_irq_round_trip(m: MachineView)
    ensures
        !spec_disable_irqs(m).sie,
        spec_enable_irqs(spec_disable_irqs(m)).sie,
        spec_enable_irqs(spec_disable_irqs(m)) == (MachineView { sie: true, ..m }),
{
}

} // verus!
