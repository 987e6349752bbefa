//! Address-space switching and translation-cache invalidation.
//!
//! The switch operation is the safety-critical piece: installing a new
//! page-table root must flush the translation cache, or the core would keep
//! observing the previous space's translations. Switching to the root that is
//! already active changes nothing and in particular flushes nothing — the
//! meaningful fast path of every same-space reschedule.

use vstd::prelude::*;

use crate::layout::PAGE_SIZE_4K;
use crate::machine::{cached, walk, Machine, MachineView, Mapping, TlbEntry};

verus! {

/// Physical address of the top-level page table of an address space.
/// Always page-aligned; constructed by the page-table builder, an external
/// collaborator.
#[derive(Clone, Copy, PartialEq, Eq, Structural, Debug)]
pub struct PhysAddr(pub u64);

/// A virtual address of the user-visible address space.
#[derive(Clone, Copy, PartialEq, Eq, Structural, Debug)]
pub struct VirtAddr(pub u64);

/// The virtual page a byte address belongs to.
pub open spec fn page_of(addr: u64) -> u64 {
    (addr / PAGE_SIZE_4K) as u64
}

/// Effect of installing `root` as the active page-table root: nothing at all
/// when `root` is already active; otherwise the new root is installed and the
/// whole translation cache is invalidated.
pub open spec fn spec_write_root(m: MachineView, root: PhysAddr) -> MachineView {
    if m.root == root.0 {
        m
    } else {
        MachineView { root: root.0, tlb: Seq::empty(), ..m }
    }
}

/// Effect of a translation-cache invalidation: for a given address, exactly
/// the entries covering its page leave the cache; with no address, the whole
/// cache is emptied.
pub open spec fn spec_flush_tlb(m: MachineView, vaddr: Option<VirtAddr>) -> MachineView {
    match vaddr {
        None => MachineView { tlb: Seq::empty(), ..m },
        Some(va) => MachineView { tlb: tlb_without(m.tlb, page_of(va.0)), ..m },
    }
}

/// The cache contents with every entry for `vpage` removed, order of the
/// remaining entries kept.
pub open spec fn tlb_without(tlb: Seq<TlbEntry>, vpage: u64) -> Seq<TlbEntry>
    decreases tlb.len(),
{
    if tlb.len() == 0 {
        Seq::empty()
    } else if tlb.last().vpage == vpage {
        tlb_without(tlb.drop_last(), vpage)
    } else {
        tlb_without(tlb.drop_last(), vpage).push(tlb.last())
    }
}

/// Every entry that survives an invalidation by address was cached before,
/// and no survivor covers the invalidated page.
proof fn lemma_tlb_without_sub(tlb: Seq<TlbEntry>, vpage: u64, e: TlbEntry)
    requires
        tlb_without(tlb, vpage).contains(e),
    ensures
        tlb.contains(e),
        e.vpage != vpage,
    decreases tlb.len(),
{
    if tlb.len() > 0 {
        if tlb.last().vpage == vpage {
            lemma_tlb_without_sub(tlb.drop_last(), vpage, e);
            let k = choose|k: int| 0 <= k < tlb.drop_last().len() && tlb.drop_last()[k] == e;
            assert(tlb[k] == e);
        } else {
            let w = tlb_without(tlb.drop_last(), vpage).push(tlb.last());
            let j = choose|j: int| 0 <= j < w.len() && w[j] == e;
            if j == w.len() - 1 {
                assert(e == tlb.last());
                assert(tlb[tlb.len() - 1] == e);
            } else {
                assert(tlb_without(tlb.drop_last(), vpage)[j] == e);
                assert(tlb_without(tlb.drop_last(), vpage).contains(e));
                lemma_tlb_without_sub(tlb.drop_last(), vpage, e);
                let k = choose|k: int| 0 <= k < tlb.drop_last().len() && tlb.drop_last()[k] == e;
                assert(tlb[k] == e);
            }
        }
    }
}

/// A cached translation comes from the cache and covers the page it was
/// looked up for.
pub proof fn lemma_cached_in(tlb: Seq<TlbEntry>, vpage: u64)
    ensures
        cached(tlb, vpage) matches Some(e) ==> tlb.contains(e) && e.vpage == vpage,
    decreases tlb.len(),
{
    if tlb.len() > 0 && tlb.last().vpage != vpage {
        lemma_cached_in(tlb.drop_last(), vpage);
        if cached(tlb.drop_last(), vpage) is Some {
            let e = cached(tlb.drop_last(), vpage)->Some_0;
            assert(tlb.drop_last().contains(e));
            let k = choose|k: int|
                0 <= k < tlb.drop_last().len() && tlb.drop_last()[k] == e;
            assert(tlb[k] == e);
        }
    }
}

/// A walk that finds an entry finds one of the space and page it was asked
/// about.
pub proof fn lemma_walk_found(ms: Seq<Mapping>, root: u64, vpage: u64)
    ensures
        walk(ms, root, vpage) matches Some(m) ==> m.root == root && m.vpage == vpage,
    decreases ms.len(),
{
    if ms.len() > 0 && !(ms.last().root == root && ms.last().vpage == vpage) {
        lemma_walk_found(ms.drop_last(), root, vpage);
    }
}

/// Appending one page-table entry changes the walk only for the appended
/// entry's own space and page.
pub proof fn lemma_walk_push(ms: Seq<Mapping>, m: Mapping, root: u64, vpage: u64)
    ensures
        walk(ms.push(m), root, vpage) == (if m.root == root && m.vpage == vpage {
            Some(m)
        } else {
            walk(ms, root, vpage)
        }),
{
    assert(ms.push(m).drop_last() =~= ms);
    assert(ms.push(m).last() == m);
}

/// The switch decision in isolation: installing `new_root` owes a
/// translation-cache flush exactly when it differs from the active root.
/// The unverified hardware bindings drive the real registers by this rule.
pub fn switch_needs_flush(active: PhysAddr, new_root: PhysAddr) -> (r: bool)
    ensures
        r == (active.0 != new_root.0),
{
    active.0 != new_root.0
}

impl Machine {
    /// Decodes the physical address of the active page-table root from the
    /// core's root register.
    pub fn read_page_table_root(&self) -> (r: PhysAddr)
        ensures
            r.0 == self@.root,
    {
        PhysAddr(self.root)
    }

    /// Installs `root_paddr` as the active page-table root. If it is already
    /// the active root, nothing happens: switching to the same space never
    /// requires a flush. Otherwise the new root is installed and the whole
    /// translation cache is invalidated, so that no access after this call
    /// can observe a translation of the previous space. The caller must hand
    /// in the root of a fully constructed table; page alignment is part of
    /// that obligation.
    pub fn write_page_table_root(&mut self, root_paddr: PhysAddr)
        requires
            old(self)@.wf(),
            root_paddr.0 % PAGE_SIZE_4K == 0,
        ensures
            final(self)@.wf(),
            final(self)@ == spec_write_root(old(self)@, root_paddr),
    {
        let old_root = self.read_page_table_root();
        if old_root.0 != root_paddr.0 {
            self.root = root_paddr.0;
            self.tlb = Vec::new();
            proof {
                assert(self@ =~= spec_write_root(old(self)@, root_paddr));
            }
        }
    }

    /// Alias of [`Machine::write_page_table_root`], kept for callers that
    /// reach the switch under this name.
    pub fn write_page_table_root0(&mut self, root_paddr: PhysAddr)
        requires
            old(self)@.wf(),
            root_paddr.0 % PAGE_SIZE_4K == 0,
        ensures
            final(self)@.wf(),
            final(self)@ == spec_write_root(old(self)@, root_paddr),
    {
        self.write_page_table_root(root_paddr)
    }

    /// Invalidates cached translations on this core: those covering `vaddr`'s
    /// page if an address is given, the whole cache otherwise.
    pub fn flush_tlb(&mut self, vaddr: Option<VirtAddr>)
        requires
            old(self)@.wf(),
        ensures
            final(self)@.wf(),
            final(self)@ == spec_flush_tlb(old(self)@, vaddr),
    {
        match vaddr {
            None => {
                self.tlb = Vec::new();
                proof {
                    assert(self@ =~= spec_flush_tlb(old(self)@, vaddr));
                }
            },
            Some(va) => {
                let vp = va.0 / PAGE_SIZE_4K;
                let n = self.tlb.len();
                let mut kept: Vec<TlbEntry> = Vec::new();
                let mut i: usize = 0;
                while i < n
                    invariant
                        i <= n,
                        n == self.tlb.len(),
                        vp == page_of(va.0),
                        kept@ == tlb_without(self.tlb@.take(i as int), vp),
                    decreases n - i,
                {
                    let e = self.tlb[i];
                    proof {
                        assert(self.tlb@.take(i + 1).drop_last() =~= self.tlb@.take(i as int));
                        assert(self.tlb@.take(i + 1).last() == e);
                    }
                    if e.vpage != vp {
                        kept.push(e);
                    }
                    i = i + 1;
                }
                proof {
                    assert(self.tlb@.take(n as int) =~= self.tlb@);
                }
                self.tlb = kept;
                proof {
                    assert forall|j: int|
                        0 <= j < self@.tlb.len() implies self@.coherent_entry(
                        #[trigger] self@.tlb[j],
                    ) by {
                        let e = self@.tlb[j];
                        assert(tlb_without(old(self)@.tlb, vp).contains(e));
                        lemma_tlb_without_sub(old(self)@.tlb, vp, e);
                        let k = choose|k: int|
                            0 <= k < old(self)@.tlb.len() && old(self)@.tlb[k] == e;
                        assert(old(self)@.coherent_entry(old(self)@.tlb[k]));
                    }
                    assert(self@ =~= spec_flush_tlb(old(self)@, vaddr));
                }
            },
        }
    }

    /// Records one page-table entry of an address space under construction.
    /// Building address spaces is the work of an external collaborator; this
    /// is the model's account of the tables that builder writes, and it
    /// refuses a page the space already maps. It never touches the space that
    /// is being translated through a cached entry, so the cache stays
    /// coherent.
    pub fn install_mapping(&mut self, root: u64, vpage: u64, frame: u64, readable: bool) -> (r:
        bool)
        requires
            old(self)@.wf(),
        ensures
            final(self)@.wf(),
            r == (walk(old(self)@.mappings, root, vpage) is None),
            r ==> final(self)@ == (MachineView {
                mappings: old(self)@.mappings.push(
                    Mapping { root, vpage, frame, readable },
                ),
                ..old(self)@
            }),
            !r ==> final(self)@ == old(self)@,
    {
        let existing = self.lookup_walk(root, vpage);
        if existing.is_some() {
            return false;
        }
        let m = Mapping { root, vpage, frame, readable };
        self.mappings.push(m);
        proof {
            assert forall|j: int|
                0 <= j < self@.tlb.len() implies self@.coherent_entry(
                #[trigger] self@.tlb[j],
            ) by {
                let e = self@.tlb[j];
                assert(old(self)@.coherent_entry(old(self)@.tlb[j]));
                lemma_walk_push(old(self)@.mappings, m, self@.root, e.vpage);
            }
            assert(self@ =~= (MachineView {
                mappings: old(self)@.mappings.push(m),
                ..old(self)@
            }));
        }
        true
    }

    /// Walks the tables rooted at `root` for `vpage`, without consulting the
    /// translation cache.
    pub(crate) fn lookup_walk(&self, root: u64, vpage: u64) -> (r: Option<Mapping>)
        ensures
            r == walk(self@.mappings, root, vpage),
    {
        let ghost ms = self.mappings@;
        let mut i: usize = self.mappings.len();
        proof {
            assert(ms.take(i as int) =~= ms);
        }
        while i > 0
            invariant
                i <= self.mappings.len(),
                ms == self.mappings@,
                walk(ms, root, vpage) == walk(ms.take(i as int), root, vpage),
            decreases i,
        {
            i = i - 1;
            let e = self.mappings[i];
            proof {
                assert(ms.take(i + 1).last() == e);
                assert(ms.take(i + 1).drop_last() =~= ms.take(i as int));
            }
            if e.root == root && e.vpage == vpage {
                return Some(e);
            }
        }
        None
    }

    /// Looks `vpage` up in the translation cache.
    pub(crate) fn lookup_tlb(&self, vpage: u64) -> (r: Option<TlbEntry>)
        ensures
            r == cached(self@.tlb, vpage),
    {
        let ghost ts = self.tlb@;
        let mut i: usize = self.tlb.len();
        proof {
            assert(ts.take(i as int) =~= ts);
        }
        while i > 0
            invariant
                i <= self.tlb.len(),
                ts == self.tlb@,
                cached(ts, vpage) == cached(ts.take(i as int), vpage),
            decreases i,
        {
            i = i - 1;
            let e = self.tlb[i];
            proof {
                assert(ts.take(i + 1).last() == e);
                assert(ts.take(i + 1).drop_last() =~= ts.take(i as int));
            }
            if e.vpage == vpage {
                return Some(e);
            }
        }
        None
    }

    /// The translation the core observes for `vaddr`: the cached one when the
    /// TLB holds its page, else the result of walking the active root's
    /// tables. Coherence makes the two agree, so the result is exactly what
    /// the active space's tables say — the correctness statement of the whole
    /// switch-and-flush protocol.
    pub fn translate(&self, vaddr: u64) -> (r: Option<TlbEntry>)
        requires
            self@.wf(),
        ensures
            r == spec_translate(self@, vaddr),
    {
        let vp = vaddr / PAGE_SIZE_4K;
        match self.lookup_tlb(vp) {
            Some(e) => {
                proof {
                    lemma_cached_in(self@.tlb, vp);
                    let k = choose|k: int|
                        0 <= k < self@.tlb.len() && self@.tlb[k] == e;
                    assert(self@.coherent_entry(self@.tlb[k]));
                }
                Some(e)
            },
            None => match self.lookup_walk(self.root, vp) {
                Some(m) => Some(TlbEntry { vpage: m.vpage, frame: m.frame, readable: m.readable }),
                None => None,
            },
        }
    }
}

/// The translation the active space's tables give for `vaddr`, stated over
/// the architectural walk alone — what [`Machine::translate`] is proved to
/// return whatever the cache holds.
pub open spec fn spec_translate(m: MachineView, vaddr: u64) -> Option<TlbEntry> {
    match walk(m.mappings, m.root, page_of(vaddr)) {
        Some(e) => Some(TlbEntry { vpage: e.vpage, frame: e.frame, readable: e.readable }),
        None => None,
    }
}

/// Switch idempotence: installing a root makes it the active root, and
/// installing the active root again changes nothing — the cache is flushed at
/// most once however often the same root is re-installed.
pub proof fn lemma_switch_idempotent(m: MachineView, root: PhysAddr)
    ensures
        spec_write_root(m, root).root == root.0,
        spec_write_root(spec_write_root(m, root), root) == spec_write_root(m, root),
{
}

/// Switch correctness: after switching from `r1` to a different root `r2`,
/// no translation cached under `r1` survives — the cache is empty — and
/// every translation observed afterwards comes from `r2`'s tables. A page
/// mapped to different frames under the two roots therefore reads `r2`'s
/// frame after the switch.
pub proof fn lemma_switch_installs_new_space(
    m: MachineView,
    r1: PhysAddr,
    r2: PhysAddr,
    vaddr: u64,
)
    requires
        r1.0 != r2.0,
    ensures
        ({
            let m2 = spec_write_root(spec_write_root(m, r1), r2);
            &&& m2.root == r2.0
            &&& m2.tlb == Seq::<TlbEntry>::empty()
            &&& m2.mappings == m.mappings
            &&& spec_translate(m2, vaddr) == (match walk(m.mappings, r2.0, page_of(vaddr)) {
                Some(e) => Some(TlbEntry { vpage: e.vpage, frame: e.frame, readable: e.readable }),
                None => None::<TlbEntry>,
            })
        }),
{
}

} // verus!
