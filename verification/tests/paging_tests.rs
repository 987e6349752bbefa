use axhal::{Machine, PhysAddr, VirtAddr, PAGE_SIZE_4K};

#[test]
fn switch_installs_the_new_root() {
    let mut m = Machine::new();
    let r = PhysAddr(0x8020_0000);
    m.write_page_table_root(r);
    assert_eq!(m.read_page_table_root(), r);
}

#[test]
fn switch_to_the_active_root_flushes_nothing() {
    let mut m = Machine::new();
    let r = PhysAddr(0x8020_0000);
    assert!(m.install_mapping(r.0, 4, 17, true));
    m.write_page_table_root(r);
    // Fill the cache through a successful probe, then re-install the same
    // root: the cached translation must survive.
    assert_eq!(m.fault_in_readable(4 * PAGE_SIZE_4K, 1), 0);
    assert_eq!(m.tlb_len(), 1);
    m.write_page_table_root(r);
    assert_eq!(m.tlb_len(), 1);
    assert_eq!(m.read_page_table_root(), r);
}

#[test]
fn switch_to_a_different_root_flushes_everything() {
    let mut m = Machine::new();
    let r1 = PhysAddr(0x8020_0000);
    let r2 = PhysAddr(0x8040_0000);
    assert!(m.install_mapping(r1.0, 4, 17, true));
    m.write_page_table_root(r1);
    assert_eq!(m.fault_in_readable(4 * PAGE_SIZE_4K, 1), 0);
    assert_eq!(m.tlb_len(), 1);
    m.write_page_table_root(r2);
    assert_eq!(m.tlb_len(), 0);
    assert_eq!(m.read_page_table_root(), r2);
}

#[test]
fn no_stale_translation_after_a_switch() {
    // The same virtual page maps to different frames under the two spaces;
    // after the switch, the core must observe the new space's frame even
    // though the old one's translation had been cached.
    let mut m = Machine::new();
    let r1 = PhysAddr(0x8020_0000);
    let r2 = PhysAddr(0x8040_0000);
    let vpage = 6;
    assert!(m.install_mapping(r1.0, vpage, 111, true));
    assert!(m.install_mapping(r2.0, vpage, 222, true));
    m.write_page_table_root(r1);
    let addr = vpage * PAGE_SIZE_4K;
    assert_eq!(m.fault_in_readable(addr, 1), 0);
    let t1 = m.translate(addr).unwrap();
    assert_eq!(t1.frame, 111);
    m.write_page_table_root(r2);
    let t2 = m.translate(addr).unwrap();
    assert_eq!(t2.frame, 222);
}

#[test]
fn alias_entry_point_switches_too() {
    let mut m = Machine::new();
    let r = PhysAddr(0x8060_0000);
    m.write_page_table_root0(r);
    assert_eq!(m.read_page_table_root(), r);
}

#[test]
fn flush_by_address_only_drops_that_page() {
    let mut m = Machine::new();
    let r = PhysAddr(0x8020_0000);
    assert!(m.install_mapping(r.0, 1, 10, true));
    assert!(m.install_mapping(r.0, 2, 20, true));
    m.write_page_table_root(r);
    assert_eq!(m.fault_in_readable(PAGE_SIZE_4K, 1), 0);
    assert_eq!(m.fault_in_readable(2 * PAGE_SIZE_4K, 1), 0);
    assert_eq!(m.tlb_len(), 2);
    m.flush_tlb(Some(VirtAddr(PAGE_SIZE_4K + 99)));
    assert_eq!(m.tlb_len(), 1);
    assert_eq!(m.translate(2 * PAGE_SIZE_4K).unwrap().frame, 20);
}

#[test]
fn flush_without_address_empties_the_cache() {
    let mut m = Machine::new();
    let r = PhysAddr(0x8020_0000);
    assert!(m.install_mapping(r.0, 1, 10, true));
    m.write_page_table_root(r);
    assert_eq!(m.fault_in_readable(PAGE_SIZE_4K, 1), 0);
    assert_eq!(m.tlb_len(), 1);
    m.flush_tlb(None);
    assert_eq!(m.tlb_len(), 0);
}

#[test]
fn translate_reports_unmapped_pages() {
    let m = Machine::new();
    assert!(m.translate(123456).is_none());
}

#[test]
fn install_mapping_refuses_a_mapped_page() {
    let mut m = Machine::new();
    assert!(m.install_mapping(0x1000, 4, 17, true));
    assert!(!m.install_mapping(0x1000, 4, 99, false));
    assert!(m.install_mapping(0x2000, 4, 99, true));
}
