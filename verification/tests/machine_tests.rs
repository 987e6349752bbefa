use axhal::{
    Machine, ELF_ET_DYN_BASE, PAGE_SIZE_4K, SR_FS_INITIAL, SR_SPIE, SR_SPP, SR_SUM, SR_UXL_64,
    STACK_SIZE, STACK_TOP, TASK_SIZE, TASK_UNMAPPED_BASE,
};

#[test]
fn irq_round_trip() {
    let mut m = Machine::new();
    m.disable_irqs();
    assert!(!m.irqs_enabled());
    m.enable_irqs();
    assert!(m.irqs_enabled());
}

#[test]
fn a_fresh_core_masks_interrupts() {
    let m = Machine::new();
    assert!(!m.irqs_enabled());
    assert!(!m.is_halted());
    assert!(!m.user_mode());
}

#[test]
fn waiting_needs_interrupts_enabled() {
    let mut m = Machine::new();
    m.enable_irqs();
    m.wait_for_irqs();
    assert!(m.irqs_enabled());
}

#[test]
fn halting_masks_interrupts_for_good() {
    let mut m = Machine::new();
    m.enable_irqs();
    m.halt();
    assert!(!m.irqs_enabled());
    assert!(m.is_halted());
}

#[test]
fn supervisor_access_to_user_memory_can_be_withdrawn() {
    let mut m = Machine::new();
    m.disable_sum();
    assert!(!m.sum_access_enabled());
}

#[test]
fn trap_vector_is_recorded() {
    let mut m = Machine::new();
    m.set_trap_vector_base(0x8000_2000);
    assert_eq!(m.trap_vector_base(), 0x8000_2000);
    // Idempotent: installing the same base again changes nothing.
    m.set_trap_vector_base(0x8000_2000);
    assert_eq!(m.trap_vector_base(), 0x8000_2000);
}

#[test]
fn thread_pointer_round_trip() {
    let mut m = Machine::new();
    assert_eq!(m.read_thread_pointer(), 0);
    m.write_thread_pointer(0x3F00_1000);
    assert_eq!(m.read_thread_pointer(), 0x3F00_1000);
}

#[test]
fn global_pointer_is_readable() {
    let m = Machine::new();
    assert_eq!(m.gp_in_global(), 0);
}

#[test]
fn icache_flush_leaves_the_model_alone() {
    let mut m = Machine::new();
    m.write_thread_pointer(7);
    m.local_flush_icache_all();
    assert_eq!(m.read_thread_pointer(), 7);
}

#[test]
fn layout_constants_follow_the_paging_scheme() {
    assert_eq!(PAGE_SIZE_4K, 0x1000);
    assert_eq!(TASK_SIZE, 0x40_0000_0000);
    assert_eq!(STACK_SIZE, 32 * PAGE_SIZE_4K);
    assert_eq!(STACK_TOP, TASK_SIZE);
    assert_eq!(ELF_ET_DYN_BASE, (TASK_SIZE / 3) * 2);
    assert_eq!(TASK_UNMAPPED_BASE, (TASK_SIZE / 3) & !(PAGE_SIZE_4K - 1));
    assert_eq!(TASK_UNMAPPED_BASE % PAGE_SIZE_4K, 0);
}

#[test]
fn status_register_flags_have_their_architectural_values() {
    assert_eq!(SR_SPIE, 1 << 5);
    assert_eq!(SR_SPP, 1 << 8);
    assert_eq!(SR_FS_INITIAL, 1 << 13);
    assert_eq!(SR_UXL_64, 2 << 32);
    assert_eq!(SR_SUM, 1 << 18);
}

#[test]
fn exception_causes_have_their_architectural_values() {
    assert_eq!(axhal::EXC_INST_PAGE_FAULT, 12);
    assert_eq!(axhal::EXC_LOAD_PAGE_FAULT, 13);
    assert_eq!(axhal::EXC_STORE_PAGE_FAULT, 15);
}
