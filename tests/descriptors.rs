use cureos::descriptor::{
    descriptor_base, descriptor_dpl, descriptor_gate_offset, descriptor_gate_selector,
    descriptor_is_segment, descriptor_limit, descriptor_present, descriptor_span, descriptor_type,
    NULL_DESCRIPTOR,
};
use cureos::gdt::{_init_gdt, GDT_ENTRY_COUNT, GDT_LIMIT, SEG_CODE_EXRD, SEG_DATA_RDWR};
use cureos::idt::{
    _init_idt, _set_interrupt_handler, _set_task_gate, _set_trap_handler, _setup_idt,
    IDT_ENTRY_COUNT, IDT_LIMIT,
};
use cureos::segment::{
    kernel_code_selector, kernel_data_selector, null_selector, selector, user_code_selector,
    user_data_selector, Ring,
};

fn gdt() -> Vec<u64> {
    let mut gdt = vec![0xFFFF_FFFF_FFFF_FFFFu64; GDT_ENTRY_COUNT];
    _init_gdt(&mut gdt);
    gdt
}

fn trampolines() -> Vec<u32> {
    (0..32u32).map(|v| 0xC010_0000 + 16 * v).collect()
}

#[test]
fn selectors_of_the_flat_model() {
    assert_eq!(null_selector(), 0);
    assert_eq!(kernel_code_selector(), 0x08);
    assert_eq!(kernel_data_selector(), 0x10);
    assert_eq!(user_code_selector(), 0x1B);
    assert_eq!(user_data_selector(), 0x23);
    assert_eq!(selector(5, Ring::Ring2), 0x2A);
    assert_eq!(selector(0x2001, Ring::Ring3), 0x0B);
}

#[test]
fn gdt_entries_have_their_architectural_values() {
    assert_eq!(gdt(), vec![
        0,
        0x00CF_9A00_0000_FFFF,
        0x00CF_9200_0000_FFFF,
        0x00CF_FA00_0000_FFFF,
        0x00CF_F200_0000_FFFF,
    ]);
    assert_eq!(GDT_LIMIT, 39);
}

#[test]
fn gdt_is_flat() {
    let gdt = gdt();
    assert!(!descriptor_present(gdt[0]));
    for i in 1..5 {
        let d = gdt[i];
        assert_eq!(descriptor_base(d), 0);
        assert_eq!(descriptor_limit(d), 0xFFFFF);
        assert_eq!(descriptor_span(d), 0xFFFF_FFFF);
        assert!(descriptor_present(d));
        assert!(descriptor_is_segment(d));
        assert_eq!(descriptor_dpl(d), if i <= 2 { 0 } else { 3 });
        let typ = if i % 2 == 1 { SEG_CODE_EXRD } else { SEG_DATA_RDWR };
        assert_eq!(descriptor_type(d) as u64, typ);
    }
}

#[test]
fn descriptor_fields_decode() {
    let d = 0x12CF_9A34_5678_ABCDu64;
    assert_eq!(descriptor_base(d), 0x1234_5678);
    assert_eq!(descriptor_limit(d), 0xFABCD);
    assert_eq!(descriptor_span(0x0000_9A00_0000_0FFF), 0xFFF);
    assert_eq!(descriptor_gate_offset(0x1234_8E00_0008_5678), 0x1234_5678);
    assert_eq!(descriptor_gate_selector(0x1234_8E00_0008_5678), 0x08);
}

#[test]
fn fresh_idt_is_absent() {
    let mut idt = vec![1u64, 2, 3];
    _init_idt(&mut idt);
    assert_eq!(idt.len(), IDT_ENTRY_COUNT);
    assert!(idt.iter().all(|&d| d == NULL_DESCRIPTOR && !descriptor_present(d)));
    assert_eq!(IDT_LIMIT, 2047);
}

#[test]
fn setup_binds_exception_vectors() {
    let mut idt = Vec::new();
    _init_idt(&mut idt);
    let t = trampolines();
    _setup_idt(&mut idt, &t);
    for v in 0..32 {
        let d = idt[v];
        assert!(descriptor_present(d));
        assert!(!descriptor_is_segment(d));
        assert_eq!(descriptor_type(d), 0xE);
        assert_eq!(descriptor_dpl(d), 0);
        assert_eq!(descriptor_gate_selector(d), 0x08);
        assert_eq!(descriptor_gate_offset(d), t[v]);
    }
    assert!(idt[32..].iter().all(|&d| !descriptor_present(d)));
}

#[test]
fn gate_kinds() {
    let mut idt = Vec::new();
    _init_idt(&mut idt);
    _set_interrupt_handler(&mut idt, 0x21, 0x08, 0x1234_5678, Ring::Ring0);
    assert_eq!(idt[0x21], 0x1234_8E00_0008_5678);
    _set_trap_handler(&mut idt, 0x80, 0x08, 0x1234_5678, Ring::Ring3);
    assert_eq!(idt[0x80], 0x1234_EF00_0008_5678);
    _set_task_gate(&mut idt, 8, 0x28, Ring::Ring0);
    assert_eq!(idt[8], 0x0000_8500_0028_0000);
    assert_eq!(descriptor_type(idt[8]), 0x5);
    assert_eq!(idt.iter().filter(|&&d| d != 0).count(), 3);
}
