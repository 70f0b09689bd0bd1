//! The 256-entry interrupt descriptor table. Every slot starts as the null
//! descriptor; setup binds the 32 architectural exception vectors to their
//! entry trampolines through ring-0 interrupt gates.
use vstd::prelude::*;
use x86::segmentation::{
    BuildDescriptor, Descriptor, DescriptorBuilder, GateDescriptorBuilder, SegmentSelector,
    TaskGateDescriptorBuilder,
};
use crate::descriptor::{
    desc_dpl, desc_present, desc_s, desc_type, gate_descriptor, gate_offset, gate_selector,
    lemma_gate_descriptor_decodes, lemma_null_descriptor_decodes, NULL_DESCRIPTOR,
};
use crate::segment::{kernel_code_selector, Ring};

verus! {

/// Entries in the IDT: one per vector.
pub const IDT_ENTRY_COUNT: usize = 256;

/// The IDT's size in bytes minus one, as the descriptor-table register takes it.
pub const IDT_LIMIT: u16 = 256 * 8 - 1;

/// Vectors reserved for architectural exceptions: 0 to 31.
pub const EXCEPTION_VECTOR_COUNT: usize = 32;

/// Gate type: task gate.
pub const GATE_TASK: u64 = 0x5;
/// Gate type: 32-bit interrupt gate.
pub const GATE_INTERRUPT32: u64 = 0xE;
/// Gate type: 32-bit trap gate.
pub const GATE_TRAP32: u64 = 0xF;

/// The selector of ring-0 code, to which every exception gate leads.
pub open spec fn kernel_code_sel() -> u16 {
    0x08
}

/// An IDT in which no vector is bound.
pub open spec fn null_idt() -> Seq<u64> {
    Seq::new(IDT_ENTRY_COUNT as nat, |i: int| NULL_DESCRIPTOR)
}

/// The descriptor of exception vector `v` once `_setup_idt` has run: an
/// interrupt gate of privilege level 0 into ring-0 code at trampoline `v`.
pub open spec fn exception_gate(trampolines: Seq<u32>, v: int) -> u64 {
    gate_descriptor(kernel_code_sel(), trampolines[v], GATE_INTERRUPT32, 0)
}

/// Relies on x86's `DescriptorBuilder::interrupt_descriptor` (32-bit) with
/// `present`, `dpl`, `finish` and `as_u64`: the interrupt gate these
/// settings encode.
#[verifier::external_body]
fn interrupt_gate(selector: u16, handler: u32, dpl: Ring) -> (r: u64)
    ensures
        r == gate_descriptor(selector, handler, GATE_INTERRUPT32, dpl.level()),
{
    let ring = match dpl {
        Ring::Ring0 => x86::Ring::Ring0,
        Ring::Ring1 => x86::Ring::Ring1,
        Ring::Ring2 => x86::Ring::Ring2,
        Ring::Ring3 => x86::Ring::Ring3,
    };
    let d: Descriptor = <DescriptorBuilder as GateDescriptorBuilder<u32>>::interrupt_descriptor(
        SegmentSelector::from_raw(selector), handler,
    ).present().dpl(ring).finish();
    d.as_u64()
}

/// Relies on x86's `DescriptorBuilder::trap_gate_descriptor` (32-bit) with
/// `present`, `dpl`, `finish` and `as_u64`: the trap gate these settings
/// encode.
#[verifier::external_body]
fn trap_gate(selector: u16, handler: u32, dpl: Ring) -> (r: u64)
    ensures
        r == gate_descriptor(selector, handler, GATE_TRAP32, dpl.level()),
{
    let ring = match dpl {
        Ring::Ring0 => x86::Ring::Ring0,
        Ring::Ring1 => x86::Ring::Ring1,
        Ring::Ring2 => x86::Ring::Ring2,
        Ring::Ring3 => x86::Ring::Ring3,
    };
    let d: Descriptor = <DescriptorBuilder as GateDescriptorBuilder<u32>>::trap_gate_descriptor(
        SegmentSelector::from_raw(selector), handler,
    ).present().dpl(ring).finish();
    d.as_u64()
}

/// Relies on x86's `DescriptorBuilder::task_gate_descriptor` with `present`,
/// `dpl`, `finish` and `as_u64`: the task gate these settings encode, whose
/// offset is 0.
#[verifier::external_body]
fn task_gate(tss_selector: u16, dpl: Ring) -> (r: u64)
    ensures
        r == gate_descriptor(tss_selector, 0, GATE_TASK, dpl.level()),
{
    let ring = match dpl {
        Ring::Ring0 => x86::Ring::Ring0,
        Ring::Ring1 => x86::Ring::Ring1,
        Ring::Ring2 => x86::Ring::Ring2,
        Ring::Ring3 => x86::Ring::Ring3,
    };
    let d: Descriptor = <DescriptorBuilder as TaskGateDescriptorBuilder>::task_gate_descriptor(
        SegmentSelector::from_raw(tss_selector),
    ).present().dpl(ring).finish();
    d.as_u64()
}

/// Binds `vector` to an interrupt gate into `handler` through `selector`,
/// invocable by software from privilege level `dpl`.
pub fn _set_interrupt_handler(
    idt: &mut Vec<u64>,
    vector: u8,
    selector: u16,
    handler: u32,
    dpl: Ring,
)
    requires
        old(idt).len() == IDT_ENTRY_COUNT,
    ensures
        final(idt)@ == old(idt)@.update(
            vector as int,
            gate_descriptor(selector, handler, GATE_INTERRUPT32, dpl.level()),
        ),
{
    let desc = interrupt_gate(selector, handler, dpl);
    idt[vector as usize] = desc;
}

/// Binds `vector` to a trap gate into `handler` through `selector`,
/// invocable by software from privilege level `dpl`.
pub fn _set_trap_handler(idt: &mut Vec<u64>, vector: u8, selector: u16, handler: u32, dpl: Ring)
    requires
        old(idt).len() == IDT_ENTRY_COUNT,
    ensures
        final(idt)@ == old(idt)@.update(
            vector as int,
            gate_descriptor(selector, handler, GATE_TRAP32, dpl.level()),
        ),
{
    let desc = trap_gate(selector, handler, dpl);
    idt[vector as usize] = desc;
}

/// Binds `vector` to a task gate for the task-state segment `tss_selector`.
pub fn _set_task_gate(idt: &mut Vec<u64>, vector: u8, tss_selector: u16, dpl: Ring)
    requires
        old(idt).len() == IDT_ENTRY_COUNT,
    ensures
        final(idt)@ == old(idt)@.update(
            vector as int,
            gate_descriptor(tss_selector, 0, GATE_TASK, dpl.level()),
        ),
{
    let desc = task_gate(tss_selector, dpl);
    idt[vector as usize] = desc;
}

/// Makes `idt` a table of 256 null descriptors.
pub fn _init_idt(idt: &mut Vec<u64>)
    ensures
        final(idt)@ == null_idt(),
{
    idt.clear();
    let mut i: usize = 0;
    while i < IDT_ENTRY_COUNT
        invariant
            i <= IDT_ENTRY_COUNT,
            idt@ == Seq::new(i as nat, |j: int| NULL_DESCRIPTOR),
        decreases IDT_ENTRY_COUNT - i,
    {
        idt.push(NULL_DESCRIPTOR);
        i = i + 1;
        assert(idt@ =~= Seq::new(i as nat, |j: int| NULL_DESCRIPTOR));
    }
    assert(idt@ =~= null_idt());
}

/// Binds each exception vector `v` (0 to 31) to a ring-0 interrupt gate into
/// ring-0 code at `trampolines[v]`; the other vectors are left as they are.
pub fn _setup_idt(idt: &mut Vec<u64>, trampolines: &Vec<u32>)
    requires
        old(idt).len() == IDT_ENTRY_COUNT,
        trampolines.len() == EXCEPTION_VECTOR_COUNT,
    ensures
        final(idt).len() == IDT_ENTRY_COUNT,
        forall|v: int|
            0 <= v < EXCEPTION_VECTOR_COUNT ==> #[trigger] final(idt)@[v] == exception_gate(
                trampolines@,
                v,
            ),
        forall|v: int|
            EXCEPTION_VECTOR_COUNT <= v < IDT_ENTRY_COUNT ==> #[trigger] final(idt)@[v]
                == old(idt)@[v],
{
    let selector = kernel_code_selector();
    let mut v: usize = 0;
    while v < EXCEPTION_VECTOR_COUNT
        invariant
            v <= EXCEPTION_VECTOR_COUNT,
            selector == kernel_code_sel(),
            trampolines.len() == EXCEPTION_VECTOR_COUNT,
            idt.len() == IDT_ENTRY_COUNT,
            forall|u: int| 0 <= u < v ==> #[trigger] idt@[u] == exception_gate(trampolines@, u),
            forall|u: int| v <= u < IDT_ENTRY_COUNT ==> #[trigger] idt@[u] == old(idt)@[u],
        decreases EXCEPTION_VECTOR_COUNT - v,
    {
        _set_interrupt_handler(idt, v as u8, selector, trampolines[v], Ring::Ring0);
        v = v + 1;
    }
}

/// No vector of a freshly initialised IDT is present.
pub proof fn lemma_null_idt_absent(v: int)
    requires
        0 <= v < IDT_ENTRY_COUNT,
    ensures
        !desc_present(null_idt()[v]),
{
    lemma_null_descriptor_decodes();
}

/// After setup, each exception vector decodes as a present 32-bit interrupt
/// gate of privilege level 0, leading into ring-0 code at its trampoline.
pub proof fn lemma_exception_gate_decodes(trampolines: Seq<u32>, v: int)
    requires
        0 <= v < trampolines.len(),
    ensures
        desc_present(exception_gate(trampolines, v)),
        desc_s(exception_gate(trampolines, v)) == 0,
        desc_type(exception_gate(trampolines, v)) == GATE_INTERRUPT32,
        desc_dpl(exception_gate(trampolines, v)) == 0,
        gate_selector(exception_gate(trampolines, v)) == kernel_code_sel(),
        gate_offset(exception_gate(trampolines, v)) == trampolines[v],
{
    lemma_gate_descriptor_decodes(kernel_code_sel(), trampolines[v], GATE_INTERRUPT32, 0);
}

/// The table's life: every vector of a freshly initialised IDT is absent;
/// once `_setup_idt` has run on it, each exception vector decodes as a
/// present 32-bit interrupt gate of privilege level 0 into ring-0 code at
/// its trampoline, and every other vector is still absent.
pub proof fn lemma_idt_lifecycle(after: Seq<u64>, trampolines: Seq<u32>)
    requires
        trampolines.len() == EXCEPTION_VECTOR_COUNT,
        after.len() == IDT_ENTRY_COUNT,
        forall|v: int|
            0 <= v < EXCEPTION_VECTOR_COUNT ==> #[trigger] after[v] == exception_gate(
                trampolines,
                v,
            ),
        forall|v: int|
            EXCEPTION_VECTOR_COUNT <= v < IDT_ENTRY_COUNT ==> #[trigger] after[v] == null_idt()[v],
    ensures
        forall|v: int| 0 <= v < IDT_ENTRY_COUNT ==> !desc_present(#[trigger] null_idt()[v]),
        forall|v: int|
            0 <= v < EXCEPTION_VECTOR_COUNT ==> {
                &&& desc_present(#[trigger] after[v])
                &&& desc_type(after[v]) == GATE_INTERRUPT32
                &&& desc_dpl(after[v]) == 0
                &&& gate_selector(after[v]) == kernel_code_sel()
                &&& gate_offset(after[v]) == trampolines[v]
            },
        forall|v: int| EXCEPTION_VECTOR_COUNT <= v < IDT_ENTRY_COUNT ==> !desc_present(#[trigger] after[v]),
{
    lemma_null_descriptor_decodes();
    assert forall|v: int| 0 <= v < EXCEPTION_VECTOR_COUNT implies {
        &&& desc_present(#[trigger] after[v])
        &&& desc_type(after[v]) == GATE_INTERRUPT32
        &&& desc_dpl(after[v]) == 0
        &&& gate_selector(after[v]) == kernel_code_sel()
        &&& gate_offset(after[v]) == trampolines[v]
    } by {
        lemma_exception_gate_decodes(trampolines, v);
    }
}

} // verus!
