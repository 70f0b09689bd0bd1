//! The global descriptor table of the flat memory model: null, ring-0 code,
//! ring-0 data, ring-3 code and ring-3 data, each with base 0 and a limit
//! covering the whole 4 GiB address space.
use vstd::prelude::*;
use x86::segmentation::{
    BuildDescriptor, CodeSegmentType, DataSegmentType, Descriptor, DescriptorBuilder,
    SegmentDescriptorBuilder,
};
use crate::descriptor::{
    desc_base, desc_db, desc_granularity, desc_limit, desc_present, desc_s, desc_span, desc_dpl,
    desc_type, lemma_null_descriptor_decodes, lemma_segment_descriptor_decodes, segment_descriptor,
    NULL_DESCRIPTOR,
};
use crate::segment::Ring;

verus! {

/// Data segment type: read-only.
pub const SEG_DATA_RD: u64 = 0x00;
/// Data segment type: read-only, accessed.
pub const SEG_DATA_RDA: u64 = 0x01;
/// Data segment type: read/write.
pub const SEG_DATA_RDWR: u64 = 0x02;
/// Data segment type: read/write, accessed.
pub const SEG_DATA_RDWRA: u64 = 0x03;
/// Data segment type: read-only, expand-down.
pub const SEG_DATA_RDEXPD: u64 = 0x04;
/// Data segment type: read-only, expand-down, accessed.
pub const SEG_DATA_RDEXPDA: u64 = 0x05;
/// Data segment type: read/write, expand-down.
pub const SEG_DATA_RDWREXPD: u64 = 0x06;
/// Data segment type: read/write, expand-down, accessed.
pub const SEG_DATA_RDWREXPDA: u64 = 0x07;
/// Code segment type: execute-only.
pub const SEG_CODE_EX: u64 = 0x08;
/// Code segment type: execute-only, accessed.
pub const SEG_CODE_EXA: u64 = 0x09;
/// Code segment type: execute/read.
pub const SEG_CODE_EXRD: u64 = 0x0A;
/// Code segment type: execute/read, accessed.
pub const SEG_CODE_EXRDA: u64 = 0x0B;
/// Code segment type: execute-only, conforming.
pub const SEG_CODE_EXC: u64 = 0x0C;
/// Code segment type: execute-only, conforming, accessed.
pub const SEG_CODE_EXCA: u64 = 0x0D;
/// Code segment type: execute/read, conforming.
pub const SEG_CODE_EXRDC: u64 = 0x0E;
/// Code segment type: execute/read, conforming, accessed.
pub const SEG_CODE_EXRDCA: u64 = 0x0F;

/// Entries in the GDT.
pub const GDT_ENTRY_COUNT: usize = 5;

/// The GDT's size in bytes minus one, as the descriptor-table register takes it.
pub const GDT_LIMIT: u16 = 5 * 8 - 1;

/// The largest 20-bit limit: with 4 KiB granularity, the whole address space.
pub const FLAT_LIMIT: u32 = 0xFFFFF;

/// A flat execute/read code segment for privilege level `ring`.
pub open spec fn flat_code(ring: Ring) -> u64 {
    segment_descriptor(0, FLAT_LIMIT, SEG_CODE_EXRD, ring.level())
}

/// A flat read/write data segment for privilege level `ring`.
pub open spec fn flat_data(ring: Ring) -> u64 {
    segment_descriptor(0, FLAT_LIMIT, SEG_DATA_RDWR, ring.level())
}

/// The GDT contents: null, ring-0 code, ring-0 data, ring-3 code, ring-3 data.
pub open spec fn gdt_layout() -> Seq<u64> {
    seq![
        NULL_DESCRIPTOR,
        flat_code(Ring::Ring0),
        flat_data(Ring::Ring0),
        flat_code(Ring::Ring3),
        flat_data(Ring::Ring3),
    ]
}

/// Relies on x86's `DescriptorBuilder::code_descriptor` (execute/read) with
/// `present`, `dpl`, `db`, `limit_granularity_4kb`, `finish` and `as_u64`:
/// the 32-bit code descriptor these settings encode.
#[verifier::external_body]
fn code_descriptor(base: u32, limit: u32, dpl: Ring) -> (r: u64)
    ensures
        r == segment_descriptor(base, limit, SEG_CODE_EXRD, dpl.level()),
{
    let ring = match dpl {
        Ring::Ring0 => x86::Ring::Ring0,
        Ring::Ring1 => x86::Ring::Ring1,
        Ring::Ring2 => x86::Ring::Ring2,
        Ring::Ring3 => x86::Ring::Ring3,
    };
    let d: Descriptor = <DescriptorBuilder as SegmentDescriptorBuilder<u32>>::code_descriptor(
        base, limit, CodeSegmentType::ExecuteRead,
    ).present().dpl(ring).db().limit_granularity_4kb().finish();
    d.as_u64()
}

/// Relies on x86's `DescriptorBuilder::data_descriptor` (read/write) with
/// `present`, `dpl`, `db`, `limit_granularity_4kb`, `finish` and `as_u64`:
/// the 32-bit data descriptor these settings encode.
#[verifier::external_body]
fn data_descriptor(base: u32, limit: u32, dpl: Ring) -> (r: u64)
    ensures
        r == segment_descriptor(base, limit, SEG_DATA_RDWR, dpl.level()),
{
    let ring = match dpl {
        Ring::Ring0 => x86::Ring::Ring0,
        Ring::Ring1 => x86::Ring::Ring1,
        Ring::Ring2 => x86::Ring::Ring2,
        Ring::Ring3 => x86::Ring::Ring3,
    };
    let d: Descriptor = <DescriptorBuilder as SegmentDescriptorBuilder<u32>>::data_descriptor(
        base, limit, DataSegmentType::ReadWrite,
    ).present().dpl(ring).db().limit_granularity_4kb().finish();
    d.as_u64()
}

/// Fills `gdt` with the five descriptors of the flat model.
pub fn _init_gdt(gdt: &mut Vec<u64>)
    requires
        old(gdt).len() == GDT_ENTRY_COUNT,
    ensures
        final(gdt)@ == gdt_layout(),
{
    gdt[0] = NULL_DESCRIPTOR;
    gdt[1] = code_descriptor(0, FLAT_LIMIT, Ring::Ring0);
    gdt[2] = data_descriptor(0, FLAT_LIMIT, Ring::Ring0);
    gdt[3] = code_descriptor(0, FLAT_LIMIT, Ring::Ring3);
    gdt[4] = data_descriptor(0, FLAT_LIMIT, Ring::Ring3);
    assert(gdt@ =~= gdt_layout());
}

/// Segmentation is flat: every non-null GDT entry is a present, 32-bit
/// segment with base 0 whose limit, in 4 KiB units, spans the full 4 GiB;
/// entries 1 and 2 are ring 0, entries 3 and 4 ring 3; entries 1 and 3 are
/// execute/read code and entries 2 and 4 read/write data.
pub proof fn lemma_gdt_flat(i: int)
    requires
        1 <= i < 5,
    ensures
        desc_base(gdt_layout()[i]) == 0,
        desc_limit(gdt_layout()[i]) == FLAT_LIMIT,
        desc_granularity(gdt_layout()[i]) == 1,
        desc_span(gdt_layout()[i]) == 0xFFFF_FFFF,
        desc_present(gdt_layout()[i]),
        desc_s(gdt_layout()[i]) == 1,
        desc_db(gdt_layout()[i]) == 1,
        desc_dpl(gdt_layout()[i]) == (if i <= 2 { 0u64 } else { 3u64 }),
        desc_type(gdt_layout()[i]) == (if i % 2 == 1 { SEG_CODE_EXRD } else { SEG_DATA_RDWR }),
{
    let ring = if i <= 2 { Ring::Ring0 } else { Ring::Ring3 };
    let typ = if i % 2 == 1 { SEG_CODE_EXRD } else { SEG_DATA_RDWR };
    lemma_segment_descriptor_decodes(0, FLAT_LIMIT, typ, ring.level());
    assert(gdt_layout()[i] == segment_descriptor(0, FLAT_LIMIT, typ, ring.level()));
}

/// The null entry is not present; its base is 0 and so is its limit, so
/// it is the one entry that does not span the address space.
pub proof fn lemma_gdt_null_absent()
    ensures
        !desc_present(gdt_layout()[0]),
        desc_base(gdt_layout()[0]) == 0,
        desc_limit(gdt_layout()[0]) == 0,
{
    lemma_null_descriptor_decodes();
}

} // verus!
