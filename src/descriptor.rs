//! The 8-byte descriptor format shared by the GDT and the IDT, held as a
//! `u64` whose low half is the descriptor's first doubleword.
use vstd::prelude::*;

verus! {

/// The null descriptor.
pub const NULL_DESCRIPTOR: u64 = 0;

/// A code or data segment descriptor with base `base`, 20-bit limit `limit`,
/// type `typ`, privilege level `dpl`, and the S, P, D/B and G flags set.
pub open spec fn segment_descriptor(base: u32, limit: u32, typ: u64, dpl: u64) -> u64 {
    let b = base as u64;
    let l = limit as u64;
    let lower: u64 = ((b & 0xFFFF) << 16) | (l & 0xFFFF);
    let upper: u64 = ((b >> 16) & 0xFF) | ((typ & 0xF) << 8) | 0x1000 | ((dpl & 0x3) << 13)
        | 0x8000 | (((l >> 16) & 0xF) << 16) | 0x40_0000 | 0x80_0000 | (b & 0xFF00_0000);
    (upper << 32) | lower
}

/// A present gate descriptor for code selector `selector` and entry point
/// `offset`, with gate type `typ` and privilege level `dpl`.
pub open spec fn gate_descriptor(selector: u16, offset: u32, typ: u64, dpl: u64) -> u64 {
    let o = offset as u64;
    let lower: u64 = ((selector as u64) << 16) | (o & 0xFFFF);
    let upper: u64 = (o & 0xFFFF_0000) | ((typ & 0xF) << 8) | ((dpl & 0x3) << 13) | 0x8000;
    (upper << 32) | lower
}

/// The segment base a descriptor holds (bits 16..39 and 56..63).
pub open spec fn desc_base(d: u64) -> u64 {
    ((d >> 16) & 0xFF_FFFF) | (((d >> 56) & 0xFF) << 24)
}

/// The 20-bit segment limit a descriptor holds (bits 0..15 and 48..51).
pub open spec fn desc_limit(d: u64) -> u64 {
    (d & 0xFFFF) | (((d >> 48) & 0xF) << 16)
}

/// The type field (bits 40..43).
pub open spec fn desc_type(d: u64) -> u64 {
    (d >> 40) & 0xF
}

/// The S flag (bit 44): 1 for code and data segments, 0 for system
/// descriptors and gates.
pub open spec fn desc_s(d: u64) -> u64 {
    (d >> 44) & 1
}

/// The descriptor privilege level (bits 45..46).
pub open spec fn desc_dpl(d: u64) -> u64 {
    (d >> 45) & 3
}

/// The present flag (bit 47).
pub open spec fn desc_present(d: u64) -> bool {
    (d >> 47) & 1 == 1
}

/// The D/B flag (bit 54): 1 for 32-bit segments.
pub open spec fn desc_db(d: u64) -> u64 {
    (d >> 54) & 1
}

/// The granularity flag (bit 55): 1 when the limit counts 4 KiB units.
pub open spec fn desc_granularity(d: u64) -> u64 {
    (d >> 55) & 1
}

/// The last byte offset a segment covers, with granularity applied.
pub open spec fn desc_span(d: u64) -> int {
    if desc_granularity(d) == 1 {
        desc_limit(d) * 4096 + 4095
    } else {
        desc_limit(d) as int
    }
}

/// The entry-point offset of a gate (bits 0..15 and 48..63).
pub open spec fn gate_offset(d: u64) -> u64 {
    (d & 0xFFFF) | (((d >> 48) & 0xFFFF) << 16)
}

/// The code selector of a gate (bits 16..31).
pub open spec fn gate_selector(d: u64) -> u64 {
    (d >> 16) & 0xFFFF
}

/// A segment descriptor decodes to the base, limit, type and privilege
/// level it was built from, and is present, 32-bit and page-granular.
pub proof fn lemma_segment_descriptor_decodes(base: u32, limit: u32, typ: u64, dpl: u64)
    requires
        typ < 16,
        dpl < 4,
    ensures
        desc_base(segment_descriptor(base, limit, typ, dpl)) == base,
        desc_limit(segment_descriptor(base, limit, typ, dpl)) == limit % 0x10_0000,
        desc_type(segment_descriptor(base, limit, typ, dpl)) == typ,
        desc_s(segment_descriptor(base, limit, typ, dpl)) == 1,
        desc_dpl(segment_descriptor(base, limit, typ, dpl)) == dpl,
        desc_present(segment_descriptor(base, limit, typ, dpl)),
        desc_db(segment_descriptor(base, limit, typ, dpl)) == 1,
        desc_granularity(segment_descriptor(base, limit, typ, dpl)) == 1,
{
    assert(desc_base(segment_descriptor(base, limit, typ, dpl)) == base
        && desc_limit(segment_descriptor(base, limit, typ, dpl)) == limit % 0x10_0000
        && desc_type(segment_descriptor(base, limit, typ, dpl)) == typ
        && desc_s(segment_descriptor(base, limit, typ, dpl)) == 1
        && desc_dpl(segment_descriptor(base, limit, typ, dpl)) == dpl
        && desc_present(segment_descriptor(base, limit, typ, dpl))
        && desc_db(segment_descriptor(base, limit, typ, dpl)) == 1
        && desc_granularity(segment_descriptor(base, limit, typ, dpl)) == 1) by (bit_vector)
        requires
            typ < 16,
            dpl < 4,
    ;
}

/// A gate descriptor decodes to the selector, entry point, type and
/// privilege level it was built from, is present and is a system
/// descriptor.
pub proof fn lemma_gate_descriptor_decodes(selector: u16, offset: u32, typ: u64, dpl: u64)
    requires
        typ < 16,
        dpl < 4,
    ensures
        gate_selector(gate_descriptor(selector, offset, typ, dpl)) == selector,
        gate_offset(gate_descriptor(selector, offset, typ, dpl)) == offset,
        desc_type(gate_descriptor(selector, offset, typ, dpl)) == typ,
        desc_s(gate_descriptor(selector, offset, typ, dpl)) == 0,
        desc_dpl(gate_descriptor(selector, offset, typ, dpl)) == dpl,
        desc_present(gate_descriptor(selector, offset, typ, dpl)),
{
    assert(gate_selector(gate_descriptor(selector, offset, typ, dpl)) == selector
        && gate_offset(gate_descriptor(selector, offset, typ, dpl)) == offset
        && desc_type(gate_descriptor(selector, offset, typ, dpl)) == typ
        && desc_s(gate_descriptor(selector, offset, typ, dpl)) == 0
        && desc_dpl(gate_descriptor(selector, offset, typ, dpl)) == dpl
        && desc_present(gate_descriptor(selector, offset, typ, dpl))) by (bit_vector)
        requires
            typ < 16,
            dpl < 4,
    ;
}

/// The null descriptor is not present, and its base and limit are 0.
pub proof fn lemma_null_descriptor_decodes()
    ensures
        !desc_present(NULL_DESCRIPTOR),
        desc_base(NULL_DESCRIPTOR) == 0,
        desc_limit(NULL_DESCRIPTOR) == 0,
{
    let d: u64 = 0;
    assert(!desc_present(d) && desc_base(d) == 0 && desc_limit(d) == 0) by (bit_vector)
        requires
            d == 0,
    ;
}

/// The segment base held in `d`.
pub fn descriptor_base(d: u64) -> (r: u32)
    ensures
        r == desc_base(d),
{
    proof {
        assert(desc_base(d) <= 0xFFFF_FFFF) by (bit_vector);
    }
    (((d >> 16) & 0xFF_FFFF) | (((d >> 56) & 0xFF) << 24)) as u32
}

/// The 20-bit segment limit held in `d`.
pub fn descriptor_limit(d: u64) -> (r: u32)
    ensures
        r == desc_limit(d),
        r < 0x10_0000,
{
    proof {
        assert(desc_limit(d) < 0x10_0000) by (bit_vector);
    }
    ((d & 0xFFFF) | (((d >> 48) & 0xF) << 16)) as u32
}

/// The last byte offset the segment in `d` covers, granularity applied.
pub fn descriptor_span(d: u64) -> (r: u64)
    ensures
        r == desc_span(d),
{
    let limit = descriptor_limit(d) as u64;
    if (d >> 55) & 1 == 1 {
        limit * 4096 + 4095
    } else {
        limit
    }
}

/// The type field of `d`.
pub fn descriptor_type(d: u64) -> (r: u8)
    ensures
        r == desc_type(d),
{
    proof {
        assert(desc_type(d) < 16) by (bit_vector);
    }
    ((d >> 40) & 0xF) as u8
}

/// Whether `d` describes a code or data segment (S flag set).
pub fn descriptor_is_segment(d: u64) -> (r: bool)
    ensures
        r == (desc_s(d) == 1),
{
    (d >> 44) & 1 == 1
}

/// The descriptor privilege level of `d`.
pub fn descriptor_dpl(d: u64) -> (r: u8)
    ensures
        r == desc_dpl(d),
        r < 4,
{
    proof {
        assert(desc_dpl(d) < 4) by (bit_vector);
    }
    ((d >> 45) & 3) as u8
}

/// Whether `d` is present.
pub fn descriptor_present(d: u64) -> (r: bool)
    ensures
        r == desc_present(d),
{
    (d >> 47) & 1 == 1
}

/// The entry-point offset of gate `d`.
pub fn descriptor_gate_offset(d: u64) -> (r: u32)
    ensures
        r == gate_offset(d),
{
    proof {
        assert(gate_offset(d) <= 0xFFFF_FFFF) by (bit_vector);
    }
    ((d & 0xFFFF) | (((d >> 48) & 0xFFFF) << 16)) as u32
}

/// The code selector of gate `d`.
pub fn descriptor_gate_selector(d: u64) -> (r: u16)
    ensures
        r == gate_selector(d),
{
    proof {
        assert(gate_selector(d) <= 0xFFFF) by (bit_vector);
    }
    ((d >> 16) & 0xFFFF) as u16
}

} // verus!
