//! Privilege levels and the segment selectors of the flat memory model.
use vstd::prelude::*;

verus! {

/// An x86 privilege level.
#[derive(Clone, Copy, Debug, PartialEq, Eq, Structural)]
pub enum Ring {
    Ring0,
    Ring1,
    Ring2,
    Ring3,
}

impl Ring {
    /// The level as the two-bit number the CPU stores.
    pub open spec fn level(self) -> u64 {
        match self {
            Ring::Ring0 => 0,
            Ring::Ring1 => 1,
            Ring::Ring2 => 2,
            Ring::Ring3 => 3,
        }
    }
}

/// Relies on x86's `SegmentSelector::new` and `bits`: the table index
/// shifted left by three bits, or'ed with the requested privilege level.
#[verifier::external_body]
fn x86_selector(index: u16, rpl: Ring) -> (r: u16)
    ensures
        r == (index as int * 8) % 0x1_0000 + rpl.level(),
{
    let ring = match rpl {
        Ring::Ring0 => x86::Ring::Ring0,
        Ring::Ring1 => x86::Ring::Ring1,
        Ring::Ring2 => x86::Ring::Ring2,
        Ring::Ring3 => x86::Ring::Ring3,
    };
    x86::segmentation::SegmentSelector::new(index, ring).bits()
}

/// The selector of GDT entry `index` requested at privilege level `rpl`;
/// only the low 13 bits of `index` fit in a selector.
pub fn selector(index: u16, rpl: Ring) -> (r: u16)
    ensures
        r == (index as int * 8) % 0x1_0000 + rpl.level(),
        index < 0x2000 ==> r == index * 8 + rpl.level(),
{
    x86_selector(index, rpl)
}

/// The null selector.
pub fn null_selector() -> (r: u16)
    ensures
        r == 0,
{
    selector(0, Ring::Ring0)
}

/// The ring-0 code selector (GDT entry 1).
pub fn kernel_code_selector() -> (r: u16)
    ensures
        r == 0x08,
{
    selector(1, Ring::Ring0)
}

/// The ring-0 data selector (GDT entry 2).
pub fn kernel_data_selector() -> (r: u16)
    ensures
        r == 0x10,
{
    selector(2, Ring::Ring0)
}

/// The ring-3 code selector (GDT entry 3).
pub fn user_code_selector() -> (r: u16)
    ensures
        r == 0x1B,
{
    selector(3, Ring::Ring3)
}

/// The ring-3 data selector (GDT entry 4).
pub fn user_data_selector() -> (r: u16)
    ensures
        r == 0x23,
{
    selector(4, Ring::Ring3)
}

} // verus!
