use vstd::prelude::*;

verus! {

/// Size of the initial kernel stack.
pub const K_STACK_SIZE: u32 = 0x100000;

/// Lowest address of the initial kernel stack.
pub const K_STACK_START: u32 = (0xFFBFFFFF - K_STACK_SIZE) + 1;

/// Virtual address at which physical address 0 appears in the high half.
pub const HIGHER_HLF_BASE: u32 = 0xC0000000;

/// One mebibyte: the end of identity-mapped low memory and the start of the
/// boot shim.
pub const MEM_1MB: u32 = 0x100000;

/// Virtual address of the VGA text buffer once the kernel runs in the high half.
pub const VGA_BUFFER_VADDR: u32 = 0xB0000000;

/// Physical address of the VGA text buffer.
pub const VGA_BUFFER_PADDR: u32 = 0xB8000;

/// Size of the VGA text buffer in bytes.
pub const VGA_BUFFER_SIZE: u32 = 4096;

} // verus!
