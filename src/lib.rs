//! Protected-mode bootstrap and trap infrastructure of a small x86 kernel:
//! boot-information relocation, the initial page tables, the flat segment
//! descriptor table, the interrupt descriptor table and the exception
//! dispatch path.
//!
//! Every table is modelled as an owned buffer of plain integers, so that the
//! layouts the CPU reads can be stated and proved; loading them into the
//! processor is left to the caller.

pub mod common;
pub mod page;
pub mod segment;
pub mod descriptor;
pub mod gdt;
pub mod idt;
pub mod hhk;
pub mod multiboot;
pub mod interrupt;
pub mod cpu;
pub mod tty;
