//! Address arithmetic and page-directory / page-table entry encoding for
//! 32-bit x86 paging with 4 KiB pages.
use vstd::prelude::*;
use crate::common::HIGHER_HLF_BASE;

verus! {

/// Entries in one page directory or one page table.
pub const PG_MAX_ENTRIES: u32 = 1024;
/// Index of the last directory entry (the self-referential slot).
pub const PG_LAST_TABLE: u32 = PG_MAX_ENTRIES - 1;
/// Index of the first directory entry.
pub const PG_FIRST_TABLE: u32 = 0;

/// Entry flag: the page or table is present (bit 0).
pub const PG_PRESENT: u32 = 0x1;
/// Entry flag: writable (bit 1).
pub const PG_WRITE: u32 = 0x2;
/// Entry flag: accessible from ring 3 (bit 2).
pub const PG_ALLOW_USER: u32 = 0x4;
/// Entry flag: write-through caching (bit 3).
pub const PG_WRITE_THROUGHT: u32 = 0x8;
/// Entry flag: caching disabled (bit 4).
pub const PG_DISABLE_CACHE: u32 = 0x10;
/// Directory flag: the entry maps a 4 MiB page (bit 7).
pub const PG_PDE_4MB: u32 = 0x80;

/// Present, read-only, supervisor.
pub const PG_PREM_R: u32 = PG_PRESENT;
/// Present and writable, supervisor only.
pub const PG_PREM_RW: u32 = 0x3;
/// Present, read-only, user-accessible.
pub const PG_PREM_UR: u32 = 0x5;
/// Present, writable, user-accessible.
pub const PG_PREM_URW: u32 = 0x7;
/// Flags of the self-referential directory slot: present, writable and
/// uncached.
pub const T_SELF_REF_PERM: u32 = 0x13;

/// Virtual address of the page directory itself, through the self-reference.
pub const PTD_BASE_VADDR: u32 = 0xFFFFF000;
/// Virtual address of the first page table, through the self-reference.
pub const PT_BASE_VADDR: u32 = 0xFFC00000;

/// A page-directory entry.
pub type PtdT = u32;
/// A page-table entry.
pub type PtT = u32;
/// The flag bits of an entry.
pub type PtAttr = u32;

/// `a` rounded down to the start of its 4 KiB page.
pub open spec fn page_floor(a: int) -> int {
    a - a % 4096
}

/// The low 32 bits of `a`: the part a 32-bit address holds.
pub open spec fn low32(a: int) -> int {
    a % 0x1_0000_0000
}

/// The value of an entry made of the page holding `addr` and the low twelve
/// bits of `flags`.
pub open spec fn entry_value(flags: int, addr: int) -> int {
    page_floor(addr) + flags % 4096
}

/// The entry's present flag.
pub open spec fn entry_present(e: int) -> bool {
    e % 2 == 1
}

/// The entry's writable flag.
pub open spec fn entry_writable(e: int) -> bool {
    (e / 2) % 2 == 1
}

/// The entry's user flag.
pub open spec fn entry_user(e: int) -> bool {
    (e / 4) % 2 == 1
}

/// The entry's cache-disable flag.
pub open spec fn entry_uncached(e: int) -> bool {
    (e / 16) % 2 == 1
}

/// The physical frame an entry points to.
pub open spec fn entry_frame(e: int) -> int {
    page_floor(e)
}

proof fn lemma_entry_bits(a: u32, f: u32)
    by (bit_vector)
    ensures
        a & 0xFFFF_F000 == a - a % 4096,
        f & 0xFFF == f % 4096,
        (a & 0xFFFF_F000) | (f & 0xFFF) == (a - a % 4096) + f % 4096,
        (a & 0x40) >> 6 == (a / 64) % 2,
        (a & 0x20) >> 5 == (a / 32) % 2,
        (a & 0x1) == a % 2,
{
}

proof fn lemma_address_bits(x: u64)
    by (bit_vector)
    ensures
        x & 0xFFFF_F000 == (x % 0x1_0000_0000) - (x % 0x1_0000_0000) % 4096,
        x & 0xFFFF_F000 <= 0xFFFF_F000,
        (x & 0xFFC0_0000) >> 22 == (x % 0x1_0000_0000) / 0x40_0000,
        (x & 0x3F_F000) >> 12 == (x / 4096) % 1024,
        x & 0xFFF == x % 4096,
{
}

proof fn lemma_compose_bits(pd: u32, pt: u32, offset: u32)
    by (bit_vector)
    ensures
        pd < 1024 && pt < 1024 && offset < 4096 ==> (pd << 22) | (pt << 12) | offset
            == pd * 0x40_0000 + pt * 4096 + offset,
        pd < 0x10_0000 && offset < 4096 ==> (pd << 12) | offset == pd * 4096 + offset,
        pd < 1024 ==> 0xFFC0_0000 | (pd << 12) == 0xFFC0_0000 + pd * 4096,
{
}

/// An entry built from flags below 4096 and a 32-bit address decodes to the
/// page of that address and to those flags.
pub proof fn lemma_entry_decodes(flags: u32, addr: u32)
    requires
        flags < 4096,
    ensures
        entry_frame(entry_value(flags as int, addr as int)) == page_floor(addr as int),
        entry_present(entry_value(flags as int, addr as int)) == (flags % 2 == 1),
        entry_writable(entry_value(flags as int, addr as int)) == ((flags / 2) % 2 == 1),
        entry_user(entry_value(flags as int, addr as int)) == ((flags / 4) % 2 == 1),
        entry_uncached(entry_value(flags as int, addr as int)) == ((flags / 16) % 2 == 1),
{
    assert({
        let e = (addr - addr % 4096) + flags;
        &&& e - e % 4096 == addr - addr % 4096
        &&& e % 2 == flags % 2
        &&& (e / 2) % 2 == (flags / 2) % 2
        &&& (e / 4) % 2 == (flags / 4) % 2
        &&& (e / 16) % 2 == (flags / 16) % 2
    }) by (bit_vector)
        requires
            flags < 4096,
    ;
}

/// The high-half virtual address of physical address `paddr`.
pub fn p2v(paddr: usize) -> (r: usize)
    requires
        paddr + HIGHER_HLF_BASE <= usize::MAX,
    ensures
        r == paddr + HIGHER_HLF_BASE,
{
    paddr + HIGHER_HLF_BASE as usize
}

/// The physical address behind high-half virtual address `vaddr`.
pub fn v2p(vaddr: usize) -> (r: usize)
    requires
        vaddr >= HIGHER_HLF_BASE,
    ensures
        r == vaddr - HIGHER_HLF_BASE,
{
    vaddr - HIGHER_HLF_BASE as usize
}

/// The start of the 4 KiB page holding the 32-bit address in `addr`.
pub fn pg_align(addr: usize) -> (r: usize)
    ensures
        r == page_floor(low32(addr as int)),
        r % 4096 == 0,
{
    let x = addr as u64;
    proof {
        lemma_address_bits(x);
    }
    (x & 0xFFFF_F000) as usize
}

/// The page-directory index of `vaddr` (its bits 22 to 31).
pub fn pd_index(vaddr: usize) -> (r: usize)
    ensures
        r == low32(vaddr as int) / 0x40_0000,
        r < 1024,
{
    let x = vaddr as u64;
    proof {
        lemma_address_bits(x);
    }
    ((x & 0xFFC0_0000) >> 22) as usize
}

/// The page-table index of `vaddr` (its bits 12 to 21).
pub fn pt_index(vaddr: usize) -> (r: usize)
    ensures
        r == (vaddr / 4096) % 1024,
{
    let x = vaddr as u64;
    proof {
        lemma_address_bits(x);
    }
    ((x & 0x3F_F000) >> 12) as usize
}

/// The offset of `vaddr` within its page (its bits 0 to 11).
pub fn pg_offset(vaddr: usize) -> (r: usize)
    ensures
        r == vaddr % 4096,
{
    let x = vaddr as u64;
    proof {
        lemma_address_bits(x);
    }
    (x & 0xFFF) as usize
}

/// The page-table address held in a directory entry.
pub fn get_pt_addr(pde: u32) -> (r: u32)
    ensures
        r == entry_frame(pde as int),
{
    pg_align(pde as usize) as u32
}

/// The frame address held in a table entry.
pub fn get_pg_addr(pte: u32) -> (r: u32)
    ensures
        r == entry_frame(pte as int),
{
    pg_align(pte as usize) as u32
}

/// The dirty flag (bit 6) of a table entry, as 0 or 1.
pub fn pg_dirty(pte: u32) -> (r: u32)
    ensures
        r == (pte / 64) % 2,
{
    proof {
        lemma_entry_bits(pte, 0);
    }
    (pte & 0x40) >> 6
}

/// The accessed flag (bit 5) of a table entry, as 0 or 1.
pub fn pg_accessed(pte: u32) -> (r: u32)
    ensures
        r == (pte / 32) % 2,
{
    proof {
        lemma_entry_bits(pte, 0);
    }
    (pte & 0x20) >> 5
}

/// Whether bit 0 of `entry` is set.
pub fn is_cached(entry: u32) -> (r: bool)
    ensures
        r == entry_present(entry as int),
{
    proof {
        lemma_entry_bits(entry, 0);
    }
    (entry & 0x1) != 0
}

/// A directory entry pointing at the page table at `pt_addr`, with `flags`.
pub fn pde(flags: u32, pt_addr: u32) -> (r: PtdT)
    ensures
        r == entry_value(flags as int, pt_addr as int),
{
    proof {
        lemma_entry_bits(pt_addr, flags);
    }
    (pt_addr & 0xFFFF_F000) | (flags & 0xFFF)
}

/// A table entry mapping the frame at `pg_addr`, with `flags`.
pub fn pte(flags: u32, pg_addr: u32) -> (r: PtT)
    ensures
        r == entry_value(flags as int, pg_addr as int),
{
    proof {
        lemma_entry_bits(pg_addr, flags);
    }
    (pg_addr & 0xFFFF_F000) | (flags & 0xFFF)
}

/// The virtual address with directory index `pd`, table index `pt` and page
/// offset `offset`.
pub fn v_addr(pd: u32, pt: u32, offset: u32) -> (r: u32)
    ensures
        r == (pd << 22) | (pt << 12) | offset,
        pd < 1024 && pt < 1024 && offset < 4096 ==> r == pd * 0x40_0000 + pt * 4096 + offset,
{
    proof {
        lemma_compose_bits(pd, pt, offset);
    }
    (pd << 22) | (pt << 12) | offset
}

/// The physical address in frame number `ppn` at `offset`.
pub fn p_addr(ppn: u32, offset: u32) -> (r: u32)
    ensures
        r == (ppn << 12) | offset,
        ppn < 0x10_0000 && offset < 4096 ==> r == ppn * 4096 + offset,
{
    proof {
        lemma_compose_bits(ppn, 0, offset);
    }
    (ppn << 12) | offset
}

/// The virtual address, through the self-referential slot, of the page table
/// registered at directory index `pd_offset`.
pub fn pt_vaddr(pd_offset: u32) -> (r: u32)
    ensures
        r == PT_BASE_VADDR | (pd_offset << 12),
        pd_offset < 1024 ==> r == PT_BASE_VADDR + pd_offset * 4096,
{
    proof {
        lemma_compose_bits(pd_offset, 0, 0);
    }
    PT_BASE_VADDR | (pd_offset << 12)
}

} // verus!
