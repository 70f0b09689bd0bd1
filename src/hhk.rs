//! The initial page tables of the higher-half kernel.
//!
//! The paging region is a page directory followed by five page tables, held
//! as `REGION_ENTRIES` consecutive 32-bit entries at physical address `ptd`:
//! table 0 identity-maps low memory and the boot shim, tables 1 to 3 map the
//! kernel image at its high-half address, and table 4 is kept for the stack.
//! Directory entry 1023 refers back to the directory itself.
use vstd::prelude::*;
use crate::common::{HIGHER_HLF_BASE, MEM_1MB};
use crate::page::{
    lemma_entry_decodes, entry_frame, entry_present, entry_uncached, entry_user, entry_value, entry_writable,
    page_floor, pd_index, pde, pt_index, pte, v2p, PG_MAX_ENTRIES, PG_PRESENT, PG_PREM_RW,
    PtdT, T_SELF_REF_PERM,
};

verus! {

/// The table that identity-maps low memory and the boot shim.
pub const PT_TABLE_IDENTITY: usize = 0;
/// The first of the tables that map the kernel image.
pub const PT_TABLE_KERNEL: usize = 1;
/// The table kept for the kernel stack; the kernel tables end before it.
pub const PT_TABLE_STACK: usize = 4;
/// Tables reserved for the kernel image (12 MiB).
pub const KERNEL_TABLES: usize = PT_TABLE_STACK - PT_TABLE_KERNEL;
/// Entries in the paging region: the directory and five tables.
pub const REGION_ENTRIES: usize = (PT_TABLE_STACK + 2) * 1024;
/// Table entries that identity-map the low mebibyte.
pub const LOW_MEMORY_PAGES: usize = 256;

/// Addresses the linker gives the boot code.
#[derive(Clone, Copy, Debug, PartialEq, Eq, Structural)]
pub struct LinkerSymbols {
    /// High-half virtual address of the first byte of the kernel image.
    pub kernel_start: u32,
    /// High-half virtual address just past the kernel image.
    pub kernel_end: u32,
    /// Physical address just past the boot shim, which starts at 1 MiB.
    pub hhk_end: u32,
}

/// Why the initial page tables cannot be built.
#[derive(Clone, Copy, Debug, PartialEq, Eq, Structural)]
pub enum PagingError {
    /// The boot shim does not fit in the identity table after low memory.
    ShimTooLarge,
    /// The kernel image does not fit in the tables reserved for it.
    KernelTooLarge,
}

/// Pages needed to hold `bytes` bytes.
pub open spec fn page_count(bytes: int) -> int {
    (bytes + 4095) / 4096
}

impl LinkerSymbols {
    /// The symbols are in the order the linker script places them.
    pub open spec fn ordered(self) -> bool {
        &&& self.kernel_start >= HIGHER_HLF_BASE
        &&& self.kernel_start <= self.kernel_end
        &&& self.hhk_end >= MEM_1MB
    }

    /// Pages of the kernel image.
    pub open spec fn kernel_pages(self) -> int {
        page_count(self.kernel_end - self.kernel_start)
    }

    /// Pages of the boot shim.
    pub open spec fn shim_pages(self) -> int {
        page_count(self.hhk_end - MEM_1MB)
    }

    /// Directory index of the kernel's first page.
    pub open spec fn kernel_pd(self) -> int {
        self.kernel_start as int / 0x40_0000
    }

    /// Table index of the kernel's first page.
    pub open spec fn kernel_pt(self) -> int {
        (self.kernel_start as int / 4096) % 1024
    }

    /// Physical address of the kernel image.
    pub open spec fn kernel_phys(self) -> int {
        self.kernel_start - HIGHER_HLF_BASE
    }

    /// The boot shim fits in the identity table after low memory.
    pub open spec fn shim_fits(self) -> bool {
        LOW_MEMORY_PAGES + self.shim_pages() <= 1024
    }

    /// The reserved tables lie below the self-referential slot, and the
    /// kernel's pages fit in them from the kernel's first table index on.
    pub open spec fn kernel_fits(self) -> bool {
        &&& self.kernel_pd() + KERNEL_TABLES <= 1023
        &&& self.kernel_pt() + self.kernel_pages() <= KERNEL_TABLES * 1024
    }
}

/// Physical address of table `t` of the region at `ptd`.
pub open spec fn table_addr(ptd: u32, t: int) -> int {
    ptd + (t + 1) * 4096
}

/// Entry `k` of the region at `ptd` once the page tables are built.
pub open spec fn built_entry(ptd: u32, s: LinkerSymbols, k: int) -> int {
    if k < 1024 {
        if k == 0 {
            entry_value(PG_PRESENT as int, table_addr(ptd, PT_TABLE_IDENTITY as int))
        } else if k == 1023 {
            entry_value(T_SELF_REF_PERM as int, ptd as int)
        } else if s.kernel_pd() <= k < s.kernel_pd() + KERNEL_TABLES {
            entry_value(PG_PREM_RW as int, table_addr(ptd, PT_TABLE_KERNEL + k - s.kernel_pd()))
        } else {
            0
        }
    } else if k < 2048 {
        if k - 1024 < LOW_MEMORY_PAGES + s.shim_pages() {
            entry_value(PG_PREM_RW as int, (k - 1024) * 4096)
        } else {
            0
        }
    } else if k < 2048 + KERNEL_TABLES * 1024 {
        let j = k - 2048;
        if s.kernel_pt() <= j < s.kernel_pt() + s.kernel_pages() {
            entry_value(PG_PREM_RW as int, s.kernel_phys() + (j - s.kernel_pt()) * 4096)
        } else {
            0
        }
    } else {
        0
    }
}

/// Every entry of `region` is still 0 or already holds its built value.
pub open spec fn partly_built(region: Seq<u32>, ptd: u32, s: LinkerSymbols) -> bool {
    &&& region.len() == REGION_ENTRIES
    &&& forall|k: int|
        0 <= k < REGION_ENTRIES ==> #[trigger] region[k] == 0 || region[k] == built_entry(
            ptd,
            s,
            k,
        )
}

/// The region holds the built page tables.
pub open spec fn built(region: Seq<u32>, ptd: u32, s: LinkerSymbols) -> bool {
    &&& region.len() == REGION_ENTRIES
    &&& forall|k: int| 0 <= k < REGION_ENTRIES ==> #[trigger] region[k] == built_entry(ptd, s, k)
}

/// Pages of the kernel image.
pub fn kernel_page_count(s: &LinkerSymbols) -> (r: usize)
    requires
        s.kernel_start <= s.kernel_end,
    ensures
        r == s.kernel_pages(),
{
    (((s.kernel_end - s.kernel_start) as u64 + 0xFFF) / 4096) as usize
}

/// Pages of the boot shim, from 1 MiB to its end.
pub fn hhk_page_count(s: &LinkerSymbols) -> (r: usize)
    requires
        s.hhk_end >= MEM_1MB,
    ensures
        r == s.shim_pages(),
{
    (((s.hhk_end - MEM_1MB) as u64 + 0xFFF) / 4096) as usize
}

/// Physical address of table `pt_index` of the region at `ptd`.
pub fn pt_addr(ptd: u32, pt_index: usize) -> (r: u32)
    requires
        pt_index <= PT_TABLE_STACK,
        ptd + REGION_ENTRIES * 4 <= u32::MAX,
    ensures
        r == table_addr(ptd, pt_index as int),
{
    ptd + ((pt_index as u32) + 1) * 4096
}

/// Stores `pde_val` in directory entry `pde_index`.
fn set_pde(region: &mut Vec<u32>, pde_index: usize, pde_val: PtdT)
    requires
        pde_index < PG_MAX_ENTRIES,
        old(region).len() == REGION_ENTRIES,
    ensures
        final(region)@ == old(region)@.update(pde_index as int, pde_val),
{
    region[pde_index] = pde_val;
}

/// Stores `pte_val` in entry `pte_index` of table `pt_index`.
fn set_pte(region: &mut Vec<u32>, pt_index: usize, pte_index: usize, pte_val: PtdT)
    requires
        pt_index <= PT_TABLE_STACK,
        pte_index < 1024 * (PT_TABLE_STACK + 1 - pt_index),
        old(region).len() == REGION_ENTRIES,
    ensures
        final(region)@ == old(region)@.update((pt_index + 1) * 1024 + pte_index, pte_val),
{
    region[(pt_index + 1) * 1024 + pte_index] = pte_val;
}

/// The entries `lo` to `hi - 1` of `region` hold their built values.
pub open spec fn built_between(region: Seq<u32>, ptd: u32, s: LinkerSymbols, lo: int, hi: int) -> bool {
    forall|k: int| lo <= k < hi ==> #[trigger] region[k] == built_entry(ptd, s, k)
}

/// Builds the initial page tables in the zeroed region at physical address
/// `ptd`: directory entry 0 points at the identity table, which maps the low
/// mebibyte and the boot shim onto themselves; the reserved kernel tables map
/// the kernel image at its high-half address onto its physical frames; and
/// directory entry 1023 refers back to the directory, uncached.
///
/// When the boot shim or the kernel image does not fit, the region is left
/// untouched and the reason is returned.
pub fn _init_page(region: &mut Vec<u32>, ptd: u32, s: &LinkerSymbols) -> (r: Result<
    (),
    PagingError,
>)
    requires
        old(region).len() == REGION_ENTRIES,
        forall|k: int| 0 <= k < REGION_ENTRIES ==> #[trigger] old(region)@[k] == 0,
        s.ordered(),
        ptd + REGION_ENTRIES * 4 <= u32::MAX,
    ensures
        r is Ok <==> s.shim_fits() && s.kernel_fits(),
        r == Err::<(), PagingError>(PagingError::ShimTooLarge) <==> !s.shim_fits(),
        r == Err::<(), PagingError>(PagingError::KernelTooLarge) <==> s.shim_fits()
            && !s.kernel_fits(),
        r is Ok ==> built(final(region)@, ptd, *s),
        r is Err ==> final(region)@ == old(region)@,
{
    let hhk_pages = hhk_page_count(s);
    if LOW_MEMORY_PAGES + hhk_pages > 1024 {
        return Err(PagingError::ShimTooLarge);
    }
    let kernel_pde_index = pd_index(s.kernel_start as usize);
    let kernel_pte_index = pt_index(s.kernel_start as usize);
    let kernel_pg_counts = kernel_page_count(s);
    proof {
        vstd::arithmetic::div_mod::lemma_small_mod(s.kernel_start as nat, 0x1_0000_0000);
    }
    if kernel_pde_index + KERNEL_TABLES > 1023 || kernel_pte_index + kernel_pg_counts
        > KERNEL_TABLES * 1024 {
        return Err(PagingError::KernelTooLarge);
    }
    assert(s.kernel_pd() >= 768);

    set_pde(region, 0, pde(PG_PRESENT, pt_addr(ptd, PT_TABLE_IDENTITY)));

    // Identity-map the low mebibyte, VGA text buffer included.
    let mut i: usize = 0;
    while i < LOW_MEMORY_PAGES
        invariant
            i <= LOW_MEMORY_PAGES,
            hhk_pages == s.shim_pages(),
            partly_built(region@, ptd, *s),
            built_between(region@, ptd, *s, 0, 1),
            built_between(region@, ptd, *s, 1024, 1024 + i),
        decreases LOW_MEMORY_PAGES - i,
    {
        set_pte(region, PT_TABLE_IDENTITY, i, pte(PG_PREM_RW, (i as u32) * 4096));
        i = i + 1;
    }

    // Identity-map the boot shim, so that its last jump still resolves once
    // paging is on.
    let mut i: usize = 0;
    while i < hhk_pages
        invariant
            i <= hhk_pages,
            hhk_pages == s.shim_pages(),
            LOW_MEMORY_PAGES + hhk_pages <= 1024,
            partly_built(region@, ptd, *s),
            built_between(region@, ptd, *s, 0, 1),
            built_between(region@, ptd, *s, 1024, 1024 + LOW_MEMORY_PAGES + i),
        decreases hhk_pages - i,
    {
        set_pte(
            region,
            PT_TABLE_IDENTITY,
            LOW_MEMORY_PAGES + i,
            pte(PG_PREM_RW, MEM_1MB + (i as u32) * 4096),
        );
        i = i + 1;
    }

    // Register the reserved kernel tables in the directory.
    let mut i: usize = 0;
    while i < KERNEL_TABLES
        invariant
            i <= KERNEL_TABLES,
            kernel_pde_index == s.kernel_pd(),
            s.shim_fits(),
            s.shim_pages() >= 0,
            s.kernel_fits(),
            s.kernel_pd() >= 768,
            ptd + REGION_ENTRIES * 4 <= u32::MAX,
            partly_built(region@, ptd, *s),
            built_between(region@, ptd, *s, 0, 1),
            built_between(region@, ptd, *s, 1024, 1024 + LOW_MEMORY_PAGES + s.shim_pages()),
            built_between(region@, ptd, *s, s.kernel_pd(), s.kernel_pd() + i),
        decreases KERNEL_TABLES - i,
    {
        set_pde(
            region,
            kernel_pde_index + i,
            pde(PG_PREM_RW, pt_addr(ptd, PT_TABLE_KERNEL + i)),
        );
        i = i + 1;
    }

    // Map the kernel image at its high-half address onto its physical frames.
    let kernel_pm = v2p(s.kernel_start as usize) as u32;
    let mut i: usize = 0;
    while i < kernel_pg_counts
        invariant
            i <= kernel_pg_counts,
            kernel_pg_counts == s.kernel_pages(),
            kernel_pte_index == s.kernel_pt(),
            kernel_pm == s.kernel_phys(),
            s.shim_fits(),
            s.shim_pages() >= 0,
            s.kernel_fits(),
            s.kernel_pd() >= 768,
            partly_built(region@, ptd, *s),
            built_between(region@, ptd, *s, 0, 1),
            built_between(region@, ptd, *s, 1024, 1024 + LOW_MEMORY_PAGES + s.shim_pages()),
            built_between(region@, ptd, *s, s.kernel_pd(), s.kernel_pd() + KERNEL_TABLES),
            built_between(region@, ptd, *s, 2048 + s.kernel_pt(), 2048 + s.kernel_pt() + i),
        decreases kernel_pg_counts - i,
    {
        set_pte(
            region,
            PT_TABLE_KERNEL,
            kernel_pte_index + i,
            pte(PG_PREM_RW, kernel_pm + (i as u32) * 4096),
        );
        i = i + 1;
    }

    // The last directory entry refers back to the directory.
    set_pde(region, 1023, pde(T_SELF_REF_PERM, ptd));
    assert forall|k: int| 0 <= k < REGION_ENTRIES implies #[trigger] region@[k] == built_entry(
        ptd,
        *s,
        k,
    ) by {
        if k == 1023 {
        } else if s.kernel_pd() <= k < s.kernel_pd() + KERNEL_TABLES {
        } else if 2048 + s.kernel_pt() <= k < 2048 + s.kernel_pt() + s.kernel_pages() {
        } else if 1024 <= k < 1024 + LOW_MEMORY_PAGES + s.shim_pages() {
        } else if k == 0 {
        } else {
            assert(built_entry(ptd, *s, k) == 0);
        }
    }
    Ok(())
}

/// Clears the region at physical address `ptd`, whose previous contents
/// are arbitrary, and builds the initial page tables in it.
pub fn _hhk_init(region: &mut Vec<u32>, ptd: u32, s: &LinkerSymbols) -> (r: Result<
    (),
    PagingError,
>)
    requires
        old(region).len() == REGION_ENTRIES,
        s.ordered(),
        ptd + REGION_ENTRIES * 4 <= u32::MAX,
    ensures
        r is Ok <==> s.shim_fits() && s.kernel_fits(),
        r == Err::<(), PagingError>(PagingError::ShimTooLarge) <==> !s.shim_fits(),
        r == Err::<(), PagingError>(PagingError::KernelTooLarge) <==> s.shim_fits()
            && !s.kernel_fits(),
        r is Ok ==> built(final(region)@, ptd, *s),
        r is Err ==> final(region)@ == Seq::new(REGION_ENTRIES as nat, |k: int| 0u32),
{
    let mut i: usize = 0;
    while i < REGION_ENTRIES
        invariant
            i <= REGION_ENTRIES,
            region.len() == REGION_ENTRIES,
            forall|k: int| 0 <= k < i ==> #[trigger] region@[k] == 0,
        decreases REGION_ENTRIES - i,
    {
        region[i] = 0;
        i = i + 1;
    }
    let r = _init_page(region, ptd, s);
    proof {
        if r is Err {
            assert(region@ =~= Seq::new(REGION_ENTRIES as nat, |k: int| 0u32));
        }
    }
    r
}

/// The self-referential slot: directory entry 1023 is present, writable and
/// uncached, and its frame, decoded with the page-alignment mask, is the
/// page holding the directory; for a page-aligned directory, the
/// directory's own address.
pub proof fn lemma_self_reference(ptd: u32, s: LinkerSymbols)
    ensures
        entry_present(built_entry(ptd, s, 1023)),
        entry_writable(built_entry(ptd, s, 1023)),
        entry_uncached(built_entry(ptd, s, 1023)),
        entry_frame(built_entry(ptd, s, 1023)) == page_floor(ptd as int),
        ptd % 4096 == 0 ==> entry_frame(built_entry(ptd, s, 1023)) == ptd,
{
    lemma_entry_decodes(T_SELF_REF_PERM, ptd);
}

/// Low memory and the boot shim are identity-mapped read/write: the
/// identity-table entry of each page below the end of the shim is present,
/// writable, supervisor-only and maps that page onto itself. The entry of
/// the page just past the shim is not present.
pub proof fn lemma_identity_map(ptd: u32, s: LinkerSymbols, page: int)
    requires
        s.ordered(),
        s.shim_fits(),
        0 <= page < LOW_MEMORY_PAGES + s.shim_pages(),
    ensures
        entry_present(built_entry(ptd, s, 1024 + page)),
        entry_writable(built_entry(ptd, s, 1024 + page)),
        !entry_user(built_entry(ptd, s, 1024 + page)),
        entry_frame(built_entry(ptd, s, 1024 + page)) == page * 4096,
        LOW_MEMORY_PAGES + s.shim_pages() < 1024 ==> !entry_present(
            built_entry(ptd, s, 1024 + LOW_MEMORY_PAGES + s.shim_pages()),
        ),
{
    lemma_entry_decodes(PG_PREM_RW, (page * 4096) as u32);
    vstd::arithmetic::div_mod::lemma_mod_multiples_basic(page, 4096);
}

/// The kernel image is mapped page by page at its high-half address: among
/// the entries of the reserved kernel tables exactly those from the
/// kernel's first table index on, one per kernel page, are present; each
/// is writable and maps the frame of `kernel_phys + i * 4096` for the
/// kernel's `i`-th page, which is that address itself when the kernel
/// starts on a page boundary.
pub proof fn lemma_kernel_map(ptd: u32, s: LinkerSymbols, j: int)
    requires
        s.ordered(),
        s.kernel_fits(),
        0 <= j < KERNEL_TABLES * 1024,
    ensures
        entry_present(built_entry(ptd, s, 2048 + j)) <==> s.kernel_pt() <= j < s.kernel_pt()
            + s.kernel_pages(),
        s.kernel_pt() <= j < s.kernel_pt() + s.kernel_pages() ==> {
            &&& entry_writable(built_entry(ptd, s, 2048 + j))
            &&& entry_frame(built_entry(ptd, s, 2048 + j)) == page_floor(
                s.kernel_phys() + (j - s.kernel_pt()) * 4096,
            )
            &&& s.kernel_start % 4096 == 0 ==> entry_frame(built_entry(ptd, s, 2048 + j))
                == s.kernel_phys() + (j - s.kernel_pt()) * 4096
        },
{
    if s.kernel_pt() <= j < s.kernel_pt() + s.kernel_pages() {
        let i = j - s.kernel_pt();
        let a = s.kernel_phys() + i * 4096;
        assert(0 <= a < 0x1_0000_0000);
        lemma_entry_decodes(PG_PREM_RW, a as u32);
        vstd::arithmetic::div_mod::lemma_mod_multiples_vanish(i - 0xC_0000, s.kernel_start as int, 4096);
    }
}

/// How many of the `n` entries of the built region from `lo` on are present.
pub open spec fn present_count(ptd: u32, s: LinkerSymbols, lo: int, n: nat) -> nat
    decreases n,
{
    if n == 0 {
        0
    } else {
        present_count(ptd, s, lo, (n - 1) as nat) + if entry_present(
            built_entry(ptd, s, lo + n - 1),
        ) {
            1nat
        } else {
            0nat
        }
    }
}

proof fn lemma_kernel_count_prefix(ptd: u32, s: LinkerSymbols, n: nat)
    requires
        s.ordered(),
        s.kernel_fits(),
        n <= KERNEL_TABLES * 1024,
    ensures
        present_count(ptd, s, 2048, n) == if n <= s.kernel_pt() {
            0
        } else if n <= s.kernel_pt() + s.kernel_pages() {
            n - s.kernel_pt()
        } else {
            s.kernel_pages()
        },
    decreases n,
{
    if n > 0 {
        lemma_kernel_count_prefix(ptd, s, (n - 1) as nat);
        lemma_kernel_map(ptd, s, n - 1);
    }
}

/// The number of present entries in the reserved kernel tables is the
/// kernel's page count.
pub proof fn lemma_kernel_page_count(ptd: u32, s: LinkerSymbols)
    requires
        s.ordered(),
        s.kernel_fits(),
    ensures
        present_count(ptd, s, 2048, (KERNEL_TABLES * 1024) as nat) == s.kernel_pages(),
{
    lemma_kernel_count_prefix(ptd, s, (KERNEL_TABLES * 1024) as nat);
}

} // verus!
