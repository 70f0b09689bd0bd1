use cureos::hhk::{
    _hhk_init, _init_page, hhk_page_count, kernel_page_count, pt_addr, LinkerSymbols, PagingError,
    REGION_ENTRIES,
};
use cureos::page::{
    get_pg_addr, get_pt_addr, is_cached, p2v, p_addr, pd_index, pde, pg_accessed, pg_align,
    pg_dirty, pg_offset, pt_index, pt_vaddr, pte, v2p, v_addr, PG_PREM_RW, T_SELF_REF_PERM,
};

const PTD: u32 = 0x0020_0000;

fn symbols(kernel_bytes: u32, shim_bytes: u32) -> LinkerSymbols {
    LinkerSymbols {
        kernel_start: 0xC010_0000,
        kernel_end: 0xC010_0000 + kernel_bytes,
        hhk_end: 0x0010_0000 + shim_bytes,
    }
}

fn built(s: &LinkerSymbols) -> Vec<u32> {
    let mut region = vec![0u32; REGION_ENTRIES];
    assert_eq!(_init_page(&mut region, PTD, s), Ok(()));
    region
}

#[test]
fn address_translation() {
    assert_eq!(p2v(0x0010_0000), 0xC010_0000);
    assert_eq!(v2p(0xC010_0000), 0x0010_0000);
    assert_eq!(v2p(p2v(0x1234)), 0x1234);
}

#[test]
fn address_fields() {
    assert_eq!(pg_align(0x1234_5678), 0x1234_5000);
    assert_eq!(pg_align(0xFFF), 0);
    assert_eq!(pd_index(0xC010_2345), 768);
    assert_eq!(pt_index(0xC010_2345), 0x102);
    assert_eq!(pg_offset(0xC010_2345), 0x345);
    assert_eq!(v_addr(768, 0x102, 0x345), 0xC010_2345);
    assert_eq!(p_addr(0x12345, 0x678), 0x1234_5678);
    assert_eq!(pt_vaddr(0), 0xFFC0_0000);
    assert_eq!(pt_vaddr(1023), 0xFFFF_F000);
}

#[test]
fn entry_encoding() {
    assert_eq!(pde(PG_PREM_RW, 0x0020_1000), 0x0020_1003);
    assert_eq!(pte(PG_PREM_RW, 0x0020_1FFF), 0x0020_1003);
    assert_eq!(pte(0xFFFF_FFFF, 0), 0xFFF);
    assert_eq!(get_pt_addr(0x0020_1003), 0x0020_1000);
    assert_eq!(get_pg_addr(0xABCD_E067), 0xABCD_E000);
    assert_eq!(pg_dirty(0x40), 1);
    assert_eq!(pg_dirty(0x3F), 0);
    assert_eq!(pg_accessed(0x20), 1);
    assert_eq!(pg_accessed(0x5F), 0);
    assert!(is_cached(0x1));
    assert!(!is_cached(0x2));
}

#[test]
fn page_counts_round_up() {
    let s = symbols(0x5800, 0x2001);
    assert_eq!(kernel_page_count(&s), 6);
    assert_eq!(hhk_page_count(&s), 3);
    let empty = symbols(0, 0);
    assert_eq!(kernel_page_count(&empty), 0);
    assert_eq!(hhk_page_count(&empty), 0);
    assert_eq!(pt_addr(PTD, 0), PTD + 0x1000);
    assert_eq!(pt_addr(PTD, 3), PTD + 0x4000);
}

#[test]
fn kernel_mapped_page_by_page() {
    let s = symbols(0x5800, 0x3000);
    let region = built(&s);
    let kernel_tables = &region[2048..2048 + 3 * 1024];
    let present: Vec<usize> = (0..kernel_tables.len())
        .filter(|&j| kernel_tables[j] & 1 != 0)
        .collect();
    assert_eq!(present.len(), kernel_page_count(&s));
    for (i, &j) in present.iter().enumerate() {
        assert_eq!(j, 0x100 + i);
        assert_eq!(get_pg_addr(kernel_tables[j]), 0x0010_0000 + (i as u32) * 4096);
        assert_eq!(kernel_tables[j] & 0xFFF, PG_PREM_RW);
    }
    // The three kernel tables are registered at directory entries 768 to 770.
    for t in 0..3u32 {
        assert_eq!(region[768 + t as usize], PTD + (2 + t) * 0x1000 + PG_PREM_RW);
    }
    assert_eq!(region[771], 0);
}

#[test]
fn self_reference_decodes_to_directory() {
    let s = symbols(0x5800, 0x3000);
    let region = built(&s);
    assert_eq!(get_pt_addr(region[1023]), PTD);
    assert_eq!(region[1023] & 0xFFF, T_SELF_REF_PERM);
    let mut unaligned = vec![0u32; REGION_ENTRIES];
    assert_eq!(_init_page(&mut unaligned, 0x0020_0234, &s), Ok(()));
    assert_eq!(get_pt_addr(unaligned[1023]), 0x0020_0000);
}

#[test]
fn low_memory_and_shim_identity_mapped() {
    let s = symbols(0x5800, 0x3000);
    let region = built(&s);
    assert_eq!(region[0], PTD + 0x1000 + 1);
    for page in 0..256u32 {
        let e = region[1024 + page as usize];
        assert!(e & 1 != 0 && e & 2 != 0 && e & 4 == 0);
        assert_eq!(get_pg_addr(e), page * 4096);
    }
    assert_eq!(get_pg_addr(region[1024 + 0xB8]), 0xB8000);
    for page in 256..259u32 {
        assert_eq!(region[1024 + page as usize], page * 4096 + PG_PREM_RW);
    }
    // One page past the shim is not mapped.
    assert_eq!(region[1024 + 259] & 1, 0);
}

#[test]
fn kernel_larger_than_reserved_span_is_refused() {
    let s = symbols(0x00C0_0000 - 0x0010_0000 + 1, 0x3000);
    let mut region = vec![0u32; REGION_ENTRIES];
    assert_eq!(_init_page(&mut region, PTD, &s), Err(PagingError::KernelTooLarge));
    assert!(region.iter().all(|&e| e == 0));
    // Exactly filling the span from the kernel's first table index is fine.
    let fits = symbols(0x00C0_0000 - 0x0010_0000, 0x3000);
    let region = built(&fits);
    assert_eq!(region[2048 + 3 * 1024 - 1] & 1, 1);
}

#[test]
fn kernel_too_high_is_refused() {
    let s = LinkerSymbols { kernel_start: 0xFF40_0000, kernel_end: 0xFF40_1000, hhk_end: 0x0010_1000 };
    let mut region = vec![0u32; REGION_ENTRIES];
    assert_eq!(_init_page(&mut region, PTD, &s), Err(PagingError::KernelTooLarge));
}

#[test]
fn oversized_shim_is_refused() {
    let s = symbols(0x5800, 0x0030_0001);
    let mut region = vec![0u32; REGION_ENTRIES];
    assert_eq!(_init_page(&mut region, PTD, &s), Err(PagingError::ShimTooLarge));
    assert!(region.iter().all(|&e| e == 0));
}

#[test]
fn hhk_init_clears_leftovers() {
    let s = symbols(0x5800, 0x3000);
    let mut region = vec![0xDEAD_BEEFu32; REGION_ENTRIES];
    assert_eq!(_hhk_init(&mut region, PTD, &s), Ok(()));
    assert_eq!(region, built(&s));
    let mut refused = vec![0xDEAD_BEEFu32; REGION_ENTRIES];
    assert_eq!(_hhk_init(&mut refused, PTD, &symbols(0x5800, 0x0030_0001)), Err(PagingError::ShimTooLarge));
    assert!(refused.iter().all(|&e| e == 0));
}
