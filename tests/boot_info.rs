use cureos::multiboot::{
    _save_multiboot_info, _save_subset, checksum, present, read_u16, read_u32, read_u64,
    MultibootInfo, RelocateError, MULTIBOOT_INFO_DRIVE_INFO, MULTIBOOT_INFO_MEMORY,
    MULTIBOOT_INFO_MEM_MAP, MULTIBOOT_INFO_SIZE, MULTIBOOT_MAGIC, MULTIBOOT_MEMORY_INFO,
    MULTIBOOT_PAGE_ALIGN,
};

const MEM_BASE: u32 = 0x0001_0000;
const INFO: u32 = 0x0001_0100;
const MMAP: u32 = 0x0001_0800;
const DRIVES: u32 = 0x0001_0A00;
const DEST: u32 = 0x0030_0000;

fn put_u32(mem: &mut [u8], at: u32, v: u32) {
    let i = (at - MEM_BASE) as usize;
    mem[i..i + 4].copy_from_slice(&v.to_le_bytes());
}

/// A memory image holding a record with the given flags, a memory map of
/// `mmap_len` bytes and a drive table of `drives_len` bytes.
fn image(flags: u32, mmap_len: u32, drives_len: u32) -> Vec<u8> {
    let mut mem: Vec<u8> = (0..0x1000u32).map(|i| (i * 7 % 251) as u8).collect();
    put_u32(&mut mem, INFO, flags);
    put_u32(&mut mem, INFO + 4, 639);
    put_u32(&mut mem, INFO + 8, 0x1FB80);
    put_u32(&mut mem, INFO + 44, mmap_len);
    put_u32(&mut mem, INFO + 48, MMAP);
    put_u32(&mut mem, INFO + 52, drives_len);
    put_u32(&mut mem, INFO + 56, DRIVES);
    mem
}

fn bytes_at(mem: &[u8], at: u32, n: usize) -> &[u8] {
    let i = (at - MEM_BASE) as usize;
    &mem[i..i + n]
}

#[test]
fn relocate_memory_map_into_small_buffer() {
    let mem = image(MULTIBOOT_INFO_MEMORY | MULTIBOOT_INFO_MEM_MAP, 48, 0);
    let mut dest = vec![0xAAu8; 256];
    let n = _save_multiboot_info(&mem, MEM_BASE, INFO, &mut dest, DEST).unwrap();
    assert_eq!(n, MULTIBOOT_INFO_SIZE + 48);
    let copy = MultibootInfo::read(&dest);
    let source = MultibootInfo::read(bytes_at(&mem, INFO, MULTIBOOT_INFO_SIZE));
    assert_eq!(copy.flags, source.flags);
    assert_eq!(copy.mmap_addr, DEST + MULTIBOOT_INFO_SIZE as u32);
    assert_eq!(&dest[120..168], bytes_at(&mem, MMAP, 48));
    assert!(dest[168..].iter().all(|&b| b == 0xAA));
}

#[test]
fn relocated_header_is_identical_but_for_pointers() {
    let mem = image(MULTIBOOT_INFO_MEM_MAP | MULTIBOOT_INFO_DRIVE_INFO, 48, 20);
    let mut dest = vec![0u8; 300];
    let n = _save_multiboot_info(&mem, MEM_BASE, INFO, &mut dest, DEST).unwrap();
    assert_eq!(n, 120 + 48 + 20);
    let source = bytes_at(&mem, INFO, MULTIBOOT_INFO_SIZE);
    for o in 0..MULTIBOOT_INFO_SIZE {
        if !(48..52).contains(&o) && !(56..60).contains(&o) {
            assert_eq!(dest[o], source[o], "byte {}", o);
        }
    }
    let copy = MultibootInfo::read(&dest);
    assert_eq!(copy.mmap_addr, DEST + 120);
    assert_eq!(copy.drives_addr, DEST + 120 + 48);
    assert_eq!(copy.mmap_length, 48);
    assert_eq!(copy.drives_length, 20);
    assert_eq!(&dest[168..188], bytes_at(&mem, DRIVES, 20));
}

#[test]
fn unflagged_tails_are_skipped() {
    let mem = image(MULTIBOOT_INFO_MEMORY, 48, 20);
    let mut dest = vec![0u8; 120];
    assert_eq!(_save_multiboot_info(&mem, MEM_BASE, INFO, &mut dest, DEST), Ok(120));
    assert_eq!(&dest[..], bytes_at(&mem, INFO, 120));
}

#[test]
fn destination_too_small() {
    let mem = image(MULTIBOOT_INFO_MEM_MAP, 48, 0);
    let mut dest = vec![0x55u8; 167];
    assert_eq!(
        _save_multiboot_info(&mem, MEM_BASE, INFO, &mut dest, DEST),
        Err(RelocateError::CapacityExceeded)
    );
    assert!(dest.iter().all(|&b| b == 0x55));
}

#[test]
fn tail_outside_image() {
    let mut mem = image(MULTIBOOT_INFO_MEM_MAP, 48, 0);
    put_u32(&mut mem, INFO + 48, MEM_BASE + 0x1000 - 47);
    let mut dest = vec![0u8; 256];
    assert_eq!(
        _save_multiboot_info(&mem, MEM_BASE, INFO, &mut dest, DEST),
        Err(RelocateError::SourceOutOfRange)
    );
    assert_eq!(
        _save_multiboot_info(&mem, MEM_BASE, MEM_BASE + 0x1000 - 119, &mut dest, DEST),
        Err(RelocateError::SourceOutOfRange)
    );
    assert_eq!(
        _save_multiboot_info(&mem, MEM_BASE, MEM_BASE - 4, &mut dest, DEST),
        Err(RelocateError::SourceOutOfRange)
    );
}

#[test]
fn copy_reaching_end_of_address_space() {
    let mem = image(MULTIBOOT_INFO_MEM_MAP, 48, 0);
    let mut dest = vec![0u8; 256];
    assert_eq!(
        _save_multiboot_info(&mem, MEM_BASE, INFO, &mut dest, 0xFFFF_FFFF - 167),
        Err(RelocateError::AddressOverflow)
    );
    assert_eq!(_save_multiboot_info(&mem, MEM_BASE, INFO, &mut dest, 0xFFFF_FFFF - 168), Ok(168));
}

#[test]
fn subset_copy_returns_its_length() {
    let mut dest = vec![0u8; 8];
    assert_eq!(_save_subset(&mut dest, 2, &[9, 8, 7, 6, 5], 1, 3), 3);
    assert_eq!(dest, vec![0, 0, 8, 7, 6, 0, 0, 0]);
}

#[test]
fn header_checksum() {
    let flags = MULTIBOOT_PAGE_ALIGN | MULTIBOOT_MEMORY_INFO;
    assert_eq!(checksum(flags), 0xE4524FFB);
    assert_eq!(MULTIBOOT_MAGIC.wrapping_add(flags).wrapping_add(checksum(flags)), 0);
    assert_eq!(checksum(0xFFFF_FFFF).wrapping_add(MULTIBOOT_MAGIC).wrapping_add(0xFFFF_FFFF), 0);
}

#[test]
fn flag_presence() {
    assert!(present(0x41, MULTIBOOT_INFO_MEM_MAP));
    assert!(!present(0x41, MULTIBOOT_INFO_DRIVE_INFO));
}

#[test]
fn little_endian_reads() {
    let b = [0x01, 0x02, 0x03, 0x04, 0x05, 0x06, 0x07, 0x08, 0x09];
    assert_eq!(read_u16(&b, 1), 0x0302);
    assert_eq!(read_u32(&b, 0), 0x0403_0201);
    assert_eq!(read_u64(&b, 1), 0x0908_0706_0504_0302);
}

#[test]
fn record_fields_at_their_offsets() {
    let mut b = vec![0u8; 120];
    for (i, x) in b.iter_mut().enumerate() {
        *x = i as u8;
    }
    let info = MultibootInfo::read(&b);
    assert_eq!(info.flags, 0x0302_0100);
    assert_eq!(info.u.tabsize, u32::from_le_bytes([28, 29, 30, 31]));
    assert_eq!(info.mmap_length, u32::from_le_bytes([44, 45, 46, 47]));
    assert_eq!(info.drives_addr, u32::from_le_bytes([56, 57, 58, 59]));
    assert_eq!(info.vbe_mode, u16::from_le_bytes([80, 81]));
    assert_eq!(info.vbe_interface_len, u16::from_le_bytes([86, 87]));
    assert_eq!(info.framebuffer_addr, u64::from_le_bytes([88, 89, 90, 91, 92, 93, 94, 95]));
    assert_eq!(info.framebuffer_bpp, 108);
    assert_eq!(info.framebuffer_type, 109);
    assert_eq!(info.fb_union, u64::from_le_bytes([112, 113, 114, 115, 116, 117, 118, 119]));
}
