//! The multiboot boot-information record: its layout, and its relocation
//! out of memory the kernel is about to reclaim.
//!
//! Records are read by raw offset, little-endian, exactly as the bootloader
//! laid them out.
use vstd::prelude::*;

verus! {

/// The magic value of a multiboot header.
pub const MULTIBOOT_MAGIC: u32 = 0x1BADB002;
/// The value a multiboot bootloader leaves in `eax`.
pub const MULTIBOOT_BOOTLOADER_MAGIC: u32 = 0x2BADB002;
/// Alignment of boot modules.
pub const MULTIBOOT_MOD_ALIGN: u32 = 0x00001000;
/// Alignment of the boot-information record.
pub const MULTIBOOT_INFO_ALIGN: u32 = 0x00000004;

/// Header flag: align boot modules on 4 KiB boundaries.
pub const MULTIBOOT_PAGE_ALIGN: u32 = 0x00000001;
/// Header flag: memory information must be passed.
pub const MULTIBOOT_MEMORY_INFO: u32 = 0x00000002;
/// Header flag: video mode information must be passed.
pub const MULTIBOOT_VIDEO_MODE: u32 = 0x00000004;
/// Header flag: use the address fields of the header.
pub const MULTIBOOT_AOUT_KLUDGE: u32 = 0x00010000;

/// Record flag: `mem_lower` and `mem_upper` are valid.
pub const MULTIBOOT_INFO_MEMORY: u32 = 0x00000001;
/// Record flag: `boot_device` is valid.
pub const MULTIBOOT_INFO_BOOTDEV: u32 = 0x00000002;
/// Record flag: `cmdline` is valid.
pub const MULTIBOOT_INFO_CMDLINE: u32 = 0x00000004;
/// Record flag: the module list is valid.
pub const MULTIBOOT_INFO_MODS: u32 = 0x00000008;
/// Record flag: the a.out symbol table is valid (exclusive with the next).
pub const MULTIBOOT_INFO_AOUT_SYMS: u32 = 0x00000010;
/// Record flag: the ELF section-header table is valid.
pub const MULTIBOOT_INFO_ELF_SHDR: u32 = 0x00000020;
/// Record flag: a full memory map is present.
pub const MULTIBOOT_INFO_MEM_MAP: u32 = 0x00000040;
/// Record flag: a drive table is present.
pub const MULTIBOOT_INFO_DRIVE_INFO: u32 = 0x00000080;
/// Record flag: a ROM configuration table is present.
pub const MULTIBOOT_INFO_CONFIG_TABLE: u32 = 0x00000100;
/// Record flag: the bootloader name is present.
pub const MULTIBOOT_INFO_BOOT_LOADER_NAME: u32 = 0x00000200;
/// Record flag: an APM table is present.
pub const MULTIBOOT_INFO_APM_TABLE: u32 = 0x00000400;
/// Record flag: VBE information is present.
pub const MULTIBOOT_INFO_VBE_INFO: u32 = 0x00000800;
/// Record flag: framebuffer information is present.
pub const MULTIBOOT_INFO_FRAMEBUFFER_INFO: u32 = 0x00001000;

/// Framebuffer type: indexed colour.
pub const MULTIBOOT_FRAMEBUFFER_TYPE_INDEXED: u8 = 0;
/// Framebuffer type: direct RGB colour.
pub const MULTIBOOT_FRAMEBUFFER_TYPE_RGB: u8 = 1;
/// Framebuffer type: EGA text.
pub const MULTIBOOT_FRAMEBUFFER_TYPE_EGA_TEXT: u8 = 2;

/// Memory-map entry type: usable RAM.
pub const MULTIBOOT_MEMORY_AVAILABLE: u32 = 1;
/// Memory-map entry type: reserved.
pub const MULTIBOOT_MEMORY_RESERVED: u32 = 2;
/// Memory-map entry type: ACPI tables, reclaimable.
pub const MULTIBOOT_MEMORY_ACPI_RECLAIMABLE: u32 = 3;
/// Memory-map entry type: ACPI non-volatile storage.
pub const MULTIBOOT_MEMORY_NVS: u32 = 4;
/// Memory-map entry type: defective RAM.
pub const MULTIBOOT_MEMORY_BADRAM: u32 = 5;

/// Size in bytes of the fixed part of the boot-information record.
pub const MULTIBOOT_INFO_SIZE: usize = 120;
/// Offset of `flags`.
pub const FLAGS_OFFSET: usize = 0;
/// Offset of `mmap_length`.
pub const MMAP_LENGTH_OFFSET: usize = 44;
/// Offset of `mmap_addr`.
pub const MMAP_ADDR_OFFSET: usize = 48;
/// Offset of `drives_length`.
pub const DRIVES_LENGTH_OFFSET: usize = 52;
/// Offset of `drives_addr`.
pub const DRIVES_ADDR_OFFSET: usize = 56;

/// The a.out symbol table of a boot-information record.
#[derive(Clone, Copy, Debug, PartialEq, Eq, Structural)]
pub struct MultibootSymbolTable {
    pub tabsize: u32,
    pub strsize: u32,
    pub addr: u32,
    pub reserved: u32,
}

/// The ELF section-header table of a boot-information record; it shares its
/// place in the record with the a.out symbol table.
#[derive(Clone, Copy, Debug, PartialEq, Eq, Structural)]
pub struct MultibootElfSectionHeaderTable {
    pub num: u32,
    pub size: u32,
    pub addr: u32,
    pub shndx: u32,
}

/// The colour information of an indexed-colour framebuffer.
#[derive(Clone, Copy, Debug, PartialEq, Eq, Structural)]
pub struct MultibootFramebufferPalette {
    pub framebuffer_palette_addr: u32,
    pub framebuffer_palette_num_colors: u16,
}

/// The colour information of a direct-RGB framebuffer.
#[derive(Clone, Copy, Debug, PartialEq, Eq, Structural)]
pub struct MultibootFramebufferRgb {
    pub framebuffer_red_field_position: u8,
    pub framebuffer_red_mask_size: u8,
    pub framebuffer_green_field_position: u8,
    pub framebuffer_green_mask_size: u8,
    pub framebuffer_blue_field_position: u8,
    pub framebuffer_blue_mask_size: u8,
}

/// One palette entry.
#[derive(Clone, Copy, Debug, PartialEq, Eq, Structural)]
pub struct MultibootColor {
    pub red: u8,
    pub green: u8,
    pub blue: u8,
}

/// One entry of the memory map.
#[derive(Clone, Copy, Debug, PartialEq, Eq, Structural)]
pub struct MultibootMemoryMapEntry {
    pub size: u32,
    pub addr_low: u32,
    pub addr_high: u32,
    pub len_low: u32,
    pub len_high: u32,
    pub type_: u32,
}

/// One entry of the boot-module list.
#[derive(Clone, Copy, Debug, PartialEq, Eq, Structural)]
pub struct MultibootModuleList {
    /// First byte of the module.
    pub mod_start: u32,
    /// One past the last byte of the module.
    pub mod_end: u32,
    /// The module's command line.
    pub cmdline: u32,
    /// Padding to 16 bytes; zero.
    pub pad: u32,
}

/// The APM BIOS information.
#[derive(Clone, Copy, Debug, PartialEq, Eq, Structural)]
pub struct MultibootApmInfo {
    pub version: u16,
    pub cseg: u16,
    pub offset: u32,
    pub cseg_16: u16,
    pub dseg: u16,
    pub flags: u16,
    pub cseg_len: u16,
    pub cseg_16_len: u16,
    pub dseg_len: u16,
}

/// The fixed part of the boot-information record, field by field.
#[derive(Clone, Copy, Debug, PartialEq, Eq, Structural)]
pub struct MultibootInfo {
    /// Which of the optional parts are valid.
    pub flags: u32,
    /// Kilobytes of lower memory.
    pub mem_lower: u32,
    /// Kilobytes of upper memory.
    pub mem_upper: u32,
    /// The BIOS disk and partition booted from.
    pub boot_device: u32,
    /// Address of the kernel command line.
    pub cmdline: u32,
    /// Number of boot modules.
    pub mods_count: u32,
    /// Address of the module list.
    pub mods_addr: u32,
    /// The symbol table, or the ELF section-header table read as the same
    /// four words.
    pub u: MultibootSymbolTable,
    /// Length in bytes of the memory map.
    pub mmap_length: u32,
    /// Address of the memory map.
    pub mmap_addr: u32,
    /// Length in bytes of the drive table.
    pub drives_length: u32,
    /// Address of the drive table.
    pub drives_addr: u32,
    /// Address of the ROM configuration table.
    pub config_table: u32,
    /// Address of the bootloader's name.
    pub boot_loader_name: u32,
    /// Address of the APM table.
    pub apm_table: u32,
    pub vbe_control_info: u32,
    pub vbe_mode_info: u32,
    pub vbe_mode: u16,
    pub vbe_interface_seg: u16,
    pub vbe_interface_off: u16,
    pub vbe_interface_len: u16,
    pub framebuffer_addr: u64,
    pub framebuffer_pitch: u32,
    pub framebuffer_width: u32,
    pub framebuffer_height: u32,
    pub framebuffer_bpp: u8,
    pub framebuffer_type: u8,
    /// The colour information: the palette or the RGB layout, by
    /// `framebuffer_type`, as its eight raw bytes read little-endian.
    pub fb_union: u64,
}

/// The checksum a multiboot header carries for `flags`: magic, flags and
/// checksum add up to 0 modulo 2^32.
pub fn checksum(flags: u32) -> (r: u32)
    ensures
        (MULTIBOOT_MAGIC + flags + r) % 0x1_0000_0000 == 0,
{
    let sum = (MULTIBOOT_MAGIC as u64 + flags as u64) % 0x1_0000_0000;
    ((0x1_0000_0000 - sum) % 0x1_0000_0000) as u32
}

/// Whether any bit of `info` is set in `flags`.
pub fn present(flags: u32, info: u32) -> (r: bool)
    ensures
        r == (flags & info != 0),
{
    (flags & info) != 0
}

/// The little-endian number in the `n` bytes of `b` from `off` on.
pub open spec fn le_at(b: Seq<u8>, off: int, n: nat) -> int
    decreases n,
{
    if n == 0 {
        0
    } else {
        b[off] + 256 * le_at(b, off + 1, (n - 1) as nat)
    }
}

/// The four little-endian bytes of `v`.
pub open spec fn le_bytes(v: u32) -> Seq<u8> {
    seq![(v % 256) as u8, ((v / 256) % 256) as u8, ((v / 0x1_0000) % 256) as u8, (v / 0x100_0000) as u8]
}

proof fn lemma_le_bytes_roundtrip(v: u32)
    ensures
        le_at(le_bytes(v), 0, 4) == v,
{
    reveal_with_fuel(le_at, 5);
    assert((v % 256) + 256 * (((v / 256) % 256) + 256 * (((v / 0x1_0000) % 256) + 256 * (v
        / 0x100_0000))) == v) by (bit_vector);
}

/// The little-endian `u32` at `off` in `b`.
pub fn read_u32(b: &[u8], off: usize) -> (r: u32)
    requires
        off + 4 <= b@.len(),
    ensures
        r == le_at(b@, off as int, 4),
{
    proof {
        reveal_with_fuel(le_at, 5);
    }
    b[off] as u32 + 256 * (b[off + 1] as u32 + 256 * (b[off + 2] as u32 + 256 * (b[off
        + 3] as u32)))
}

/// The little-endian `u16` at `off` in `b`.
pub fn read_u16(b: &[u8], off: usize) -> (r: u16)
    requires
        off + 2 <= b@.len(),
    ensures
        r == le_at(b@, off as int, 2),
{
    proof {
        reveal_with_fuel(le_at, 3);
    }
    b[off] as u16 + 256 * (b[off + 1] as u16)
}

/// The little-endian `u64` at `off` in `b`.
pub fn read_u64(b: &[u8], off: usize) -> (r: u64)
    requires
        off + 8 <= b@.len(),
    ensures
        r == le_at(b@, off as int, 8),
{
    proof {
        reveal_with_fuel(le_at, 9);
        assert(le_at(b@, off as int, 8) == le_at(b@, off as int, 4) + 0x1_0000_0000 * le_at(
            b@,
            off + 4,
            4,
        ));
    }
    let _len = b.len();
    let low = read_u32(b, off) as u64;
    let high = read_u32(b, off + 4) as u64;
    low + 0x1_0000_0000 * high
}

/// The little-endian `u32` at `off` in `b`, as a `u32`.
pub open spec fn u32_at(b: Seq<u8>, off: int) -> u32 {
    le_at(b, off, 4) as u32
}

/// The record whose fixed part is the first `MULTIBOOT_INFO_SIZE` bytes of
/// `b`, field by field at the offsets the format gives.
pub open spec fn decode_info(b: Seq<u8>) -> MultibootInfo {
    MultibootInfo {
        flags: u32_at(b, 0),
        mem_lower: u32_at(b, 4),
        mem_upper: u32_at(b, 8),
        boot_device: u32_at(b, 12),
        cmdline: u32_at(b, 16),
        mods_count: u32_at(b, 20),
        mods_addr: u32_at(b, 24),
        u: MultibootSymbolTable {
            tabsize: u32_at(b, 28),
            strsize: u32_at(b, 32),
            addr: u32_at(b, 36),
            reserved: u32_at(b, 40),
        },
        mmap_length: u32_at(b, 44),
        mmap_addr: u32_at(b, 48),
        drives_length: u32_at(b, 52),
        drives_addr: u32_at(b, 56),
        config_table: u32_at(b, 60),
        boot_loader_name: u32_at(b, 64),
        apm_table: u32_at(b, 68),
        vbe_control_info: u32_at(b, 72),
        vbe_mode_info: u32_at(b, 76),
        vbe_mode: le_at(b, 80, 2) as u16,
        vbe_interface_seg: le_at(b, 82, 2) as u16,
        vbe_interface_off: le_at(b, 84, 2) as u16,
        vbe_interface_len: le_at(b, 86, 2) as u16,
        framebuffer_addr: le_at(b, 88, 8) as u64,
        framebuffer_pitch: u32_at(b, 96),
        framebuffer_width: u32_at(b, 100),
        framebuffer_height: u32_at(b, 104),
        framebuffer_bpp: b[108],
        framebuffer_type: b[109],
        fb_union: le_at(b, 112, 8) as u64,
    }
}

impl MultibootInfo {
    /// Reads the fixed part of a record from its bytes.
    pub fn read(b: &[u8]) -> (r: MultibootInfo)
        requires
            b@.len() >= MULTIBOOT_INFO_SIZE,
        ensures
            r == decode_info(b@),
    {
        MultibootInfo {
            flags: read_u32(b, 0),
            mem_lower: read_u32(b, 4),
            mem_upper: read_u32(b, 8),
            boot_device: read_u32(b, 12),
            cmdline: read_u32(b, 16),
            mods_count: read_u32(b, 20),
            mods_addr: read_u32(b, 24),
            u: MultibootSymbolTable {
                tabsize: read_u32(b, 28),
                strsize: read_u32(b, 32),
                addr: read_u32(b, 36),
                reserved: read_u32(b, 40),
            },
            mmap_length: read_u32(b, 44),
            mmap_addr: read_u32(b, 48),
            drives_length: read_u32(b, 52),
            drives_addr: read_u32(b, 56),
            config_table: read_u32(b, 60),
            boot_loader_name: read_u32(b, 64),
            apm_table: read_u32(b, 68),
            vbe_control_info: read_u32(b, 72),
            vbe_mode_info: read_u32(b, 76),
            vbe_mode: read_u16(b, 80),
            vbe_interface_seg: read_u16(b, 82),
            vbe_interface_off: read_u16(b, 84),
            vbe_interface_len: read_u16(b, 86),
            framebuffer_addr: read_u64(b, 88),
            framebuffer_pitch: read_u32(b, 96),
            framebuffer_width: read_u32(b, 100),
            framebuffer_height: read_u32(b, 104),
            framebuffer_bpp: b[108],
            framebuffer_type: b[109],
            fb_union: read_u64(b, 112),
        }
    }
}

/// Why a boot-information record cannot be relocated.
#[derive(Clone, Copy, Debug, PartialEq, Eq, Structural)]
pub enum RelocateError {
    /// The record, or a tail it announces, lies outside the memory image.
    SourceOutOfRange,
    /// The destination is smaller than the record and its tails.
    CapacityExceeded,
    /// The relocated copy would reach the end of the 32-bit address space.
    AddressOverflow,
}

/// Whether `flag` is set in the record's flags.
pub open spec fn has_flag(h: Seq<u8>, flag: u32) -> bool {
    u32_at(h, 0) & flag != 0
}

/// Bytes of the memory map that relocation copies.
pub open spec fn mmap_len(h: Seq<u8>) -> int {
    if has_flag(h, MULTIBOOT_INFO_MEM_MAP) {
        le_at(h, MMAP_LENGTH_OFFSET as int, 4)
    } else {
        0
    }
}

/// Bytes of the drive table that relocation copies.
pub open spec fn drives_len(h: Seq<u8>) -> int {
    if has_flag(h, MULTIBOOT_INFO_DRIVE_INFO) {
        le_at(h, DRIVES_LENGTH_OFFSET as int, 4)
    } else {
        0
    }
}

/// Bytes of the relocated copy: the fixed record and its copied tails.
pub open spec fn relocated_size(h: Seq<u8>) -> int {
    MULTIBOOT_INFO_SIZE + mmap_len(h) + drives_len(h)
}

/// The `n` bytes at address `addr` lie in the image `mem` loaded at
/// address `base`.
pub open spec fn in_image(mem: Seq<u8>, base: int, addr: int, n: int) -> bool {
    base <= addr && addr + n <= base + mem.len()
}

/// The `n` bytes at address `addr` of the image `mem` loaded at `base`.
pub open spec fn image_bytes(mem: Seq<u8>, base: int, addr: int, n: int) -> Seq<u8> {
    if n == 0 {
        Seq::empty()
    } else {
        mem.subrange(addr - base, addr - base + n)
    }
}

/// `s` with the four bytes from `off` on replaced by `b`.
pub open spec fn patch(s: Seq<u8>, off: int, b: Seq<u8>) -> Seq<u8> {
    s.subrange(0, off) + b + s.subrange(off + 4, s.len() as int)
}

/// The fixed record at address `info` of the image.
pub open spec fn source_header(mem: Seq<u8>, base: int, info: int) -> Seq<u8> {
    mem.subrange(info - base, info - base + MULTIBOOT_INFO_SIZE)
}

/// Why relocating the record at `info` into `dest_len` bytes at
/// `dest_addr` fails, if it does.
pub open spec fn relocation_error(
    mem: Seq<u8>,
    base: int,
    info: int,
    dest_len: int,
    dest_addr: int,
) -> Option<RelocateError> {
    if !in_image(mem, base, info, MULTIBOOT_INFO_SIZE as int) {
        Some(RelocateError::SourceOutOfRange)
    } else {
        let h = source_header(mem, base, info);
        if mmap_len(h) > 0 && !in_image(mem, base, le_at(h, MMAP_ADDR_OFFSET as int, 4), mmap_len(h)) {
            Some(RelocateError::SourceOutOfRange)
        } else if drives_len(h) > 0 && !in_image(
            mem,
            base,
            le_at(h, DRIVES_ADDR_OFFSET as int, 4),
            drives_len(h),
        ) {
            Some(RelocateError::SourceOutOfRange)
        } else if relocated_size(h) > dest_len {
            Some(RelocateError::CapacityExceeded)
        } else if dest_addr + relocated_size(h) > u32::MAX {
            Some(RelocateError::AddressOverflow)
        } else {
            None
        }
    }
}

/// The relocated copy, at address `dest_addr`, of the record at `info`: the
/// fixed record with its memory-map pointer (if that flag is set) and its
/// drive-table pointer (if that flag is set) rewritten to the copies, the
/// memory map right after the record, and the drive table right after that.
pub open spec fn relocated(mem: Seq<u8>, base: int, info: int, dest_addr: int) -> Seq<u8> {
    let h = source_header(mem, base, info);
    let mmap_dest = dest_addr + MULTIBOOT_INFO_SIZE;
    let drives_dest = mmap_dest + mmap_len(h);
    let h1 = if has_flag(h, MULTIBOOT_INFO_MEM_MAP) {
        patch(h, MMAP_ADDR_OFFSET as int, le_bytes(mmap_dest as u32))
    } else {
        h
    };
    let h2 = if has_flag(h, MULTIBOOT_INFO_DRIVE_INFO) {
        patch(h1, DRIVES_ADDR_OFFSET as int, le_bytes(drives_dest as u32))
    } else {
        h1
    };
    h2 + image_bytes(mem, base, le_at(h, MMAP_ADDR_OFFSET as int, 4), mmap_len(h))
        + image_bytes(mem, base, le_at(h, DRIVES_ADDR_OFFSET as int, 4), drives_len(h))
}

/// Copies the `size` bytes of `base` from `from` on into `destination` from
/// `at` on, and returns how many bytes it copied.
pub fn _save_subset(
    destination: &mut Vec<u8>,
    at: usize,
    base: &[u8],
    from: usize,
    size: usize,
) -> (r: usize)
    requires
        at + size <= old(destination).len(),
        from + size <= base@.len(),
    ensures
        r == size,
        final(destination)@ == old(destination)@.subrange(0, at as int) + base@.subrange(
            from as int,
            from + size,
        ) + old(destination)@.subrange(at + size, old(destination)@.len() as int),
{
    let base_len = base.len();
    let mut i: usize = 0;
    while i < size
        invariant
            i <= size,
            base_len == base@.len(),
            at + size <= old(destination).len(),
            from + size <= base@.len(),
            destination@ == old(destination)@.subrange(0, at as int) + base@.subrange(
                from as int,
                from + i,
            ) + old(destination)@.subrange(at + i, old(destination)@.len() as int),
        decreases size - i,
    {
        destination[at + i] = base[from + i];
        i = i + 1;
        assert(destination@ =~= old(destination)@.subrange(0, at as int) + base@.subrange(
            from as int,
            from + i,
        ) + old(destination)@.subrange(at + i, old(destination)@.len() as int));
    }
    size
}

/// Stores `v` little-endian in the four bytes of `destination` from `at` on.
fn write_u32(destination: &mut Vec<u8>, at: usize, v: u32)
    requires
        at + 4 <= old(destination).len(),
    ensures
        final(destination)@ == patch(old(destination)@, at as int, le_bytes(v)),
{
    destination[at] = (v % 256) as u8;
    destination[at + 1] = ((v / 256) % 256) as u8;
    destination[at + 2] = ((v / 0x1_0000) % 256) as u8;
    destination[at + 3] = (v / 0x100_0000) as u8;
    assert(destination@ =~= patch(old(destination)@, at as int, le_bytes(v)));
}

/// Whether the `n` bytes at address `addr` lie in the image `mem` loaded at
/// address `base`.
fn image_holds(mem: &[u8], base: u32, addr: u32, n: u32) -> (r: bool)
    ensures
        r == in_image(mem@, base as int, addr as int, n as int),
{
    addr >= base && (n as u64) <= mem.len() as u64 && ((addr - base) as u64) <= (mem.len() as u64)
        - (n as u64)
}

proof fn lemma_le_at_subrange(s: Seq<u8>, lo: int, hi: int, off: int, n: nat)
    requires
        0 <= lo,
        0 <= off,
        lo + off + n <= hi <= s.len(),
    ensures
        le_at(s.subrange(lo, hi), off, n) == le_at(s, lo + off, n),
    decreases n,
{
    if n > 0 {
        lemma_le_at_subrange(s, lo, hi, off + 1, (n - 1) as nat);
    }
}

/// Where the parts of a record lie in the memory image, once checked.
struct Plan {
    header: usize,
    has_mmap: bool,
    has_drives: bool,
    mmap_length: u32,
    mmap_from: usize,
    drives_length: u32,
    drives_from: usize,
}

impl Plan {
    /// The plan describes the record at `info` of the image and the copy
    /// fits in `dest_len` bytes at `dest_addr`.
    spec fn locates(self, mem: Seq<u8>, base: int, info: int, dest_len: int, dest_addr: int) -> bool {
        let hdr = source_header(mem, base, info);
        &&& relocation_error(mem, base, info, dest_len, dest_addr) is None
        &&& self.header == info - base
        &&& self.header + MULTIBOOT_INFO_SIZE <= mem.len()
        &&& self.has_mmap == has_flag(hdr, MULTIBOOT_INFO_MEM_MAP)
        &&& self.has_drives == has_flag(hdr, MULTIBOOT_INFO_DRIVE_INFO)
        &&& self.mmap_length == mmap_len(hdr)
        &&& self.drives_length == drives_len(hdr)
        &&& self.mmap_from + self.mmap_length <= mem.len()
        &&& self.drives_from + self.drives_length <= mem.len()
        &&& mem.subrange(self.mmap_from as int, self.mmap_from + self.mmap_length) == image_bytes(
            mem,
            base,
            le_at(hdr, MMAP_ADDR_OFFSET as int, 4),
            mmap_len(hdr),
        )
        &&& mem.subrange(self.drives_from as int, self.drives_from + self.drives_length)
            == image_bytes(mem, base, le_at(hdr, DRIVES_ADDR_OFFSET as int, 4), drives_len(hdr))
        &&& relocated_size(hdr) <= dest_len
        &&& dest_addr + relocated_size(hdr) <= u32::MAX
    }
}

/// Finds the parts of the record at `info` and checks that relocating them
/// into `dest_len` bytes at `dest_addr` can succeed.
fn plan_relocation(mem: &[u8], mem_base: u32, info: u32, dest_len: usize, dest_addr: u32) -> (r:
    Result<Plan, RelocateError>)
    ensures
        match relocation_error(mem@, mem_base as int, info as int, dest_len as int, dest_addr as int) {
            Some(e) => r == Err::<Plan, RelocateError>(e),
            None => match r {
                Ok(p) => p.locates(mem@, mem_base as int, info as int, dest_len as int, dest_addr as int),
                Err(_) => false,
            },
        },
{
    let mem_len = mem.len();
    if !image_holds(mem, mem_base, info, MULTIBOOT_INFO_SIZE as u32) {
        return Err(RelocateError::SourceOutOfRange);
    }
    let h = (info - mem_base) as usize;
    let ghost hdr = source_header(mem@, mem_base as int, info as int);
    proof {
        lemma_le_at_subrange(mem@, h as int, h + MULTIBOOT_INFO_SIZE, 0, 4);
        lemma_le_at_subrange(mem@, h as int, h + MULTIBOOT_INFO_SIZE, MMAP_LENGTH_OFFSET as int, 4);
        lemma_le_at_subrange(mem@, h as int, h + MULTIBOOT_INFO_SIZE, MMAP_ADDR_OFFSET as int, 4);
        lemma_le_at_subrange(mem@, h as int, h + MULTIBOOT_INFO_SIZE, DRIVES_LENGTH_OFFSET as int, 4);
        lemma_le_at_subrange(mem@, h as int, h + MULTIBOOT_INFO_SIZE, DRIVES_ADDR_OFFSET as int, 4);
    }
    let flags = read_u32(mem, h);
    let has_mmap = present(flags, MULTIBOOT_INFO_MEM_MAP);
    let has_drives = present(flags, MULTIBOOT_INFO_DRIVE_INFO);
    let mmap_length: u32 = if has_mmap {
        read_u32(mem, h + MMAP_LENGTH_OFFSET)
    } else {
        0
    };
    let mmap_addr = read_u32(mem, h + MMAP_ADDR_OFFSET);
    let drives_length: u32 = if has_drives {
        read_u32(mem, h + DRIVES_LENGTH_OFFSET)
    } else {
        0
    };
    let drives_addr = read_u32(mem, h + DRIVES_ADDR_OFFSET);
    if mmap_length > 0 && !image_holds(mem, mem_base, mmap_addr, mmap_length) {
        return Err(RelocateError::SourceOutOfRange);
    }
    if drives_length > 0 && !image_holds(mem, mem_base, drives_addr, drives_length) {
        return Err(RelocateError::SourceOutOfRange);
    }
    let total: u64 = MULTIBOOT_INFO_SIZE as u64 + mmap_length as u64 + drives_length as u64;
    if total > dest_len as u64 {
        return Err(RelocateError::CapacityExceeded);
    }
    if dest_addr as u64 + total > u32::MAX as u64 {
        return Err(RelocateError::AddressOverflow);
    }
    let mmap_from: usize = if mmap_length == 0 {
        0
    } else {
        (mmap_addr - mem_base) as usize
    };
    let drives_from: usize = if drives_length == 0 {
        0
    } else {
        (drives_addr - mem_base) as usize
    };
    proof {
        assert(mem@.subrange(mmap_from as int, mmap_from + mmap_length) =~= image_bytes(
            mem@,
            mem_base as int,
            le_at(hdr, MMAP_ADDR_OFFSET as int, 4),
            mmap_len(hdr),
        ));
        assert(mem@.subrange(drives_from as int, drives_from + drives_length) =~= image_bytes(
            mem@,
            mem_base as int,
            le_at(hdr, DRIVES_ADDR_OFFSET as int, 4),
            drives_len(hdr),
        ));
    }
    Ok(
        Plan {
            header: h,
            has_mmap,
            has_drives,
            mmap_length,
            mmap_from,
            drives_length,
            drives_from,
        },
    )
}

/// Relocates the boot-information record at address `info` of the memory
/// image `mem`, which is loaded at address `mem_base`, into `destination`,
/// which lies at address `dest_addr`.
///
/// The fixed record is copied byte for byte. If the memory-map flag is set,
/// the memory map is copied right after the record and the record's
/// `mmap_addr` is rewritten to that copy; if the drive flag is set, the
/// drive table is copied right after that and `drives_addr` is rewritten to
/// it. Returns the number of bytes written. Nothing is written when the
/// record or a tail lies outside the image, when `destination` is too small,
/// or when the copy would reach the end of the 32-bit address space.
#[verifier::rlimit(60)]
pub fn _save_multiboot_info(
    mem: &[u8],
    mem_base: u32,
    info: u32,
    destination: &mut Vec<u8>,
    dest_addr: u32,
) -> (r: Result<usize, RelocateError>)
    ensures
        match relocation_error(
            mem@,
            mem_base as int,
            info as int,
            old(destination)@.len() as int,
            dest_addr as int,
        ) {
            Some(e) => r == Err::<usize, RelocateError>(e) && final(destination)@ == old(
                destination,
            )@,
            None => {
                let size = relocated_size(source_header(mem@, mem_base as int, info as int));
                &&& r == Ok::<usize, RelocateError>(size as usize)
                &&& final(destination)@ == relocated(
                    mem@,
                    mem_base as int,
                    info as int,
                    dest_addr as int,
                ) + old(destination)@.subrange(size, old(destination)@.len() as int)
            },
        },
{
    let p = match plan_relocation(mem, mem_base, info, destination.len(), dest_addr) {
        Ok(p) => p,
        Err(e) => {
            return Err(e);
        },
    };
    let ghost hdr = source_header(mem@, mem_base as int, info as int);
    let ghost old_dest = destination@;
    let ghost len = old_dest.len() as int;
    let ghost mbytes = mem@.subrange(p.mmap_from as int, p.mmap_from + p.mmap_length);
    let ghost dbytes = mem@.subrange(p.drives_from as int, p.drives_from + p.drives_length);

    let mut current = _save_subset(destination, 0, mem, p.header, MULTIBOOT_INFO_SIZE);
    assert(destination@ =~= hdr + old_dest.subrange(MULTIBOOT_INFO_SIZE as int, len));
    let ghost h1 = if p.has_mmap {
        patch(hdr, MMAP_ADDR_OFFSET as int, le_bytes((dest_addr + MULTIBOOT_INFO_SIZE) as u32))
    } else {
        hdr
    };
    if p.has_mmap {
        write_u32(destination, MMAP_ADDR_OFFSET, dest_addr + MULTIBOOT_INFO_SIZE as u32);
    }
    assert(destination@ =~= h1 + old_dest.subrange(MULTIBOOT_INFO_SIZE as int, len));

    current = current + _save_subset(destination, current, mem, p.mmap_from, p.mmap_length as usize);
    assert(destination@ =~= h1 + mbytes + old_dest.subrange(current as int, len));

    let ghost h2 = if p.has_drives {
        patch(h1, DRIVES_ADDR_OFFSET as int, le_bytes((dest_addr + current) as u32))
    } else {
        h1
    };
    if p.has_drives {
        write_u32(destination, DRIVES_ADDR_OFFSET, dest_addr + current as u32);
        assert(destination@ =~= h2 + mbytes + old_dest.subrange(current as int, len));
        current = current + _save_subset(
            destination,
            current,
            mem,
            p.drives_from,
            p.drives_length as usize,
        );
    }
    assert(destination@ =~= h2 + mbytes + dbytes + old_dest.subrange(current as int, len));
    Ok(current)
}

/// Relocation keeps the fixed record byte for byte except for its tail
/// pointers. Re-read from the copy, `mmap_addr` is `dest_addr + 120` when
/// the memory-map flag is set, and `drives_addr` is `dest_addr + 120 +
/// mmap_length` when the drive flag is set as well; every other byte, and
/// so `flags`, reads as in the source. The memory map and the drive table
/// follow the record in that order.
pub proof fn lemma_relocated_record(
    mem: Seq<u8>,
    base: int,
    info: int,
    dest_len: int,
    dest_addr: int,
)
    requires
        relocation_error(mem, base, info, dest_len, dest_addr) is None,
        dest_addr >= 0,
    ensures
        relocated(mem, base, info, dest_addr).len() == relocated_size(
            source_header(mem, base, info),
        ),
        forall|o: int|
            0 <= o < MULTIBOOT_INFO_SIZE && !(has_flag(
                source_header(mem, base, info),
                MULTIBOOT_INFO_MEM_MAP,
            ) && MMAP_ADDR_OFFSET <= o < MMAP_ADDR_OFFSET + 4) && !(has_flag(
                source_header(mem, base, info),
                MULTIBOOT_INFO_DRIVE_INFO,
            ) && DRIVES_ADDR_OFFSET <= o < DRIVES_ADDR_OFFSET + 4) ==> #[trigger] relocated(
                mem,
                base,
                info,
                dest_addr,
            )[o] == source_header(mem, base, info)[o],
        decode_info(relocated(mem, base, info, dest_addr)).flags == decode_info(
            source_header(mem, base, info),
        ).flags,
        has_flag(source_header(mem, base, info), MULTIBOOT_INFO_MEM_MAP) ==> decode_info(
            relocated(mem, base, info, dest_addr),
        ).mmap_addr == dest_addr + MULTIBOOT_INFO_SIZE,
        has_flag(source_header(mem, base, info), MULTIBOOT_INFO_MEM_MAP) && has_flag(
            source_header(mem, base, info),
            MULTIBOOT_INFO_DRIVE_INFO,
        ) ==> decode_info(relocated(mem, base, info, dest_addr)).drives_addr == dest_addr
            + MULTIBOOT_INFO_SIZE + decode_info(source_header(mem, base, info)).mmap_length,
        relocated(mem, base, info, dest_addr).subrange(
            MULTIBOOT_INFO_SIZE as int,
            MULTIBOOT_INFO_SIZE + mmap_len(source_header(mem, base, info)),
        ) == image_bytes(
            mem,
            base,
            le_at(source_header(mem, base, info), MMAP_ADDR_OFFSET as int, 4),
            mmap_len(source_header(mem, base, info)),
        ),
        relocated(mem, base, info, dest_addr).subrange(
            MULTIBOOT_INFO_SIZE + mmap_len(source_header(mem, base, info)),
            relocated_size(source_header(mem, base, info)),
        ) == image_bytes(
            mem,
            base,
            le_at(source_header(mem, base, info), DRIVES_ADDR_OFFSET as int, 4),
            drives_len(source_header(mem, base, info)),
        ),
{
    let h = source_header(mem, base, info);
    let c = relocated(mem, base, info, dest_addr);
    let mbytes = image_bytes(mem, base, le_at(h, MMAP_ADDR_OFFSET as int, 4), mmap_len(h));
    let dbytes = image_bytes(mem, base, le_at(h, DRIVES_ADDR_OFFSET as int, 4), drives_len(h));
    let mmap_dest = dest_addr + MULTIBOOT_INFO_SIZE;
    let drives_dest = mmap_dest + mmap_len(h);
    reveal_with_fuel(le_at, 5);
    lemma_le_bytes_roundtrip(mmap_dest as u32);
    lemma_le_bytes_roundtrip(drives_dest as u32);
    assert(c.subrange(MULTIBOOT_INFO_SIZE as int, MULTIBOOT_INFO_SIZE + mmap_len(h)) =~= mbytes);
    assert(c.subrange(MULTIBOOT_INFO_SIZE + mmap_len(h), relocated_size(h)) =~= dbytes);
    assert(le_at(c, 0, 4) == le_at(h, 0, 4));
}

} // verus!
