//! What the kernel takes from the boot memory maps: the page frames it may
//! use, the region of its own image and of the framebuffer.
use vstd::prelude::*;

verus! {

pub const PAGE_SIZE: u64 = 4096;
/// Physical addresses have at most 52 bits.
pub const PHYS_ADDR_LIMIT: u64 = 0x10_0000_0000_0000;

/// EFI memory types whose frames the kernel may take.
pub const EFI_LOADER_CODE: u32 = 1;
pub const EFI_LOADER_DATA: u32 = 2;
pub const EFI_BOOT_SERVICES_CODE: u32 = 3;
pub const EFI_BOOT_SERVICES_DATA: u32 = 4;
pub const EFI_CONVENTIONAL_MEMORY: u32 = 7;

pub open spec fn align_up_spec(a: int) -> int {
    (a + 4095) / 4096 * 4096
}

pub open spec fn align_down_spec(a: int) -> int {
    a / 4096 * 4096
}

/// `a` rounded up to a page boundary.
pub fn page_align_up(a: u64) -> (r: u64)
    requires
        a < PHYS_ADDR_LIMIT,
    ensures
        r == align_up_spec(a as int),
        r % 4096 == 0,
        a <= r < a + 4096,
{
    (a + 4095) / 4096 * 4096
}

/// `a` rounded down to a page boundary.
pub fn page_align_down(a: u64) -> (r: u64)
    ensures
        r == align_down_spec(a as int),
        r % 4096 == 0,
        r <= a < r + 4096,
{
    a / 4096 * 4096
}

/// An area of a Multiboot2 memory map.
#[derive(Copy, Clone, Debug, PartialEq, Eq)]
pub struct Multiboot2Area {
    pub start: u64,
    pub end: u64,
    /// The area is marked available.
    pub available: bool,
}

/// A range of page frames, `[start, end)` as byte addresses.
#[derive(Copy, Clone, Debug, PartialEq, Eq)]
pub struct FrameRange {
    pub start: u64,
    pub end: u64,
    /// The frames may be write-protected and must be made writable first.
    pub unprotect: bool,
}

pub open spec fn mb2_range(a: Multiboot2Area) -> FrameRange {
    FrameRange { start: align_up_spec(a.start as int) as u64, end: align_down_spec(a.end as int) as u64, unprotect: false }
}

/// The whole frames inside the available areas, in map order.
pub open spec fn usable_mb2(s: Seq<Multiboot2Area>) -> Seq<FrameRange>
    decreases s.len(),
{
    if s.len() == 0 {
        Seq::empty()
    } else if s.last().available {
        usable_mb2(s.drop_last()).push(mb2_range(s.last()))
    } else {
        usable_mb2(s.drop_last())
    }
}

/// The frames of a Multiboot2 memory map that the kernel may use.
pub fn scan_multiboot2_memory_map(areas: &Vec<Multiboot2Area>) -> (r: Vec<FrameRange>)
    requires
        forall|i: int| 0 <= i < areas@.len() && #[trigger] areas@[i].available
            ==> areas@[i].start < PHYS_ADDR_LIMIT && areas@[i].end < PHYS_ADDR_LIMIT,
    ensures
        r@ == usable_mb2(areas@),
{
    let mut r: Vec<FrameRange> = Vec::new();
    let mut i: usize = 0;
    while i < areas.len()
        invariant
            i <= areas.len(),
            r@ == usable_mb2(areas@.take(i as int)),
            forall|j: int| 0 <= j < areas@.len() && #[trigger] areas@[j].available
                ==> areas@[j].start < PHYS_ADDR_LIMIT && areas@[j].end < PHYS_ADDR_LIMIT,
        decreases areas.len() - i,
    {
        let a = areas[i];
        assert(areas@.take(i + 1).drop_last() == areas@.take(i as int));
        if a.available {
            r.push(FrameRange { start: page_align_up(a.start), end: page_align_down(a.end), unprotect: false });
        }
        i = i + 1;
    }
    assert(areas@.take(areas.len() as int) == areas@);
    r
}

/// The ranges found in a Multiboot2 memory map are page aligned and lie
/// inside their areas.
pub proof fn lemma_mb2_ranges_aligned(s: Seq<Multiboot2Area>)
    requires
        forall|i: int| 0 <= i < s.len() && #[trigger] s[i].available
            ==> s[i].start < PHYS_ADDR_LIMIT && s[i].end < PHYS_ADDR_LIMIT,
    ensures
        forall|j: int| 0 <= j < usable_mb2(s).len() ==> {
            &&& #[trigger] usable_mb2(s)[j].start % 4096 == 0
            &&& usable_mb2(s)[j].end % 4096 == 0
            &&& exists|i: int| 0 <= i < s.len() && s[i].available
                && s[i].start <= usable_mb2(s)[j].start && usable_mb2(s)[j].end <= s[i].end
        },
    decreases s.len(),
{
    if s.len() > 0 {
        let t = s.drop_last();
        assert forall|i: int| 0 <= i < t.len() && #[trigger] t[i].available
            implies t[i].start < PHYS_ADDR_LIMIT && t[i].end < PHYS_ADDR_LIMIT by {
            assert(s[i] == t[i]);
        }
        lemma_mb2_ranges_aligned(t);
        let a = s.last();
        let u = usable_mb2(s);
        assert forall|j: int| 0 <= j < u.len() implies {
            &&& #[trigger] u[j].start % 4096 == 0
            &&& u[j].end % 4096 == 0
            &&& exists|i: int| 0 <= i < s.len() && s[i].available && s[i].start <= u[j].start && u[j].end <= s[i].end
        } by {
            if a.available && j == u.len() - 1 {
                assert(s[s.len() - 1].available);
                let st = a.start as int;
                let en = a.end as int;
                assert((st + 4095) / 4096 * 4096 % 4096 == 0 && st <= (st + 4095) / 4096 * 4096) by (nonlinear_arith)
                    requires st >= 0;
                assert(en / 4096 * 4096 % 4096 == 0 && en / 4096 * 4096 <= en) by (nonlinear_arith)
                    requires en >= 0;
                assert((st + 4095) / 4096 * 4096 < PHYS_ADDR_LIMIT + 4096) by (nonlinear_arith)
                    requires st < PHYS_ADDR_LIMIT;
                assert(s[s.len() - 1].start <= u[j].start && u[j].end <= s[s.len() - 1].end);
            } else {
                assert(u[j] == usable_mb2(t)[j]);
                let i = choose|i: int| 0 <= i < t.len() && t[i].available && t[i].start <= usable_mb2(t)[j].start && usable_mb2(t)[j].end <= t[i].end;
                assert(s[i] == t[i]);
            }
        }
    }
}

/// A descriptor of an EFI memory map.
#[derive(Copy, Clone, Debug, PartialEq, Eq)]
pub struct EfiArea {
    pub ty: u32,
    pub phys_start: u64,
    pub page_count: u64,
}

pub open spec fn efi_usable_type(ty: u32) -> bool {
    ty == EFI_CONVENTIONAL_MEMORY || ty == EFI_LOADER_CODE || ty == EFI_LOADER_DATA
        || ty == EFI_BOOT_SERVICES_CODE || ty == EFI_BOOT_SERVICES_DATA
}

pub open spec fn efi_range(a: EfiArea) -> FrameRange {
    let start = align_up_spec(a.phys_start as int);
    FrameRange {
        start: start as u64,
        end: (start + a.page_count * 4096) as u64,
        unprotect: a.ty != EFI_CONVENTIONAL_MEMORY,
    }
}

/// Areas that a usable EFI descriptor covers lie below the physical
/// address limit.
pub open spec fn efi_area_fits(a: EfiArea) -> bool {
    a.phys_start < PHYS_ADDR_LIMIT && align_up_spec(a.phys_start as int) + a.page_count * 4096 < PHYS_ADDR_LIMIT
}

/// The frames of free, loader and boot services memory, in map order;
/// all but free memory must be unprotected first.
pub open spec fn usable_efi(s: Seq<EfiArea>) -> Seq<FrameRange>
    decreases s.len(),
{
    if s.len() == 0 {
        Seq::empty()
    } else if efi_usable_type(s.last().ty) {
        usable_efi(s.drop_last()).push(efi_range(s.last()))
    } else {
        usable_efi(s.drop_last())
    }
}

/// The frames of an EFI memory map that the kernel may use.
pub fn scan_efi_memory_map(areas: &Vec<EfiArea>) -> (r: Vec<FrameRange>)
    requires
        forall|i: int| 0 <= i < areas@.len() && efi_usable_type(#[trigger] areas@[i].ty)
            ==> efi_area_fits(areas@[i]),
    ensures
        r@ == usable_efi(areas@),
{
    let mut r: Vec<FrameRange> = Vec::new();
    let mut i: usize = 0;
    while i < areas.len()
        invariant
            i <= areas.len(),
            r@ == usable_efi(areas@.take(i as int)),
            forall|j: int| 0 <= j < areas@.len() && efi_usable_type(#[trigger] areas@[j].ty)
                ==> efi_area_fits(areas@[j]),
        decreases areas.len() - i,
    {
        let a = areas[i];
        assert(areas@.take(i + 1).drop_last() == areas@.take(i as int));
        if a.ty == EFI_CONVENTIONAL_MEMORY || a.ty == EFI_LOADER_CODE || a.ty == EFI_LOADER_DATA
            || a.ty == EFI_BOOT_SERVICES_CODE || a.ty == EFI_BOOT_SERVICES_DATA {
            assert(efi_area_fits(areas@[i as int]));
            let start = page_align_up(a.phys_start);
            r.push(FrameRange { start, end: start + a.page_count * 4096, unprotect: a.ty != EFI_CONVENTIONAL_MEMORY });
        }
        i = i + 1;
    }
    assert(areas@.take(areas.len() as int) == areas@);
    r
}

/// The frames of the kernel image, from its page-aligned start to its end
/// rounded up.
pub fn kernel_image_region(data_start: u64, data_end: u64) -> (r: (u64, u64))
    requires
        data_start % 4096 == 0,
        data_end < PHYS_ADDR_LIMIT,
    ensures
        r == (data_start, align_up_spec(data_end as int) as u64),
{
    (data_start, page_align_up(data_end))
}

/// The pages of a framebuffer at the page-aligned `address` with `height`
/// lines of `pitch` bytes: `[address, address + height * pitch)` rounded up.
pub fn framebuffer_region(address: u64, height: u32, pitch: u32) -> (r: (u64, u64))
    requires
        address % 4096 == 0,
        address + height * pitch < PHYS_ADDR_LIMIT,
    ensures
        r == (address, align_up_spec(address + height * pitch) as u64),
{
    let size: u64 = height as u64 * pitch as u64;
    assert(size == height * pitch) by (nonlinear_arith)
        requires size == height as u64 * pitch as u64, height <= u32::MAX, pitch <= u32::MAX;
    (address, page_align_up(address + size))
}

/// The byte pattern that the boot self test writes to a drive: byte `i`
/// holds `i` modulo 256.
pub open spec fn is_test_pattern(s: Seq<u8>) -> bool {
    forall|i: int| 0 <= i < s.len() ==> s[i] == i % 256
}

/// Fills `buf` with the test pattern.
pub fn fill_test_pattern(buf: &mut Vec<u8>)
    ensures
        final(buf)@.len() == old(buf)@.len(),
        is_test_pattern(final(buf)@),
{
    let mut i: usize = 0;
    while i < buf.len()
        invariant
            i <= buf.len(),
            buf@.len() == old(buf)@.len(),
            forall|j: int| 0 <= j < i ==> buf@[j] == j % 256,
        decreases buf.len() - i,
    {
        buf.set(i, (i % 256) as u8);
        i = i + 1;
    }
}

/// Whether `buf` holds the test pattern: the data read back is intact.
pub fn matches_test_pattern(buf: &Vec<u8>) -> (r: bool)
    ensures
        r == is_test_pattern(buf@),
{
    let mut i: usize = 0;
    while i < buf.len()
        invariant
            i <= buf.len(),
            forall|j: int| 0 <= j < i ==> buf@[j] == j % 256,
        decreases buf.len() - i,
    {
        if buf[i] != (i % 256) as u8 {
            return false;
        }
        i = i + 1;
    }
    true
}


/// Scanning one more EFI descriptor: an area of conventional memory (type
/// 7), loader code or data (1, 2) or boot services code or data (3, 4)
/// adds its frames, from its start rounded up to a page for its page count,
/// to be unprotected unless it is conventional memory; an area of any other
/// type adds nothing.
pub proof fn lemma_usable_efi_push(s: Seq<EfiArea>, a: EfiArea)
    ensures
        (a.ty == 1 || a.ty == 2 || a.ty == 3 || a.ty == 4 || a.ty == 7) ==> usable_efi(s.push(a)) == usable_efi(s).push(
            FrameRange {
                start: ((a.phys_start + 4095) / 4096 * 4096) as u64,
                end: ((a.phys_start + 4095) / 4096 * 4096 + a.page_count * 4096) as u64,
                unprotect: a.ty != 7,
            },
        ),
        !(a.ty == 1 || a.ty == 2 || a.ty == 3 || a.ty == 4 || a.ty == 7) ==> usable_efi(s.push(a)) == usable_efi(s),
{
    assert(s.push(a).drop_last() =~= s);
    assert(s.push(a).last() == a);
}

/// The scan keeps one range for each usable area and nothing else: the
/// number of ranges is the number of descriptors of types 1, 2, 3, 4 and 7.
pub open spec fn usable_efi_count(s: Seq<EfiArea>) -> nat
    decreases s.len(),
{
    if s.len() == 0 {
        0
    } else {
        usable_efi_count(s.drop_last()) + if s.last().ty == 1 || s.last().ty == 2 || s.last().ty == 3
            || s.last().ty == 4 || s.last().ty == 7 {
            1nat
        } else {
            0nat
        }
    }
}

/// The scan keeps one range for each descriptor of types 1, 2, 3, 4 and 7.
pub proof fn lemma_usable_efi_len(s: Seq<EfiArea>)
    ensures
        usable_efi(s).len() == usable_efi_count(s),
    decreases s.len(),
{
    if s.len() > 0 {
        lemma_usable_efi_len(s.drop_last());
    }
}

} // verus!
