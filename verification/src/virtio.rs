//! VirtIO helpers: page arithmetic, descriptor flags, region overlap and the
//! GPU control queue interface.
use vstd::prelude::*;

verus! {

pub const PAGE_SIZE: usize = 4096;

/// The descriptor continues via its `next` field.
pub const VIRTQ_DESC_F_NEXT: u16 = 1;
/// The buffer is device write-only (otherwise device read-only).
pub const VIRTQ_DESC_F_WRITE: u16 = 2;
/// The buffer holds a list of buffer descriptors.
pub const VIRTQ_DESC_F_INDIRECT: u16 = 4;

pub const VIRTQUEUE_SIZE: usize = 64;

/// Errors of the VirtIO GPU driver.
#[derive(Copy, Clone, Debug, Eq, PartialEq)]
pub enum VirtioGpuError {
    /// Insufficient descriptors available in the virtqueue. Try again later.
    QueueExhausted,
    /// Device is not in a ready state.
    Unavailable,
    /// Mismatch between expected and received descriptor chains.
    DescriptorMismatch,
    /// The queue is currently occupied.
    QueueOccupied,
    /// Provided parameter is invalid.
    BadParameter,
    /// DMA memory allocation failure.
    DmaFailure,
    /// General I/O operation failure.
    IoFailure,
    /// The device does not support this request.
    NotSupported,
    /// Device configuration space is smaller than expected.
    InsufficientConfigSpace,
    /// The device lacks configuration space, but it was expected.
    MissingConfigSpace,
}

/// The message of each error.
pub open spec fn error_message(e: VirtioGpuError) -> Seq<char> {
    match e {
        VirtioGpuError::QueueExhausted => "Virtqueue lacks available descriptors"@,
        VirtioGpuError::Unavailable => "Device is not initialized or ready"@,
        VirtioGpuError::DescriptorMismatch => "Unexpected descriptor chain used by device"@,
        VirtioGpuError::QueueOccupied => "Virtqueue is already occupied"@,
        VirtioGpuError::BadParameter => "Invalid input parameter"@,
        VirtioGpuError::DmaFailure => "Unable to allocate DMA memory"@,
        VirtioGpuError::IoFailure => "I/O operation failed"@,
        VirtioGpuError::NotSupported => "Operation not supported by device"@,
        VirtioGpuError::InsufficientConfigSpace => "Advertised config space is too small"@,
        VirtioGpuError::MissingConfigSpace => "Expected configuration space is missing"@,
    }
}

impl VirtioGpuError {
    /// The message of the error.
    pub fn message(&self) -> (r: &'static str)
        ensures
            r@ == error_message(*self),
    {
        match self {
            VirtioGpuError::QueueExhausted => "Virtqueue lacks available descriptors",
            VirtioGpuError::Unavailable => "Device is not initialized or ready",
            VirtioGpuError::DescriptorMismatch => "Unexpected descriptor chain used by device",
            VirtioGpuError::QueueOccupied => "Virtqueue is already occupied",
            VirtioGpuError::BadParameter => "Invalid input parameter",
            VirtioGpuError::DmaFailure => "Unable to allocate DMA memory",
            VirtioGpuError::IoFailure => "I/O operation failed",
            VirtioGpuError::NotSupported => "Operation not supported by device",
            VirtioGpuError::InsufficientConfigSpace => "Advertised config space is too small",
            VirtioGpuError::MissingConfigSpace => "Expected configuration space is missing",
        }
    }
}

/// Who may access a DMA buffer.
#[derive(Copy, Clone, Debug, Eq, PartialEq)]
pub enum BufferDirection {
    /// Read-write for the driver, read-only for the device.
    DriverToDevice,
    /// Read-write for the device, read-only for the driver.
    DeviceToDriver,
    /// Read-write for both.
    Both,
}

/// `size` plus one page, rounded down to a page boundary: the end of the
/// page after the one that holds the last byte.
pub fn align_up(size: usize) -> (r: usize)
    requires
        size + PAGE_SIZE <= usize::MAX,
    ensures
        r == (size + 4096) / 4096 * 4096,
{
    let r = (size + PAGE_SIZE) & !(PAGE_SIZE - 1);
    let x = size + PAGE_SIZE;
    assert(x & !(4095usize) == x / 4096 * 4096) by (bit_vector);
    r
}

/// The number of pages needed for `size` bytes.
pub fn pages(size: usize) -> (r: usize)
    ensures
        r == (size + 4095) / 4096,
{
    size / PAGE_SIZE + if size % PAGE_SIZE == 0 { 0 } else { 1 }
}

/// Whether the half-open ranges `[a_start, a_end)` and `[b_start, b_end)`
/// overlap.
pub fn overlaps(a_start: u64, a_end: u64, b_start: u64, b_end: u64) -> (r: bool)
    ensures
        r == !(a_end <= b_start || b_end <= a_start),
{
    !(a_end <= b_start || b_end <= a_start)
}

pub open spec fn in_range(x: int, start: int, end: int) -> bool {
    start <= x < end
}

/// Non-empty half-open ranges overlap exactly when they share an address.
pub proof fn lemma_overlaps_iff_common_point(a_start: int, a_end: int, b_start: int, b_end: int)
    requires
        a_start < a_end,
        b_start < b_end,
    ensures
        !(a_end <= b_start || b_end <= a_start) <==> exists|x: int| #[trigger] in_range(x, a_start, a_end) && in_range(x, b_start, b_end),
{
    if !(a_end <= b_start || b_end <= a_start) {
        let x = if a_start >= b_start { a_start } else { b_start };
        assert(in_range(x, a_start, a_end) && in_range(x, b_start, b_end));
    }
}

/// The header of a VirtIO GPU control command.
#[derive(Copy, Clone, Debug, Eq, PartialEq)]
pub struct VirtioGpuCtrlHdr {
    pub type_: u32,
    pub flags: u32,
    pub fence_id: u64,
    pub ctx_id: u32,
    pub ring_idx: u8,
}

impl VirtioGpuCtrlHdr {
    /// A header of the given command type, without flags or fence.
    pub fn with_type(type_: u32) -> (r: Self)
        ensures
            r == (VirtioGpuCtrlHdr { type_, flags: 0, fence_id: 0, ctx_id: 0, ring_idx: 0 }),
    {
        Self { type_, flags: 0, fence_id: 0, ctx_id: 0, ring_idx: 0 }
    }
}

/// A command for the GPU control queue.
#[derive(Copy, Clone, Debug, Eq, PartialEq)]
pub struct Command {}

/// A response from the GPU control queue.
#[derive(Copy, Clone, Debug, Eq, PartialEq)]
pub struct Response {}

/// The GPU control queue; it neither holds descriptors nor talks to a
/// device yet, so nothing is ever answered.
#[derive(Copy, Clone, Debug, Eq, PartialEq)]
pub struct VirtioGpuQueue {}

impl VirtioGpuQueue {
    pub fn new(size: usize) -> (r: Self)
        ensures
            r == (VirtioGpuQueue {}),
    {
        Self {}
    }

    /// Accepts a command; no descriptor is written.
    pub fn push_command(&mut self, cmd: &Command)
        ensures
            *final(self) == *old(self),
    {
    }

    /// There is never a response.
    pub fn pop_response(&mut self) -> (r: Option<Response>)
        ensures
            r is None,
            *final(self) == *old(self),
    {
        None
    }
}

/// An entry of the virtqueue descriptor table.
#[derive(Copy, Clone, Debug, PartialEq, Eq)]
pub struct Descriptor {
    pub address: u64,
    pub length: u32,
    pub flags: u16,
    pub next: u16,
}

/// An element of the used ring: which descriptor chain the device used and
/// how many bytes it wrote.
#[derive(Copy, Clone, Debug, PartialEq, Eq)]
pub struct UsedRingElement {
    pub id: u32,
    pub length: u32,
}

/// The ring in which the driver offers descriptor chains to the device.
pub struct AvailableRing {
    pub flags: u16,
    pub index: u16,
    pub ring: Vec<u16>,
    pub used_event: u16,
}

/// The ring in which the device returns used descriptor chains.
pub struct UsedRing {
    pub flags: u16,
    pub index: u16,
    pub ring: Vec<UsedRingElement>,
    pub avail_event: u16,
}

/// A virtqueue with its descriptor table and both rings.
pub struct VirtioQueue {
    pub queue_size: u16,
    pub descriptors: Vec<Descriptor>,
    pub available: AvailableRing,
    pub used: UsedRing,
    pub last_used_idx: u16,
    pub last_avail_idx: u16,
    pub buffer: Vec<u16>,
    pub chunk_size: u32,
    pub next_buffer: u16,
    pub lock: u64,
}

/// The vendor-specific PCI capability that VirtIO devices use.
pub const PCI_CAP_ID_VNDR: u8 = 0x09;
/// Capabilities that are read at most.
pub const MAX_VIRTIO_CAPS: usize = 16;
/// Status register bit: the capability list is present.
pub const PCI_STATUS_CAP_LIST: u16 = 0x10;

/// A VirtIO capability from the PCI configuration space.
#[derive(Copy, Clone, Debug, PartialEq, Eq)]
pub struct PciCapability {
    pub cap_vndr: u8,
    pub cap_next: u8,
    pub cap_len: u8,
    pub cfg_type: u8,
    pub bar: u8,
    pub id: u8,
    pub offset: u32,
    pub length: u32,
}

/// The notification capability and its queue notify multiplier.
#[derive(Copy, Clone, Debug, PartialEq, Eq)]
pub struct VirtioPciNotifyCap {
    pub cap: PciCapability,
    pub notify_off_multiplier: u32,
}

pub open spec fn le16(c: Seq<u8>, i: int) -> int {
    c[i] + c[i + 1] * 0x100
}

pub open spec fn le32(c: Seq<u8>, i: int) -> int {
    c[i] + c[i + 1] * 0x100 + c[i + 2] * 0x1_0000 + c[i + 3] * 0x100_0000
}

/// The capability whose header is at `base` of configuration space `c`.
pub open spec fn capability_at(c: Seq<u8>, base: int) -> PciCapability {
    PciCapability {
        cap_vndr: c[base],
        cap_next: c[base + 1],
        cap_len: c[base + 2],
        cfg_type: c[base + 3],
        bar: c[base + 4],
        id: c[base + 5],
        offset: le32(c, base + 8) as u32,
        length: le32(c, base + 12) as u32,
    }
}

/// The vendor-specific capabilities of the list that starts at `ptr`,
/// visiting at most `budget` entries.
pub open spec fn capabilities_from(c: Seq<u8>, ptr: u8, budget: nat) -> Seq<PciCapability>
    decreases budget,
{
    if ptr == 0 || budget == 0 {
        Seq::empty()
    } else {
        let rest = capabilities_from(c, c[ptr + 1], (budget - 1) as nat);
        if c[ptr as int] == PCI_CAP_ID_VNDR {
            seq![capability_at(c, ptr as int)] + rest
        } else {
            rest
        }
    }
}

/// All vendor-specific capabilities of a device, from its configuration
/// space: none unless the status register announces a capability list.
pub open spec fn virtio_capabilities(c: Seq<u8>) -> Seq<PciCapability> {
    if (le16(c, 0x06) as u16) & PCI_STATUS_CAP_LIST == 0 {
        Seq::empty()
    } else {
        capabilities_from(c, c[0x34], MAX_VIRTIO_CAPS as nat)
    }
}

fn read_le32(c: &Vec<u8>, i: usize) -> (r: u32)
    requires
        i + 4 <= c.len(),
    ensures
        r == le32(c@, i as int),
{
    let b0 = c[i] as u32;
    let b1 = c[i + 1] as u32;
    let b2 = c[i + 2] as u32;
    let b3 = c[i + 3] as u32;
    assert(b0 | (b1 << 8u32) | (b2 << 16u32) | (b3 << 24u32) == b0 + b1 * 0x100 + b2 * 0x1_0000 + b3 * 0x100_0000) by (bit_vector)
        requires b0 < 256, b1 < 256, b2 < 256, b3 < 256;
    b0 | (b1 << 8u32) | (b2 << 16u32) | (b3 << 24u32)
}

/// Reads the VirtIO capabilities from a device's configuration space `c`;
/// a capability at offset 255 reaches up to byte 270.
pub fn read_capabilities(c: &Vec<u8>) -> (r: Vec<PciCapability>)
    requires
        c@.len() >= 0x110,
    ensures
        r@ == virtio_capabilities(c@),
{
    let mut caps: Vec<PciCapability> = Vec::new();
    let status: u16 = c[6] as u16 | ((c[7] as u16) << 8u16);
    proof {
        let lo = c@[6] as u16;
        let hi = c@[7] as u16;
        assert(lo | (hi << 8u16) == lo + hi * 0x100) by (bit_vector)
            requires lo < 256, hi < 256;
    }
    if status & PCI_STATUS_CAP_LIST == 0 {
        return caps;
    }
    let mut ptr: u8 = c[0x34];
    let mut count: usize = 0;
    while ptr != 0 && count < MAX_VIRTIO_CAPS
        invariant
            c@.len() >= 0x110,
            count <= MAX_VIRTIO_CAPS,
            caps@ + capabilities_from(c@, ptr, (MAX_VIRTIO_CAPS - count) as nat)
                == capabilities_from(c@, c@[0x34], MAX_VIRTIO_CAPS as nat),
        decreases MAX_VIRTIO_CAPS - count,
    {
        let base = ptr as usize;
        let next = c[base + 1];
        if c[base] == PCI_CAP_ID_VNDR {
            let cap = PciCapability {
                cap_vndr: c[base],
                cap_next: next,
                cap_len: c[base + 2],
                cfg_type: c[base + 3],
                bar: c[base + 4],
                id: c[base + 5],
                offset: read_le32(c, base + 8),
                length: read_le32(c, base + 12),
            };
            assert(cap == capability_at(c@, base as int));
            caps.push(cap);
            assert(caps@ + capabilities_from(c@, next, (MAX_VIRTIO_CAPS - count - 1) as nat)
                == capabilities_from(c@, c@[0x34], MAX_VIRTIO_CAPS as nat)) by {
                let old_caps = caps@.drop_last();
                let rest = capabilities_from(c@, next, (MAX_VIRTIO_CAPS - count - 1) as nat);
                assert(capabilities_from(c@, ptr, (MAX_VIRTIO_CAPS - count) as nat) == seq![cap] + rest);
                assert(old_caps + (seq![cap] + rest) == (old_caps.push(cap)) + rest);
            }
        }
        ptr = next;
        count = count + 1;
    }
    assert(capabilities_from(c@, ptr, (MAX_VIRTIO_CAPS - count) as nat) == Seq::<PciCapability>::empty());
    assert(caps@ + Seq::<PciCapability>::empty() == caps@);
    caps
}

/// What to do with a memory BAR of a VirtIO device.
#[derive(Copy, Clone, Debug, PartialEq, Eq)]
pub enum BarMapping {
    /// Leave the BAR alone.
    Skip,
    /// The BAR overlaps the framebuffer, which is mapped already; map only
    /// the part after the framebuffer, if there is one.
    ReuseFramebuffer(Option<(u64, u64)>),
    /// Map the BAR one to one.
    Identity(u64, u64),
}

pub open spec fn bar_mapping_of(address: u64, size: u64, fb_start: u64, fb_end: u64) -> BarMapping {
    let bar_end = (address + size) as u64;
    if size == 0 || address % 4096 != 0 {
        BarMapping::Skip
    } else if !(bar_end <= fb_start || fb_end <= address) {
        let fb_end_aligned = ((fb_end + 4095) / 4096 * 4096) as u64;
        BarMapping::ReuseFramebuffer(if bar_end > fb_end_aligned { Some((fb_end_aligned, bar_end)) } else { None })
    } else if address == 0 {
        BarMapping::Skip
    } else {
        BarMapping::Identity(address, bar_end)
    }
}

/// Decides how to map the memory BAR `[address, address + size)` given the
/// framebuffer `[fb_start, fb_end)`: empty and unaligned BARs and a BAR at
/// address zero are skipped.
pub fn bar_mapping(address: u64, size: u64, fb_start: u64, fb_end: u64) -> (r: BarMapping)
    requires
        address + size <= u64::MAX,
        fb_end < 0x10_0000_0000_0000,
    ensures
        r == bar_mapping_of(address, size, fb_start, fb_end),
{
    if size == 0 || address % 4096 != 0 {
        return BarMapping::Skip;
    }
    let bar_end = address + size;
    if overlaps(address, bar_end, fb_start, fb_end) {
        let fb_end_aligned = (fb_end + 4095) / 4096 * 4096;
        if bar_end > fb_end_aligned {
            BarMapping::ReuseFramebuffer(Some((fb_end_aligned, bar_end)))
        } else {
            BarMapping::ReuseFramebuffer(None)
        }
    } else if address == 0 {
        BarMapping::Skip
    } else {
        BarMapping::Identity(address, bar_end)
    }
}

/// The interrupt vector of a device's interrupt line; lines 0 and 0xff mean
/// that the device has none.
pub fn interrupt_vector_of_line(line: u8) -> (r: Option<u8>)
    requires
        line != 0 && line != 0xff ==> line + 32 <= 255,
    ensures
        r == (if line == 0 || line == 0xff { None } else { Some((line + 32) as u8) }),
{
    if line != 0 && line != 0xff {
        Some(line + 32)
    } else {
        None
    }
}

} // verus!
