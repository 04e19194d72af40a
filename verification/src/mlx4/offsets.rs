//! Allocation of queue numbers, doorbells, memory keys and MTT entries.
use vstd::prelude::*;
use crate::mlx4::caps::Capabilities;
use crate::mlx4::mailbox::{be_bytes, put, write_be, zero_bytes, zeroed};

verus! {

/// The next free number of each kind of object.
#[derive(Clone, Copy, Debug, PartialEq, Eq)]
pub struct Offsets {
    pub next_cqn: usize,
    pub next_qpn: usize,
    pub next_dmpt: usize,
    pub next_eqn: usize,
    pub next_sqc_doorbell_index: usize,
    pub next_eq_doorbell_index: usize,
}

/// The doorbell index from which send and completion queues allocate.
pub open spec fn first_sqc_doorbell() -> nat {
    128
}

/// The step between two memory keys.
pub open spec fn dmpt_step() -> nat {
    256
}

impl Offsets {
    /// Initialize the queue offsets: the first numbers after the ones that the
    /// firmware reserves.
    pub fn init(caps: &Capabilities) -> (r: Self)
        requires
            caps.log2_rsvd_cqs < usize::BITS,
            caps.log2_rsvd_qps < usize::BITS,
            caps.log2_rsvd_mrws < usize::BITS,
        ensures
            r.next_cqn == 1usize << caps.log2_rsvd_cqs,
            r.next_qpn == 1usize << caps.log2_rsvd_qps,
            r.next_dmpt == 1usize << caps.log2_rsvd_mrws,
            r.next_eqn == caps.num_rsvd_eqs,
            r.next_sqc_doorbell_index == first_sqc_doorbell(),
            // each UAR has 4 EQ doorbells; a reserved EQ blocks its whole UAR
            r.next_eq_doorbell_index == caps.num_rsvd_eqs / 4,
    {
        Offsets {
            next_cqn: 1usize << caps.log2_rsvd_cqs,
            next_qpn: 1usize << caps.log2_rsvd_qps,
            next_dmpt: 1usize << caps.log2_rsvd_mrws,
            next_eqn: caps.num_rsvd_eqs as usize,
            next_sqc_doorbell_index: 128,
            next_eq_doorbell_index: caps.num_rsvd_eqs as usize / 4,
        }
    }

    /// Allocate an event queue number.
    pub fn alloc_eqn(&mut self) -> (r: usize)
        requires
            old(self).next_eqn < usize::MAX,
        ensures
            r == old(self).next_eqn,
            *final(self) == (Offsets { next_eqn: (r + 1) as usize, ..*old(self) }),
    {
        let res = self.next_eqn;
        self.next_eqn = self.next_eqn + 1;
        res
    }

    /// Allocate a completion queue number.
    pub fn alloc_cqn(&mut self) -> (r: usize)
        requires
            old(self).next_cqn < usize::MAX,
        ensures
            r == old(self).next_cqn,
            *final(self) == (Offsets { next_cqn: (r + 1) as usize, ..*old(self) }),
    {
        let res = self.next_cqn;
        self.next_cqn = self.next_cqn + 1;
        res
    }

    /// Allocate a queue pair number.
    pub fn alloc_qpn(&mut self) -> (r: usize)
        requires
            old(self).next_qpn < usize::MAX,
        ensures
            r == old(self).next_qpn,
            *final(self) == (Offsets { next_qpn: (r + 1) as usize, ..*old(self) }),
    {
        let res = self.next_qpn;
        self.next_qpn = self.next_qpn + 1;
        res
    }

    /// Allocate a doorbell for send and completion queues.
    pub fn alloc_scq_db(&mut self) -> (r: usize)
        requires
            old(self).next_sqc_doorbell_index < usize::MAX,
        ensures
            r == old(self).next_sqc_doorbell_index,
            *final(self) == (Offsets { next_sqc_doorbell_index: (r + 1) as usize, ..*old(self) }),
    {
        let res = self.next_sqc_doorbell_index;
        self.next_sqc_doorbell_index = self.next_sqc_doorbell_index + 1;
        res
    }

    /// Allocate a memory key (a dMPT offset).
    pub fn alloc_dmpt(&mut self) -> (r: usize)
        requires
            old(self).next_dmpt + dmpt_step() <= usize::MAX,
        ensures
            r == old(self).next_dmpt,
            *final(self) == (Offsets { next_dmpt: (r + dmpt_step()) as usize, ..*old(self) }),
    {
        let res = self.next_dmpt;
        self.next_dmpt = self.next_dmpt + 256;
        res
    }
}

/// Two numbers handed out one after the other by an allocator differ, and
/// the later is larger: no object number is given out twice.
pub proof fn lemma_allocations_distinct(o: Offsets, o1: Offsets, a: usize, o2: Offsets, b: usize)
    requires
        a == o.next_qpn,
        o1 == (Offsets { next_qpn: (a + 1) as usize, ..o }),
        b == o1.next_qpn,
        o2 == (Offsets { next_qpn: (b + 1) as usize, ..o1 }),
        o.next_qpn < usize::MAX,
        o1.next_qpn < usize::MAX,
    ensures
        a < b,
        o2.next_cqn == o.next_cqn && o2.next_dmpt == o.next_dmpt && o2.next_eqn == o.next_eqn,
{
}

/// The state of the MTT allocation of the memory region table.
#[derive(Clone, Copy, Debug, PartialEq, Eq)]
pub struct MttAllocator {
    pub reserved_mtts: u64,
    pub offset: u64,
}

/// The number of MTT entries that fit in one WRITE_MTT mailbox.
pub open spec fn mtt_entries_per_chunk() -> nat {
    510
}

impl MttAllocator {
    /// Allocate `num_entries` MTT entries and return the ICM address of the
    /// first one; entries are handed out one after the other behind the
    /// reserved ones.
    pub fn alloc_mtt(&mut self, mtt_entry_sz: u16, num_entries: u64) -> (addr: u64)
        requires
            num_entries != 0,
            old(self).reserved_mtts + old(self).offset <= u64::MAX,
            (old(self).reserved_mtts + old(self).offset) * mtt_entry_sz <= u64::MAX,
            old(self).offset + num_entries <= u64::MAX,
        ensures
            addr == (old(self).reserved_mtts + old(self).offset) * mtt_entry_sz,
            *final(self) == (MttAllocator { offset: (old(self).offset + num_entries) as u64, ..*old(self) }),
    {
        let addr = (self.reserved_mtts + self.offset) * mtt_entry_sz as u64;
        self.offset = self.offset + num_entries;
        addr
    }
}

/// The chunks in which `num_entries` MTT entries are written: each chunk
/// holds at most 510 entries, starting at the returned entry index.
pub fn mtt_write_chunks(num_entries: u64) -> (chunks: Vec<(u64, u64)>)
    ensures
        chunks.len() == (num_entries + 509) / 510,
        forall|i: int|
            0 <= i < chunks.len() ==> #[trigger] chunks[i] == (
                (i * 510) as u64,
                (if num_entries - i * 510 < 510 {
                    num_entries - i * 510
                } else {
                    510
                }) as u64,
            ),
{
    let mut chunks: Vec<(u64, u64)> = Vec::new();
    let mut remaining = num_entries;
    let mut start_index: u64 = 0;
    while remaining > 0
        invariant
            start_index + remaining == num_entries,
            remaining > 0 ==> start_index == chunks.len() * 510,
            remaining == 0 ==> chunks.len() == (num_entries + 509) / 510,
            forall|i: int|
                0 <= i < chunks.len() ==> #[trigger] chunks[i] == (
                    (i * 510) as u64,
                    (if num_entries - i * 510 < 510 {
                        num_entries - i * 510
                    } else {
                        510
                    }) as u64,
                ),
        decreases remaining,
    {
        let mut chunk: u64 = 510;
        if remaining < chunk {
            chunk = remaining;
        }
        chunks.push((start_index, chunk));
        remaining = remaining - chunk;
        start_index = start_index + chunk;
    }
    chunks
}

/// The value of the MTT entry `i` for a buffer at `data_address`: the
/// address of its page `i` with the present bit.
pub fn mtt_entry_value(data_address: u64, i: u64) -> (r: u64)
    requires
        data_address + i * 4096 <= u64::MAX,
    ensures
        r == ((data_address + i * 4096) as u64 | 1u64),
{
    (data_address + i * 4096) | 1
}

/// The access rights of a memory region (the `ibv_access_flags` bits).
pub const IBV_ACCESS_LOCAL_WRITE: u32 = 1;
pub const IBV_ACCESS_REMOTE_WRITE: u32 = 2;
pub const IBV_ACCESS_REMOTE_READ: u32 = 4;
pub const IBV_ACCESS_REMOTE_ATOMIC: u32 = 8;

/// An entry of the Data Memory Protection Table, as the driver fills it.
#[derive(Clone, Copy, Debug, PartialEq, Eq)]
pub struct DmptEntry {
    /// The key, stored as `key[7:0],key[31:8]`.
    pub index: u32,
    pub rae: bool,
    pub bound_to_qp: bool,
    pub qp_number: u32,
    pub start: u64,
    pub length: u64,
    pub entity_size: u32,
    pub mtt_addr: u64,
    pub mtt_size: u32,
    pub mio: bool,
    pub region: bool,
    pub local_read: bool,
    pub local_write: bool,
    pub remote_read: bool,
    pub remote_write: bool,
}

/// The key stored in an index: the index rotated left by 8 bits.
pub open spec fn key_of_index(index: u32) -> u32 {
    index >> 24u32 | index << 8u32
}

/// The index stored for a key: the key rotated right by 8 bits.
pub open spec fn index_of_key(key: u32) -> u32 {
    key << 24u32 | key >> 8u32
}

impl DmptEntry {
    /// Get the memory key.
    pub fn key(&self) -> (r: u32)
        ensures
            r == key_of_index(self.index),
    {
        self.index >> 24 | self.index << 8
    }

    /// Set the memory key.
    pub fn set_key(&mut self, key: u32)
        ensures
            *final(self) == (DmptEntry { index: index_of_key(key), ..*old(self) }),
    {
        self.index = key << 24 | key >> 8;
    }
}

/// Storing a key and reading it back gives the key.
pub proof fn lemma_key_roundtrip(key: u32)
    ensures
        key_of_index(index_of_key(key)) == key,
{
    assert((key << 24u32 | key >> 8u32) >> 24u32 | (key << 24u32 | key >> 8u32) << 8u32 == key)
        by (bit_vector);
}

/// The pages that a memory region of `size` bytes is mapped with: whole
/// pages, at least one.
pub open spec fn region_pages(size: nat) -> nat {
    if size / 4096 == 0 {
        1
    } else {
        size / 4096
    }
}

/// The dMPT entry for a memory region of `size` bytes at `address`, with key
/// `key`, bound to queue pair `qp` if given, with MTT entries at `mtt`.
pub fn plan_dmpt(key: u32, address: u64, size: u64, qp: Option<u32>, access: u32, mtt: u64) -> (r: DmptEntry)
    requires
        region_pages(size as nat) <= u32::MAX,
        // the queue pair number and the MTT address fill 24 and 40 bits
        qp matches Some(n) ==> n < 0x100_0000,
        mtt < 0x100_0000_0000,
    ensures
        r == (DmptEntry {
            index: index_of_key(key),
            rae: true,
            bound_to_qp: qp is Some,
            qp_number: match qp { Some(n) => n, None => 0 },
            start: address,
            length: size,
            entity_size: 12,
            mtt_addr: mtt,
            mtt_size: region_pages(size as nat) as u32,
            mio: true,
            region: true,
            local_read: true,
            local_write: access & IBV_ACCESS_LOCAL_WRITE != 0,
            remote_read: access & IBV_ACCESS_REMOTE_READ != 0,
            remote_write: access & IBV_ACCESS_REMOTE_WRITE != 0,
        }),
        r.fits(),
{
    let mut num_pages = size / 4096;
    if num_pages == 0 {
        num_pages = 1;
    }
    let mut dmpt = DmptEntry {
        index: 0,
        rae: false,
        bound_to_qp: false,
        qp_number: 0,
        start: 0,
        length: 0,
        entity_size: 0,
        mtt_addr: 0,
        mtt_size: 0,
        mio: false,
        region: false,
        local_read: false,
        local_write: false,
        remote_read: false,
        remote_write: false,
    };
    dmpt.set_key(key);
    dmpt.rae = true;
    if let Some(number) = qp {
        dmpt.bound_to_qp = true;
        dmpt.qp_number = number;
    }
    dmpt.start = address;
    dmpt.length = size;
    // the MTT maps whole pages, so the entity size is the page size
    dmpt.entity_size = 12;
    dmpt.mtt_addr = mtt;
    dmpt.mtt_size = num_pages as u32;
    dmpt.mio = true;
    dmpt.region = true;
    dmpt.local_read = true;
    if access & IBV_ACCESS_LOCAL_WRITE != 0 {
        dmpt.local_write = true;
    }
    if access & IBV_ACCESS_REMOTE_READ != 0 {
        dmpt.remote_read = true;
    }
    if access & IBV_ACCESS_REMOTE_WRITE != 0 {
        dmpt.remote_write = true;
    }
    dmpt
}


/// The size of a dMPT entry.
pub const DMPT_ENTRY_SIZE: usize = 128;

impl DmptEntry {
    /// Whether the queue pair number, the MTT address and the entity size
    /// fit their 24, 40 and 21 bits.
    pub open spec fn fits(&self) -> bool {
        &&& self.qp_number < 0x100_0000
        &&& self.mtt_addr < 0x100_0000_0000
        &&& self.entity_size < 0x20_0000
    }
}

/// The bytes of a dMPT entry: the flags and access rights in the first
/// word, the queue pair it is bound to, the index, the remote access
/// enable bit, the region's start and length, and its MTT entries and
/// entity size, each field big-endian at its byte offset.
pub open spec fn dmpt_entry_bytes(e: DmptEntry) -> Seq<u8> {
    let b = |x: bool| if x { 1int } else { 0int };
    let s = zero_bytes(DMPT_ENTRY_SIZE as nat);
    let s = put(s, 1, be_bytes(b(e.mio) * 2, 1));
    let s = put(
        s,
        2,
        be_bytes(
            b(e.remote_write) * 32 + b(e.remote_read) * 16 + b(e.local_write) * 8 + b(e.local_read) * 4
                + b(e.region),
            1,
        ),
    );
    let s = put(s, 4, be_bytes(e.qp_number as int, 3));
    let s = put(s, 7, be_bytes(b(e.bound_to_qp) * 128, 1));
    let s = put(s, 8, be_bytes(e.index as int, 4));
    let s = put(s, 12, be_bytes(b(e.rae) * 16, 1));
    let s = put(s, 16, be_bytes(e.start as int, 8));
    let s = put(s, 24, be_bytes(e.length as int, 8));
    let s = put(s, 47, be_bytes(e.mtt_addr as int, 5));
    let s = put(s, 52, be_bytes(e.mtt_size as int, 4));
    put(s, 57, be_bytes(e.entity_size as int, 3))
}

fn flag_value(x: bool, value: u64) -> (r: u64)
    requires
        value <= 128,
    ensures
        r == (if x { value as int } else { 0int }),
{
    if x {
        value
    } else {
        0
    }
}

/// The bytes of a dMPT entry (see [`dmpt_entry_bytes`]).
pub fn dmpt_bytes(e: &DmptEntry) -> (r: Vec<u8>)
    ensures
        r@ == dmpt_entry_bytes(*e),
{
    let mut s = zeroed(DMPT_ENTRY_SIZE);
    write_be(&mut s, 1, flag_value(e.mio, 2), 1);
    write_be(
        &mut s,
        2,
        flag_value(e.remote_write, 32) + flag_value(e.remote_read, 16) + flag_value(e.local_write, 8)
            + flag_value(e.local_read, 4) + flag_value(e.region, 1),
        1,
    );
    write_be(&mut s, 4, e.qp_number as u64, 3);
    write_be(&mut s, 7, flag_value(e.bound_to_qp, 128), 1);
    write_be(&mut s, 8, e.index as u64, 4);
    write_be(&mut s, 12, flag_value(e.rae, 16), 1);
    write_be(&mut s, 16, e.start, 8);
    write_be(&mut s, 24, e.length, 8);
    write_be(&mut s, 47, e.mtt_addr, 5);
    write_be(&mut s, 52, e.mtt_size as u64, 4);
    write_be(&mut s, 57, e.entity_size as u64, 3);
    s
}

} // verus!
