//! Planning of the ICM mappings: in which chunks a context table is backed
//! by host memory, and which virtual-to-physical entries map a chunk.
use vstd::prelude::*;
use vstd::std_specs::bits::u64_trailing_zeros;
use crate::mlx4::caps::Capabilities;
use crate::mlx4::profile::Profile;

verus! {

/// The largest chunk of host memory that backs a part of an ICM table.
pub open spec fn table_chunk_size() -> nat {
    262144
}

/// `x` rounded up to a multiple of the page size.
pub open spec fn page_round_up(x: nat) -> nat {
    ((x + 4095) / 4096) * 4096
}

/// The size of chunk `idx` of a table of `table_size` bytes.
pub open spec fn chunk_size(table_size: nat, idx: nat) -> nat {
    if (idx + 1) * table_chunk_size() > table_size {
        let c = page_round_up((table_size - idx * table_chunk_size()) as nat);
        if c / 4096 == 0 {
            4096
        } else {
            c
        }
    } else {
        table_chunk_size()
    }
}

/// One chunk of an ICM table: its size in bytes, its pages and its ICM address.
#[derive(Clone, Copy, Debug, PartialEq, Eq)]
pub struct IcmChunk {
    pub size: usize,
    pub num_pages: u32,
    pub virt: u64,
}

/// The plan of an ICM table: how many chunks it could have and the chunks
/// that are mapped now (those that hold the reserved objects).
#[derive(Debug)]
pub struct IcmTablePlan {
    pub icm_num: usize,
    pub chunks: Vec<IcmChunk>,
}

/// The number of chunks that hold the first `reserved` objects.
pub open spec fn reserved_chunks(obj_size: nat, reserved: nat) -> nat {
    ((reserved * obj_size + table_chunk_size() - 1) as nat) / table_chunk_size()
}

/// Plans an ICM table of `obj_num` objects of `obj_size` bytes at ICM
/// address `virt`, of which the first `reserved` are mapped now.
pub fn plan_icm_table(obj_size: u16, obj_num: usize, reserved: usize, virt: u64) -> (r: IcmTablePlan)
    requires
        obj_size > 0,
        reserved <= obj_num,
        obj_size * obj_num + 262144 + 4095 <= usize::MAX,
        virt + obj_size * obj_num + 262144 <= u64::MAX,
    ensures
        r.icm_num == (obj_num + 262144int / obj_size as int - 1) / (262144int / obj_size as int),
        r.chunks.len() == reserved_chunks(obj_size as nat, reserved as nat),
        forall|i: int|
            0 <= i < r.chunks.len() ==> #[trigger] r.chunks[i] == (IcmChunk {
                size: chunk_size((obj_size * obj_num) as nat, i as nat) as usize,
                num_pages: (chunk_size((obj_size * obj_num) as nat, i as nat) / 4096) as u32,
                virt: (virt + i * table_chunk_size()) as u64,
            }),
{
    let table_size: usize = obj_size as usize * obj_num;
    let obj_per_chunk: usize = 262144 / obj_size as usize;
    assert(obj_per_chunk >= 4 && obj_per_chunk <= 262144) by (nonlinear_arith)
        requires
            1 <= obj_size <= 65535,
            obj_per_chunk == 262144int / (obj_size as int),
    ;
    assert(obj_num <= table_size) by (nonlinear_arith)
        requires
            obj_size >= 1,
            table_size == obj_size * obj_num,
    ;
    let icm_num = (obj_num + obj_per_chunk - 1) / obj_per_chunk;
    assert(reserved * obj_size <= table_size) by (nonlinear_arith)
        requires
            reserved <= obj_num,
            table_size == obj_size * obj_num,
    ;
    let reserved_bytes: usize = reserved * obj_size as usize;
    let mut chunks: Vec<IcmChunk> = Vec::new();
    let mut idx: usize = 0;
    while idx * 262144 < reserved_bytes
        invariant
            table_size == obj_size * obj_num,
            reserved_bytes == reserved * obj_size,
            reserved_bytes <= table_size,
            table_size + 262144 + 4095 <= usize::MAX,
            virt + table_size + 262144 <= u64::MAX,
            idx == chunks.len(),
            idx * 262144 <= reserved_bytes + 262144,
            idx > 0 ==> (idx - 1) * 262144 < reserved_bytes,
            forall|i: int|
                0 <= i < chunks.len() ==> #[trigger] chunks[i] == (IcmChunk {
                    size: chunk_size(table_size as nat, i as nat) as usize,
                    num_pages: (chunk_size(table_size as nat, i as nat) / 4096) as u32,
                    virt: (virt + i * table_chunk_size()) as u64,
                }),
        decreases reserved_bytes + 262144 - idx * 262144,
    {
        let mut chunk: usize = 262144;
        if (idx + 1) * chunk > table_size {
            chunk = (table_size - idx * 262144 + 4095) / 4096 * 4096;
        }
        let mut num_pages: u32 = (chunk / 4096) as u32;
        if num_pages == 0 {
            num_pages = 1;
            chunk = 4096;
        }
        chunks.push(IcmChunk { size: chunk, num_pages, virt: virt + (idx * 262144) as u64 });
        idx = idx + 1;
    }
    assert(chunks.len() == reserved_chunks(obj_size as nat, reserved as nat)) by (nonlinear_arith)
        requires
            chunks.len() * 262144 >= reserved_bytes,
            (chunks.len() - 1) * 262144 < reserved_bytes || chunks.len() == 0,
            reserved_bytes == reserved * obj_size,
    ;
    IcmTablePlan { icm_num, chunks }
}

/// The number of MTT entries that the firmware reserves, rounded up so that
/// the reserved entries fill whole 64-byte cache lines.
pub open spec fn reserved_mtt_count(log2_rsvd_mtts: nat, mtt_entry_sz: nat) -> nat {
    (((vstd::arithmetic::power2::pow2(log2_rsvd_mtts) * mtt_entry_sz + 63) / 64) * 64) / mtt_entry_sz
}

/// The number of MTT entries that the firmware reserves, rounded up so that
/// the reserved entries fill whole 64-byte cache lines.
pub fn reserved_mtts(log2_rsvd_mtts: u8, mtt_entry_sz: u16) -> (r: u64)
    requires
        log2_rsvd_mtts < 48,
        mtt_entry_sz > 0,
    ensures
        r == reserved_mtt_count(log2_rsvd_mtts as nat, mtt_entry_sz as nat),
{
    proof {
        vstd::bits::lemma_u64_pow2_no_overflow(log2_rsvd_mtts as nat);
        vstd::arithmetic::power2::lemma_pow2_strictly_increases(log2_rsvd_mtts as nat, 48);
        vstd::arithmetic::power2::lemma2_to64();
        assert(vstd::arithmetic::power2::pow2(48) == 0x1_0000_0000_0000) by {
            vstd::arithmetic::power2::lemma_pow2_adds(32, 16);
        }
        vstd::bits::lemma_u64_shl_is_mul(1, log2_rsvd_mtts as u64);
    }
    let unit: u64 = 1u64 << log2_rsvd_mtts as u64;
    assert(unit * mtt_entry_sz <= 0xffff_ffff_ffff * 65535) by (nonlinear_arith)
        requires
            unit < 0x1_0000_0000_0000,
            mtt_entry_sz <= 65535,
    ;
    let reserved_bytes: u64 = unit * mtt_entry_sz as u64;
    ((reserved_bytes + 63) / 64 * 64) / mtt_entry_sz as u64
}

/// The ICM mapping entries (physical address with the page size code,
/// card-virtual address) that map `num_pages` pages at `physical` to
/// `card_virtual`. The host memory must be page aligned.
pub fn icm_mapping_entries(physical: u64, card_virtual: u64, num_pages: u32) -> (r: Vec<(u64, u64)>)
    requires
        u64_trailing_zeros(physical) >= 12,
        physical + num_pages * 4096 <= u64::MAX,
        card_virtual + num_pages * 4096 <= u64::MAX,
    ensures
        r.len() == num_pages,
        forall|i: int|
            0 <= i < r.len() ==> #[trigger] r[i] == ((physical + i * 4096) as u64, (card_virtual + i
                * 4096) as u64),
{
    let mut align: u32 = physical.trailing_zeros();
    if align > 12 {
        align = 12;
    }
    // the mapping unit is a page, so the page size code is 0
    let size: u64 = num_pages as u64 * 4096;
    let num_entries: u64 = size / 4096;
    let mut entries: Vec<(u64, u64)> = Vec::new();
    let mut phys_pointer = physical;
    let mut virt_pointer = card_virtual;
    let mut i: u64 = 0;
    while i < num_entries
        invariant
            align == 12,
            num_entries == num_pages,
            physical + num_pages * 4096 <= u64::MAX,
            card_virtual + num_pages * 4096 <= u64::MAX,
            i <= num_entries,
            entries.len() == i,
            phys_pointer == physical + i * 4096,
            virt_pointer == card_virtual + i * 4096,
            forall|k: int|
                0 <= k < entries.len() ==> #[trigger] entries[k] == ((physical + k * 4096) as u64, (
                card_virtual + k * 4096) as u64),
        decreases num_entries - i,
    {
        entries.push((phys_pointer | (align as u64 - 12), virt_pointer));
        assert(phys_pointer | 0u64 == phys_pointer) by (bit_vector);
        phys_pointer = phys_pointer + 4096;
        virt_pointer = virt_pointer + 4096;
        i = i + 1;
    }
    entries
}

/// What a context table asks of ICM: object size and count, the objects
/// mapped at once (those the firmware reserves) and its ICM address.
#[derive(Clone, Copy, Debug, PartialEq, Eq)]
pub struct IcmTableRequest {
    pub obj_size: u16,
    pub obj_num: usize,
    pub reserved: usize,
    pub virt: u64,
}

/// The object counts that the INIT_HCA parameters give for the queue pair,
/// shared receive queue, completion queue and event queue tables.
#[derive(Clone, Copy, Debug, PartialEq, Eq)]
pub struct TableCounts {
    pub qps: usize,
    pub srqs: usize,
    pub cqs: usize,
    pub eqs: usize,
}

/// The ICM address of the c-MPT table of the given type (QP, SRQ, CQ, EQ).
pub open spec fn c_mpt_base(p: Profile, caps: Capabilities, t: nat) -> u64 {
    (((p.init_hca.tpt_c_mpt_base + t * caps.c_mpt_entry_sz) * 0x100_0000) % 0x1_0000_0000_0000_0000) as u64
}

/// The firmware's reserved objects, `2^log2`.
pub open spec fn reserved_of(log2: u8) -> usize {
    vstd::arithmetic::power2::pow2(log2 as nat) as usize
}

pub open spec fn request(obj_size: u16, obj_num: usize, reserved: usize, virt: u64) -> IcmTableRequest {
    IcmTableRequest { obj_size, obj_num, reserved, virt }
}

/// The tables in the order in which they are mapped: the c-MPT tables of
/// QPs, SRQs, CQs and EQs, then the EQ, MTT, dMPT, QP, auxiliary QP,
/// alternate path, RDMA read, CQ, SRQ and multicast tables.
pub open spec fn icm_table_requests_spec(p: Profile, caps: Capabilities, n: TableCounts) -> Seq<IcmTableRequest> {
    let h = p.init_hca;
    seq![
        request(caps.c_mpt_entry_sz, n.qps, reserved_of(caps.log2_rsvd_qps), c_mpt_base(p, caps, 0)),
        request(caps.c_mpt_entry_sz, n.srqs, reserved_of(caps.log2_rsvd_srqs), c_mpt_base(p, caps, 1)),
        request(caps.c_mpt_entry_sz, n.cqs, reserved_of(caps.log2_rsvd_cqs), c_mpt_base(p, caps, 2)),
        request(caps.c_mpt_entry_sz, n.eqs, n.eqs, c_mpt_base(p, caps, 3)),
        request(caps.eqc_entry_sz, n.eqs, n.eqs, h.qpc_eqc_base),
        request(caps.mtt_entry_sz, p.num_mtts, reserved_mtt_count(caps.log2_rsvd_mtts as nat, caps.mtt_entry_sz as nat) as usize, h.tpt_mtt_base),
        request(caps.d_mpt_entry_sz, p.num_mpts, reserved_of(caps.log2_rsvd_mrws), h.tpt_dmpt_base),
        request(caps.qpc_entry_sz, n.qps, reserved_of(caps.log2_rsvd_qps), h.qpc_base),
        request(caps.aux_entry_sz, n.qps, reserved_of(caps.log2_rsvd_qps), h.qpc_auxc_base),
        request(caps.altc_entry_sz, n.qps, reserved_of(caps.log2_rsvd_qps), h.qpc_altc_base),
        request(caps.rdmarc_entry_sz << (p.rdmarc_shift as u16), n.qps, reserved_of(caps.log2_rsvd_qps), h.qpc_rdmarc_base),
        request(caps.cqc_entry_sz, n.cqs, reserved_of(caps.log2_rsvd_cqs), h.qpc_cqc_base),
        request(caps.srq_entry_sz, n.srqs, reserved_of(caps.log2_rsvd_srqs), h.qpc_srqc_base),
        request(1024, (p.num_mgms + p.num_amgms) as usize, (p.num_mgms + p.num_amgms) as usize, h.mc_base)
    ]
}

fn reserved_count(log2: u8) -> (r: usize)
    requires
        log2 < 32,
    ensures
        r == reserved_of(log2),
{
    proof {
        vstd::bits::lemma_u32_pow2_no_overflow(log2 as nat);
        vstd::bits::lemma_u32_shl_is_mul(1, log2 as u32);
    }
    (1u32 << log2 as u32) as usize
}

fn c_mpt_table_base(p: &Profile, caps: &Capabilities, t: u64) -> (r: u64)
    requires
        t <= 3,
        p.init_hca.tpt_c_mpt_base + 3 * caps.c_mpt_entry_sz <= u64::MAX,
    ensures
        r == c_mpt_base(*p, *caps, t as nat),
{
    assert(t * caps.c_mpt_entry_sz <= 3 * caps.c_mpt_entry_sz) by (nonlinear_arith)
        requires t <= 3;
    let x = p.init_hca.tpt_c_mpt_base + t * caps.c_mpt_entry_sz as u64;
    assert(x << 24u64 == ((x * 0x100_0000) % 0x1_0000_0000_0000_0000) as u64) by (bit_vector);
    x << 24u64
}

/// The ICM tables that the driver maps for `profile`.
pub fn icm_table_requests(profile: &Profile, caps: &Capabilities, counts: &TableCounts) -> (r: Vec<IcmTableRequest>)
    requires
        caps.log2_rsvd_qps < 32,
        caps.log2_rsvd_srqs < 32,
        caps.log2_rsvd_cqs < 32,
        caps.log2_rsvd_mrws < 32,
        caps.log2_rsvd_mtts < 32,
        caps.mtt_entry_sz > 0,
        profile.rdmarc_shift < 16,
        profile.init_hca.tpt_c_mpt_base + 3 * caps.c_mpt_entry_sz <= u64::MAX,
        profile.num_mgms + profile.num_amgms <= usize::MAX,
        reserved_mtt_count(caps.log2_rsvd_mtts as nat, caps.mtt_entry_sz as nat) <= usize::MAX,
    ensures
        r@ == icm_table_requests_spec(*profile, *caps, *counts),
{
    let h = profile.init_hca;
    let rsvd_qps = reserved_count(caps.log2_rsvd_qps);
    let rsvd_srqs = reserved_count(caps.log2_rsvd_srqs);
    let rsvd_cqs = reserved_count(caps.log2_rsvd_cqs);
    let rsvd_mrws = reserved_count(caps.log2_rsvd_mrws);
    let rsvd_mtts = reserved_mtts(caps.log2_rsvd_mtts, caps.mtt_entry_sz) as usize;
    let shift = profile.rdmarc_shift as u16;
    let rdmarc_size = caps.rdmarc_entry_sz << shift;
    let mcg_num = profile.num_mgms + profile.num_amgms;
    let mut r: Vec<IcmTableRequest> = Vec::new();
    r.push(IcmTableRequest { obj_size: caps.c_mpt_entry_sz, obj_num: counts.qps, reserved: rsvd_qps, virt: c_mpt_table_base(profile, caps, 0) });
    r.push(IcmTableRequest { obj_size: caps.c_mpt_entry_sz, obj_num: counts.srqs, reserved: rsvd_srqs, virt: c_mpt_table_base(profile, caps, 1) });
    r.push(IcmTableRequest { obj_size: caps.c_mpt_entry_sz, obj_num: counts.cqs, reserved: rsvd_cqs, virt: c_mpt_table_base(profile, caps, 2) });
    r.push(IcmTableRequest { obj_size: caps.c_mpt_entry_sz, obj_num: counts.eqs, reserved: counts.eqs, virt: c_mpt_table_base(profile, caps, 3) });
    r.push(IcmTableRequest { obj_size: caps.eqc_entry_sz, obj_num: counts.eqs, reserved: counts.eqs, virt: h.qpc_eqc_base });
    r.push(IcmTableRequest { obj_size: caps.mtt_entry_sz, obj_num: profile.num_mtts, reserved: rsvd_mtts, virt: h.tpt_mtt_base });
    r.push(IcmTableRequest { obj_size: caps.d_mpt_entry_sz, obj_num: profile.num_mpts, reserved: rsvd_mrws, virt: h.tpt_dmpt_base });
    r.push(IcmTableRequest { obj_size: caps.qpc_entry_sz, obj_num: counts.qps, reserved: rsvd_qps, virt: h.qpc_base });
    r.push(IcmTableRequest { obj_size: caps.aux_entry_sz, obj_num: counts.qps, reserved: rsvd_qps, virt: h.qpc_auxc_base });
    r.push(IcmTableRequest { obj_size: caps.altc_entry_sz, obj_num: counts.qps, reserved: rsvd_qps, virt: h.qpc_altc_base });
    r.push(IcmTableRequest { obj_size: rdmarc_size, obj_num: counts.qps, reserved: rsvd_qps, virt: h.qpc_rdmarc_base });
    r.push(IcmTableRequest { obj_size: caps.cqc_entry_sz, obj_num: counts.cqs, reserved: rsvd_cqs, virt: h.qpc_cqc_base });
    r.push(IcmTableRequest { obj_size: caps.srq_entry_sz, obj_num: counts.srqs, reserved: rsvd_srqs, virt: h.qpc_srqc_base });
    r.push(IcmTableRequest { obj_size: 1024, obj_num: mcg_num, reserved: mcg_num, virt: h.mc_base });
    assert(r@ =~= icm_table_requests_spec(*profile, *caps, *counts));
    r
}

} // verus!
