//! The ICM profile: how many objects of each kind the card gets, and where
//! their context tables lie in ICM.
use vstd::prelude::*;
use vstd::arithmetic::power2::{pow2, lemma2_to64};
use crate::bits::{floor_log2, ilog2_u64, lemma_floor_log2_pow2};
use crate::mlx4::caps::{Capabilities, InitHcaParameters};
use crate::mlx4::layout::{
    icm_layout, is_power_of_two, layout_start, layout_total, lemma_layout_aligned,
    lemma_layout_disjoint, sum_sizes,
};

verus! {

/// The kinds of ICM resources, in the order of their table index.
#[derive(Clone, Copy, Debug, PartialEq, Eq)]
pub enum ResourceType {
    QP,
    RDMARC,
    ALTC,
    AUXC,
    SRQ,
    CQ,
    EQ,
    DMPT,
    CMPT,
    MTT,
    MCG,
}

/// One ICM resource: `num` objects taking `size` bytes from `start` on.
#[derive(Clone, Copy, Debug, PartialEq, Eq)]
pub struct Resource {
    pub size: u64,
    pub start: u64,
    pub typ: ResourceType,
    pub num: u64,
}

impl Resource {
    /// The base-two logarithm of the number of objects.
    pub fn lognum(&self) -> (r: u32)
        requires
            self.num > 0,
        ensures
            r == floor_log2(self.num as nat),
    {
        ilog2_u64(self.num)
    }
}

/// The base-two logarithm of the size of a multicast group entry.
pub open spec fn mgm_log_entry_size() -> nat {
    10
}

/// The size of a multicast group entry in bytes.
pub fn get_mgm_entry_size() -> (r: u64)
    ensures
        r == pow2(mgm_log_entry_size()),
        r == 1024,
{
    proof {
        lemma2_to64();
    }
    1024
}

/// The number of objects of each resource kind (all powers of two).
pub open spec fn resource_num(i: int) -> u64 {
    if i == 0 {
        131072  // QP: 2^17
    } else if i == 1 {
        2097152  // RDMARC: 2^17 QPs with 2^4 each
    } else if i == 2 {
        131072  // ALTC
    } else if i == 3 {
        131072  // AUXC
    } else if i == 4 {
        65536  // SRQ: 2^16
    } else if i == 5 {
        65536  // CQ: 2^16
    } else if i == 6 {
        512  // EQ: 2^9
    } else if i == 7 {
        524288  // DMPT: 2^19
    } else if i == 8 {
        67108864  // CMPT: 4 kinds with 2^24 each
    } else if i == 9 {
        8388608  // MTT: 2^20 segments with 2^3 entries each
    } else {
        8192  // MCG: 2^13
    }
}

/// The entry size of each resource kind.
pub open spec fn resource_entry_size(caps: Capabilities, i: int) -> u64 {
    if i == 0 {
        caps.qpc_entry_sz as u64
    } else if i == 1 {
        caps.rdmarc_entry_sz as u64
    } else if i == 2 {
        caps.altc_entry_sz as u64
    } else if i == 3 {
        caps.aux_entry_sz as u64
    } else if i == 4 {
        caps.srq_entry_sz as u64
    } else if i == 5 {
        caps.cqc_entry_sz as u64
    } else if i == 6 {
        caps.eqc_entry_sz as u64
    } else if i == 7 {
        caps.d_mpt_entry_sz as u64
    } else if i == 8 {
        caps.c_mpt_entry_sz as u64
    } else if i == 9 {
        caps.mtt_entry_sz as u64
    } else {
        1024
    }
}

/// The table size of a resource kind: entry size times number, at least a page.
pub open spec fn resource_size(caps: Capabilities, i: int) -> u64 {
    let s = resource_entry_size(caps, i) * resource_num(i);
    if s < 4096 {
        4096
    } else {
        s as u64
    }
}

/// The table sizes of all resource kinds, in table index order.
pub open spec fn resource_sizes(caps: Capabilities) -> Seq<u64> {
    Seq::new(11, |i: int| resource_size(caps, i))
}

/// Where the table of resource kind `i` starts in ICM.
pub open spec fn resource_start(caps: Capabilities, i: int) -> u64 {
    layout_start(resource_sizes(caps), i) as u64
}

/// The ICM profile derived from the capabilities.
#[derive(Clone, Copy, Debug, PartialEq, Eq)]
pub struct Profile {
    pub num_mpts: usize,
    pub num_mgms: usize,
    pub num_amgms: usize,
    pub num_mtts: usize,
    pub max_qp_dest_rdma: usize,
    pub rdmarc_shift: u8,
    pub init_hca: InitHcaParameters,
    pub total_size: u64,
}

/// Why no profile could be made.
#[derive(Clone, Copy, Debug, PartialEq, Eq)]
pub enum ProfileError {
    /// The tables do not fit in the ICM that the card offers.
    TotalSizeExceedsMaxIcm,
}

/// The profile that `Profile::new` makes for the capabilities when the
/// tables fit.
pub open spec fn planned_profile(caps: Capabilities) -> Profile {
    Profile {
        num_mpts: 524288,
        num_mgms: 4096,
        num_amgms: 4096,
        num_mtts: 8388608,
        max_qp_dest_rdma: 8,
        rdmarc_shift: 4,
        init_hca: InitHcaParameters {
            qpc_base: resource_start(caps, 0),
            qpc_log_qp: 17,
            qpc_srqc_base: resource_start(caps, 4),
            qpc_log_srq: 16,
            qpc_cqc_base: resource_start(caps, 5),
            qpc_log_cq: 16,
            qpc_altc_base: resource_start(caps, 2),
            qpc_auxc_base: resource_start(caps, 3),
            qpc_eqc_base: resource_start(caps, 6),
            qpc_log_eq: 9,
            qpc_rdmarc_base: resource_start(caps, 1),
            qpc_log_rd: 3,
            tpt_dmpt_base: resource_start(caps, 7),
            tpt_log_dmpt_sz: 19,
            tpt_mtt_base: resource_start(caps, 9),
            tpt_c_mpt_base: resource_start(caps, 8),
            mc_base: resource_start(caps, 10),
            mc_log_entry_sz: 10,
            mc_log_table_sz: 13,
            mc_log_hash_sz: 12,
        },
        total_size: layout_total(resource_sizes(caps)) as u64,
    }
}

fn table_size(entry_size: u64, num: u64) -> (r: u64)
    requires
        entry_size <= 65536,
        num <= 67108864,
    ensures
        r == (if entry_size * num < 4096 {
            4096
        } else {
            (entry_size * num) as u64
        }),
{
    assert(entry_size * num <= 65536 * 67108864) by (nonlinear_arith)
        requires
            entry_size <= 65536,
            num <= 67108864,
    ;
    let s = entry_size * num;
    if s < 4096 {
        4096
    } else {
        s
    }
}

proof fn lemma_resource_sizes_small(caps: Capabilities)
    ensures
        forall|i: int| 0 <= i < 11 ==> resource_sizes(caps)[i] <= 65536 * 67108864,
        layout_total(resource_sizes(caps)) <= 11 * 65536 * 67108864,
{
    let s = resource_sizes(caps);
    assert forall|i: int| 0 <= i < 11 implies s[i] <= 65536 * 67108864 by {
        assert(resource_entry_size(caps, i) <= 65536);
        assert(resource_num(i) <= 67108864);
        assert(resource_entry_size(caps, i) * resource_num(i) <= 65536 * 67108864)
            by (nonlinear_arith)
            requires
                resource_entry_size(caps, i) <= 65536,
                resource_num(i) <= 67108864,
        ;
    }
    reveal_with_fuel(sum_sizes, 12);
}

proof fn lemma_log_constants()
    ensures
        floor_log2(131072) == 17,
        floor_log2(65536) == 16,
        floor_log2(524288) == 19,
        floor_log2(8192) == 13,
        floor_log2(512) == 9,
        floor_log2(1024) == 10,
{
    lemma2_to64();
    lemma_floor_log2_pow2(17);
    lemma_floor_log2_pow2(16);
    lemma_floor_log2_pow2(19);
    lemma_floor_log2_pow2(13);
    lemma_floor_log2_pow2(9);
    lemma_floor_log2_pow2(10);
}

/// The tables of a profile lie inside `[0, total_size)` and do not overlap.
pub proof fn lemma_profile_tables_disjoint(caps: Capabilities, i: int, j: int)
    requires
        0 <= i < 11,
        0 <= j < 11,
    ensures
        layout_start(resource_sizes(caps), i) + resource_size(caps, i) <= layout_total(
            resource_sizes(caps),
        ),
        i != j ==> (layout_start(resource_sizes(caps), i) + resource_size(caps, i)
            <= layout_start(resource_sizes(caps), j) || layout_start(resource_sizes(caps), j)
            + resource_size(caps, j) <= layout_start(resource_sizes(caps), i)),
{
    lemma_layout_disjoint(resource_sizes(caps), i, j);
}

/// When the card reports entry sizes that are powers of two or zero, every
/// table of the profile starts at a multiple of its own size.
pub proof fn lemma_profile_tables_aligned(caps: Capabilities, i: int)
    requires
        0 <= i < 11,
        forall|k: int|
            0 <= k < 10 ==> #[trigger] resource_entry_size(caps, k) == 0 || is_power_of_two(
                resource_entry_size(caps, k) as int,
            ),
    ensures
        layout_start(resource_sizes(caps), i) as int % resource_size(caps, i) as int == 0,
{
    lemma2_to64();
    assert(resource_entry_size(caps, 10) == pow2(10));
    assert forall|k: int| 0 <= k < 11 implies is_power_of_two(#[trigger] resource_sizes(caps)[k] as int) by {
        let num_exp: nat = if k == 0 || k == 2 || k == 3 { 17 } else if k == 1 { 21 } else if k == 4 || k == 5 { 16 } else if k == 6 { 9 } else if k == 7 { 19 } else if k == 8 { 26 } else if k == 9 { 23 } else { 13 };
        vstd::arithmetic::power2::lemma_pow2_adds(21, 5);
        vstd::arithmetic::power2::lemma_pow2_adds(21, 2);
        vstd::arithmetic::power2::lemma_pow2_adds(16, 3);
        vstd::arithmetic::power2::lemma_pow2_adds(16, 5);
        assert(resource_num(k) == pow2(num_exp));
        if resource_entry_size(caps, k) == 0 {
            assert(resource_entry_size(caps, k) * resource_num(k) == 0) by (nonlinear_arith)
                requires
                    resource_entry_size(caps, k) == 0,
            ;
            assert(resource_sizes(caps)[k] == pow2(12));
        } else {
            let ee = if k == 10 { 10nat } else { choose|e: nat| resource_entry_size(caps, k) == pow2(e) };
            assert(resource_entry_size(caps, k) == pow2(ee));
            vstd::arithmetic::power2::lemma_pow2_adds(ee, num_exp);
            let prod = resource_entry_size(caps, k) * resource_num(k);
            assert(prod == pow2(ee + num_exp));
            assert(prod <= 65536 * 67108864) by (nonlinear_arith)
                requires
                    resource_entry_size(caps, k) <= 65536,
                    resource_num(k) <= 67108864,
                    prod == resource_entry_size(caps, k) * resource_num(k),
            ;
            if prod < 4096 {
                assert(resource_sizes(caps)[k] == pow2(12));
            } else {
                assert(resource_sizes(caps)[k] == pow2(ee + num_exp));
            }
        }
    }
    lemma_layout_aligned(resource_sizes(caps), i);
}

impl Profile {
    /// Construct a profile: size every table, pack the tables in ICM with
    /// the larger tables first, and fail when they exceed the ICM that the
    /// card offers.
    pub fn new(caps: &Capabilities) -> (r: Result<Self, ProfileError>)
        ensures
            r is Ok <==> layout_total(resource_sizes(*caps)) <= caps.max_icm_sz,
            r matches Ok(p) ==> p == planned_profile(*caps),
    {
        let mut sizes: Vec<u64> = Vec::new();
        sizes.push(table_size(caps.qpc_entry_sz as u64, 131072));
        sizes.push(table_size(caps.rdmarc_entry_sz as u64, 131072 * 16));
        sizes.push(table_size(caps.altc_entry_sz as u64, 131072));
        sizes.push(table_size(caps.aux_entry_sz as u64, 131072));
        sizes.push(table_size(caps.srq_entry_sz as u64, 65536));
        sizes.push(table_size(caps.cqc_entry_sz as u64, 65536));
        sizes.push(table_size(caps.eqc_entry_sz as u64, 512));
        sizes.push(table_size(caps.d_mpt_entry_sz as u64, 524288));
        sizes.push(table_size(caps.c_mpt_entry_sz as u64, 4 * 16777216));
        sizes.push(table_size(caps.mtt_entry_sz as u64, 1048576 * 8));
        sizes.push(table_size(get_mgm_entry_size(), 8192));
        assert(sizes@ =~= resource_sizes(*caps));
        proof {
            lemma_resource_sizes_small(*caps);
        }
        let (starts, total) = match icm_layout(&sizes) {
            Some(layout) => layout,
            None => return Err(ProfileError::TotalSizeExceedsMaxIcm),
        };
        if total > caps.max_icm_sz {
            return Err(ProfileError::TotalSizeExceedsMaxIcm);
        }
        // the RDMARC table holds 2^rdmarc_shift entries per QP
        let mut rdmarc_shift: u8 = 0;
        let mut max_qp_dest_rdma: usize = 0;
        let mut log_rd: u8 = 0;
        let mut qps: u64 = 131072;
        let mut per_qp: usize = 1;
        proof {
            lemma2_to64();
        }
        while qps < 2097152
            invariant
                rdmarc_shift <= 4,
                qps == 131072 * pow2(rdmarc_shift as nat),
                per_qp == pow2(rdmarc_shift as nat),
                rdmarc_shift == 0 ==> max_qp_dest_rdma == 0 && log_rd == 0,
                rdmarc_shift > 0 ==> max_qp_dest_rdma == pow2((rdmarc_shift - 1) as nat)
                    && log_rd == rdmarc_shift - 1,
            decreases 4 - rdmarc_shift,
        {
            proof {
                lemma2_to64();
                vstd::arithmetic::power2::lemma_pow2_unfold(rdmarc_shift as nat + 1);
            }
            max_qp_dest_rdma = per_qp;
            log_rd = rdmarc_shift;
            rdmarc_shift = rdmarc_shift + 1;
            per_qp = per_qp * 2;
            qps = qps * 2;
        }
        proof {
            lemma2_to64();
            lemma_log_constants();
        }
        let mut init_hca = InitHcaParameters::new();
        init_hca.qpc_base = starts[0];
        init_hca.qpc_log_qp = 17;
        init_hca.qpc_rdmarc_base = starts[1];
        init_hca.qpc_log_rd = log_rd;
        init_hca.qpc_altc_base = starts[2];
        init_hca.qpc_auxc_base = starts[3];
        init_hca.qpc_srqc_base = starts[4];
        init_hca.qpc_log_srq = 16;
        init_hca.qpc_cqc_base = starts[5];
        init_hca.qpc_log_cq = 16;
        init_hca.qpc_eqc_base = starts[6];
        init_hca.qpc_log_eq = ilog2_u64(512) as u8;
        init_hca.tpt_dmpt_base = starts[7];
        init_hca.tpt_log_dmpt_sz = 19;
        init_hca.tpt_c_mpt_base = starts[8];
        init_hca.tpt_mtt_base = starts[9];
        init_hca.mc_base = starts[10];
        init_hca.mc_log_entry_sz = ilog2_u64(get_mgm_entry_size()) as u8;
        init_hca.mc_log_table_sz = 13;
        init_hca.mc_log_hash_sz = 12;
        let mcg = Resource { size: sizes[10], start: starts[10], typ: ResourceType::MCG, num: 8192 };
        let mcg_num = mcg.num;
        assert(mcg_num >> 1 == 4096) by (bit_vector)
            requires
                mcg_num == 8192,
        ;
        let num_mgms = (mcg_num >> 1) as usize;
        Ok(Profile {
            num_mpts: 524288,
            num_mgms,
            num_amgms: num_mgms,
            num_mtts: 8388608,
            max_qp_dest_rdma,
            rdmarc_shift,
            init_hca,
            total_size: total,
        })
    }
}

} // verus!
