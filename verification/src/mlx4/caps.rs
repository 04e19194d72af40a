//! The device capabilities and HCA parameters that the planning logic reads
//! and fills, as plain values.
use vstd::prelude::*;

verus! {

/// The capabilities that QUERY_DEV_CAP reports and that the driver uses.
#[derive(Clone, Copy, Debug, PartialEq, Eq)]
pub struct Capabilities {
    pub qpc_entry_sz: u16,
    pub rdmarc_entry_sz: u16,
    pub altc_entry_sz: u16,
    pub aux_entry_sz: u16,
    pub srq_entry_sz: u16,
    pub cqc_entry_sz: u16,
    pub eqc_entry_sz: u16,
    pub d_mpt_entry_sz: u16,
    pub c_mpt_entry_sz: u16,
    pub mtt_entry_sz: u16,
    pub max_icm_sz: u64,
    pub log2_rsvd_qps: u8,
    pub log2_rsvd_srqs: u8,
    pub log2_rsvd_cqs: u8,
    pub log2_rsvd_mrws: u8,
    pub log2_rsvd_mtts: u8,
    pub num_rsvd_eqs: u8,
    pub log_max_qp_sz: u8,
    pub max_sg_sq: u8,
    pub max_sg_rq: u8,
    pub max_desc_sz_sq: u16,
    pub log_max_msg: u8,
}

/// The ICM layout part of the INIT_HCA parameters.
#[derive(Clone, Copy, Debug, PartialEq, Eq)]
pub struct InitHcaParameters {
    pub qpc_base: u64,
    pub qpc_log_qp: u8,
    pub qpc_srqc_base: u64,
    pub qpc_log_srq: u8,
    pub qpc_cqc_base: u64,
    pub qpc_log_cq: u8,
    pub qpc_altc_base: u64,
    pub qpc_auxc_base: u64,
    pub qpc_eqc_base: u64,
    pub qpc_log_eq: u8,
    pub qpc_rdmarc_base: u64,
    pub qpc_log_rd: u8,
    pub tpt_dmpt_base: u64,
    pub tpt_log_dmpt_sz: u8,
    pub tpt_mtt_base: u64,
    pub tpt_c_mpt_base: u64,
    pub mc_base: u64,
    pub mc_log_entry_sz: u8,
    pub mc_log_table_sz: u8,
    pub mc_log_hash_sz: u8,
}

impl InitHcaParameters {
    /// All parameters zero.
    pub fn new() -> (r: Self)
        ensures
            r == (InitHcaParameters {
                qpc_base: 0,
                qpc_log_qp: 0,
                qpc_srqc_base: 0,
                qpc_log_srq: 0,
                qpc_cqc_base: 0,
                qpc_log_cq: 0,
                qpc_altc_base: 0,
                qpc_auxc_base: 0,
                qpc_eqc_base: 0,
                qpc_log_eq: 0,
                qpc_rdmarc_base: 0,
                qpc_log_rd: 0,
                tpt_dmpt_base: 0,
                tpt_log_dmpt_sz: 0,
                tpt_mtt_base: 0,
                tpt_c_mpt_base: 0,
                mc_base: 0,
                mc_log_entry_sz: 0,
                mc_log_table_sz: 0,
                mc_log_hash_sz: 0,
            }),
    {
        InitHcaParameters {
            qpc_base: 0,
            qpc_log_qp: 0,
            qpc_srqc_base: 0,
            qpc_log_srq: 0,
            qpc_cqc_base: 0,
            qpc_log_cq: 0,
            qpc_altc_base: 0,
            qpc_auxc_base: 0,
            qpc_eqc_base: 0,
            qpc_log_eq: 0,
            qpc_rdmarc_base: 0,
            qpc_log_rd: 0,
            tpt_dmpt_base: 0,
            tpt_log_dmpt_sz: 0,
            tpt_mtt_base: 0,
            tpt_c_mpt_base: 0,
            mc_base: 0,
            mc_log_entry_sz: 0,
            mc_log_table_sz: 0,
            mc_log_hash_sz: 0,
        }
    }
}

} // verus!
