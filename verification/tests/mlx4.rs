use d3os_core::mlx4::caps::{Capabilities, InitHcaParameters};
use d3os_core::mlx4::cmd::{poll_token_word, CommandInterface, ReturnStatus};
use d3os_core::mlx4::completion::{
    cq_context, plan_cq_context, CQ_CONTEXT_SIZE,
    arm_value, complete, cq_pages, cqe_belongs_to_sw, cqe_slot, CompletionError, CompletionQueueEntry,
    CompletionQueueState, QueuePairQueues, WcOpcode, WcStatus, IBV_WC_GRH, IBV_WC_WITH_IMM,
};
use d3os_core::mlx4::icm::{
    icm_mapping_entries, icm_table_requests, plan_icm_table, reserved_mtts, TableCounts,
};
use d3os_core::mlx4::layout::icm_layout;
use d3os_core::mlx4::offsets::{
    dmpt_bytes, mtt_entry_value, mtt_write_chunks, plan_dmpt, MttAllocator, Offsets, DMPT_ENTRY_SIZE,
    IBV_ACCESS_REMOTE_ATOMIC, IBV_ACCESS_REMOTE_READ, IBV_ACCESS_REMOTE_WRITE,
};
use d3os_core::mlx4::port::{
    port_info_request, set_port_command, set_port_commands, PortCapabilities, PortInfo, MAD_IFC_DISABLE_BKEY_VALIDATION,
    MAD_IFC_DISABLE_MKEY_VALIDATION, MAD_IFC_PORT_INFO_MODIFIER, MAD_SIZE,
};
use d3os_core::mlx4::posting::{
    control_segment,
    plan_post_receive, plan_post_send, stamp_offsets, DataSegment, DatagramSegment, ExtraSegment, PostError,
    RemoteAddressSegment, SendDoorbell, SendWrFields, WrOpcode, INVALID_LKEY,
};
use d3os_core::mlx4::profile::{get_mgm_entry_size, Profile, ProfileError, Resource, ResourceType};
use d3os_core::mlx4::qp_context::{context_bytes, transition_mailbox, QP_CONTEXT_SIZE, TRANSITION_MAILBOX_SIZE};
use d3os_core::mlx4::queue_pair::{
    initial_send_control, place_queues, plan_modify, select_transition, QpAttr, QpModifyError, QpState, QpTransition,
    QueuePairSetup, IBV_MTU_4096,
    IBV_QP_ACCESS_FLAGS, IBV_QP_AV, IBV_QP_DEST_QPN, IBV_QP_MIN_RNR_TIMER, IBV_QP_PATH_MTU, IBV_QP_PKEY_INDEX,
    IBV_QP_PORT, IBV_QP_QKEY, IBV_QP_RNR_RETRY, IBV_QP_STATE, IBV_QP_TIMEOUT, OPT_MIN_RNR_NAK, OPT_PKEY_INDEX, OPT_QKEY,
    OPT_REMOTE_ATOMIC, OPT_REMOTE_READ, OPT_REMOTE_WRITE,
};
use d3os_core::mlx4::utils::{pages_required, AccessError, MappedPages, OperationArgs, Operations, PageToFrameRange};
use d3os_core::mlx4::work_queue::{ib_sq_headroom, send_wqe_overhead, QpCap, QpType, WorkQueue, WorkQueueError};

fn caps() -> Capabilities {
    Capabilities {
        qpc_entry_sz: 128,
        rdmarc_entry_sz: 32,
        altc_entry_sz: 16,
        aux_entry_sz: 32,
        srq_entry_sz: 16,
        cqc_entry_sz: 8,
        eqc_entry_sz: 64,
        d_mpt_entry_sz: 64,
        c_mpt_entry_sz: 64,
        mtt_entry_sz: 64,
        max_icm_sz: 0x10_0000_0000,
        log2_rsvd_qps: 6,
        log2_rsvd_srqs: 0,
        log2_rsvd_cqs: 7,
        log2_rsvd_mrws: 1,
        log2_rsvd_mtts: 4,
        num_rsvd_eqs: 8,
        log_max_qp_sz: 49,
        max_sg_sq: 32,
        max_sg_rq: 30,
        max_desc_sz_sq: 1008,
        log_max_msg: 31,
    }
}

fn request(send_wr: u32, recv_wr: u32, send_sge: u32, recv_sge: u32) -> QpCap {
    QpCap { max_send_wr: send_wr, max_recv_wr: recv_wr, max_send_sge: send_sge, max_recv_sge: recv_sge, max_inline_data: 0 }
}

#[test]
fn profile_places_the_largest_tables_first() {
    let p = Profile::new(&caps()).unwrap();
    let h = p.init_hca;
    assert_eq!(h.tpt_c_mpt_base, 0);
    assert_eq!(h.tpt_mtt_base, 0x1_0000_0000);
    assert_eq!(h.qpc_rdmarc_base, 0x1_2000_0000);
    assert_eq!(h.tpt_dmpt_base, 0x1_2400_0000);
    assert_eq!(h.qpc_base, 0x1_2600_0000);
    assert_eq!(h.mc_base, 0x1_2700_0000);
    assert_eq!(h.qpc_auxc_base, 0x1_2780_0000);
    assert_eq!(h.qpc_altc_base, 0x1_27c0_0000);
    assert_eq!(h.qpc_srqc_base, 0x1_27e0_0000);
    assert_eq!(h.qpc_cqc_base, 0x1_27f0_0000);
    assert_eq!(h.qpc_eqc_base, 0x1_27f8_0000);
    assert_eq!(p.total_size, 0x1_27f8_8000);
    assert_eq!((h.qpc_log_qp, h.qpc_log_srq, h.qpc_log_cq, h.qpc_log_eq), (17, 16, 16, 9));
    assert_eq!((h.tpt_log_dmpt_sz, h.qpc_log_rd, p.rdmarc_shift), (19, 3, 4));
    assert_eq!((p.num_mpts, p.num_mtts, p.num_mgms, p.num_amgms), (524288, 8388608, 4096, 4096));
}

#[test]
fn profile_must_fit_in_the_icm() {
    let mut c = caps();
    c.max_icm_sz = 0x1_27f8_7fff;
    assert_eq!(Profile::new(&c), Err(ProfileError::TotalSizeExceedsMaxIcm));
    c.max_icm_sz = 0x1_27f8_8000;
    assert!(Profile::new(&c).is_ok());
    assert_eq!(get_mgm_entry_size(), 1024);
    let r = Resource { size: 0, start: 0, typ: ResourceType::QP, num: 131072 };
    assert_eq!(r.lognum(), 17);
}

#[test]
fn init_hca_parameters_start_zeroed() {
    let h = InitHcaParameters::new();
    assert_eq!(h.qpc_base, 0);
    assert_eq!(h.mc_log_hash_sz, 0);
}

#[test]
fn receive_queue_sizing() {
    let c = caps();
    let mut req = request(0, 100, 0, 3);
    let rq = WorkQueue::new_receive_queue(&c, &mut req).unwrap();
    assert_eq!((rq.wqe_cnt, rq.max_gs, rq.wqe_shift, rq.max_post), (256, 4, 6, 256));
    assert_eq!(rq.spare_wqes, None);
    assert_eq!((req.max_recv_wr, req.max_recv_sge), (256, 4));
    assert_eq!(rq.size(), 16384);
    let mut bad = request(0, 100, 0, 31);
    assert_eq!(WorkQueue::new_receive_queue(&c, &mut bad), Err(WorkQueueError::InvalidRqSize));
    assert_eq!(bad, request(0, 100, 0, 31));
    let mut too_many = request(0, 65537, 0, 1);
    assert_eq!(WorkQueue::new_receive_queue(&c, &mut too_many), Err(WorkQueueError::InvalidRqSize));
}

#[test]
fn send_queue_sizing() {
    let c = caps();
    assert_eq!(send_wqe_overhead(QpType::Ud), 64);
    assert_eq!(send_wqe_overhead(QpType::Rc), 32);
    assert_eq!(send_wqe_overhead(QpType::Other), 16);
    assert_eq!(ib_sq_headroom(6), 33);
    assert_eq!(ib_sq_headroom(7), 17);
    let mut req = request(100, 0, 2, 0);
    let sq = WorkQueue::new_send_queue(&c, &mut req, QpType::Ud).unwrap();
    assert_eq!((sq.wqe_cnt, sq.wqe_shift, sq.max_gs, sq.max_post), (512, 7, 4, 495));
    assert_eq!(sq.spare_wqes, Some(17));
    assert_eq!((req.max_send_wr, req.max_send_sge), (495, 4));
    let mut small = c;
    small.max_desc_sz_sq = 64;
    let mut req = request(100, 0, 1, 0);
    assert_eq!(WorkQueue::new_send_queue(&small, &mut req, QpType::Ud), Err(WorkQueueError::InvalidSqSize));
}

fn ring(wqe_cnt: u32, wqe_shift: u32, offset: u32, head: u32, tail: u32, max_post: u32, max_gs: u32) -> WorkQueue {
    WorkQueue { wqe_cnt, max_post, max_gs, offset, wqe_shift, spare_wqes: Some(17), head, tail }
}

#[test]
fn work_queue_elements_wrap_around() {
    let q = ring(8, 6, 4096, 5, 2, 4, 4);
    assert_eq!(q.element_offset(3), 4096 + 192);
    assert_eq!(q.element_offset(11), 4096 + 192);
    assert_eq!(q.owner_bit(3), 0);
    assert_eq!(q.owner_bit(11), 0x8000_0000);
    assert_eq!(q.owner_bit(19), 0);
    assert!(!q.would_overflow(0));
    assert!(q.would_overflow(1));
    let mut q = q;
    q.advance_tail();
    assert_eq!(q.tail, 3);
}

#[test]
fn queue_pair_buffer_places_the_larger_stride_first() {
    let mut rq = ring(256, 6, 0, 0, 0, 256, 4);
    let mut sq = ring(512, 7, 0, 0, 0, 495, 4);
    assert_eq!(place_queues(&mut rq, &mut sq), 16384 + 65536);
    assert_eq!((rq.offset, sq.offset), (65536, 0));
    let mut rq = ring(256, 8, 0, 0, 0, 256, 16);
    let mut sq = ring(512, 7, 0, 0, 0, 495, 4);
    assert_eq!(place_queues(&mut rq, &mut sq), 65536 + 65536);
    assert_eq!((rq.offset, sq.offset), (0, 65536));
}

#[test]
fn state_transitions() {
    assert_eq!(select_transition(QpState::Reset, true, QpState::Init), Ok(QpTransition::Rst2Init));
    assert_eq!(select_transition(QpState::Init, true, QpState::Rtr), Ok(QpTransition::Init2Rtr));
    assert_eq!(select_transition(QpState::Rtr, true, QpState::Rts), Ok(QpTransition::Rtr2Rts));
    assert_eq!(select_transition(QpState::Rtr, true, QpState::Reset), Ok(QpTransition::Any2Rst));
    assert_eq!(select_transition(QpState::Rtr, true, QpState::Init), Err(QpModifyError::InvalidStateTransition));
}

fn qp_attr(qp_state: QpState, port_num: u8, sl: u8) -> QpAttr {
    QpAttr {
        qp_state,
        qp_access_flags: 0,
        qkey: 0,
        path_mtu: 0,
        dest_qp_num: 0,
        pkey_index: 0,
        alt_pkey_index: 0,
        port_num,
        dlid: 0,
        sl,
        alt_dlid: 0,
        min_rnr_timer: 0,
        rnr_retry: 0,
        timeout: 0,
    }
}

fn qp_setup(qp_type: QpType) -> QueuePairSetup {
    QueuePairSetup {
        qp_type,
        sq: ring(256, 7, 0, 0, 0, 255, 4),
        rq: ring(128, 6, 32768, 0, 0, 127, 4),
        send_cq_number: 0x81,
        receive_cq_number: 0x82,
        usr_page: 0x12,
        mtt: 0x40,
        doorbell_address: 0x1234_5000,
    }
}

#[test]
fn modify_plans() {
    let mut attr = qp_attr(QpState::Init, 1, 3);
    attr.qp_access_flags = IBV_ACCESS_REMOTE_WRITE | IBV_ACCESS_REMOTE_READ;
    let (port, plan) = plan_modify(
        &qp_setup(QpType::Rc), QpState::Reset, None, 31, &attr, IBV_QP_STATE | IBV_QP_ACCESS_FLAGS | IBV_QP_PORT,
    );
    let plan = plan.unwrap();
    assert_eq!(port, Some(1));
    assert_eq!(plan.transition, QpTransition::Rst2Init);
    assert_eq!(plan.context.service_type, 0);
    assert_eq!(plan.context.path_migration_state, 3);
    assert_eq!((plan.context.log_sq_size, plan.context.log_sq_stride), (8, 3));
    assert_eq!((plan.context.log_rq_size, plan.context.log_rq_stride), (7, 2));
    assert!(plan.context.remote_read && plan.context.remote_write && !plan.context.remote_atomic);
    assert!(plan.context.reserved_lkey);
    assert_eq!((plan.context.cqn_send, plan.context.cqn_receive), (0x81, 0x82));
    assert_eq!(plan.context.db_record_addr, 0x1234_5000);
    assert!(plan.init_send_queue);
    assert_eq!(plan.state, QpState::Init);
    assert_eq!(plan.param_mask, 0);

    let mut attr = qp_attr(QpState::Rtr, 0, 3);
    attr.qkey = 0x1111_0000;
    let (port, plan) = plan_modify(
        &qp_setup(QpType::Ud), QpState::Init, Some(1), 31, &attr, IBV_QP_STATE | IBV_QP_AV | IBV_QP_QKEY,
    );
    let plan = plan.unwrap();
    assert_eq!(port, Some(1));
    assert_eq!(plan.transition, QpTransition::Init2Rtr);
    assert_eq!(plan.context.primary_sched_queue, 0x8f);
    assert_eq!(plan.context.mtu, IBV_MTU_4096);
    assert_eq!(plan.context.msg_max, 31);
    assert_eq!(plan.context.qkey, 0x1111_0000);
    assert_eq!(plan.context.remote_qpn, 0);
    assert_eq!(plan.param_mask, OPT_QKEY);
    assert_eq!(plan.state, QpState::Rtr);
    assert!(!plan.init_send_queue);
    assert_eq!(
        plan_modify(&qp_setup(QpType::Ud), QpState::Init, None, 31, &attr, IBV_QP_STATE | IBV_QP_AV),
        (None, Err(QpModifyError::PortNumberNotSet))
    );

    let attr = qp_attr(QpState::Init, 2, 0);
    // the port number is kept although the modification fails
    assert_eq!(
        plan_modify(&qp_setup(QpType::Other), QpState::Reset, None, 31, &attr, IBV_QP_STATE | IBV_QP_PORT),
        (Some(2), Err(QpModifyError::InvalidQueuePairType))
    );
    assert_eq!(
        plan_modify(&qp_setup(QpType::Ud), QpState::Rtr, Some(1), 31, &attr, IBV_QP_STATE | IBV_QP_PORT),
        (Some(1), Err(QpModifyError::InvalidStateTransition))
    );

    let mut attr = qp_attr(QpState::Rts, 0, 0);
    attr.rnr_retry = 7;
    attr.timeout = 14;
    attr.min_rnr_timer = 12;
    let (_, plan) = plan_modify(
        &qp_setup(QpType::Rc), QpState::Rtr, Some(1), 31, &attr,
        IBV_QP_STATE | IBV_QP_RNR_RETRY | IBV_QP_TIMEOUT | IBV_QP_MIN_RNR_TIMER,
    );
    let plan = plan.unwrap();
    assert_eq!(plan.transition, QpTransition::Rtr2Rts);
    assert_eq!((plan.context.rnr_retry, plan.context.primary_ack_timeout), (7, 14));
    assert_eq!(plan.context.min_rnr_nak, 12);
    assert_eq!(plan.param_mask, OPT_MIN_RNR_NAK);
}

#[test]
fn port_given_at_init_is_used_at_rtr() {
    let mut attr = qp_attr(QpState::Init, 2, 0);
    attr.qkey = 5;
    let (port, plan) = plan_modify(&qp_setup(QpType::Ud), QpState::Reset, None, 31, &attr, IBV_QP_STATE | IBV_QP_PORT | IBV_QP_QKEY);
    assert!(plan.is_ok());
    assert_eq!(port, Some(2));
    let rtr = qp_attr(QpState::Rtr, 0, 1);
    let (port, plan) = plan_modify(&qp_setup(QpType::Ud), QpState::Init, port, 31, &rtr, IBV_QP_STATE | IBV_QP_AV);
    assert_eq!(port, Some(2));
    assert_eq!(plan.unwrap().context.primary_sched_queue, 0x83 | (1 << 6) | (1 << 2));
}

#[test]
fn transition_mailbox_layout() {
    let mut attr = qp_attr(QpState::Rtr, 2, 5);
    attr.dest_qp_num = 0x00ab_cdef;
    attr.dlid = 0x0102;
    attr.path_mtu = 3;
    attr.pkey_index = 9;
    attr.qp_access_flags = IBV_ACCESS_REMOTE_ATOMIC;
    let mask = IBV_QP_STATE | IBV_QP_AV | IBV_QP_DEST_QPN | IBV_QP_PATH_MTU | IBV_QP_PKEY_INDEX | IBV_QP_ACCESS_FLAGS;
    let (_, plan) = plan_modify(&qp_setup(QpType::Rc), QpState::Init, Some(2), 31, &attr, mask);
    let plan = plan.unwrap();
    let ctx = context_bytes(&plan.context);
    assert_eq!(ctx.len(), QP_CONTEXT_SIZE);
    assert_eq!(ctx[8], (3 << 5) | 31);
    assert_eq!(&ctx[21..24], &[0xab, 0xcd, 0xef]);
    assert_eq!(ctx[27], 9);
    assert_eq!(&ctx[30..32], &[0x01, 0x02]);
    assert_eq!(ctx[56], 0x83 | (1 << 6) | (5 << 2));
    assert_eq!(ctx[146], 0x20);
    let nonzero: Vec<usize> = (0..QP_CONTEXT_SIZE).filter(|i| ctx[*i] != 0).collect();
    assert_eq!(nonzero, vec![8, 21, 22, 23, 27, 30, 31, 56, 146]);
    let mailbox = transition_mailbox(plan.param_mask, &plan.context);
    assert_eq!(mailbox.len(), TRANSITION_MAILBOX_SIZE);
    assert_eq!(&mailbox[0..4], &(OPT_PKEY_INDEX | OPT_REMOTE_WRITE | OPT_REMOTE_ATOMIC | OPT_REMOTE_READ).to_be_bytes());
    assert_eq!(&mailbox[8..8 + QP_CONTEXT_SIZE], &ctx[..]);
    assert!(mailbox[8 + QP_CONTEXT_SIZE..].iter().all(|b| *b == 0));

    let mut attr = qp_attr(QpState::Init, 1, 0);
    attr.qp_access_flags = IBV_ACCESS_REMOTE_READ;
    let (_, plan) = plan_modify(&qp_setup(QpType::Rc), QpState::Reset, None, 31, &attr, IBV_QP_STATE | IBV_QP_ACCESS_FLAGS);
    let ctx = context_bytes(&plan.unwrap().context);
    assert_eq!(&ctx[0..4], &[0x00, 0x00, 0x18, 0x00]);
    assert_eq!(&ctx[8..12], &[0x00, (7 << 3) | 2, (8 << 3) | 3, 0x10]);
    assert_eq!(&ctx[12..16], &[0x00, 0x00, 0x00, 0x12]);
    assert_eq!(&ctx[124..128], &[0x00, 0x00, 0x00, 0x81]);
    assert_eq!(ctx[146], 0x80);
    assert_eq!(&ctx[156..160], &[0x00, 0x00, 0x00, 0x82]);
    assert_eq!(&ctx[160..168], &0x1234_5000u64.to_be_bytes());
    assert_eq!(&ctx[203..208], &[0x00, 0x00, 0x00, 0x00, 0x40]);
}

#[test]
fn initial_send_queue_control() {
    let ctrl = initial_send_control(7);
    assert_eq!(ctrl, vec![0x80, 0, 0, 0, 8, 0, 0, 0]);
    let size = (u32::from_be_bytes([ctrl[4], ctrl[5], ctrl[6], ctrl[7]]) & 0x3f) << 4;
    assert_eq!(size, 0);
    assert!(stamp_offsets(0, size).is_empty());
}

fn ud_wr() -> SendWrFields {
    SendWrFields::Ud { port: 1, slid: 0x85, dlid: 7, remote_qpn: 0x49, remote_qkey: 0x1111 }
}

#[test]
fn posting_a_send() {
    let sq = ring(512, 7, 0, 0, 0, 495, 4);
    let plan = plan_post_send(QpState::Rts, QpType::Ud, 0x48, &sq, WrOpcode::Send, &ud_wr(), 2, None).unwrap();
    assert_eq!(plan.ctrl_offset, 0);
    assert_eq!(
        plan.extra,
        ExtraSegment::Datagram(DatagramSegment { port_pd: 0x0100_0000, g_slid: 0x05, dlid: 7, dst_qpn: 0x49, qkey: 0x1111 })
    );
    assert_eq!(plan.data_offsets, vec![64, 80]);
    assert_eq!(plan.ds, 6);
    assert_eq!(plan.owner_opcode, 0x0a);
    assert_eq!(plan.doorbell, SendDoorbell::SendQueue(0x4800));
    assert_eq!(plan.stamp_index, 17);
    assert_eq!(plan.new_head, 1);
    // one lap later the owner bit is set
    let sq = ring(512, 7, 0, 512, 100, 495, 4);
    let plan = plan_post_send(QpState::Rts, QpType::Ud, 0x48, &sq, WrOpcode::Send, &ud_wr(), 1, None).unwrap();
    assert_eq!(plan.owner_opcode, 0x8000_000a);
}

#[test]
fn posting_with_blueflame_and_rdma() {
    let sq = ring(512, 7, 0, 3, 0, 495, 4);
    let plan = plan_post_send(QpState::Rts, QpType::Ud, 0x48, &sq, WrOpcode::Send, &ud_wr(), 2, Some(512)).unwrap();
    assert_eq!(
        plan.doorbell,
        SendDoorbell::BlueFlame { owner_opcode: 0x30a, vlan_cv_f_ds: 0x4806, buffer_offset: 256, copy_len: 96 }
    );
    assert_eq!(plan.stamp_index, 19);
    assert_eq!(plan.ctrl_offset, 3 * 128);
    let wr = SendWrFields::Rdma { remote_addr: 0xdead_0000, rkey: 0x77 };
    let plan = plan_post_send(QpState::Rts, QpType::Rc, 0x48, &sq, WrOpcode::RdmaWrite, &wr, 1, None).unwrap();
    assert_eq!(plan.extra, ExtraSegment::Remote(RemoteAddressSegment { va: 0xdead_0000, key: 0x77 }));
    assert_eq!(plan.data_offsets, vec![3 * 128 + 32]);
    assert_eq!(plan.ds, 3);
    assert_eq!(plan.owner_opcode, 0x08);
    // an RC send carries no extra segment
    let plan = plan_post_send(QpState::Rts, QpType::Rc, 0x48, &sq, WrOpcode::Send, &SendWrFields::Other, 1, None).unwrap();
    assert_eq!(plan.extra, ExtraSegment::NoSegment);
    assert_eq!(plan.ds, 2);
}

#[test]
fn refused_sends() {
    let sq = ring(512, 7, 0, 0, 0, 495, 4);
    assert_eq!(plan_post_send(QpState::Rtr, QpType::Ud, 1, &sq, WrOpcode::Send, &ud_wr(), 1, None).err(), Some(PostError::WrongState));
    let full = ring(512, 7, 0, 495, 0, 495, 4);
    assert_eq!(plan_post_send(QpState::Rts, QpType::Ud, 1, &full, WrOpcode::Send, &ud_wr(), 1, None).err(), Some(PostError::WouldOverflow));
    assert_eq!(plan_post_send(QpState::Rts, QpType::Ud, 1, &sq, WrOpcode::Send, &ud_wr(), 5, None).err(), Some(PostError::TooManySges));
    assert_eq!(plan_post_send(QpState::Rts, QpType::Rc, 1, &sq, WrOpcode::RdmaRead, &ud_wr(), 1, None).err(), Some(PostError::InvalidWrField));
    assert_eq!(plan_post_send(QpState::Rts, QpType::Ud, 1, &sq, WrOpcode::Send, &SendWrFields::Other, 1, None).err(), Some(PostError::InvalidWrField));
    assert_eq!(plan_post_send(QpState::Rts, QpType::Other, 1, &sq, WrOpcode::Send, &ud_wr(), 1, None).err(), Some(PostError::InvalidQueuePairType));
    assert_eq!(RemoteAddressSegment::from_wr(&ud_wr()), Err(PostError::InvalidWrField));
    assert_eq!(DatagramSegment::from_wr(&SendWrFields::Other), Err(PostError::InvalidWrField));
}

#[test]
fn posting_a_receive() {
    let rq = ring(256, 6, 65536, 0, 0, 256, 4);
    let plan = plan_post_receive(QpState::Rtr, &rq, 2).unwrap();
    assert_eq!(plan.segment_offsets, vec![65536, 65600, 65664]);
    assert_eq!((plan.new_head, plan.doorbell), (1, 1));
    let wrapped = ring(256, 6, 65536, 0xffff, 0xff10, 256, 4);
    let plan = plan_post_receive(QpState::Rts, &wrapped, 0).unwrap();
    assert_eq!(plan.segment_offsets, vec![65536 + 255 * 64]);
    assert_eq!((plan.new_head, plan.doorbell), (0x1_0000, 0));
    assert_eq!(plan_post_receive(QpState::Init, &rq, 1).err(), Some(PostError::WrongState));
    assert_eq!(plan_post_receive(QpState::Rts, &rq, 5).err(), Some(PostError::TooManySges));
    let full = ring(256, 6, 0, 256, 0, 256, 4);
    assert_eq!(plan_post_receive(QpState::Rts, &full, 1).err(), Some(PostError::WouldOverflow));
    assert_eq!(DataSegment::last(), DataSegment { byte_count: 0, lkey: INVALID_LKEY, addr: 0 });
    assert_eq!(DataSegment::from_sge(64, 5, 0x9000), DataSegment { byte_count: 64, lkey: 5, addr: 0x9000 });
}

#[test]
fn stamping_marks_each_chunk_but_the_first() {
    assert_eq!(stamp_offsets(1024, 64), Vec::<u64>::new());
    assert_eq!(stamp_offsets(1024, 65), vec![1088]);
    assert_eq!(stamp_offsets(1024, 256), vec![1088, 1152, 1216]);
}

fn cqe(opcode: u8, is_send: bool, owner: bool) -> CompletionQueueEntry {
    CompletionQueueEntry {
        qp_number: 0x48,
        immed_rss_invalid: 0x1234_5685,
        g: true,
        mlpath: 2,
        rqpn: 0x99,
        sl: 1,
        slid: 7,
        byte_cnt: 300,
        wqe_index: 0,
        checksum: 0x3205,
        owner,
        is_send,
        opcode,
    }
}

#[test]
fn completions_decode_entries() {
    let wc = complete(&cqe(0x0a, true, false)).unwrap();
    assert_eq!((wc.qp_num, wc.opcode, wc.status, wc.byte_len, wc.wc_flags), (0x48, WcOpcode::Send, WcStatus::Success, 0, 0));
    let wc = complete(&cqe(0x10, true, false)).unwrap();
    assert_eq!((wc.opcode, wc.byte_len), (WcOpcode::RdmaRead, 300));
    let wc = complete(&cqe(0x11, true, false)).unwrap();
    assert_eq!((wc.opcode, wc.byte_len), (WcOpcode::CompSwap, 8));
    let wc = complete(&cqe(0x02, false, false)).unwrap();
    assert_eq!(wc.opcode, WcOpcode::Recv);
    assert_eq!(wc.wc_flags, IBV_WC_WITH_IMM | IBV_WC_GRH);
    assert_eq!((wc.imm_data, wc.src_qp, wc.pkey_index, wc.slid, wc.sl, wc.byte_len), (0x1234_5685, 0x99, 0x05, 7, 1, 300));
    let wc = complete(&cqe(0x1e, true, false)).unwrap();
    assert_eq!((wc.status, wc.vendor_err), (WcStatus::WrFlushErr, 0x32));
    let mut bad = cqe(0x1e, true, false);
    bad.checksum = 0x3203;
    assert_eq!(complete(&bad), Err(CompletionError::InvalidErrorSyndrome));
    assert_eq!(complete(&cqe(0x05, true, false)), Err(CompletionError::InvalidOpcode));
    assert_eq!(complete(&cqe(0x07, false, false)), Err(CompletionError::InvalidOpcode));
}

#[test]
fn polling_advances_the_queue_of_the_request() {
    let queues = QueuePairQueues { number: 0x48, sq: ring(512, 7, 0, 4, 1, 495, 4), rq: ring(256, 6, 65536, 9, 2, 256, 4) };
    let mut qps = vec![QueuePairQueues { number: 0x40, ..queues }, queues];
    let mut cq = CompletionQueueState { consumer_index: 0, num_entries: 8 };
    let wc = cq.poll_one(&mut qps, &cqe(0x0a, true, false)).unwrap().unwrap();
    assert_eq!(wc.opcode, WcOpcode::Send);
    assert_eq!(cq.consumer_index, 1);
    assert_eq!(qps[1].sq.tail, 2);
    assert_eq!(qps[1].rq.tail, 2);
    assert_eq!(qps[0].sq.tail, 1);
    cq.poll_one(&mut qps, &cqe(0x01, false, false)).unwrap();
    assert_eq!(qps[1].rq.tail, 3);
    // after one lap, entries with the owner bit clear belong to hardware
    let mut cq = CompletionQueueState { consumer_index: 8, num_entries: 8 };
    assert_eq!(cq.poll_one(&mut qps, &cqe(0x0a, true, false)), Ok(None));
    assert_eq!(cq.consumer_index, 8);
    assert!(cq.poll_one(&mut qps, &cqe(0x0a, true, true)).unwrap().is_some());
    // an unknown queue pair still consumes the entry
    let mut other = cqe(0x0a, true, false);
    other.qp_number = 0x77;
    let mut cq = CompletionQueueState { consumer_index: 0x0100_0005, num_entries: 8 };
    let before = qps.clone();
    assert!(cq.poll_one(&mut qps, &other).unwrap().is_some());
    assert_eq!(qps, before);
    assert_eq!(cq.doorbell_value(), 6);
}

#[test]
fn polling_a_ring_stops_at_hardware_entries() {
    let queues = QueuePairQueues { number: 0x48, sq: ring(512, 7, 0, 4, 1, 495, 4), rq: ring(256, 6, 65536, 9, 2, 256, 4) };
    let mut qps = vec![queues];
    // slots 0 and 1 are done; slot 2 still belongs to hardware
    let entries = vec![
        cqe(0x0a, true, false), cqe(0x01, false, false), cqe(0x0a, true, true), cqe(0x0a, true, true),
    ];
    let mut cq = CompletionQueueState { consumer_index: 0, num_entries: 4 };
    let (wcs, doorbell) = cq.poll(&mut qps, &entries, 10).unwrap();
    assert_eq!(wcs.len(), 2);
    assert_eq!(wcs[0].opcode, WcOpcode::Send);
    assert_eq!(cq.consumer_index, 2);
    assert_eq!(doorbell, 2);
    assert_eq!((qps[0].sq.tail, qps[0].rq.tail), (2, 3));
    // at most `max` entries are taken
    let mut cq = CompletionQueueState { consumer_index: 0, num_entries: 4 };
    let (wcs, _) = cq.poll(&mut vec![queues], &entries, 1).unwrap();
    assert_eq!((wcs.len(), cq.consumer_index), (1, 1));
    // an entry that cannot be reported ends the poll with its error
    let bad_ring = vec![cqe(0x0a, true, false), cqe(0x05, true, false), cqe(0x0a, true, false), cqe(0x0a, true, false)];
    let mut cq = CompletionQueueState { consumer_index: 0, num_entries: 4 };
    assert_eq!(cq.poll(&mut vec![queues], &bad_ring, 4), Err(CompletionError::InvalidOpcode));
    assert_eq!(cq.consumer_index, 2);
}

#[test]
fn completion_ring_helpers() {
    assert!(cqe_belongs_to_sw(false, 3, 8));
    assert!(!cqe_belongs_to_sw(true, 3, 8));
    assert!(cqe_belongs_to_sw(true, 11, 8));
    assert_eq!(cqe_slot(11, 8), 3);
    assert_eq!(cq_pages(256), 2);
    assert_eq!(cq_pages(1), 1);
    assert_eq!(arm_value(1, 5), 0x1200_0005);
    assert_eq!(arm_value(5, 0x0100_0002), 0x1200_0002);
}

#[test]
fn command_register_protocol() {
    let mut cmd = CommandInterface::new();
    assert_eq!(cmd.post(0x07, 0), 0x00a0_0007);
    assert_eq!(cmd.exp_toggle, 0);
    assert_eq!(cmd.post(0x0a, 1), 0x0080_100a);
    assert_eq!(cmd.exp_toggle, 1);
    assert!(cmd.is_pending(0x0080_0000));
    assert!(!cmd.is_pending(0x0000_0000));
    assert_eq!(poll_token_word(), 0xffff_0000);
    assert_eq!(ReturnStatus::from_status_word(0x0000_0007), Some(ReturnStatus::Success));
    assert_eq!(ReturnStatus::from_status_word(0x0300_0000), Some(ReturnStatus::BadParam));
    assert_eq!(ReturnStatus::from_status_word(0x4000_0000), Some(ReturnStatus::BadSize));
    assert_eq!(ReturnStatus::from_status_word(0x0700_0000), None);
}

#[test]
fn number_allocation() {
    let mut o = Offsets::init(&caps());
    assert_eq!((o.next_cqn, o.next_qpn, o.next_dmpt, o.next_eqn), (128, 64, 2, 8));
    assert_eq!((o.next_sqc_doorbell_index, o.next_eq_doorbell_index), (128, 2));
    assert_eq!(o.alloc_qpn(), 64);
    assert_eq!(o.alloc_qpn(), 65);
    assert_eq!(o.alloc_cqn(), 128);
    assert_eq!(o.alloc_eqn(), 8);
    assert_eq!(o.alloc_scq_db(), 128);
    assert_eq!(o.alloc_dmpt(), 2);
    assert_eq!(o.alloc_dmpt(), 258);
}

#[test]
fn mtt_and_dmpt() {
    let mut m = MttAllocator { reserved_mtts: 16, offset: 0 };
    assert_eq!(m.alloc_mtt(64, 10), 1024);
    assert_eq!(m.alloc_mtt(64, 1), (16 + 10) * 64);
    assert_eq!(mtt_write_chunks(1200), vec![(0, 510), (510, 510), (1020, 180)]);
    assert_eq!(mtt_write_chunks(0), Vec::<(u64, u64)>::new());
    assert_eq!(mtt_entry_value(0x10000, 2), 0x12001);
    let d = plan_dmpt(0x1234_5678, 0x40_0000, 10000, Some(0x48), 1 | 4, 0x800);
    assert_eq!(d.key(), 0x1234_5678);
    assert_eq!(d.index, 0x7812_3456);
    assert_eq!(d.mtt_size, 2);
    assert!(d.bound_to_qp && d.local_write && d.remote_read && !d.remote_write);
    let d = plan_dmpt(1, 0, 100, None, 0, 0);
    assert_eq!(d.mtt_size, 1);
    assert!(!d.bound_to_qp);
    let mut d = d;
    d.set_key(0xabcd_ef01);
    assert_eq!(d.key(), 0xabcd_ef01);
}

#[test]
fn dmpt_entry_layout() {
    let d = plan_dmpt(0x1234_5678, 0x40_0000, 10000, Some(0x48), 1 | 4, 0x800);
    let b = dmpt_bytes(&d);
    assert_eq!(b.len(), DMPT_ENTRY_SIZE);
    // MIO; remote read, local write, local read, region
    assert_eq!(&b[0..4], &[0x00, 0x02, 0x10 | 0x08 | 0x04 | 0x01, 0x00]);
    assert_eq!(&b[4..8], &[0x00, 0x00, 0x48, 0x80]);
    assert_eq!(&b[8..12], &0x7812_3456u32.to_be_bytes());
    assert_eq!(b[12], 0x10);
    assert_eq!(&b[16..24], &0x40_0000u64.to_be_bytes());
    assert_eq!(&b[24..32], &10000u64.to_be_bytes());
    assert_eq!(&b[47..52], &[0x00, 0x00, 0x00, 0x08, 0x00]);
    assert_eq!(&b[52..56], &2u32.to_be_bytes());
    assert_eq!(&b[57..60], &[0x00, 0x00, 12]);
    let others: Vec<usize> = (0..DMPT_ENTRY_SIZE)
        .filter(|i| !(1..3).contains(i) && !(4..13).contains(i) && !(16..32).contains(i) && !(47..60).contains(i))
        .filter(|i| b[*i] != 0)
        .collect();
    assert!(others.is_empty());
    let unbound = dmpt_bytes(&plan_dmpt(1, 0, 100, None, IBV_ACCESS_REMOTE_WRITE, 0));
    assert_eq!(&unbound[0..8], &[0x00, 0x02, 0x20 | 0x04 | 0x01, 0x00, 0, 0, 0, 0]);
}

#[test]
fn icm_tables_and_layout() {
    let plan = plan_icm_table(64, 1000, 100, 0x1000_0000);
    assert_eq!(plan.icm_num, 1);
    assert_eq!(plan.chunks.len(), 1);
    assert_eq!((plan.chunks[0].size, plan.chunks[0].num_pages, plan.chunks[0].virt), (65536, 16, 0x1000_0000));
    let plan = plan_icm_table(256, 4096, 2048, 0);
    assert_eq!(plan.chunks.len(), 2);
    assert_eq!((plan.chunks[1].size, plan.chunks[1].virt), (262144, 262144));
    let plan = plan_icm_table(64, 1000, 0, 0);
    assert_eq!(plan.chunks.len(), 0);
    assert_eq!(reserved_mtts(4, 8), 16);
    assert_eq!(reserved_mtts(0, 16), 4);
    assert_eq!(icm_mapping_entries(0x20_0000, 0x1000, 2), vec![(0x20_0000, 0x1000), (0x20_1000, 0x2000)]);
    let (starts, total) = icm_layout(&vec![4096, 16384, 8192]).unwrap();
    assert_eq!(starts, vec![24576, 0, 16384]);
    assert_eq!(total, 28672);
    assert_eq!(icm_layout(&vec![u64::MAX, 4096]), None);
}

#[test]
fn icm_table_requests_of_a_profile() {
    let c = caps();
    let p = Profile::new(&c).unwrap();
    let counts = TableCounts { qps: 1 << 17, srqs: 1 << 16, cqs: 1 << 16, eqs: 512 };
    let r = icm_table_requests(&p, &c, &counts);
    assert_eq!(r.len(), 14);
    assert_eq!((r[0].obj_size, r[0].obj_num, r[0].reserved, r[0].virt), (64, 1 << 17, 64, 0));
    assert_eq!(r[1].virt, 64 << 24);
    assert_eq!(r[3].virt, (3 * 64) << 24);
    assert_eq!((r[3].obj_num, r[3].reserved), (512, 512));
    assert_eq!((r[5].obj_size, r[5].reserved, r[5].virt), (64, 16, 0x1_0000_0000));
    assert_eq!((r[10].obj_size, r[10].virt), (512, 0x1_2000_0000));
    assert_eq!((r[13].obj_size, r[13].obj_num, r[13].virt), (1024, 8192, 0x1_2700_0000));
}

#[test]
fn memory_helpers() {
    assert_eq!(pages_required(0), 0);
    assert_eq!(pages_required(1), 1);
    assert_eq!(pages_required(4096), 1);
    assert_eq!(pages_required(4097), 2);
    let pages = MappedPages { start: 0x1000, end: 0x3000 };
    assert!(pages.non_zero());
    assert_eq!(pages.object_address(8, 16, 8), Ok(0x1008));
    assert_eq!(pages.object_address(4, 8, 8), Err(AccessError::NotAligned));
    assert_eq!(pages.object_address(0x1ff8, 16, 8), Err(AccessError::DoesNotFit));
    assert_eq!(pages.object_address(0x1ff0, 16, 8), Ok(0x2ff0));
    assert_eq!(pages.slice_address(0, usize::MAX, 2, 1), Err(AccessError::Overflow));
    assert_eq!(pages.slice_address(16, 4, 8, 8), Ok(0x1010));
    assert_eq!(pages.slice_address(16, 1024, 8, 8), Err(AccessError::DoesNotFit));
    assert_eq!(pages.offset_of_address(0x2000), Some(0x1000));
    assert_eq!(pages.offset_of_address(0x3000), None);
    assert_eq!(pages.offset_of_address(0x800), None);
    let ok = PageToFrameRange::from_frame(pages, 0x5000, 0x5000);
    assert!(ok.is_valid());
    assert_eq!(ok.fetch_in_addr(), Some((pages, 0x5000)));
    let bad = PageToFrameRange::from_frame(pages, 0x5000, 0x6000);
    assert!(!bad.is_valid());
    assert_eq!(bad.fetch_in_addr(), None);
    assert!(!PageToFrameRange::from_frame(pages, 0x5800, 0x5800).is_valid());
}

#[test]
fn deferred_operations_run_in_order() {
    let mut mem = vec![0u8; 16];
    let mut ops = Operations::new();
    ops.add_operation(OperationArgs::Fill(0xaa, 2, 4));
    ops.add_operation(OperationArgs::Copy(vec![1, 2, 3], 4, 3));
    ops.perform_and_flush(&mut mem);
    assert_eq!(&mem[..8], &[0, 0, 0xaa, 0xaa, 1, 2, 3, 0]);
    assert!(ops.operation_container.is_empty());
    let mut ops = Operations::new();
    ops.add_operation(OperationArgs::Fill(7, 0, 16));
    ops.perform(&mut mem);
    assert_eq!(mem, vec![7u8; 16]);
}

#[test]
fn port_info_request_layout() {
    let r = port_info_request(2);
    assert_eq!(r.len(), MAD_SIZE);
    assert_eq!(&r[0..4], &[1, 1, 1, 1]);
    assert_eq!(&r[16..18], &[0x00, 0x15]);
    assert_eq!(&r[20..24], &[0, 0, 0, 2]);
    assert_eq!(r.iter().filter(|b| **b != 0).count(), 6);
    assert_eq!(
        MAD_IFC_PORT_INFO_MODIFIER,
        MAD_IFC_DISABLE_MKEY_VALIDATION | MAD_IFC_DISABLE_BKEY_VALIDATION
    );
}

#[test]
fn set_port_mailbox_layout() {
    let with_pkey = set_port_command(0x1234_5678, Some(0x0180), 5, 8);
    assert_eq!(with_pkey.len(), 42);
    assert_eq!(&with_pkey[0..8], &[0x00, 0x70, 0x50, 0x80, 0x12, 0x34, 0x56, 0x78]);
    assert_eq!(&with_pkey[40..42], &[0x01, 0x80]);
    assert!(with_pkey[8..40].iter().all(|b| *b == 0));
    let without = set_port_command(0x0000_0200, None, 4, 1);
    assert_eq!(&without[0..8], &[0x00, 0x60, 0x40, 0x10, 0x00, 0x00, 0x02, 0x00]);
    assert_eq!(&without[40..42], &[0, 0]);
    let all = set_port_commands(7, None, 3);
    assert_eq!(all.len(), 4);
    let caps: Vec<u8> = all.iter().map(|m| m[3] >> 4).collect();
    assert_eq!(caps, vec![8, 4, 2, 1]);
    assert_eq!(all[2], set_port_command(7, None, 3, 2));
}

#[test]
fn port_info_reply_fields() {
    let mut data = [0u8; 64];
    data[16] = 0x00;
    data[17] = 0x07;
    data[18] = 0x00;
    data[19] = 0x01;
    data[20..24].copy_from_slice(&[0x02, 0x51, 0x08, 0x6a]);
    data[32] = 0x24; // speeds supported 2, state ACTIVE (4)
    data[33] = 0x52; // physical state LinkUp (5)
    data[34] = 0x03; // LMC 3
    data[36] = 0x40; // active MTU 4
    data[41] = 0x35; // maximal MTU 5
    let info = PortInfo::parse(&data);
    assert_eq!(info.lid, 7);
    assert_eq!(info.sm_lid, 1);
    assert_eq!(info.port_cap_flags, 0x0251_086a);
    assert_eq!(info.state, 4);
    assert_eq!(info.phys_state, 5);
    assert_eq!(info.lmc, 3);
    assert_eq!(info.active_mtu, 4);
    assert_eq!(info.max_mtu, 5);
}

#[test]
fn query_port_capabilities() {
    let mut bytes = [0u8; 24];
    bytes[0] = 0x81;
    bytes[1] = 0x05;
    bytes[2] = 0x05;
    bytes[3] = 0xdc;
    bytes[18..24].copy_from_slice(&[0x00, 0x02, 0xc9, 0x12, 0x34, 0x56]);
    let caps = PortCapabilities::parse(&bytes);
    assert!(caps.link_up && caps.ib && !caps.eth);
    assert_eq!(caps.ib_mtu, 5);
    assert_eq!(caps.eth_mtu, 1500);
    assert_eq!(caps.mac, 0x0002_c912_3456);
    bytes[0] = 0x02;
    let caps = PortCapabilities::parse(&bytes);
    assert!(!caps.link_up && !caps.ib && caps.eth);
}

#[test]
fn cq_context_layout() {
    let c = plan_cq_context(256, 0x21, Some(3), 0x1_2345_6780, 0xdead_b000);
    assert_eq!(c.log_size, 8);
    assert_eq!(c.log_page_size, 0);
    let b = cq_context(&c);
    assert_eq!(b.len(), CQ_CONTEXT_SIZE);
    assert_eq!(&b[12..16], &[8, 0x00, 0x00, 0x21]);
    assert_eq!(b[23], 3);
    assert_eq!(b[24], 0);
    assert_eq!(&b[27..32], &[0x01, 0x23, 0x45, 0x67, 0x80]);
    assert_eq!(&b[56..64], &0xdead_b000u64.to_be_bytes());
    let nonzero: Vec<usize> = (0..CQ_CONTEXT_SIZE).filter(|i| b[*i] != 0).collect();
    assert_eq!(nonzero, vec![12, 15, 23, 27, 28, 29, 30, 31, 60, 61, 62]);
    let no_eq = cq_context(&plan_cq_context(1, 0, None, 0, 0));
    assert!(no_eq.iter().all(|x| *x == 0));
}

#[test]
fn wqe_segment_layouts() {
    let d = DataSegment::from_sge(0x200, 0x1234, 0x0000_0001_0000_2000);
    assert_eq!(
        d.to_bytes(),
        vec![0, 0, 0x02, 0x00, 0, 0, 0x12, 0x34, 0, 0, 0, 0x01, 0, 0, 0x20, 0x00]
    );
    assert_eq!(DataSegment::last().to_bytes()[4..8], [0, 0, 0x01, 0x00]);
    let r = RemoteAddressSegment::from_wr(&SendWrFields::Rdma { remote_addr: 0x1122_3344_5566_7788, rkey: 0x99aa_bbcc }).unwrap();
    assert_eq!(
        r.to_bytes(),
        vec![0x11, 0x22, 0x33, 0x44, 0x55, 0x66, 0x77, 0x88, 0x99, 0xaa, 0xbb, 0xcc, 0, 0, 0, 0]
    );
    let g = DatagramSegment::from_wr(&ud_wr()).unwrap();
    let b = g.to_bytes();
    assert_eq!(b.len(), 48);
    assert_eq!(&b[0..8], &[0x01, 0, 0, 0, 0, 0x05, 0x00, 0x07]);
    assert_eq!(&b[32..40], &[0, 0, 0, 0x49, 0, 0, 0x11, 0x11]);
    assert!(b[8..32].iter().chain(b[40..48].iter()).all(|x| *x == 0));
    assert_eq!(
        control_segment(0x8000_000a, 3),
        vec![0x80, 0, 0, 0x0a, 0, 0, 0, 3, 0, 0, 0, 0x0c, 0, 0, 0, 0]
    );
}
