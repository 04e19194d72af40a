//! The decisions of a queue pair: which state transition a modification
//! asks for, which context fields and optional parameters it sends, and
//! where the two work queues lie in the queue pair buffer.
use vstd::prelude::*;
use crate::bits::{floor_log2, ilog2_u32};
use crate::mlx4::work_queue::{QpType, WorkQueue};
use vstd::arithmetic::power2::{pow2, lemma_pow2_pos, lemma_pow2_adds, lemma2_to64};
use crate::mlx4::qp_context::{QpContext, empty_context};
use crate::mlx4::offsets::{IBV_ACCESS_REMOTE_ATOMIC, IBV_ACCESS_REMOTE_READ, IBV_ACCESS_REMOTE_WRITE};
use vstd::bits::lemma_u32_shl_is_mul;
use vstd::arithmetic::div_mod::lemma_mod_multiples_basic;

verus! {

/// The state of a queue pair.
#[derive(Clone, Copy, Debug, PartialEq, Eq)]
pub enum QpState {
    Reset,
    Init,
    Rtr,
    Rts,
    Sqd,
    Sqe,
    Error,
}

/// The firmware command that performs a state transition.
#[derive(Clone, Copy, Debug, PartialEq, Eq)]
pub enum QpTransition {
    Rst2Init,
    Init2Init,
    Init2Rtr,
    Rtr2Rts,
    Any2Rst,
}

/// Why a modification is refused.
#[derive(Clone, Copy, Debug, PartialEq, Eq)]
pub enum QpModifyError {
    /// The queue pair type has no state machine here.
    InvalidQueuePairType,
    /// The transition INIT -> RTR needs a port number.
    PortNumberNotSet,
    /// The requested transition does not exist.
    InvalidStateTransition,
}

/// The attribute mask of a modification (the `ibv_qp_attr_mask` bits).
pub const IBV_QP_STATE: u32 = 1;
pub const IBV_QP_ACCESS_FLAGS: u32 = 8;
pub const IBV_QP_PKEY_INDEX: u32 = 16;
pub const IBV_QP_PORT: u32 = 32;
pub const IBV_QP_QKEY: u32 = 64;
pub const IBV_QP_AV: u32 = 128;
pub const IBV_QP_PATH_MTU: u32 = 256;
pub const IBV_QP_TIMEOUT: u32 = 512;
pub const IBV_QP_RNR_RETRY: u32 = 2048;
pub const IBV_QP_ALT_PATH: u32 = 16384;
pub const IBV_QP_MIN_RNR_TIMER: u32 = 32768;
pub const IBV_QP_DEST_QPN: u32 = 1048576;

/// The optional parameter mask bits of a state transition command.
pub const OPT_ALTERNATE_PATH: u32 = 1;
pub const OPT_REMOTE_READ: u32 = 2;
pub const OPT_REMOTE_ATOMIC: u32 = 4;
pub const OPT_REMOTE_WRITE: u32 = 8;
pub const OPT_PKEY_INDEX: u32 = 16;
pub const OPT_QKEY: u32 = 32;
pub const OPT_MIN_RNR_NAK: u32 = 64;

pub open spec fn mask_has(mask: u32, bit: u32) -> bool {
    mask & bit != 0
}

/// Whether the modification asks for something that is not implemented
/// (modifying RTS, or anything with SQD).
pub open spec fn unimplemented_transition(current: QpState, has_state: bool, target: QpState) -> bool {
    ||| (current == QpState::Rts && (!has_state || target == QpState::Rts || target == QpState::Sqd))
    ||| (current == QpState::Sqd && (!has_state || target == QpState::Rts || target == QpState::Sqd))
}

/// The transition that a modification selects, or why none applies.
pub open spec fn transition_of(current: QpState, has_state: bool, target: QpState) -> Result<QpTransition, QpModifyError> {
    if current == QpState::Reset && has_state && target == QpState::Init {
        Ok(QpTransition::Rst2Init)
    } else if current == QpState::Reset && !has_state {
        Ok(QpTransition::Any2Rst)
    } else if current == QpState::Init && has_state && target == QpState::Rtr {
        Ok(QpTransition::Init2Rtr)
    } else if current == QpState::Init && (!has_state || target == QpState::Init) {
        Ok(QpTransition::Init2Init)
    } else if current == QpState::Rtr && has_state && target == QpState::Rts {
        Ok(QpTransition::Rtr2Rts)
    } else if has_state && target == QpState::Reset {
        Ok(QpTransition::Any2Rst)
    } else {
        Err(QpModifyError::InvalidStateTransition)
    }
}

/// Selects the firmware command for a modification of a queue pair in
/// state `current` that asks (when `has_state`) for the state `target`.
pub fn select_transition(current: QpState, has_state: bool, target: QpState) -> (r: Result<QpTransition, QpModifyError>)
    requires
        !unimplemented_transition(current, has_state, target),
    ensures
        r == transition_of(current, has_state, target),
{
    match (current, has_state, target) {
        (QpState::Reset, true, QpState::Init) => Ok(QpTransition::Rst2Init),
        (QpState::Reset, false, _) => Ok(QpTransition::Any2Rst),
        (QpState::Init, true, QpState::Rtr) => Ok(QpTransition::Init2Rtr),
        (QpState::Init, true, QpState::Init) | (QpState::Init, false, _) => Ok(QpTransition::Init2Init),
        (QpState::Rtr, true, QpState::Rts) => Ok(QpTransition::Rtr2Rts),
        (_, true, QpState::Reset) => Ok(QpTransition::Any2Rst),
        _ => Err(QpModifyError::InvalidStateTransition),
    }
}

/// The code of a 4096-byte path MTU, what INIT -> RTR uses unless the
/// modification names one.
pub const IBV_MTU_4096: u8 = 5;
/// The path migration state of a new queue pair.
pub const PATH_MIGRATION_STATE_MIGRATED: u8 = 0x3;
/// The scheduling queue that a primary path starts from.
pub const DEFAULT_SCHED_QUEUE: u8 = 0x83;
/// The page size of the queue pair buffer and of ICM, as shifts.
pub const PAGE_SHIFT: u8 = 12;
pub const ICM_PAGE_SHIFT: u8 = 12;

/// The attributes of a modification that the decisions read.
#[derive(Clone, Copy, Debug, PartialEq, Eq)]
pub struct QpAttr {
    pub qp_state: QpState,
    pub qp_access_flags: u32,
    pub qkey: u32,
    pub path_mtu: u8,
    pub dest_qp_num: u32,
    pub pkey_index: u16,
    pub alt_pkey_index: u16,
    pub port_num: u8,
    /// The destination LID and service level of the primary path.
    pub dlid: u16,
    pub sl: u8,
    /// The destination LID of the alternate path.
    pub alt_dlid: u16,
    pub min_rnr_timer: u8,
    pub rnr_retry: u8,
    pub timeout: u8,
}

/// What a modification reads of the queue pair besides its state and port.
#[derive(Clone, Copy, Debug, PartialEq, Eq)]
pub struct QueuePairSetup {
    pub qp_type: QpType,
    pub sq: WorkQueue,
    pub rq: WorkQueue,
    pub send_cq_number: u32,
    pub receive_cq_number: u32,
    /// The UAR page of the queue pair's doorbell, as the card numbers it.
    pub usr_page: u32,
    /// The MTT entry of the queue pair buffer.
    pub mtt: u64,
    /// The physical address of the doorbell record.
    pub doorbell_address: u64,
}

/// What a modification sends to the card: the command, its optional
/// parameter mask and the context, the state the queue pair is in once the
/// command succeeded, and whether the send queue's WQEs are first handed to
/// software (see [`initial_send_control`]).
#[derive(Clone, Copy, Debug, PartialEq, Eq)]
pub struct ModifyPlan {
    pub transition: QpTransition,
    pub param_mask: u32,
    pub context: QpContext,
    pub state: QpState,
    pub init_send_queue: bool,
}

/// Whether the modification lacks an attribute that its transition needs.
pub open spec fn missing_required_attribute(qp_type: QpType, mask: u32, t: QpTransition) -> bool {
    match t {
        QpTransition::Rst2Init => {
            ||| ((qp_type == QpType::Rc || qp_type == QpType::Uc) && !mask_has(mask, IBV_QP_ACCESS_FLAGS))
            ||| (qp_type == QpType::Ud && !mask_has(mask, IBV_QP_QKEY))
        },
        QpTransition::Init2Rtr => {
            ||| ((qp_type == QpType::Rc || qp_type == QpType::Uc) && !mask_has(mask, IBV_QP_DEST_QPN))
            ||| !mask_has(mask, IBV_QP_AV)
        },
        QpTransition::Rtr2Rts => qp_type == QpType::Rc && (!mask_has(mask, IBV_QP_RNR_RETRY) || !mask_has(mask, IBV_QP_TIMEOUT)),
        _ => false,
    }
}

/// The service type field of the queue pair context.
pub open spec fn service_type_of(qp_type: QpType) -> Option<u8> {
    match qp_type {
        QpType::Rc => Some(0u8),
        QpType::Uc => Some(1u8),
        QpType::Ud => Some(3u8),
        QpType::Other => None,
    }
}

/// The optional parameters that a transition carries.
pub open spec fn param_mask_of(qp_type: QpType, mask: u32, t: QpTransition) -> u32 {
    let rc_uc = qp_type == QpType::Rc || qp_type == QpType::Uc;
    let access = if rc_uc && mask_has(mask, IBV_QP_ACCESS_FLAGS) {
        OPT_REMOTE_WRITE | OPT_REMOTE_ATOMIC | OPT_REMOTE_READ
    } else {
        0
    };
    let qkey = if qp_type == QpType::Ud && mask_has(mask, IBV_QP_QKEY) { OPT_QKEY } else { 0 };
    let pkey = if mask_has(mask, IBV_QP_PKEY_INDEX) { OPT_PKEY_INDEX } else { 0 };
    let rnr = if qp_type == QpType::Rc && mask_has(mask, IBV_QP_MIN_RNR_TIMER) { OPT_MIN_RNR_NAK } else { 0 };
    let alt = if rc_uc && mask_has(mask, IBV_QP_ALT_PATH) { OPT_ALTERNATE_PATH } else { 0 };
    match t {
        QpTransition::Init2Rtr => rnr | qkey | pkey | access | alt,
        QpTransition::Init2Init => qkey | pkey,
        QpTransition::Rtr2Rts => rnr | qkey | pkey | access,
        _ => 0,
    }
}

/// The scheduling queue of the primary path: the default queue, the port
/// (counted from 1) and the service level.
pub open spec fn sched_queue_of(port: u8, sl: u8) -> u8 {
    (DEFAULT_SCHED_QUEUE | (((port - 1) as u8) << 6u8) | ((sl & 0xfu8) << 2u8)) as u8
}

/// The port number after the modification saved it: RESET -> INIT and
/// INIT -> RTR take the one the modification names.
pub open spec fn saved_port(port_number: Option<u8>, attr: QpAttr, mask: u32) -> Option<u8> {
    if mask_has(mask, IBV_QP_PORT) { Some(attr.port_num) } else { port_number }
}

pub open spec fn flag(flags: u32, bit: u32) -> bool {
    flags & bit != 0
}

/// The fields that INIT -> RTR, INIT -> INIT and RTR -> RTS may update: the
/// queue key (UD), the partition key index, the remote access rights (RC
/// and UC) and, where `with_rnr`, the RNR NAK timer (RC).
pub open spec fn optional_context(qp_type: QpType, attr: QpAttr, mask: u32, with_rnr: bool) -> QpContext {
    let access = (qp_type == QpType::Rc || qp_type == QpType::Uc) && mask_has(mask, IBV_QP_ACCESS_FLAGS);
    QpContext {
        min_rnr_nak: if with_rnr && qp_type == QpType::Rc && mask_has(mask, IBV_QP_MIN_RNR_TIMER) {
            attr.min_rnr_timer
        } else {
            0
        },
        qkey: if qp_type == QpType::Ud && mask_has(mask, IBV_QP_QKEY) { attr.qkey } else { 0 },
        primary_pkey_index: if mask_has(mask, IBV_QP_PKEY_INDEX) { attr.pkey_index as u8 } else { 0 },
        remote_write: access && flag(attr.qp_access_flags, IBV_ACCESS_REMOTE_WRITE),
        remote_atomic: access && flag(attr.qp_access_flags, IBV_ACCESS_REMOTE_ATOMIC),
        remote_read: access && flag(attr.qp_access_flags, IBV_ACCESS_REMOTE_READ),
        ..empty_context()
    }
}

/// The context of RESET -> INIT: the service type, the completion queues,
/// the remote access rights (read and atomic for RC, write for RC and UC),
/// the queue key (UD), the sizes and strides of both work queues, the
/// reserved L_Key, and where the buffer and the doorbell record are.
pub open spec fn rst2init_context(qp: QueuePairSetup, attr: QpAttr) -> QpContext {
    let rc = qp.qp_type == QpType::Rc;
    let rc_uc = rc || qp.qp_type == QpType::Uc;
    QpContext {
        service_type: match service_type_of(qp.qp_type) {
            Some(t) => t,
            None => 0,
        },
        path_migration_state: PATH_MIGRATION_STATE_MIGRATED,
        usr_page: qp.usr_page,
        cqn_send: qp.send_cq_number,
        remote_read: rc && flag(attr.qp_access_flags, IBV_ACCESS_REMOTE_READ),
        remote_write: rc_uc && flag(attr.qp_access_flags, IBV_ACCESS_REMOTE_WRITE),
        remote_atomic: rc && flag(attr.qp_access_flags, IBV_ACCESS_REMOTE_ATOMIC),
        cqn_receive: qp.receive_cq_number,
        qkey: if qp.qp_type == QpType::Ud { attr.qkey } else { 0 },
        log_sq_size: floor_log2(qp.sq.wqe_cnt as nat) as u8,
        log_rq_size: floor_log2(qp.rq.wqe_cnt as nat) as u8,
        log_sq_stride: (qp.sq.wqe_shift - 4) as u8,
        log_rq_stride: (qp.rq.wqe_shift - 4) as u8,
        reserved_lkey: true,
        sq_no_prefetch: false,
        log_page_size: (PAGE_SHIFT - ICM_PAGE_SHIFT) as u8,
        mtt_base_addr: qp.mtt,
        db_record_addr: qp.doorbell_address,
        ..empty_context()
    }
}

/// The context of INIT -> RTR: the path MTU (4096 bytes unless named), the
/// maximal message size, the remote queue pair and LID (RC and UC), the
/// scheduling queue of the primary path, the alternate path (RC and UC)
/// and the optional fields.
pub open spec fn init2rtr_context(qp_type: QpType, log_max_msg: u8, attr: QpAttr, mask: u32, port: u8) -> QpContext {
    let rc_uc = qp_type == QpType::Rc || qp_type == QpType::Uc;
    let alt = rc_uc && mask_has(mask, IBV_QP_ALT_PATH);
    QpContext {
        mtu: if mask_has(mask, IBV_QP_PATH_MTU) { attr.path_mtu } else { IBV_MTU_4096 },
        msg_max: log_max_msg,
        remote_qpn: if rc_uc { attr.dest_qp_num } else { 0 },
        primary_rlid: if rc_uc { attr.dlid } else { 0 },
        primary_grh: false,
        primary_mlid: 0,
        primary_sched_queue: sched_queue_of(port, attr.sl),
        alternate_pkey_index: if alt { attr.alt_pkey_index as u8 } else { 0 },
        alternate_rlid: if alt { attr.alt_dlid } else { 0 },
        ..optional_context(qp_type, attr, mask, true)
    }
}

/// The context of RTR -> RTS: the RNR retry count and the ACK timeout (RC)
/// and the optional fields.
pub open spec fn rtr2rts_context(qp_type: QpType, attr: QpAttr, mask: u32) -> QpContext {
    QpContext {
        rnr_retry: if qp_type == QpType::Rc { attr.rnr_retry } else { 0 },
        primary_ack_timeout: if qp_type == QpType::Rc { attr.timeout } else { 0 },
        ..optional_context(qp_type, attr, mask, true)
    }
}

/// The context that a transition sends.
pub open spec fn context_of(
    qp: QueuePairSetup,
    log_max_msg: u8,
    attr: QpAttr,
    mask: u32,
    t: QpTransition,
    port: u8,
) -> QpContext {
    match t {
        QpTransition::Rst2Init => rst2init_context(qp, attr),
        QpTransition::Init2Rtr => init2rtr_context(qp.qp_type, log_max_msg, attr, mask, port),
        QpTransition::Init2Init => optional_context(qp.qp_type, attr, mask, false),
        QpTransition::Rtr2Rts => rtr2rts_context(qp.qp_type, attr, mask),
        QpTransition::Any2Rst => empty_context(),
    }
}

/// The optional fields fit their bits.
pub open spec fn optional_fits(qp_type: QpType, attr: QpAttr, mask: u32, with_rnr: bool) -> bool {
    &&& with_rnr && qp_type == QpType::Rc && mask_has(mask, IBV_QP_MIN_RNR_TIMER) ==> attr.min_rnr_timer < 32
    &&& mask_has(mask, IBV_QP_PKEY_INDEX) ==> attr.pkey_index < 128
}

/// The fields of RESET -> INIT fit their bits: both work queues have WQEs,
/// their sizes and strides fit, and so do the numbers of the UAR page, the
/// completion queues and the MTT entry.
pub open spec fn rst2init_fits(qp: QueuePairSetup) -> bool {
    &&& qp.sq.wqe_cnt > 0
    &&& qp.rq.wqe_cnt > 0
    &&& floor_log2(qp.sq.wqe_cnt as nat) < 16
    &&& floor_log2(qp.rq.wqe_cnt as nat) < 16
    &&& 4 <= qp.sq.wqe_shift < 12
    &&& 4 <= qp.rq.wqe_shift < 12
    &&& qp.usr_page < 0x100_0000
    &&& qp.send_cq_number < 0x100_0000
    &&& qp.receive_cq_number < 0x100_0000
    &&& qp.mtt < 0x100_0000_0000
}

/// The fields of INIT -> RTR that are set before the port is needed fit
/// their bits.
pub open spec fn init2rtr_fits_before_port(qp_type: QpType, log_max_msg: u8, attr: QpAttr, mask: u32) -> bool {
    &&& mask_has(mask, IBV_QP_PATH_MTU) ==> attr.path_mtu < 8
    &&& log_max_msg < 32
    &&& (qp_type == QpType::Rc || qp_type == QpType::Uc) ==> attr.dest_qp_num < 0x100_0000
}

/// The fields of INIT -> RTR that are set after the scheduling queue fit
/// their bits.
pub open spec fn init2rtr_fits_after_port(qp_type: QpType, attr: QpAttr, mask: u32) -> bool {
    &&& optional_fits(qp_type, attr, mask, true)
    &&& (qp_type == QpType::Rc || qp_type == QpType::Uc) && mask_has(mask, IBV_QP_ALT_PATH)
        ==> attr.alt_pkey_index < 128
}

/// Every field that the transition sets fits its bits.
pub open spec fn modify_fits(qp: QueuePairSetup, port: Option<u8>, log_max_msg: u8, attr: QpAttr, mask: u32, t: QpTransition) -> bool {
    match t {
        QpTransition::Rst2Init => service_type_of(qp.qp_type) is Some ==> rst2init_fits(qp),
        QpTransition::Init2Rtr => {
            &&& init2rtr_fits_before_port(qp.qp_type, log_max_msg, attr, mask)
            &&& port is Some ==> init2rtr_fits_after_port(qp.qp_type, attr, mask)
        },
        QpTransition::Init2Init => optional_fits(qp.qp_type, attr, mask, false),
        QpTransition::Rtr2Rts => {
            &&& qp.qp_type == QpType::Rc ==> attr.rnr_retry < 8 && attr.timeout < 32
            &&& optional_fits(qp.qp_type, attr, mask, true)
        },
        QpTransition::Any2Rst => true,
    }
}

/// The outcome of a modification of a queue pair in state `state` whose
/// saved port number is `port_number`.
pub open spec fn modify_result(
    qp: QueuePairSetup,
    state: QpState,
    port_number: Option<u8>,
    log_max_msg: u8,
    attr: QpAttr,
    mask: u32,
) -> Result<ModifyPlan, QpModifyError> {
    let has_state = mask_has(mask, IBV_QP_STATE);
    let port = saved_port(port_number, attr, mask);
    match transition_of(state, has_state, attr.qp_state) {
        Err(e) => Err(e),
        Ok(t) => if t == QpTransition::Rst2Init && service_type_of(qp.qp_type) is None {
            Err(QpModifyError::InvalidQueuePairType)
        } else if t == QpTransition::Init2Rtr && port is None {
            Err(QpModifyError::PortNumberNotSet)
        } else {
            Ok(ModifyPlan {
                transition: t,
                param_mask: param_mask_of(qp.qp_type, mask, t),
                context: context_of(qp, log_max_msg, attr, mask, t, match port { Some(p) => p, None => 0 }),
                state: if has_state { attr.qp_state } else { state },
                init_send_queue: t == QpTransition::Rst2Init,
            })
        },
    }
}

/// The port number that the queue pair keeps after the modification,
/// whether or not it succeeds.
pub open spec fn port_after_modify(state: QpState, port_number: Option<u8>, attr: QpAttr, mask: u32) -> Option<u8> {
    match transition_of(state, mask_has(mask, IBV_QP_STATE), attr.qp_state) {
        Ok(t) => if t == QpTransition::Rst2Init || t == QpTransition::Init2Rtr {
            saved_port(port_number, attr, mask)
        } else {
            port_number
        },
        Err(_) => port_number,
    }
}

fn rc_or_uc(qp_type: QpType) -> (r: bool)
    ensures
        r == (qp_type == QpType::Rc || qp_type == QpType::Uc),
{
    match qp_type {
        QpType::Rc | QpType::Uc => true,
        _ => false,
    }
}

fn is_type(qp_type: QpType, other: QpType) -> (r: bool)
    ensures
        r == (qp_type == other),
{
    match (qp_type, other) {
        (QpType::Rc, QpType::Rc) | (QpType::Uc, QpType::Uc) | (QpType::Ud, QpType::Ud) | (QpType::Other, QpType::Other) => true,
        _ => false,
    }
}

/// Sets the optional fields (see [`optional_context`]) in `c`.
fn set_optional_fields(c: &mut QpContext, qp_type: QpType, attr: &QpAttr, mask: u32, with_rnr: bool)
    requires
        *old(c) == empty_context(),
    ensures
        *final(c) == optional_context(qp_type, *attr, mask, with_rnr),
{
    if with_rnr && is_type(qp_type, QpType::Rc) && mask & IBV_QP_MIN_RNR_TIMER != 0 {
        c.min_rnr_nak = attr.min_rnr_timer;
    }
    if is_type(qp_type, QpType::Ud) && mask & IBV_QP_QKEY != 0 {
        c.qkey = attr.qkey;
    }
    if mask & IBV_QP_PKEY_INDEX != 0 {
        c.primary_pkey_index = attr.pkey_index as u8;
    }
    if rc_or_uc(qp_type) && mask & IBV_QP_ACCESS_FLAGS != 0 {
        c.remote_write = attr.qp_access_flags & IBV_ACCESS_REMOTE_WRITE != 0;
        c.remote_atomic = attr.qp_access_flags & IBV_ACCESS_REMOTE_ATOMIC != 0;
        c.remote_read = attr.qp_access_flags & IBV_ACCESS_REMOTE_READ != 0;
    }
}

/// Plans the modification of a queue pair in state `state` whose saved port
/// number is `port_number`, on a card whose largest message is
/// `2^log_max_msg` bytes. Returns the port number the queue pair keeps,
/// which RESET -> INIT and INIT -> RTR save before anything can fail, and
/// what to send to the card.
pub fn plan_modify(
    qp: &QueuePairSetup,
    state: QpState,
    port_number: Option<u8>,
    log_max_msg: u8,
    attr: &QpAttr,
    attr_mask: u32,
) -> (r: (Option<u8>, Result<ModifyPlan, QpModifyError>))
    requires
        !unimplemented_transition(state, mask_has(attr_mask, IBV_QP_STATE), attr.qp_state),
        transition_of(state, mask_has(attr_mask, IBV_QP_STATE), attr.qp_state) matches Ok(t) ==> {
            &&& !missing_required_attribute(qp.qp_type, attr_mask, t)
            &&& modify_fits(*qp, saved_port(port_number, *attr, attr_mask), log_max_msg, *attr, attr_mask, t)
        },
        // the port number counts from 1
        transition_of(state, mask_has(attr_mask, IBV_QP_STATE), attr.qp_state) == Ok::<QpTransition, QpModifyError>(QpTransition::Init2Rtr)
            ==> saved_port(port_number, *attr, attr_mask) != Some(0u8),
    ensures
        r.0 == port_after_modify(state, port_number, *attr, attr_mask),
        r.1 == modify_result(*qp, state, port_number, log_max_msg, *attr, attr_mask),
        r.1 matches Ok(plan) ==> plan.context.fits(),
{
    let has_state = attr_mask & IBV_QP_STATE != 0;
    let transition = match select_transition(state, has_state, attr.qp_state) {
        Ok(t) => t,
        Err(e) => return (port_number, Err(e)),
    };
    let qp_type = qp.qp_type;
    let rc_uc = rc_or_uc(qp_type);
    let is_ud = is_type(qp_type, QpType::Ud);
    let is_rc = is_type(qp_type, QpType::Rc);
    let access: u32 = if rc_uc && attr_mask & IBV_QP_ACCESS_FLAGS != 0 {
        OPT_REMOTE_WRITE | OPT_REMOTE_ATOMIC | OPT_REMOTE_READ
    } else {
        0
    };
    let qkey: u32 = if is_ud && attr_mask & IBV_QP_QKEY != 0 { OPT_QKEY } else { 0 };
    let pkey: u32 = if attr_mask & IBV_QP_PKEY_INDEX != 0 { OPT_PKEY_INDEX } else { 0 };
    let rnr: u32 = if is_rc && attr_mask & IBV_QP_MIN_RNR_TIMER != 0 { OPT_MIN_RNR_NAK } else { 0 };
    let alt: u32 = if rc_uc && attr_mask & IBV_QP_ALT_PATH != 0 { OPT_ALTERNATE_PATH } else { 0 };
    let mut param_mask: u32 = 0;
    let mut new_port = port_number;
    let mut context = QpContext::new();
    match transition {
        QpTransition::Rst2Init => {
            // the port number may already be given here; keep it for INIT -> RTR
            if attr_mask & IBV_QP_PORT != 0 {
                new_port = Some(attr.port_num);
            }
            context.service_type = match qp_type {
                QpType::Rc => 0x0,
                QpType::Uc => 0x1,
                QpType::Ud => 0x3,
                QpType::Other => return (new_port, Err(QpModifyError::InvalidQueuePairType)),
            };
            context.path_migration_state = PATH_MIGRATION_STATE_MIGRATED;
            context.usr_page = qp.usr_page;
            context.cqn_send = qp.send_cq_number;
            context.remote_read = is_rc && attr.qp_access_flags & IBV_ACCESS_REMOTE_READ != 0;
            context.remote_write = rc_uc && attr.qp_access_flags & IBV_ACCESS_REMOTE_WRITE != 0;
            context.remote_atomic = is_rc && attr.qp_access_flags & IBV_ACCESS_REMOTE_ATOMIC != 0;
            context.cqn_receive = qp.receive_cq_number;
            if is_ud {
                context.qkey = attr.qkey;
            }
            context.log_sq_size = ilog2_u32(qp.sq.wqe_cnt) as u8;
            context.log_rq_size = ilog2_u32(qp.rq.wqe_cnt) as u8;
            context.log_sq_stride = (qp.sq.wqe_shift - 4) as u8;
            context.log_rq_stride = (qp.rq.wqe_shift - 4) as u8;
            context.reserved_lkey = true;
            context.sq_no_prefetch = false;
            context.log_page_size = PAGE_SHIFT - ICM_PAGE_SHIFT;
            context.mtt_base_addr = qp.mtt;
            context.db_record_addr = qp.doorbell_address;
        },
        QpTransition::Init2Rtr => {
            if attr_mask & IBV_QP_PORT != 0 {
                new_port = Some(attr.port_num);
            }
            let port = match new_port {
                Some(p) => p,
                None => return (new_port, Err(QpModifyError::PortNumberNotSet)),
            };
            set_optional_fields(&mut context, qp_type, attr, attr_mask, true);
            context.mtu = if attr_mask & IBV_QP_PATH_MTU != 0 { attr.path_mtu } else { IBV_MTU_4096 };
            context.msg_max = log_max_msg;
            if rc_uc {
                context.remote_qpn = attr.dest_qp_num;
                context.primary_rlid = attr.dlid;
            }
            context.primary_grh = false;
            context.primary_mlid = 0;
            context.primary_sched_queue = DEFAULT_SCHED_QUEUE | ((port - 1) << 6u8) | ((attr.sl & 0xf) << 2u8);
            if rc_uc && attr_mask & IBV_QP_ALT_PATH != 0 {
                context.alternate_pkey_index = attr.alt_pkey_index as u8;
                context.alternate_rlid = attr.alt_dlid;
            }
            param_mask = rnr | qkey | pkey | access | alt;
        },
        QpTransition::Init2Init => {
            set_optional_fields(&mut context, qp_type, attr, attr_mask, false);
            param_mask = qkey | pkey;
        },
        QpTransition::Rtr2Rts => {
            set_optional_fields(&mut context, qp_type, attr, attr_mask, true);
            if is_rc {
                context.rnr_retry = attr.rnr_retry;
                context.primary_ack_timeout = attr.timeout;
            }
            param_mask = rnr | qkey | pkey | access;
        },
        QpTransition::Any2Rst => {},
    }
    let new_state = if has_state { attr.qp_state } else { state };
    let plan = ModifyPlan {
        transition,
        param_mask,
        context,
        state: new_state,
        init_send_queue: is_rst2init(transition),
    };
    (new_port, Ok(plan))
}

/// A port number given at RESET -> INIT is kept for INIT -> RTR: when
/// RESET -> INIT names port `p` and INIT -> RTR names none, the queue pair
/// keeps `p`, and INIT -> RTR schedules the primary path on port `p`.
pub proof fn lemma_port_saved_for_rtr(
    qp: QueuePairSetup,
    log_max_msg: u8,
    init: QpAttr,
    init_mask: u32,
    rtr: QpAttr,
    rtr_mask: u32,
)
    requires
        mask_has(init_mask, IBV_QP_STATE),
        init.qp_state == QpState::Init,
        mask_has(init_mask, IBV_QP_PORT),
        mask_has(rtr_mask, IBV_QP_STATE),
        rtr.qp_state == QpState::Rtr,
        !mask_has(rtr_mask, IBV_QP_PORT),
    ensures
        port_after_modify(QpState::Reset, None, init, init_mask) == Some(init.port_num),
        port_after_modify(QpState::Init, Some(init.port_num), rtr, rtr_mask) == Some(init.port_num),
        modify_result(qp, QpState::Init, Some(init.port_num), log_max_msg, rtr, rtr_mask) matches Ok(plan)
            && plan.transition == QpTransition::Init2Rtr
            && plan.context.primary_sched_queue == sched_queue_of(init.port_num, rtr.sl),
{
}

fn is_rst2init(t: QpTransition) -> (r: bool)
    ensures
        r == (t == QpTransition::Rst2Init),
{
    match t {
        QpTransition::Rst2Init => true,
        _ => false,
    }
}

/// The first eight bytes that RESET -> INIT writes into each WQE of the send
/// queue: the owner bit set, and the WQE size in 16-byte units byte-swapped
/// before it is stored big-endian, so that it lands little-endian.
pub open spec fn initial_send_control_bytes(wqe_shift: u32) -> Seq<u8> {
    seq![0x80u8, 0u8, 0u8, 0u8, pow2((wqe_shift - 4) as nat) as u8, 0u8, 0u8, 0u8]
}

/// The size that stamping reads from a control segment: the low six bits
/// of its big-endian second word, in 16-byte units.
pub open spec fn control_stamp_size(ctrl: Seq<u8>) -> int {
    ((ctrl[4] * 0x100_0000 + ctrl[5] * 0x1_0000 + ctrl[6] * 0x100 + ctrl[7]) % 64) * 16
}

/// The control segment bytes that RESET -> INIT writes into each send
/// queue WQE; stamping such a WQE afterwards reads a size of zero and
/// writes nothing.
pub fn initial_send_control(wqe_shift: u32) -> (r: Vec<u8>)
    requires
        4 <= wqe_shift < 12,
    ensures
        r@ == initial_send_control_bytes(wqe_shift),
        control_stamp_size(r@) == 0,
{
    proof {
        lemma2_to64();
    }
    let size: u8 = match wqe_shift - 4 {
        0 => 1,
        1 => 2,
        2 => 4,
        3 => 8,
        4 => 16,
        5 => 32,
        6 => 64,
        _ => 128,
    };
    let r: Vec<u8> = vec![0x80, 0, 0, 0, size, 0, 0, 0];
    assert(r@ =~= initial_send_control_bytes(wqe_shift));
    assert((size * 0x100_0000int) % 64 == 0) by (nonlinear_arith)
        requires
            size <= 128;
    r
}

/// The bytes that a work queue takes in the queue pair buffer.
pub open spec fn queue_bytes(wq: WorkQueue) -> int {
    wq.wqe_cnt * pow2(wq.wqe_shift as nat)
}

/// The offsets of the receive and the send queue: the queue with the larger
/// WQE stride comes first (the send queue on a tie).
pub open spec fn placed_offsets(rq: WorkQueue, sq: WorkQueue) -> (int, int) {
    if rq.wqe_shift > sq.wqe_shift { (0, queue_bytes(rq)) } else { (queue_bytes(sq), 0) }
}

/// Places the receive and the send queue in one buffer and returns its size.
pub fn place_queues(rq: &mut WorkQueue, sq: &mut WorkQueue) -> (buf_size: u32)
    requires
        old(rq).wqe_shift < 32,
        old(sq).wqe_shift < 32,
        queue_bytes(*old(rq)) + queue_bytes(*old(sq)) <= u32::MAX,
    ensures
        *final(rq) == (WorkQueue { offset: placed_offsets(*old(rq), *old(sq)).0 as u32, ..*old(rq) }),
        *final(sq) == (WorkQueue { offset: placed_offsets(*old(rq), *old(sq)).1 as u32, ..*old(sq) }),
        buf_size == queue_bytes(*old(rq)) + queue_bytes(*old(sq)),
{
    proof {
        lemma_pow2_pos(rq.wqe_shift as nat);
        lemma_pow2_pos(sq.wqe_shift as nat);
        assert(rq.wqe_cnt * pow2(rq.wqe_shift as nat) >= 0) by (nonlinear_arith)
            requires pow2(rq.wqe_shift as nat) > 0;
        assert(sq.wqe_cnt * pow2(sq.wqe_shift as nat) >= 0) by (nonlinear_arith)
            requires pow2(sq.wqe_shift as nat) > 0;
        lemma_u32_shl_is_mul(rq.wqe_cnt, rq.wqe_shift);
        lemma_u32_shl_is_mul(sq.wqe_cnt, sq.wqe_shift);
    }
    let rq_size = rq.size();
    let sq_size = sq.size();
    if rq.wqe_shift > sq.wqe_shift {
        rq.offset = 0;
        sq.offset = rq_size;
    } else {
        rq.offset = sq_size;
        sq.offset = 0;
    }
    rq_size + sq_size
}

/// The placed queues do not overlap, fill the buffer, and each starts at a
/// multiple of its own WQE size.
pub proof fn lemma_placed_queues(rq: WorkQueue, sq: WorkQueue)
    requires
        rq.wqe_shift < 32,
        sq.wqe_shift < 32,
    ensures
        ({
            let (ro, so) = placed_offsets(rq, sq);
            &&& ro + queue_bytes(rq) <= so || so + queue_bytes(sq) <= ro
            &&& ro + queue_bytes(rq) <= queue_bytes(rq) + queue_bytes(sq)
            &&& so + queue_bytes(sq) <= queue_bytes(rq) + queue_bytes(sq)
            &&& ro % (pow2(rq.wqe_shift as nat) as int) == 0
            &&& so % (pow2(sq.wqe_shift as nat) as int) == 0
        }),
{
    let pr = pow2(rq.wqe_shift as nat) as int;
    let ps = pow2(sq.wqe_shift as nat) as int;
    lemma_pow2_pos(rq.wqe_shift as nat);
    lemma_pow2_pos(sq.wqe_shift as nat);
    assert(queue_bytes(rq) >= 0 && queue_bytes(sq) >= 0) by (nonlinear_arith)
        requires pr > 0, ps > 0, queue_bytes(rq) == rq.wqe_cnt * pr, queue_bytes(sq) == sq.wqe_cnt * ps;
    if rq.wqe_shift > sq.wqe_shift {
        // the send queue starts where the receive queue ends
        lemma_pow2_adds(sq.wqe_shift as nat, (rq.wqe_shift - sq.wqe_shift) as nat);
        let d = pow2((rq.wqe_shift - sq.wqe_shift) as nat) as int;
        assert(pr == ps * d);
        assert(rq.wqe_cnt * (ps * d) == (rq.wqe_cnt * d) * ps) by (nonlinear_arith);
        lemma_mod_multiples_basic(rq.wqe_cnt * d, ps);
    } else {
        lemma_pow2_adds(rq.wqe_shift as nat, (sq.wqe_shift - rq.wqe_shift) as nat);
        let d = pow2((sq.wqe_shift - rq.wqe_shift) as nat) as int;
        assert(ps == pr * d);
        assert(sq.wqe_cnt * (pr * d) == (sq.wqe_cnt * d) * pr) by (nonlinear_arith);
        lemma_mod_multiples_basic(sq.wqe_cnt * d, pr);
    }
}

} // verus!
