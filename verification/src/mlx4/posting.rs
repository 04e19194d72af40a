//! Posting work requests to a queue pair: which checks a request must pass,
//! which segments its WQE holds and where they go in the queue buffer, and
//! how the card is told.
use vstd::prelude::*;
use crate::mlx4::queue_pair::QpState;
use crate::mlx4::caps::Capabilities;
use crate::mlx4::mailbox::{be_bytes, put, write_be, zero_bytes, zeroed};
use crate::bits::{next_pow2, lemma_next_pow2_bounds, lemma_floor_log2_pow2, lemma_next_pow2_unique_le};
use vstd::arithmetic::power2::{pow2, lemma2_to64, lemma_pow2_strictly_increases};
use crate::mlx4::work_queue::{
    QpCap, QpType, WorkQueue, planned_send_queue, sq_request_invalid, sq_wqe_shift, wqe_overhead, WQE_CONTROL_SEGMENT_SIZE, WQE_DATA_SEGMENT_SIZE,
    WQE_DATAGRAM_SEGMENT_SIZE, WQE_REMOTE_ADDRESS_SEGMENT_SIZE,
};

verus! {

/// The operation of a send work request.
#[derive(Clone, Copy, Debug, PartialEq, Eq)]
pub enum WrOpcode {
    RdmaWrite,
    Send,
    RdmaRead,
}

/// The card's opcode for a send work request.
pub open spec fn opcode_value(op: WrOpcode) -> u32 {
    match op {
        WrOpcode::RdmaWrite => 0x08,
        WrOpcode::Send => 0x0a,
        WrOpcode::RdmaRead => 0x10,
    }
}

/// Why a work request cannot be posted.
#[derive(Clone, Copy, Debug, PartialEq, Eq)]
pub enum PostError {
    /// The queue pair is not in a state that allows the operation.
    WrongState,
    /// The queue has no room for another request.
    WouldOverflow,
    /// The request has more scatter/gather entries than a WQE holds.
    TooManySges,
    /// The queue pair type cannot send.
    InvalidQueuePairType,
    /// The request lacks the fields its operation needs.
    InvalidWrField,
}

/// A scatter/gather entry of a WQE.
#[derive(Clone, Copy, Debug, PartialEq, Eq)]
pub struct DataSegment {
    pub byte_count: u32,
    pub lkey: u32,
    /// Physical address of the data.
    pub addr: u64,
}

/// The key that marks the end of a receive WQE's entries.
pub const INVALID_LKEY: u32 = 0x100;

impl DataSegment {
    /// The entry for `length` bytes at the physical address `addr`.
    pub fn from_sge(length: u32, lkey: u32, addr: u64) -> (r: Self)
        ensures
            r == (DataSegment { byte_count: length, lkey, addr }),
    {
        DataSegment { byte_count: length, lkey, addr }
    }

    /// The entry that ends a receive WQE.
    pub fn last() -> (r: Self)
        ensures
            r == (DataSegment { byte_count: 0, lkey: INVALID_LKEY, addr: 0 }),
    {
        DataSegment { byte_count: 0, lkey: INVALID_LKEY, addr: 0 }
    }
}

/// The operation-specific fields of a send work request.
#[derive(Clone, Copy, Debug, PartialEq, Eq)]
pub enum SendWrFields {
    Rdma { remote_addr: u64, rkey: u32 },
    Ud { port: u32, slid: u8, dlid: u16, remote_qpn: u32, remote_qkey: u32 },
    Other,
}

/// The remote address segment of an RDMA WQE.
#[derive(Clone, Copy, Debug, PartialEq, Eq)]
pub struct RemoteAddressSegment {
    pub va: u64,
    pub key: u32,
}

impl RemoteAddressSegment {
    pub fn from_wr(wr: &SendWrFields) -> (r: Result<Self, PostError>)
        ensures
            match *wr {
                SendWrFields::Rdma { remote_addr, rkey } => r == Ok::<Self, PostError>(RemoteAddressSegment { va: remote_addr, key: rkey }),
                _ => r == Err::<Self, PostError>(PostError::InvalidWrField),
            },
    {
        match *wr {
            SendWrFields::Rdma { remote_addr, rkey } => Ok(RemoteAddressSegment { va: remote_addr, key: rkey }),
            _ => Err(PostError::InvalidWrField),
        }
    }
}

/// The datagram segment of a UD WQE (the fields that are not zero).
#[derive(Clone, Copy, Debug, PartialEq, Eq)]
pub struct DatagramSegment {
    pub port_pd: u32,
    pub g_slid: u8,
    pub dlid: u16,
    pub dst_qpn: u32,
    pub qkey: u32,
}

/// The port goes to the top byte of the first word.
pub open spec fn port_pd_of(port: u32) -> u32 {
    ((port as int * 0x100_0000) % 0x1_0000_0000) as u32
}

impl DatagramSegment {
    pub fn from_wr(wr: &SendWrFields) -> (r: Result<Self, PostError>)
        ensures
            match *wr {
                SendWrFields::Ud { port, slid, dlid, remote_qpn, remote_qkey } => r == Ok::<Self, PostError>(DatagramSegment {
                    port_pd: port_pd_of(port),
                    g_slid: slid % 128,
                    dlid,
                    dst_qpn: remote_qpn,
                    qkey: remote_qkey,
                }),
                _ => r == Err::<Self, PostError>(PostError::InvalidWrField),
            },
    {
        match *wr {
            SendWrFields::Ud { port, slid, dlid, remote_qpn, remote_qkey } => {
                let port_pd = port << 24u32;
                assert(port << 24u32 == ((port as int * 0x100_0000) % 0x1_0000_0000) as u32) by (bit_vector);
                let g_slid = slid & 0x7f;
                assert(slid & 0x7f == slid % 128) by (bit_vector);
                Ok(DatagramSegment { port_pd, g_slid, dlid, dst_qpn: remote_qpn, qkey: remote_qkey })
            },
            _ => Err(PostError::InvalidWrField),
        }
    }
}

/// What a receive request is told: where to write its entries and the end
/// marker, and the new head that goes to the doorbell record.
pub struct ReceivePlan {
    /// The offsets of the entry elements, then of the end marker.
    pub segment_offsets: Vec<u32>,
    pub new_head: u32,
    /// The doorbell record value: the new head modulo 2^16.
    pub doorbell: u16,
}

/// Why a receive request with `num_sge` entries is refused, if it is.
pub open spec fn receive_refusal(state: QpState, rq: WorkQueue, num_sge: u32) -> Option<PostError> {
    if state != QpState::Rtr && state != QpState::Rts {
        Some(PostError::WrongState)
    } else if rq.head - rq.tail >= rq.max_post {
        Some(PostError::WouldOverflow)
    } else if num_sge > rq.max_gs {
        Some(PostError::TooManySges)
    } else {
        None
    }
}

fn can_receive(state: QpState) -> (r: bool)
    ensures
        r == (state == QpState::Rtr || state == QpState::Rts),
{
    match state {
        QpState::Rtr | QpState::Rts => true,
        _ => false,
    }
}

fn can_send(state: QpState) -> (r: bool)
    ensures
        r == (state == QpState::Rts),
{
    match state {
        QpState::Rts => true,
        _ => false,
    }
}

/// Plans posting one receive request with `num_sge` entries to `rq`: its
/// entries take the elements from the head on, the end marker the one
/// after them.
pub fn plan_post_receive(state: QpState, rq: &WorkQueue, num_sge: u32) -> (r: Result<ReceivePlan, PostError>)
    requires
        rq.ring_wf(),
        rq.tail <= rq.head,
        rq.head + num_sge + 1 <= u32::MAX,
    ensures
        match receive_refusal(state, *rq, num_sge) {
            Some(e) => r matches Err(e2) && e2 == e,
            None => r matches Ok(plan) && {
                &&& plan.segment_offsets@.len() == num_sge + 1
                &&& forall|k: int| 0 <= k <= num_sge ==> #[trigger] plan.segment_offsets@[k] == rq.element_offset_spec((rq.head + k) as u32)
                &&& plan.new_head == rq.head + 1
                &&& plan.doorbell == (rq.head + 1) % 0x1_0000
            },
        },
{
    if !can_receive(state) {
        return Err(PostError::WrongState);
    }
    if rq.would_overflow(0) {
        return Err(PostError::WouldOverflow);
    }
    if num_sge > rq.max_gs {
        return Err(PostError::TooManySges);
    }
    let mut offsets: Vec<u32> = Vec::new();
    let mut k: u32 = 0;
    while k <= num_sge
        invariant
            rq.ring_wf(),
            rq.head + num_sge + 1 <= u32::MAX,
            k <= num_sge + 1,
            offsets@.len() == k,
            forall|j: int| 0 <= j < k ==> #[trigger] offsets@[j] == rq.element_offset_spec((rq.head + j) as u32),
        decreases num_sge + 1 - k,
    {
        offsets.push(rq.element_offset(rq.head + k));
        k = k + 1;
    }
    let new_head = rq.head + 1;
    Ok(ReceivePlan { segment_offsets: offsets, new_head, doorbell: (new_head % 0x1_0000) as u16 })
}

/// The extra segment of a send WQE between control and data segments.
#[derive(Clone, Copy, Debug, PartialEq, Eq)]
pub enum ExtraSegment {
    NoSegment,
    Remote(RemoteAddressSegment),
    Datagram(DatagramSegment),
}

pub open spec fn extra_size(e: ExtraSegment) -> nat {
    match e {
        ExtraSegment::NoSegment => 0,
        ExtraSegment::Remote(_) => 16,
        ExtraSegment::Datagram(_) => 48,
    }
}

/// The extra segment that a request of this type and operation needs.
pub open spec fn extra_segment_of(qp_type: QpType, op: WrOpcode, wr: SendWrFields) -> Result<ExtraSegment, PostError> {
    match qp_type {
        QpType::Rc | QpType::Uc => if op == WrOpcode::RdmaRead || op == WrOpcode::RdmaWrite {
            match wr {
                SendWrFields::Rdma { remote_addr, rkey } => Ok(ExtraSegment::Remote(RemoteAddressSegment { va: remote_addr, key: rkey })),
                _ => Err(PostError::InvalidWrField),
            }
        } else {
            Ok(ExtraSegment::NoSegment)
        },
        QpType::Ud => match wr {
            SendWrFields::Ud { port, slid, dlid, remote_qpn, remote_qkey } => Ok(ExtraSegment::Datagram(DatagramSegment {
                port_pd: port_pd_of(port),
                g_slid: slid % 128,
                dlid,
                dst_qpn: remote_qpn,
                qkey: remote_qkey,
            })),
            _ => Err(PostError::InvalidWrField),
        },
        QpType::Other => Err(PostError::InvalidQueuePairType),
    }
}

/// Why a send request is refused, if it is.
pub open spec fn send_refusal(state: QpState, qp_type: QpType, sq: WorkQueue, op: WrOpcode, wr: SendWrFields, num_sge: u32) -> Option<PostError> {
    if state != QpState::Rts {
        Some(PostError::WrongState)
    } else if sq.head - sq.tail >= sq.max_post {
        Some(PostError::WouldOverflow)
    } else if num_sge > sq.max_gs {
        Some(PostError::TooManySges)
    } else {
        match extra_segment_of(qp_type, op, wr) {
            Err(e) => Some(e),
            Ok(_) => None,
        }
    }
}

/// How the card learns of the new WQE.
#[derive(Clone, Copy, Debug, PartialEq, Eq)]
pub enum SendDoorbell {
    /// Write this value (the queue pair number shifted by 8) to the send
    /// doorbell of the UAR page.
    SendQueue(u32),
    /// Copy the WQE to the BlueFlame register, with these control words, to
    /// this half of the register.
    BlueFlame { owner_opcode: u32, vlan_cv_f_ds: u32, buffer_offset: u64, copy_len: u32 },
}

/// Everything that posting one send request writes.
pub struct SendPlan {
    /// Where the control segment goes.
    pub ctrl_offset: u32,
    pub extra: ExtraSegment,
    /// Where the data segments go, in the order of the entries.
    pub data_offsets: Vec<u64>,
    /// The WQE size in 16-byte units.
    pub ds: u32,
    pub owner_opcode: u32,
    pub doorbell: SendDoorbell,
    /// The WQE that is stamped invalid after posting.
    pub stamp_index: u32,
    pub new_head: u32,
}

/// The size field of a control segment in bytes.
pub open spec fn ctrl_size_of(vlan_cv_f_ds: u32) -> nat {
    (vlan_cv_f_ds % 64) as nat * 16
}

/// Plans posting one send request of `num_sge` entries, operation `op` and
/// fields `wr` to the send queue `sq` of queue pair `qp_number`.
/// `blueflame_reg_size` is the size of the BlueFlame register when the card
/// and the caller use BlueFlame.
pub fn plan_post_send(
    state: QpState,
    qp_type: QpType,
    qp_number: u32,
    sq: &WorkQueue,
    op: WrOpcode,
    wr: &SendWrFields,
    num_sge: u32,
    blueflame_reg_size: Option<u64>,
) -> (r: Result<SendPlan, PostError>)
    requires
        sq.ring_wf(),
        sq.tail <= sq.head,
        sq.spare_wqes is Some,
        sq.head + sq.spare_wqes.unwrap() + 1 <= u32::MAX,
        blueflame_reg_size is Some ==> sq.head + sq.spare_wqes.unwrap() >= 1,
        num_sge + 4 <= u32::MAX,
        send_refusal(state, qp_type, *sq, op, *wr, num_sge) is None ==> num_sge >= 1,
    ensures
        match send_refusal(state, qp_type, *sq, op, *wr, num_sge) {
            Some(e) => r matches Err(e2) && e2 == e,
            None => r matches Ok(plan) && {
                let extra = extra_segment_of(qp_type, op, *wr).unwrap();
                let ctrl = sq.element_offset_spec(sq.head);
                let ds = 1 + extra_size(extra) / 16 + num_sge;
                let owner_opcode = sq.owner_spec(sq.head) | opcode_value(op);
                &&& plan.ctrl_offset == ctrl
                &&& plan.extra == extra
                &&& plan.data_offsets@.len() == num_sge
                &&& forall|k: int| 0 <= k < num_sge ==> #[trigger] plan.data_offsets@[k] == ctrl + 16 + extra_size(extra) + 16 * k
                &&& plan.ds == ds
                &&& plan.owner_opcode == owner_opcode
                &&& plan.new_head == sq.head + 1
                &&& match blueflame_reg_size {
                    Some(size) => {
                        &&& plan.doorbell matches SendDoorbell::BlueFlame { owner_opcode: o, vlan_cv_f_ds: v, buffer_offset: b, copy_len: c }
                        &&& o == owner_opcode | (((sq.head % 0x1_0000) * 0x100) as u32)
                        &&& v == (ds as u32) | (((qp_number as int * 0x100) % 0x1_0000_0000) as u32)
                        &&& b == (sq.head % 2) * (size / 2)
                        &&& c == ctrl_size_of(v)
                        &&& plan.stamp_index == sq.head + sq.spare_wqes.unwrap() - 1
                    },
                    None => {
                        &&& plan.doorbell == SendDoorbell::SendQueue(((qp_number as int * 0x100) % 0x1_0000_0000) as u32)
                        &&& plan.stamp_index == sq.head + sq.spare_wqes.unwrap()
                    },
                }
            },
        },
{
    if !can_send(state) {
        return Err(PostError::WrongState);
    }
    if sq.would_overflow(0) {
        return Err(PostError::WouldOverflow);
    }
    if num_sge > sq.max_gs {
        return Err(PostError::TooManySges);
    }
    let extra = match qp_type {
        QpType::Rc | QpType::Uc => {
            match op {
                WrOpcode::RdmaRead | WrOpcode::RdmaWrite => ExtraSegment::Remote(RemoteAddressSegment::from_wr(wr)?),
                WrOpcode::Send => ExtraSegment::NoSegment,
            }
        },
        QpType::Ud => ExtraSegment::Datagram(DatagramSegment::from_wr(wr)?),
        QpType::Other => return Err(PostError::InvalidQueuePairType),
    };
    let extra_len: u64 = match extra {
        ExtraSegment::NoSegment => 0,
        ExtraSegment::Remote(_) => WQE_REMOTE_ADDRESS_SEGMENT_SIZE as u64,
        ExtraSegment::Datagram(_) => WQE_DATAGRAM_SEGMENT_SIZE as u64,
    };
    let index = sq.head;
    let ctrl_offset = sq.element_offset(index);
    let first_data: u64 = ctrl_offset as u64 + WQE_CONTROL_SEGMENT_SIZE as u64 + extra_len;
    let mut data_offsets: Vec<u64> = Vec::new();
    let mut k: u32 = 0;
    while k < num_sge
        invariant
            k <= num_sge,
            first_data <= u32::MAX + 64,
            data_offsets@.len() == k,
            forall|j: int| 0 <= j < k ==> #[trigger] data_offsets@[j] == first_data + 16 * j,
        decreases num_sge - k,
    {
        assert(first_data + 16 * (k as int) <= u64::MAX);
        data_offsets.push(first_data + WQE_DATA_SEGMENT_SIZE as u64 * k as u64);
        k = k + 1;
    }
    let wqe_size: u64 = WQE_CONTROL_SEGMENT_SIZE as u64 + extra_len + WQE_DATA_SEGMENT_SIZE as u64 * num_sge as u64;
    let ds = (wqe_size / 16) as u32;
    let opcode: u32 = match op {
        WrOpcode::RdmaWrite => 0x08,
        WrOpcode::Send => 0x0a,
        WrOpcode::RdmaRead => 0x10,
    };
    let owner_opcode = sq.owner_bit(index) | opcode;
    let spare = match sq.spare_wqes {
        Some(s) => s,
        None => 0,
    };
    let number_shifted = qp_number << 8u32;
    assert(qp_number << 8u32 == ((qp_number as int * 0x100) % 0x1_0000_0000) as u32) by (bit_vector);
    let (doorbell, stamp_index) = match blueflame_reg_size {
        Some(size) => {
            let head_bits = (index & 0xffff) << 8u32;
            assert((index & 0xffff) << 8u32 == ((index % 0x1_0000) * 0x100) as u32) by (bit_vector);
            let vlan = ds | number_shifted;
            let copy_len = (vlan & 0x3f) << 4u32;
            assert((vlan & 0x3f) << 4u32 == (vlan % 64) * 16) by (bit_vector);
            let buffer_offset: u64 = if index % 2 == 0 { 0 } else { size / 2 };
            (SendDoorbell::BlueFlame { owner_opcode: owner_opcode | head_bits, vlan_cv_f_ds: vlan, buffer_offset, copy_len },
             index + spare - 1)
        },
        None => (SendDoorbell::SendQueue(number_shifted), index + spare),
    };
    Ok(SendPlan {
        ctrl_offset,
        extra,
        data_offsets,
        ds,
        owner_opcode,
        doorbell,
        stamp_index,
        new_head: index + 1,
    })
}

/// A send WQE that a send queue accepts fits the queue's WQE stride: with
/// the queue that `new_send_queue` plans for a request, a work request with
/// at most `max_gs` entries takes at most `2^wqe_shift` bytes.
pub proof fn lemma_send_wqe_fits(caps: Capabilities, req: QpCap, qp_type: QpType, op: WrOpcode, wr: SendWrFields, num_sge: u32)
    requires
        !sq_request_invalid(caps, req, qp_type),
        extra_segment_of(qp_type, op, wr) is Ok,
        num_sge <= planned_send_queue(caps, req, qp_type).max_gs,
    ensures
        16 * (1 + extra_size(extra_segment_of(qp_type, op, wr).unwrap()) / 16 + num_sge)
            <= pow2(planned_send_queue(caps, req, qp_type).wqe_shift as nat),
{
    let x = (req.max_send_sge * 16 + wqe_overhead(qp_type)) as nat;
    let shift = sq_wqe_shift(req, qp_type);
    lemma_next_pow2_bounds(x);
    let e = choose|e: nat| next_pow2(x) == pow2(e);
    lemma_floor_log2_pow2(e);
    assert(pow2(shift) == next_pow2(x));
    assert(pow2(shift) >= x);
    let overhead = wqe_overhead(qp_type);
    let desc: nat = if caps.max_desc_sz_sq <= pow2(shift) { caps.max_desc_sz_sq as nat } else { pow2(shift) };
    assert(desc >= overhead);
    let gs = (desc - overhead) as nat / 16;
    assert(16 * gs <= desc - overhead) by (nonlinear_arith)
        requires gs == (desc - overhead) as nat / 16, desc >= overhead;
    assert(desc <= caps.max_desc_sz_sq);
    assert(gs <= 0xffff);
    assert(planned_send_queue(caps, req, qp_type).max_gs == gs);
    let extra = extra_segment_of(qp_type, op, wr).unwrap();
    assert(extra_size(extra) + 16 <= overhead);
    assert(extra_size(extra) % 16 == 0);
    assert(x <= 8192);
    lemma2_to64();
    lemma_next_pow2_unique_le(x, 13);
    if shift > 13 {
        lemma_pow2_strictly_increases(13, shift);
    }
    assert(shift <= 13);
    assert(planned_send_queue(caps, req, qp_type).wqe_shift == shift);
}

/// The byte offsets that stamping a WQE overwrites with `0xffffffff`: the
/// first four bytes of each 64-byte chunk of the WQE but the first.
pub fn stamp_offsets(ctrl_offset: u32, ctrl_size: u32) -> (r: Vec<u64>)
    ensures
        r@.len() == (if ctrl_size <= 64 { 0 } else { (ctrl_size - 1) / 64 }),
        forall|j: int| 0 <= j < r@.len() ==> #[trigger] r@[j] == ctrl_offset + 64 * (j + 1),
{
    let mut r: Vec<u64> = Vec::new();
    let mut i: u64 = 64;
    while i < ctrl_size as u64
        invariant
            i % 64 == 0,
            64 <= i <= ctrl_size as u64 + 64,
            i == 64 || i - 64 < ctrl_size,
            r@.len() == i / 64 - 1,
            forall|j: int| 0 <= j < r@.len() ==> #[trigger] r@[j] == ctrl_offset + 64 * (j + 1),
        decreases ctrl_size as u64 + 64 - i,
    {
        r.push(ctrl_offset as u64 + i);
        i = i + 64;
    }
    proof {
        if ctrl_size > 64 {
            assert(i / 64 - 1 == (ctrl_size - 1) / 64) by (nonlinear_arith)
                requires i % 64 == 0, i >= ctrl_size, i - 64 < ctrl_size, ctrl_size > 64;
        }
    }
    r
}


/// The flags of a send WQE's control segment: the completion is reported.
pub const WQE_CTRL_CQ_UPDATE: u32 = 0xc;

/// The bytes of a data segment: the byte count, the key and the address,
/// big-endian.
pub open spec fn data_segment_bytes(d: DataSegment) -> Seq<u8> {
    let s = put(zero_bytes(WQE_DATA_SEGMENT_SIZE as nat), 0, be_bytes(d.byte_count as int, 4));
    let s = put(s, 4, be_bytes(d.lkey as int, 4));
    put(s, 8, be_bytes(d.addr as int, 8))
}

/// The bytes of a remote address segment: the virtual address and the key,
/// big-endian.
pub open spec fn remote_address_segment_bytes(r: RemoteAddressSegment) -> Seq<u8> {
    let s = put(zero_bytes(WQE_REMOTE_ADDRESS_SEGMENT_SIZE as nat), 0, be_bytes(r.va as int, 8));
    put(s, 8, be_bytes(r.key as int, 4))
}

/// The bytes of a datagram segment: the address vector (port, source LID
/// bits and destination LID), then the destination queue pair and its
/// queue key, big-endian.
pub open spec fn datagram_segment_bytes(d: DatagramSegment) -> Seq<u8> {
    let s = put(zero_bytes(WQE_DATAGRAM_SEGMENT_SIZE as nat), 0, be_bytes(d.port_pd as int, 4));
    let s = put(s, 5, be_bytes(d.g_slid as int, 1));
    let s = put(s, 6, be_bytes(d.dlid as int, 2));
    let s = put(s, 32, be_bytes(d.dst_qpn as int, 4));
    put(s, 36, be_bytes(d.qkey as int, 4))
}

/// The bytes of a send WQE's control segment: the owner bit and opcode,
/// the size (and, for BlueFlame, the queue pair number), and the flags,
/// big-endian.
pub open spec fn control_segment_bytes(owner_opcode: u32, vlan_cv_f_ds: u32) -> Seq<u8> {
    let s = put(zero_bytes(WQE_CONTROL_SEGMENT_SIZE as nat), 0, be_bytes(owner_opcode as int, 4));
    let s = put(s, 4, be_bytes(vlan_cv_f_ds as int, 4));
    put(s, 8, be_bytes(WQE_CTRL_CQ_UPDATE as int, 4))
}

impl DataSegment {
    pub fn to_bytes(&self) -> (r: Vec<u8>)
        ensures
            r@ == data_segment_bytes(*self),
    {
        let mut s = zeroed(WQE_DATA_SEGMENT_SIZE as usize);
        write_be(&mut s, 0, self.byte_count as u64, 4);
        write_be(&mut s, 4, self.lkey as u64, 4);
        write_be(&mut s, 8, self.addr, 8);
        s
    }
}

impl RemoteAddressSegment {
    pub fn to_bytes(&self) -> (r: Vec<u8>)
        ensures
            r@ == remote_address_segment_bytes(*self),
    {
        let mut s = zeroed(WQE_REMOTE_ADDRESS_SEGMENT_SIZE as usize);
        write_be(&mut s, 0, self.va, 8);
        write_be(&mut s, 8, self.key as u64, 4);
        s
    }
}

impl DatagramSegment {
    pub fn to_bytes(&self) -> (r: Vec<u8>)
        ensures
            r@ == datagram_segment_bytes(*self),
    {
        let mut s = zeroed(WQE_DATAGRAM_SEGMENT_SIZE as usize);
        write_be(&mut s, 0, self.port_pd as u64, 4);
        write_be(&mut s, 5, self.g_slid as u64, 1);
        write_be(&mut s, 6, self.dlid as u64, 2);
        write_be(&mut s, 32, self.dst_qpn as u64, 4);
        write_be(&mut s, 36, self.qkey as u64, 4);
        s
    }
}

/// The control segment of a send WQE (see [`control_segment_bytes`]).
pub fn control_segment(owner_opcode: u32, vlan_cv_f_ds: u32) -> (r: Vec<u8>)
    ensures
        r@ == control_segment_bytes(owner_opcode, vlan_cv_f_ds),
{
    let mut s = zeroed(WQE_CONTROL_SEGMENT_SIZE as usize);
    write_be(&mut s, 0, owner_opcode as u64, 4);
    write_be(&mut s, 4, vlan_cv_f_ds as u64, 4);
    write_be(&mut s, 8, WQE_CTRL_CQ_UPDATE as u64, 4);
    s
}


/// The control segment of a posted send WQE asks the card for the work
/// request's operation: its low byte is 0x08 for an RDMA write, 0x0a for a
/// send and 0x10 for an RDMA read, its top bit is the owner bit of the
/// slot, and different operations never share a card opcode.
pub proof fn lemma_send_wqe_opcode(sq: WorkQueue, op: WrOpcode, other: WrOpcode)
    ensures
        op == WrOpcode::RdmaWrite ==> (sq.owner_spec(sq.head) | opcode_value(op)) & 0xff == 0x08,
        op == WrOpcode::Send ==> (sq.owner_spec(sq.head) | opcode_value(op)) & 0xff == 0x0a,
        op == WrOpcode::RdmaRead ==> (sq.owner_spec(sq.head) | opcode_value(op)) & 0xff == 0x10,
        (sq.owner_spec(sq.head) | opcode_value(op)) & 0x8000_0000 == sq.owner_spec(sq.head),
        op != other ==> opcode_value(op) != opcode_value(other),
{
    let owner = sq.owner_spec(sq.head);
    let v = opcode_value(op);
    assert(owner == 0 || owner == 0x8000_0000u32);
    assert(v == 0x08 || v == 0x0a || v == 0x10);
    assert((owner | v) & 0xff == v && (owner | v) & 0x8000_0000 == owner) by (bit_vector)
        requires
            owner == 0 || owner == 0x8000_0000u32,
            v == 0x08 || v == 0x0a || v == 0x10;
}

} // verus!
