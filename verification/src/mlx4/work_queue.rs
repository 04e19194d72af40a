//! Sizing and bookkeeping of the send and receive queues of a queue pair.
use vstd::prelude::*;
use vstd::arithmetic::power2::{pow2, lemma2_to64, lemma_pow2_strictly_increases, lemma_pow2_pos};
use vstd::bits::{lemma_u32_shl_is_mul, lemma_u32_shr_is_div, lemma_u32_low_bits_mask_is_mod, lemma_u32_pow2_no_overflow, low_bits_mask};
use crate::bits::{floor_log2, next_pow2, ilog2_u32, next_power_of_two_u32, lemma_next_pow2_bounds, lemma_floor_log2_bounds};
use crate::mlx4::caps::Capabilities;

verus! {

/// The size of a WQE control segment in bytes.
pub const WQE_CONTROL_SEGMENT_SIZE: u32 = 16;

/// The size of a WQE data segment in bytes.
pub const WQE_DATA_SEGMENT_SIZE: u32 = 16;

/// The size of a WQE datagram segment (address vector, QPN, QKey, VLAN, MAC).
pub const WQE_DATAGRAM_SEGMENT_SIZE: u32 = 48;

/// The size of a WQE remote address segment.
pub const WQE_REMOTE_ADDRESS_SEGMENT_SIZE: u32 = 16;

pub const IB_SQ_MIN_WQE_SHIFT: u32 = 6;

pub const IB_MAX_HEADROOM: u32 = 2048;

/// The transport service of a queue pair.
#[derive(Clone, Copy, Debug, PartialEq, Eq)]
pub enum QpType {
    /// Reliable connection
    Rc,
    /// Unreliable connection
    Uc,
    /// Unreliable datagram
    Ud,
    /// Any other type
    Other,
}

/// The queue sizes that a user asks for; they are updated to what is granted.
#[derive(Clone, Copy, Debug, PartialEq, Eq)]
pub struct QpCap {
    pub max_send_wr: u32,
    pub max_recv_wr: u32,
    pub max_send_sge: u32,
    pub max_recv_sge: u32,
    pub max_inline_data: u32,
}

/// Why a queue cannot be created.
#[derive(Clone, Copy, Debug, PartialEq, Eq)]
pub enum WorkQueueError {
    /// The requested receive queue is larger than the card supports.
    InvalidRqSize,
    /// The requested send queue is larger than the card supports.
    InvalidSqSize,
}

/// A send or receive queue of a queue pair.
#[derive(Clone, Copy, Debug, PartialEq, Eq)]
pub struct WorkQueue {
    pub wqe_cnt: u32,
    pub max_post: u32,
    pub max_gs: u32,
    pub offset: u32,
    pub wqe_shift: u32,
    pub spare_wqes: Option<u32>,
    pub head: u32,
    pub tail: u32,
}

/// The number of spare WQEs needed to leave `IB_MAX_HEADROOM` bytes (plus
/// one WQE) of headroom for the prefetcher.
pub open spec fn headroom(shift: nat) -> nat {
    (2048nat / pow2(shift)) + 1
}

/// The headroom, in WQEs of `1 << shift` bytes, that the send queue keeps.
pub fn ib_sq_headroom(shift: u32) -> (r: u32)
    requires
        shift < 32,
    ensures
        r == headroom(shift as nat),
{
    proof {
        vstd::bits::lemma_u32_shr_is_div(IB_MAX_HEADROOM, shift);
        vstd::arithmetic::power2::lemma_pow2_pos(shift as nat);
        vstd::arithmetic::div_mod::lemma_div_is_ordered_by_denominator(2048, 1, pow2(shift as nat) as int);
    }
    (IB_MAX_HEADROOM >> shift) + 1
}

/// The number of spare WQEs for the smallest send WQE: 33.
pub open spec fn ib_sq_max_spare() -> nat {
    33
}

/// The bytes of segments that a send WQE of the given type carries besides
/// its data segments.
pub open spec fn wqe_overhead(qp_type: QpType) -> nat {
    match qp_type {
        QpType::Ud => 16 + 48,
        QpType::Uc => 16 + 16,
        QpType::Rc => 16 + 16,
        QpType::Other => 16,
    }
}

/// UD WQEs must have a datagram segment, RC and UC WQEs might have a remote
/// address segment.
pub fn send_wqe_overhead(qp_type: QpType) -> (r: u32)
    ensures
        r == wqe_overhead(qp_type),
{
    match qp_type {
        QpType::Ud => WQE_CONTROL_SEGMENT_SIZE + WQE_DATAGRAM_SEGMENT_SIZE,
        QpType::Uc => WQE_CONTROL_SEGMENT_SIZE + WQE_REMOTE_ADDRESS_SEGMENT_SIZE,
        QpType::Rc => WQE_CONTROL_SEGMENT_SIZE + WQE_REMOTE_ADDRESS_SEGMENT_SIZE,
        QpType::Other => WQE_CONTROL_SEGMENT_SIZE,
    }
}

/// The largest number of work requests that the card allows in a queue, as
/// the size check computes it: `1 << (log_max_qp_sz - 33)`.
pub open spec fn qp_size_limit(caps: Capabilities) -> nat {
    pow2((caps.log_max_qp_sz - ib_sq_max_spare()) as nat)
}

pub open spec fn max_u32(a: u32, b: u32) -> u32 {
    if a >= b {
        a
    } else {
        b
    }
}

pub open spec fn min3(a: nat, b: nat, c: nat) -> nat {
    if a <= b && a <= c {
        a
    } else if b <= c {
        b
    } else {
        c
    }
}

/// Whether the receive queue request exceeds what the card supports.
pub open spec fn rq_request_invalid(caps: Capabilities, req: QpCap) -> bool {
    ||| req.max_recv_wr > qp_size_limit(caps)
    ||| req.max_recv_sge > caps.max_sg_sq
    ||| req.max_recv_sge > caps.max_sg_rq
}

/// The receive queue that `new_receive_queue` makes for a valid request.
pub open spec fn planned_receive_queue(caps: Capabilities, req: QpCap) -> WorkQueue {
    let wqe_cnt = next_pow2(max_u32(req.max_recv_wr, 256) as nat);
    let max_gs = next_pow2(max_u32(req.max_recv_sge, 1) as nat);
    let limit = qp_size_limit(caps);
    WorkQueue {
        wqe_cnt: wqe_cnt as u32,
        max_post: (if limit > wqe_cnt {
            wqe_cnt
        } else {
            limit
        }) as u32,
        max_gs: max_gs as u32,
        offset: 0,
        wqe_shift: floor_log2(max_gs * 16) as u32,
        spare_wqes: None,
        head: 0,
        tail: 0,
    }
}

/// Whether the send queue request exceeds what the card supports.
pub open spec fn sq_request_invalid(caps: Capabilities, req: QpCap, qp_type: QpType) -> bool {
    ||| req.max_send_wr > qp_size_limit(caps)
    ||| req.max_send_sge > caps.max_sg_sq
    ||| req.max_send_sge > caps.max_sg_rq
    ||| req.max_send_sge * 16 + wqe_overhead(qp_type) > caps.max_desc_sz_sq
}

/// The size of one send WQE, rounded up to a power of two, as a shift.
pub open spec fn sq_wqe_shift(req: QpCap, qp_type: QpType) -> nat {
    floor_log2(next_pow2((req.max_send_sge * 16 + wqe_overhead(qp_type)) as nat))
}

/// The send queue that `new_send_queue` makes for a valid request.
pub open spec fn planned_send_queue(caps: Capabilities, req: QpCap, qp_type: QpType) -> WorkQueue {
    let shift = sq_wqe_shift(req, qp_type);
    let spare = headroom(shift);
    let wqe_cnt = next_pow2((max_u32(req.max_send_wr, 256) + spare) as nat);
    let desc = if caps.max_desc_sz_sq <= pow2(shift) {
        caps.max_desc_sz_sq as nat
    } else {
        pow2(shift)
    };
    WorkQueue {
        wqe_cnt: wqe_cnt as u32,
        max_post: (wqe_cnt - spare) as u32,
        max_gs: ((desc - wqe_overhead(qp_type)) / 16) as u32,
        offset: 0,
        wqe_shift: shift as u32,
        spare_wqes: Some(spare as u32),
        head: 0,
        tail: 0,
    }
}

fn min3_u32(a: u32, b: u32, c: u32) -> (r: u32)
    ensures
        r == min3(a as nat, b as nat, c as nat),
{
    if a <= b && a <= c {
        a
    } else if b <= c {
        b
    } else {
        c
    }
}

impl WorkQueue {
    /// Compute the size of the receive queue and grant the request: the
    /// counts in `ib_caps` are updated to what the queue supports.
    pub fn new_receive_queue(hca_caps: &Capabilities, ib_caps: &mut QpCap) -> (r: Result<
        Self,
        WorkQueueError,
    >)
        requires
            33 <= hca_caps.log_max_qp_sz < 65,
            next_pow2(max_u32(old(ib_caps).max_recv_wr, 256) as nat) <= u32::MAX,
        ensures
            r is Err <==> rq_request_invalid(*hca_caps, *old(ib_caps)),
            r is Err ==> r == Err::<Self, WorkQueueError>(WorkQueueError::InvalidRqSize)
                && *final(ib_caps) == *old(ib_caps),
            r matches Ok(q) ==> {
                &&& q == planned_receive_queue(*hca_caps, *old(ib_caps))
                &&& *final(ib_caps) == (QpCap {
                    max_recv_wr: q.max_post,
                    max_recv_sge: min3(
                        q.max_gs as nat,
                        hca_caps.max_sg_sq as nat,
                        hca_caps.max_sg_rq as nat,
                    ) as u32,
                    ..*old(ib_caps)
                })
            },
    {
        let shift: u32 = hca_caps.log_max_qp_sz as u32 - 33;
        proof {
            lemma2_to64();
            vstd::bits::lemma_u32_pow2_no_overflow(shift as nat);
            lemma_u32_shl_is_mul(1, shift);
        }
        let limit: u32 = 1u32 << shift;
        // check the RQ size before proceeding
        if ib_caps.max_recv_wr > limit || ib_caps.max_recv_sge > hca_caps.max_sg_sq as u32
            || ib_caps.max_recv_sge > hca_caps.max_sg_rq as u32 {
            return Err(WorkQueueError::InvalidRqSize);
        }
        let mut wqe_cnt = ib_caps.max_recv_wr;
        if wqe_cnt < 256 {
            wqe_cnt = 256;
        }
        wqe_cnt = next_power_of_two_u32(wqe_cnt);
        let mut max_gs = ib_caps.max_recv_sge;
        if max_gs < 1 {
            max_gs = 1;
        }
        proof {
            lemma_next_pow2_bounds(max_gs as nat);
            // max_gs <= 255, so its next power of two is at most 256
            if next_pow2(max_gs as nat) > 256 {
                lemma_pow2_bound_256(max_gs as nat);
            }
        }
        max_gs = next_power_of_two_u32(max_gs);
        proof {
            lemma_next_pow2_bounds(max_gs as nat);
        }
        let wqe_shift = ilog2_u32(max_gs * WQE_DATA_SEGMENT_SIZE);
        let mut max_post = limit;
        if max_post > wqe_cnt {
            max_post = wqe_cnt;
        }
        // update the caps
        ib_caps.max_recv_wr = max_post;
        ib_caps.max_recv_sge = min3_u32(max_gs, hca_caps.max_sg_sq as u32, hca_caps.max_sg_rq as u32);
        Ok(WorkQueue {
            wqe_cnt,
            max_post,
            max_gs,
            offset: 0,
            wqe_shift,
            spare_wqes: None,
            head: 0,
            tail: 0,
        })
    }

    /// Compute the size of the send queue and grant the request: the counts
    /// in `ib_caps` are updated to what the queue supports.
    pub fn new_send_queue(hca_caps: &Capabilities, ib_caps: &mut QpCap, qp_type: QpType) -> (r:
        Result<Self, WorkQueueError>)
        requires
            33 <= hca_caps.log_max_qp_sz < 65,
            // the shift `1 << wqe_shift` is done on 16 bits
            !sq_request_invalid(*hca_caps, *old(ib_caps), qp_type) ==> sq_wqe_shift(
                *old(ib_caps),
                qp_type,
            ) < 16,
            !sq_request_invalid(*hca_caps, *old(ib_caps), qp_type) ==> next_pow2(
                (max_u32(old(ib_caps).max_send_wr, 256) + headroom(
                    sq_wqe_shift(*old(ib_caps), qp_type),
                )) as nat,
            ) <= u32::MAX,
        ensures
            r is Err <==> sq_request_invalid(*hca_caps, *old(ib_caps), qp_type),
            r is Err ==> r == Err::<Self, WorkQueueError>(WorkQueueError::InvalidSqSize)
                && *final(ib_caps) == *old(ib_caps),
            r matches Ok(q) ==> {
                &&& q == planned_send_queue(*hca_caps, *old(ib_caps), qp_type)
                &&& *final(ib_caps) == (QpCap {
                    max_send_wr: q.max_post,
                    max_send_sge: min3(
                        q.max_gs as nat,
                        hca_caps.max_sg_sq as nat,
                        hca_caps.max_sg_rq as nat,
                    ) as u32,
                    ..*old(ib_caps)
                })
            },
    {
        let shift: u32 = hca_caps.log_max_qp_sz as u32 - 33;
        proof {
            lemma2_to64();
            vstd::bits::lemma_u32_pow2_no_overflow(shift as nat);
            lemma_u32_shl_is_mul(1, shift);
        }
        let limit: u32 = 1u32 << shift;
        // check the SQ size before proceeding
        if ib_caps.max_send_wr > limit || ib_caps.max_send_sge > hca_caps.max_sg_sq as u32
            || ib_caps.max_send_sge > hca_caps.max_sg_rq as u32 {
            return Err(WorkQueueError::InvalidSqSize);
        }
        let overhead = send_wqe_overhead(qp_type);
        let size = ib_caps.max_send_sge * WQE_DATA_SEGMENT_SIZE + overhead;
        if size > hca_caps.max_desc_sz_sq as u32 {
            return Err(WorkQueueError::InvalidSqSize);
        }
        proof {
            lemma_next_pow2_bounds(size as nat);
            // size <= u16::MAX, so its next power of two is at most 2^16
            if next_pow2(size as nat) > 65536 {
                lemma_pow2_bound_65536(size as nat);
            }
        }
        let rounded = next_power_of_two_u32(size);
        let wqe_shift = ilog2_u32(rounded);
        // We need to leave 2 KB + 1 WR of headroom in the SQ to allow HW to prefetch.
        let spare_wqes = ib_sq_headroom(wqe_shift);
        let mut wqe_cnt = ib_caps.max_send_wr;
        if wqe_cnt < 256 {
            wqe_cnt = 256;
        }
        proof {
            lemma2_to64();
            assert(spare_wqes <= 2049) by {
                vstd::arithmetic::div_mod::lemma_div_is_ordered_by_denominator(2048, 1, pow2(wqe_shift as nat) as int);
                vstd::arithmetic::power2::lemma_pow2_pos(wqe_shift as nat);
            }
            lemma_next_pow2_bounds((wqe_cnt + spare_wqes) as nat);
        }
        wqe_cnt = next_power_of_two_u32(wqe_cnt + spare_wqes);
        proof {
            vstd::bits::lemma_u16_pow2_no_overflow(wqe_shift as nat);
            vstd::bits::lemma_u16_shl_is_mul(1, wqe_shift as u16);
            lemma_floor_log2_bounds(rounded as nat);
            let k = choose|k: nat| next_pow2(size as nat) == pow2(k);
            crate::bits::lemma_floor_log2_pow2(k);
        }
        let unit: u16 = 1u16 << wqe_shift as u16;
        let desc: u16 = if hca_caps.max_desc_sz_sq <= unit {
            hca_caps.max_desc_sz_sq
        } else {
            unit
        };
        let max_gs = (desc as u32 - overhead) / WQE_DATA_SEGMENT_SIZE;
        let max_post = wqe_cnt - spare_wqes;
        // update the caps
        ib_caps.max_send_wr = max_post;
        ib_caps.max_send_sge = min3_u32(max_gs, hca_caps.max_sg_sq as u32, hca_caps.max_sg_rq as u32);
        Ok(WorkQueue {
            wqe_cnt,
            max_post,
            max_gs,
            offset: 0,
            wqe_shift,
            spare_wqes: Some(spare_wqes),
            head: 0,
            tail: 0,
        })
    }

    /// The size of the queue in bytes.
    pub fn size(&self) -> (r: u32)
        requires
            self.wqe_shift < 32,
        ensures
            r == self.wqe_cnt << self.wqe_shift,
    {
        self.wqe_cnt << self.wqe_shift
    }

    /// The element count is a power of two and the whole queue lies below
    /// 4 GiB of the buffer.
    pub open spec fn ring_wf(&self) -> bool {
        &&& self.wqe_shift < 32
        &&& exists|k: nat| k < 32 && self.wqe_cnt == pow2(k)
        &&& self.offset + self.wqe_cnt * pow2(self.wqe_shift as nat) <= u32::MAX
    }

    /// Where element `index` lies in the buffer: indices wrap around the
    /// queue.
    pub open spec fn element_offset_spec(&self, index: u32) -> int {
        self.offset + (index % self.wqe_cnt) * pow2(self.wqe_shift as nat)
    }

    /// The byte offset of element `index` (taken modulo the element count)
    /// in the queue pair buffer.
    pub fn element_offset(&self, index: u32) -> (r: u32)
        requires
            self.ring_wf(),
        ensures
            r == self.element_offset_spec(index),
            self.offset <= r,
            r + pow2(self.wqe_shift as nat) <= self.offset + self.wqe_cnt * pow2(self.wqe_shift as nat),
    {
        let ghost k = choose|k: nat| k < 32 && self.wqe_cnt == pow2(k);
        proof {
            lemma_pow2_pos(k);
            lemma_pow2_pos(self.wqe_shift as nat);
            lemma_u32_low_bits_mask_is_mod(index, k);
            assert(low_bits_mask(k) == pow2(k) - 1);
        }
        let m = index & (self.wqe_cnt - 1);
        let p: Ghost<nat> = Ghost(pow2(self.wqe_shift as nat));
        proof {
            assert(m == index % self.wqe_cnt);
            assert(m < self.wqe_cnt);
            assert(m * p@ + p@ <= self.wqe_cnt * p@) by (nonlinear_arith)
                requires m < self.wqe_cnt, p@ > 0;
            lemma_u32_shl_is_mul(m, self.wqe_shift);
        }
        self.offset + (m << self.wqe_shift)
    }

    /// The owner bit of element `index`: it flips each time the indices go
    /// once around the queue.
    pub open spec fn owner_spec(&self, index: u32) -> u32 {
        if (index / self.wqe_cnt) % 2 == 0 { 0 } else { 0x8000_0000 }
    }

    pub fn owner_bit(&self, index: u32) -> (r: u32)
        requires
            self.ring_wf(),
        ensures
            r == self.owner_spec(index),
    {
        let ghost k = choose|k: nat| k < 32 && self.wqe_cnt == pow2(k);
        let kk: Ghost<u32> = Ghost(k as u32);
        proof {
            lemma_u32_pow2_no_overflow(k);
            lemma_pow2_pos(k);
            lemma_u32_shl_is_mul(1, kk@);
            lemma_u32_shr_is_div(index, kk@);
            let c = self.wqe_cnt;
            let kv = kk@;
            assert(c == 1u32 << kv);
            assert((index & c == 0) == ((index >> kv) % 2 == 0)) by (bit_vector)
                requires c == 1u32 << kv, kv < 32;
            assert(index >> kv == index / c);
            assert(1u32 << 31 == 0x8000_0000) by (bit_vector);
        }
        if index & self.wqe_cnt == 0 {
            0
        } else {
            1u32 << 31
        }
    }

    /// A work request of this queue completed.
    pub fn advance_tail(&mut self)
        requires
            old(self).tail < u32::MAX,
        ensures
            *final(self) == (WorkQueue { tail: (old(self).tail + 1) as u32, ..*old(self) }),
    {
        self.tail = self.tail + 1;
    }

    /// Check if this queue would overflow when adding `num_req` work requests.
    pub fn would_overflow(&self, num_req: u32) -> (r: bool)
        requires
            self.tail <= self.head,
            self.head - self.tail + num_req <= u32::MAX,
        ensures
            r == (self.head - self.tail + num_req >= self.max_post),
    {
        let cur = self.head - self.tail;
        cur + num_req >= self.max_post
    }
}

/// One lap around the queue lands on the same element, with the owner bit
/// flipped.
pub proof fn lemma_ring_lap(wq: WorkQueue, index: u32)
    requires
        wq.ring_wf(),
        index + wq.wqe_cnt <= u32::MAX,
    ensures
        wq.element_offset_spec((index + wq.wqe_cnt) as u32) == wq.element_offset_spec(index),
        wq.owner_spec((index + wq.wqe_cnt) as u32) != wq.owner_spec(index),
{
    let k = choose|k: nat| k < 32 && wq.wqe_cnt == pow2(k);
    lemma_pow2_pos(k);
    let c = wq.wqe_cnt as int;
    let i = index as int;
    assert((i + c) % c == i % c) by (nonlinear_arith)
        requires c > 0, i >= 0;
    assert((i + c) / c == i / c + 1) by (nonlinear_arith)
        requires c > 0, i >= 0;
}

proof fn lemma_pow2_bound_256(x: nat)
    requires
        1 <= x <= 256,
    ensures
        next_pow2(x) <= 256,
{
    lemma2_to64();
    crate::bits::lemma_next_pow2_unique_le(x, 8);
}

proof fn lemma_pow2_bound_65536(x: nat)
    requires
        x <= 65536,
    ensures
        next_pow2(x) <= 65536,
{
    lemma2_to64();
    crate::bits::lemma_next_pow2_unique_le(x, 16);
}

} // verus!
