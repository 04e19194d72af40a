//! Completion queue decisions: which entries belong to software, and what
//! work completion an entry reports.
use vstd::prelude::*;
use crate::mlx4::work_queue::WorkQueue;
use crate::mlx4::mailbox::{be_bytes, put, write_be, zero_bytes, zeroed};
use crate::mlx4::queue_pair::{ICM_PAGE_SHIFT, PAGE_SHIFT};
use crate::bits::{floor_log2, ilog2_u32};

verus! {

/// A completion queue entry, by fields.
#[derive(Clone, Copy, Debug, PartialEq, Eq)]
pub struct CompletionQueueEntry {
    pub qp_number: u32,
    pub immed_rss_invalid: u32,
    pub g: bool,
    pub mlpath: u8,
    pub rqpn: u32,
    pub sl: u8,
    pub slid: u16,
    pub byte_cnt: u32,
    pub wqe_index: u16,
    /// vendor error syndrome (high byte) and syndrome (low byte) on error
    pub checksum: u16,
    pub owner: bool,
    pub is_send: bool,
    pub opcode: u8,
}

/// The status of a work completion.
#[derive(Clone, Copy, Debug, PartialEq, Eq)]
pub enum WcStatus {
    Success,
    LocLenErr,
    LocQpOpErr,
    LocProtErr,
    WrFlushErr,
    MwBindErr,
    BadRespErr,
    LocAccessErr,
    RemInvReqErr,
    RemAccessErr,
    RemOpErr,
    RetryExcErr,
    RnrRetryExcErr,
    RemAbortErr,
    GeneralErr,
}

/// The operation of a work completion.
#[derive(Clone, Copy, Debug, PartialEq, Eq)]
pub enum WcOpcode {
    Send,
    RdmaWrite,
    RdmaRead,
    CompSwap,
    FetchAdd,
    LocalInv,
    Recv,
    RecvRdmaWithImm,
}

/// The flags of a work completion.
pub const IBV_WC_GRH: u32 = 1;
pub const IBV_WC_WITH_IMM: u32 = 2;
pub const IBV_WC_WITH_INV: u32 = 8;

/// A work completion as the driver reports it.
#[derive(Clone, Copy, Debug, PartialEq, Eq)]
pub struct WorkCompletion {
    pub qp_num: u32,
    pub status: WcStatus,
    pub vendor_err: u32,
    pub opcode: WcOpcode,
    pub byte_len: u32,
    pub wc_flags: u32,
    pub imm_data: u32,
    pub src_qp: u32,
    pub dlid_path_bits: u8,
    pub pkey_index: u16,
    pub slid: u16,
    pub sl: u8,
}

/// Why an entry cannot be reported.
#[derive(Clone, Copy, Debug, PartialEq, Eq)]
pub enum CompletionError {
    InvalidErrorSyndrome,
    InvalidOpcode,
}

/// The opcode of an entry that reports an error.
pub const CQE_OPCODE_ERROR: u8 = 0x1e;

/// Whether the entry at `index` belongs to software: its ownership bit
/// flips every round of the ring of `num_entries` entries.
pub open spec fn cqe_is_sw(owner: bool, index: u32, num_entries: u32) -> bool {
    !(owner ^ ((index & num_entries) != 0))
}

pub fn cqe_belongs_to_sw(owner: bool, index: u32, num_entries: u32) -> (r: bool)
    ensures
        r == cqe_is_sw(owner, index, num_entries),
{
    !(owner ^ ((index & num_entries) != 0))
}

/// The slot of the ring that the consumer index refers to.
pub fn cqe_slot(index: u32, num_entries: u32) -> (r: u32)
    requires
        num_entries > 0,
    ensures
        r == index & ((num_entries - 1) as u32),
{
    index & (num_entries - 1)
}

/// The number of pages that hold `num_entries` entries of 32 bytes.
pub fn cq_pages(num_entries: u32) -> (r: usize)
    ensures
        r == (num_entries as nat * 32 + 4095) / 4096,
{
    let bytes: u64 = num_entries as u64 * 32;
    ((bytes + 4095) / 4096) as usize
}

/// The value that arms the completion queue for the next notification.
pub fn arm_value(arm_sequence_number: u32, consumer_index: u32) -> (r: u32)
    ensures
        r == ((arm_sequence_number & 3) << 28u32 | 2u32 << 24u32 | (consumer_index & 0xffffff)),
{
    let sn = arm_sequence_number & 3;
    let ci = consumer_index & 0xffffff;
    sn << 28 | 2u32 << 24 | ci
}

/// The status for an error syndrome, or `None` for an unknown syndrome.
pub open spec fn syndrome_status(syndrome: u8) -> Option<WcStatus> {
    if syndrome == 0x01 {
        Some(WcStatus::LocLenErr)
    } else if syndrome == 0x02 {
        Some(WcStatus::LocQpOpErr)
    } else if syndrome == 0x04 {
        Some(WcStatus::LocProtErr)
    } else if syndrome == 0x05 {
        Some(WcStatus::WrFlushErr)
    } else if syndrome == 0x06 {
        Some(WcStatus::MwBindErr)
    } else if syndrome == 0x10 {
        Some(WcStatus::BadRespErr)
    } else if syndrome == 0x11 {
        Some(WcStatus::LocAccessErr)
    } else if syndrome == 0x12 {
        Some(WcStatus::RemInvReqErr)
    } else if syndrome == 0x13 {
        Some(WcStatus::RemAccessErr)
    } else if syndrome == 0x14 {
        Some(WcStatus::RemOpErr)
    } else if syndrome == 0x15 {
        Some(WcStatus::RetryExcErr)
    } else if syndrome == 0x16 {
        Some(WcStatus::RnrRetryExcErr)
    } else if syndrome == 0x22 {
        Some(WcStatus::RemAbortErr)
    } else {
        None
    }
}

fn status_of_syndrome(syndrome: u8) -> (r: Option<WcStatus>)
    ensures
        r == syndrome_status(syndrome),
{
    match syndrome {
        0x01 => Some(WcStatus::LocLenErr),
        0x02 => Some(WcStatus::LocQpOpErr),
        0x04 => Some(WcStatus::LocProtErr),
        0x05 => Some(WcStatus::WrFlushErr),
        0x06 => Some(WcStatus::MwBindErr),
        0x10 => Some(WcStatus::BadRespErr),
        0x11 => Some(WcStatus::LocAccessErr),
        0x12 => Some(WcStatus::RemInvReqErr),
        0x13 => Some(WcStatus::RemAccessErr),
        0x14 => Some(WcStatus::RemOpErr),
        0x15 => Some(WcStatus::RetryExcErr),
        0x16 => Some(WcStatus::RnrRetryExcErr),
        0x22 => Some(WcStatus::RemAbortErr),
        _ => None,
    }
}

/// The opcode, byte count and flags of a successful send completion, or
/// `None` for an opcode that is not a send opcode.
pub open spec fn send_completion(opcode: u8, byte_cnt: u32) -> Option<(WcOpcode, u32, u32)> {
    if opcode == 0x08 {
        Some((WcOpcode::RdmaWrite, 0u32, 0u32))
    } else if opcode == 0x09 {
        Some((WcOpcode::RdmaWrite, 0u32, IBV_WC_WITH_IMM))
    } else if opcode == 0x0a {
        Some((WcOpcode::Send, 0u32, 0u32))
    } else if opcode == 0x0b {
        Some((WcOpcode::Send, 0u32, IBV_WC_WITH_IMM))
    } else if opcode == 0x01 {
        Some((WcOpcode::Send, 0u32, 0u32))
    } else if opcode == 0x10 {
        Some((WcOpcode::RdmaRead, byte_cnt, 0u32))
    } else if opcode == 0x11 || opcode == 0x14 {
        Some((WcOpcode::CompSwap, 8u32, 0u32))
    } else if opcode == 0x12 || opcode == 0x15 {
        Some((WcOpcode::FetchAdd, 8u32, 0u32))
    } else if opcode == 0x1b {
        Some((WcOpcode::LocalInv, 0u32, 0u32))
    } else if opcode == 0x00 || opcode == 0x0e || opcode == 0x18 || opcode == 0x19 || opcode == 0x1f {
        // known opcodes that report nothing more
        Some((WcOpcode::Send, 0u32, 0u32))
    } else {
        None
    }
}

/// The work completion with all fields zero but the queue pair number.
pub open spec fn blank_completion(qp_num: u32) -> WorkCompletion {
    WorkCompletion {
        qp_num,
        status: WcStatus::Success,
        vendor_err: 0,
        opcode: WcOpcode::Send,
        byte_len: 0,
        wc_flags: 0,
        imm_data: 0,
        src_qp: 0,
        dlid_path_bits: 0,
        pkey_index: 0,
        slid: 0,
        sl: 0,
    }
}

/// The work completion that an entry reports.
pub open spec fn completion_of(cqe: CompletionQueueEntry) -> Result<WorkCompletion, CompletionError> {
    let blank = blank_completion(cqe.qp_number);
    if cqe.opcode == CQE_OPCODE_ERROR {
        match syndrome_status((cqe.checksum & 0xff) as u8) {
            None => Err(CompletionError::InvalidErrorSyndrome),
            Some(status) => Ok(WorkCompletion { status, vendor_err: (cqe.checksum >> 8u16) as u32, ..blank }),
        }
    } else if cqe.is_send {
        match send_completion(cqe.opcode, cqe.byte_cnt) {
            None => Err(CompletionError::InvalidOpcode),
            Some((opcode, byte_len, wc_flags)) => Ok(WorkCompletion { opcode, byte_len, wc_flags, ..blank }),
        }
    } else if cqe.opcode > 3 {
        Err(CompletionError::InvalidOpcode)
    } else {
        let (opcode, flags, imm) = if cqe.opcode == 0 {
            (WcOpcode::RecvRdmaWithImm, IBV_WC_WITH_IMM, cqe.immed_rss_invalid)
        } else if cqe.opcode == 1 {
            (WcOpcode::Recv, 0u32, 0u32)
        } else {
            (WcOpcode::Recv, IBV_WC_WITH_IMM, cqe.immed_rss_invalid)
        };
        Ok(WorkCompletion {
            opcode,
            byte_len: cqe.byte_cnt,
            wc_flags: if cqe.g { flags | IBV_WC_GRH } else { flags },
            imm_data: imm,
            src_qp: cqe.rqpn,
            dlid_path_bits: cqe.mlpath,
            pkey_index: (cqe.immed_rss_invalid & 0x7f) as u16,
            slid: cqe.slid,
            sl: cqe.sl,
            ..blank
        })
    }
}

/// Decodes a completion queue entry into the work completion it reports.
pub fn complete(cqe: &CompletionQueueEntry) -> (r: Result<WorkCompletion, CompletionError>)
    requires
        // a receive with invalidation is not handled
        !(cqe.opcode != CQE_OPCODE_ERROR && !cqe.is_send && cqe.opcode == 3),
    ensures
        r == completion_of(*cqe),
{
    let mut wc = WorkCompletion {
        qp_num: cqe.qp_number,
        status: WcStatus::Success,
        vendor_err: 0,
        opcode: WcOpcode::Send,
        byte_len: 0,
        wc_flags: 0,
        imm_data: 0,
        src_qp: 0,
        dlid_path_bits: 0,
        pkey_index: 0,
        slid: 0,
        sl: 0,
    };
    if cqe.opcode == CQE_OPCODE_ERROR {
        let checksum = cqe.checksum;
        assert(checksum >> 8u16 < 256 && checksum & 0xff < 256) by (bit_vector);
        let vendor_err_syndrome = (checksum >> 8) as u8;
        let syndrome = (checksum & 0xff) as u8;
        let status = match status_of_syndrome(syndrome) {
            Some(s) => s,
            None => return Err(CompletionError::InvalidErrorSyndrome),
        };
        wc.status = status;
        wc.vendor_err = vendor_err_syndrome as u32;
        return Ok(wc);
    }
    if cqe.is_send {
        match cqe.opcode {
            0x08 => {
                wc.opcode = WcOpcode::RdmaWrite;
            },
            0x09 => {
                wc.opcode = WcOpcode::RdmaWrite;
                wc.wc_flags = wc.wc_flags | IBV_WC_WITH_IMM;
            },
            0x0a => {
                wc.opcode = WcOpcode::Send;
            },
            0x0b => {
                wc.opcode = WcOpcode::Send;
                wc.wc_flags = wc.wc_flags | IBV_WC_WITH_IMM;
            },
            0x01 => {
                wc.opcode = WcOpcode::Send;
            },
            0x10 => {
                wc.opcode = WcOpcode::RdmaRead;
                wc.byte_len = cqe.byte_cnt;
            },
            0x11 | 0x14 => {
                wc.opcode = WcOpcode::CompSwap;
                wc.byte_len = 8;
            },
            0x12 | 0x15 => {
                wc.opcode = WcOpcode::FetchAdd;
                wc.byte_len = 8;
            },
            0x1b => {
                wc.opcode = WcOpcode::LocalInv;
            },
            0x00 | 0x0e | 0x18 | 0x19 | 0x1f => {},
            _ => return Err(CompletionError::InvalidOpcode),
        }
        assert(0u32 | IBV_WC_WITH_IMM == IBV_WC_WITH_IMM) by (bit_vector);
    } else {
        if cqe.opcode > 3 {
            return Err(CompletionError::InvalidOpcode);
        }
        wc.byte_len = cqe.byte_cnt;
        if cqe.opcode == 0 {
            wc.opcode = WcOpcode::RecvRdmaWithImm;
            wc.wc_flags = IBV_WC_WITH_IMM;
            wc.imm_data = cqe.immed_rss_invalid;
        } else if cqe.opcode == 1 {
            wc.opcode = WcOpcode::Recv;
        } else {
            wc.opcode = WcOpcode::Recv;
            wc.wc_flags = IBV_WC_WITH_IMM;
            wc.imm_data = cqe.immed_rss_invalid;
        }
        wc.src_qp = cqe.rqpn;
        wc.dlid_path_bits = cqe.mlpath;
        if cqe.g {
            wc.wc_flags = wc.wc_flags | IBV_WC_GRH;
        }
        wc.pkey_index = (cqe.immed_rss_invalid & 0x7f) as u16;
        wc.slid = cqe.slid;
        wc.sl = cqe.sl;
    }
    Ok(wc)
}

/// The work queues of a queue pair, by the queue pair's number.
#[derive(Clone, Copy, Debug, PartialEq, Eq)]
pub struct QueuePairQueues {
    pub number: u32,
    pub sq: WorkQueue,
    pub rq: WorkQueue,
}

/// The position of the first queue pair with this number.
pub open spec fn qp_position(qps: Seq<QueuePairQueues>, number: u32) -> Option<int> {
    if exists|i: int| 0 <= i < qps.len() && qps[i].number == number {
        let i = choose|i: int| 0 <= i < qps.len() && qps[i].number == number
            && forall|j: int| 0 <= j < i ==> qps[j].number != number;
        Some(i)
    } else {
        None
    }
}

/// The queue pairs after the completion of a request of queue pair
/// `number`: the tail of its send or receive queue moves on.
pub open spec fn advanced(qps: Seq<QueuePairQueues>, number: u32, is_send: bool) -> Seq<QueuePairQueues> {
    match qp_position(qps, number) {
        None => qps,
        Some(i) => qps.update(i, if is_send {
            QueuePairQueues { sq: WorkQueue { tail: (qps[i].sq.tail + 1) as u32, ..qps[i].sq }, ..qps[i] }
        } else {
            QueuePairQueues { rq: WorkQueue { tail: (qps[i].rq.tail + 1) as u32, ..qps[i].rq }, ..qps[i] }
        }),
    }
}

/// The consumer side of a completion queue.
#[derive(Clone, Copy, Debug, PartialEq, Eq)]
pub struct CompletionQueueState {
    pub consumer_index: u32,
    pub num_entries: u32,
}

impl CompletionQueueState {
    /// Takes the entry `cqe` read at the consumer index's slot. An entry
    /// that hardware still owns leaves everything as it is (`Ok(None)`).
    /// Otherwise the consumer index moves on, the queue of the request's
    /// queue pair moves its tail, and the entry is decoded.
    pub fn poll_one(&mut self, qps: &mut Vec<QueuePairQueues>, cqe: &CompletionQueueEntry) -> (r: Result<Option<WorkCompletion>, CompletionError>)
        requires
            cqe_is_sw(cqe.owner, old(self).consumer_index, old(self).num_entries) ==> {
                &&& old(self).consumer_index < u32::MAX
                &&& forall|i: int| 0 <= i < old(qps)@.len() ==> (#[trigger] old(qps)@[i]).sq.tail < u32::MAX && old(qps)@[i].rq.tail < u32::MAX
                &&& !(cqe.opcode != CQE_OPCODE_ERROR && !cqe.is_send && cqe.opcode == 3)
            },
        ensures
            !cqe_is_sw(cqe.owner, old(self).consumer_index, old(self).num_entries) ==> {
                &&& r == Ok::<Option<WorkCompletion>, CompletionError>(None)
                &&& *final(self) == *old(self)
                &&& final(qps)@ == old(qps)@
            },
            cqe_is_sw(cqe.owner, old(self).consumer_index, old(self).num_entries) ==> {
                &&& final(self).consumer_index == old(self).consumer_index + 1
                &&& final(self).num_entries == old(self).num_entries
                &&& final(qps)@ == advanced(old(qps)@, cqe.qp_number, cqe.is_send)
                &&& match completion_of(*cqe) {
                    Ok(wc) => r == Ok::<Option<WorkCompletion>, CompletionError>(Some(wc)),
                    Err(e) => r == Err::<Option<WorkCompletion>, CompletionError>(e),
                }
            },
    {
        if !cqe_belongs_to_sw(cqe.owner, self.consumer_index, self.num_entries) {
            return Ok(None);
        }
        self.consumer_index = self.consumer_index + 1;
        let mut i: usize = 0;
        while i < qps.len() && qps[i].number != cqe.qp_number
            invariant
                i <= qps.len(),
                qps@ == old(qps)@,
                forall|j: int| 0 <= j < i ==> qps@[j].number != cqe.qp_number,
            decreases qps.len() - i,
        {
            i = i + 1;
        }
        proof {
            if i < qps.len() {
                assert(qps@[i as int].number == cqe.qp_number);
                let k = choose|k: int| 0 <= k < qps@.len() && qps@[k].number == cqe.qp_number
                    && forall|j: int| 0 <= j < k ==> qps@[j].number != cqe.qp_number;
                assert(k == i) by {
                    if k < i { assert(qps@[k].number != cqe.qp_number); }
                    if k > i { assert(qps@[i as int].number != cqe.qp_number); }
                }
                let q0 = old(qps)@[i as int];
                assert(q0.sq.tail < u32::MAX && q0.rq.tail < u32::MAX);
            } else {
                assert(!exists|k: int| 0 <= k < qps@.len() && qps@[k].number == cqe.qp_number);
            }
        }
        if i < qps.len() {
            let mut q = qps[i];
            if cqe.is_send {
                q.sq.advance_tail();
            } else {
                q.rq.advance_tail();
            }
            qps.set(i, q);
        }
        match complete(cqe) {
            Ok(wc) => Ok(Some(wc)),
            Err(e) => Err(e),
        }
    }

    /// The value of the consumer index doorbell record.
    pub fn doorbell_value(&self) -> (r: u32)
        ensures
            r == self.consumer_index % 0x100_0000,
    {
        let ci = self.consumer_index;
        let r = ci & 0xff_ffff;
        assert(ci & 0xff_ffff == ci % 0x100_0000) by (bit_vector);
        r
    }
}


/// The entry that the ring `ring` of `n` entries holds at the slot of the
/// consumer index `ci`.
pub open spec fn entry_at(ring: Seq<CompletionQueueEntry>, ci: u32, n: u32) -> CompletionQueueEntry {
    ring[(ci & ((n - 1) as u32)) as int]
}

/// What polling at most `max` entries from consumer index `ci` gives: the
/// consumer index and the queue pairs afterwards, and the completions in
/// order, or the error of the first entry that cannot be reported. Polling
/// stops at the first entry that hardware still owns.
pub open spec fn poll_outcome(
    ci: u32,
    n: u32,
    qps: Seq<QueuePairQueues>,
    ring: Seq<CompletionQueueEntry>,
    max: nat,
) -> (u32, Seq<QueuePairQueues>, Result<Seq<WorkCompletion>, CompletionError>)
    decreases max,
{
    if max == 0 {
        (ci, qps, Ok(Seq::empty()))
    } else {
        let cqe = entry_at(ring, ci, n);
        if !cqe_is_sw(cqe.owner, ci, n) {
            (ci, qps, Ok(Seq::empty()))
        } else {
            let next_qps = advanced(qps, cqe.qp_number, cqe.is_send);
            match completion_of(cqe) {
                Err(e) => ((ci + 1) as u32, next_qps, Err(e)),
                Ok(wc) => prefixed(seq![wc], poll_outcome((ci + 1) as u32, n, next_qps, ring, (max - 1) as nat)),
            }
        }
    }
}

/// An outcome with `done` completions before its own.
pub open spec fn prefixed(
    done: Seq<WorkCompletion>,
    o: (u32, Seq<QueuePairQueues>, Result<Seq<WorkCompletion>, CompletionError>),
) -> (u32, Seq<QueuePairQueues>, Result<Seq<WorkCompletion>, CompletionError>) {
    (o.0, o.1, match o.2 {
        Ok(s) => Ok(done + s),
        Err(e) => Err(e),
    })
}

/// Whether polling at most `max` entries stays within the counters: the
/// consumer index and the tails of the queue pairs do not overflow, and no
/// entry taken has an opcode that a receive completion cannot have.
pub open spec fn poll_fits(
    ci: u32,
    n: u32,
    qps: Seq<QueuePairQueues>,
    ring: Seq<CompletionQueueEntry>,
    max: nat,
) -> bool
    decreases max,
{
    if max == 0 {
        true
    } else {
        let cqe = entry_at(ring, ci, n);
        cqe_is_sw(cqe.owner, ci, n) ==> {
            &&& ci < u32::MAX
            &&& forall|i: int| 0 <= i < qps.len() ==> (#[trigger] qps[i]).sq.tail < u32::MAX && qps[i].rq.tail < u32::MAX
            &&& !(cqe.opcode != CQE_OPCODE_ERROR && !cqe.is_send && cqe.opcode == 3)
            &&& completion_of(cqe) is Ok ==> poll_fits((ci + 1) as u32, n, advanced(qps, cqe.qp_number, cqe.is_send), ring, (max - 1) as nat)
        }
    }
}

impl CompletionQueueState {
    /// Polls at most `max` entries of the ring `ring`, which holds the
    /// queue's `num_entries` entries as the hardware left them. On success
    /// it returns the completions and the value that then goes to the
    /// consumer index doorbell record.
    pub fn poll(&mut self, qps: &mut Vec<QueuePairQueues>, ring: &Vec<CompletionQueueEntry>, max: usize) -> (r: Result<(Vec<WorkCompletion>, u32), CompletionError>)
        requires
            old(self).num_entries > 0,
            ring@.len() == old(self).num_entries,
            poll_fits(old(self).consumer_index, old(self).num_entries, old(qps)@, ring@, max as nat),
        ensures
            ({
                let o = poll_outcome(old(self).consumer_index, old(self).num_entries, old(qps)@, ring@, max as nat);
                &&& final(self).consumer_index == o.0
                &&& final(self).num_entries == old(self).num_entries
                &&& final(qps)@ == o.1
                &&& match o.2 {
                    Ok(s) => r matches Ok((wcs, doorbell)) && wcs@ == s && doorbell == o.0 % 0x100_0000,
                    Err(e) => r == Err::<(Vec<WorkCompletion>, u32), CompletionError>(e),
                }
            }),
    {
        let ghost ci0 = self.consumer_index;
        let ghost qps0 = qps@;
        let n = self.num_entries;
        let mut wcs: Vec<WorkCompletion> = Vec::new();
        let mut k: usize = 0;
        assert(wcs@ + Seq::<WorkCompletion>::empty() =~= wcs@);
        while k < max
            invariant
                k <= max,
                ci0 == old(self).consumer_index,
                qps0 == old(qps)@,
                n == old(self).num_entries,
                self.num_entries == n,
                n > 0,
                ring@.len() == n,
                poll_fits(self.consumer_index, n, qps@, ring@, (max - k) as nat),
                poll_outcome(ci0, n, qps0, ring@, max as nat) == prefixed(
                    wcs@,
                    poll_outcome(self.consumer_index, n, qps@, ring@, (max - k) as nat),
                ),
            decreases max - k,
        {
            let ci = self.consumer_index;
            let slot = cqe_slot(ci, n);
            assert(ci & ((n - 1) as u32) <= ((n - 1) as u32)) by (bit_vector);
            let cqe = ring[slot as usize];
            let ghost m = (max - k) as nat;
            let ghost qps_before = qps@;
            assert(cqe == entry_at(ring@, ci, n));
            match self.poll_one(qps, &cqe) {
                Ok(None) => {
                    assert(!cqe_is_sw(cqe.owner, ci, n));
                    assert(poll_outcome(ci, n, qps_before, ring@, m) == (ci, qps_before, Ok::<Seq<WorkCompletion>, CompletionError>(Seq::empty())));
                    assert(wcs@ + Seq::<WorkCompletion>::empty() =~= wcs@);
                    let doorbell = self.doorbell_value();
                    return Ok((wcs, doorbell));
                },
                Ok(Some(wc)) => {
                    let ghost rest = poll_outcome(self.consumer_index, n, qps@, ring@, (m - 1) as nat);
                    proof {
                        assert(poll_outcome(ci, n, qps_before, ring@, m) == prefixed(seq![wc], rest));
                        match rest.2 {
                            Ok(s) => {
                                assert(wcs@ + (seq![wc] + s) =~= wcs@.push(wc) + s);
                            },
                            Err(_) => {},
                        }
                    }
                    wcs.push(wc);
                    k = k + 1;
                },
                Err(e) => {
                    return Err(e);
                },
            }
        }
        assert(wcs@ + Seq::<WorkCompletion>::empty() =~= wcs@);
        let doorbell = self.doorbell_value();
        Ok((wcs, doorbell))
    }
}

/// The size of a completion queue context.
pub const CQ_CONTEXT_SIZE: usize = 64;

/// The fields of a completion queue context that the driver sets; all
/// others are zero.
#[derive(Clone, Copy, Debug, PartialEq, Eq)]
pub struct CqContext {
    pub log_size: u8,
    pub usr_page: u32,
    pub comp_eqn: u8,
    pub log_page_size: u8,
    pub mtt_base_addr: u64,
    pub doorbell_record_addr: u64,
}

impl CqContext {
    /// Whether each field fits the bits that the context gives it.
    pub open spec fn fits(&self) -> bool {
        &&& self.log_size < 32
        &&& self.usr_page < 0x100_0000
        &&& self.log_page_size < 64
        &&& self.mtt_base_addr < 0x100_0000_0000
    }
}

/// The context of a new completion queue of `num_entries` entries whose
/// doorbell is on UAR page `usr_page` (as the card numbers it), that
/// reports to event queue `eq_number` if given, whose buffer is mapped by
/// the MTT entries at `mtt`, and whose doorbell record is at
/// `doorbell_address`.
pub fn plan_cq_context(num_entries: u32, usr_page: u32, eq_number: Option<u32>, mtt: u64, doorbell_address: u64) -> (r: CqContext)
    requires
        num_entries > 0,
        usr_page < 0x100_0000,
        eq_number matches Some(n) ==> n < 0x100,
        mtt < 0x100_0000_0000,
    ensures
        r == (CqContext {
            log_size: floor_log2(num_entries as nat) as u8,
            usr_page,
            comp_eqn: match eq_number {
                Some(n) => n as u8,
                None => 0,
            },
            log_page_size: (PAGE_SHIFT - ICM_PAGE_SHIFT) as u8,
            mtt_base_addr: mtt,
            doorbell_record_addr: doorbell_address,
        }),
        r.fits(),
{
    let comp_eqn: u8 = match eq_number {
        Some(n) => n as u8,
        None => 0,
    };
    CqContext {
        log_size: ilog2_u32(num_entries) as u8,
        usr_page,
        comp_eqn,
        log_page_size: PAGE_SHIFT - ICM_PAGE_SHIFT,
        mtt_base_addr: mtt,
        doorbell_record_addr: doorbell_address,
    }
}

/// The bytes of a completion queue context: the log size with the UAR page
/// in the fourth word, the event queue, the page size, the MTT address and
/// the doorbell record address, each big-endian at its byte offset.
pub open spec fn cq_context_bytes(c: CqContext) -> Seq<u8> {
    let s = zero_bytes(CQ_CONTEXT_SIZE as nat);
    let s = put(s, 12, be_bytes(c.log_size as int, 1));
    let s = put(s, 13, be_bytes(c.usr_page as int, 3));
    let s = put(s, 23, be_bytes(c.comp_eqn as int, 1));
    let s = put(s, 24, be_bytes(c.log_page_size as int, 1));
    let s = put(s, 27, be_bytes(c.mtt_base_addr as int, 5));
    put(s, 56, be_bytes(c.doorbell_record_addr as int, 8))
}

/// The bytes of a completion queue context (see [`cq_context_bytes`]).
pub fn cq_context(c: &CqContext) -> (r: Vec<u8>)
    ensures
        r@ == cq_context_bytes(*c),
{
    let mut s = zeroed(CQ_CONTEXT_SIZE);
    write_be(&mut s, 12, c.log_size as u64, 1);
    write_be(&mut s, 13, c.usr_page as u64, 3);
    write_be(&mut s, 23, c.comp_eqn as u64, 1);
    write_be(&mut s, 24, c.log_page_size as u64, 1);
    write_be(&mut s, 27, c.mtt_base_addr, 5);
    write_be(&mut s, 56, c.doorbell_record_addr, 8);
    s
}


/// A successful send completion reports the operation that the card's send
/// opcode names, for the entry's queue pair: 0x08 and 0x09 an RDMA write
/// (0x09 with immediate data), 0x0a and 0x0b a send (0x0b with immediate
/// data), 0x01 a send with invalidation, 0x10 an RDMA read of the entry's
/// byte count, 0x11 and 0x14 a compare-and-swap and 0x12 and 0x15 a
/// fetch-and-add of 8 bytes, 0x1b a local invalidation; an opcode the card
/// does not define is refused.
pub proof fn lemma_send_completion_opcodes(cqe: CompletionQueueEntry)
    requires
        cqe.is_send,
        cqe.opcode != CQE_OPCODE_ERROR,
    ensures
        completion_of(cqe) matches Ok(wc) ==> wc.status == WcStatus::Success && wc.qp_num == cqe.qp_number,
        cqe.opcode == 0x08 ==> (completion_of(cqe) matches Ok(wc) && wc.opcode == WcOpcode::RdmaWrite && wc.wc_flags == 0),
        cqe.opcode == 0x09 ==> (completion_of(cqe) matches Ok(wc) && wc.opcode == WcOpcode::RdmaWrite && wc.wc_flags == IBV_WC_WITH_IMM),
        cqe.opcode == 0x0a ==> (completion_of(cqe) matches Ok(wc) && wc.opcode == WcOpcode::Send && wc.wc_flags == 0),
        cqe.opcode == 0x0b ==> (completion_of(cqe) matches Ok(wc) && wc.opcode == WcOpcode::Send && wc.wc_flags == IBV_WC_WITH_IMM),
        cqe.opcode == 0x01 ==> (completion_of(cqe) matches Ok(wc) && wc.opcode == WcOpcode::Send),
        cqe.opcode == 0x10 ==> (completion_of(cqe) matches Ok(wc) && wc.opcode == WcOpcode::RdmaRead && wc.byte_len == cqe.byte_cnt),
        cqe.opcode == 0x11 || cqe.opcode == 0x14 ==> (completion_of(cqe) matches Ok(wc) && wc.opcode == WcOpcode::CompSwap && wc.byte_len == 8),
        cqe.opcode == 0x12 || cqe.opcode == 0x15 ==> (completion_of(cqe) matches Ok(wc) && wc.opcode == WcOpcode::FetchAdd && wc.byte_len == 8),
        cqe.opcode == 0x1b ==> (completion_of(cqe) matches Ok(wc) && wc.opcode == WcOpcode::LocalInv),
        (completion_of(cqe) matches Ok(wc) && wc.opcode == WcOpcode::RdmaWrite) ==> cqe.opcode == 0x08 || cqe.opcode == 0x09,
        (completion_of(cqe) matches Ok(wc) && wc.opcode == WcOpcode::RdmaRead) ==> cqe.opcode == 0x10,
        !(cqe.opcode == 0x00 || cqe.opcode == 0x01 || cqe.opcode == 0x08 || cqe.opcode == 0x09 || cqe.opcode == 0x0a
            || cqe.opcode == 0x0b || cqe.opcode == 0x0e || cqe.opcode == 0x10 || cqe.opcode == 0x11 || cqe.opcode == 0x12
            || cqe.opcode == 0x14 || cqe.opcode == 0x15 || cqe.opcode == 0x18 || cqe.opcode == 0x19 || cqe.opcode == 0x1b
            || cqe.opcode == 0x1f) ==> completion_of(cqe) == Err::<WorkCompletion, CompletionError>(CompletionError::InvalidOpcode),
{
}

} // verus!
