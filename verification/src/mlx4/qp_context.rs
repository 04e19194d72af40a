//! The queue pair context that a state transition hands to the card, and
//! the mailbox that carries it with the optional parameter mask.
use vstd::prelude::*;
use crate::mlx4::mailbox::{be_bytes, put, write_be, zero_bytes, zeroed};

verus! {

/// The size of a queue pair context.
pub const QP_CONTEXT_SIZE: usize = 248;
/// The size of the mailbox of a state transition command.
pub const TRANSITION_MAILBOX_SIZE: usize = 508;
/// Where the context starts in that mailbox.
pub const TRANSITION_CONTEXT_OFFSET: usize = 8;

/// The fields of a queue pair context that the driver sets; all others are
/// zero. Each field is the number that the context holds in its bits.
#[derive(Clone, Copy, Debug, PartialEq, Eq)]
pub struct QpContext {
    pub service_type: u8,
    pub path_migration_state: u8,
    pub mtu: u8,
    pub msg_max: u8,
    pub log_rq_size: u8,
    pub log_rq_stride: u8,
    pub sq_no_prefetch: bool,
    pub log_sq_size: u8,
    pub log_sq_stride: u8,
    pub reserved_lkey: bool,
    pub usr_page: u32,
    pub remote_qpn: u32,
    pub primary_pkey_index: u8,
    pub primary_grh: bool,
    pub primary_mlid: u8,
    pub primary_rlid: u16,
    pub primary_ack_timeout: u8,
    pub primary_sched_queue: u8,
    pub alternate_pkey_index: u8,
    pub alternate_rlid: u16,
    pub rnr_retry: u8,
    pub cqn_send: u32,
    pub remote_read: bool,
    pub remote_write: bool,
    pub remote_atomic: bool,
    pub min_rnr_nak: u8,
    pub cqn_receive: u32,
    pub db_record_addr: u64,
    pub qkey: u32,
    pub log_page_size: u8,
    pub mtt_base_addr: u64,
}

/// The context with every field zero.
pub open spec fn empty_context() -> QpContext {
    QpContext {
        service_type: 0,
        path_migration_state: 0,
        mtu: 0,
        msg_max: 0,
        log_rq_size: 0,
        log_rq_stride: 0,
        sq_no_prefetch: false,
        log_sq_size: 0,
        log_sq_stride: 0,
        reserved_lkey: false,
        usr_page: 0,
        remote_qpn: 0,
        primary_pkey_index: 0,
        primary_grh: false,
        primary_mlid: 0,
        primary_rlid: 0,
        primary_ack_timeout: 0,
        primary_sched_queue: 0,
        alternate_pkey_index: 0,
        alternate_rlid: 0,
        rnr_retry: 0,
        cqn_send: 0,
        remote_read: false,
        remote_write: false,
        remote_atomic: false,
        min_rnr_nak: 0,
        cqn_receive: 0,
        db_record_addr: 0,
        qkey: 0,
        log_page_size: 0,
        mtt_base_addr: 0,
    }
}

impl QpContext {
    pub fn new() -> (r: Self)
        ensures
            r == empty_context(),
    {
        QpContext {
            service_type: 0,
            path_migration_state: 0,
            mtu: 0,
            msg_max: 0,
            log_rq_size: 0,
            log_rq_stride: 0,
            sq_no_prefetch: false,
            log_sq_size: 0,
            log_sq_stride: 0,
            reserved_lkey: false,
            usr_page: 0,
            remote_qpn: 0,
            primary_pkey_index: 0,
            primary_grh: false,
            primary_mlid: 0,
            primary_rlid: 0,
            primary_ack_timeout: 0,
            primary_sched_queue: 0,
            alternate_pkey_index: 0,
            alternate_rlid: 0,
            rnr_retry: 0,
            cqn_send: 0,
            remote_read: false,
            remote_write: false,
            remote_atomic: false,
            min_rnr_nak: 0,
            cqn_receive: 0,
            db_record_addr: 0,
            qkey: 0,
            log_page_size: 0,
            mtt_base_addr: 0,
        }
    }

    /// Whether each field fits the bits that the context gives it.
    pub open spec fn fits(&self) -> bool {
        &&& self.path_migration_state < 4
        &&& self.mtu < 8
        &&& self.msg_max < 32
        &&& self.log_rq_size < 16
        &&& self.log_rq_stride < 8
        &&& self.log_sq_size < 16
        &&& self.log_sq_stride < 8
        &&& self.usr_page < 0x100_0000
        &&& self.remote_qpn < 0x100_0000
        &&& self.primary_pkey_index < 128
        &&& self.primary_mlid < 128
        &&& self.primary_ack_timeout < 32
        &&& self.alternate_pkey_index < 128
        &&& self.rnr_retry < 8
        &&& self.cqn_send < 0x100_0000
        &&& self.min_rnr_nak < 32
        &&& self.cqn_receive < 0x100_0000
        &&& self.log_page_size < 64
        &&& self.mtt_base_addr < 0x100_0000_0000
    }
}

pub open spec fn bit(b: bool) -> int {
    if b {
        1
    } else {
        0
    }
}

/// The bytes of the context: each field at its byte offset, big-endian;
/// fields that share a byte are packed from its most significant bit.
pub open spec fn qp_context_bytes(c: QpContext) -> Seq<u8> {
    let s = zero_bytes(QP_CONTEXT_SIZE as nat);
    // service type and path migration state
    let s = put(s, 1, be_bytes(c.service_type as int, 1));
    let s = put(s, 2, be_bytes(c.path_migration_state * 8, 1));
    // MTU and maximal message size, queue sizes and strides
    let s = put(s, 8, be_bytes(c.mtu * 32 + c.msg_max, 1));
    let s = put(s, 9, be_bytes(c.log_rq_size * 8 + c.log_rq_stride, 1));
    let s = put(s, 10, be_bytes(bit(c.sq_no_prefetch) * 128 + c.log_sq_size * 8 + c.log_sq_stride, 1));
    let s = put(s, 11, be_bytes(bit(c.reserved_lkey) * 16, 1));
    let s = put(s, 13, be_bytes(c.usr_page as int, 3));
    let s = put(s, 21, be_bytes(c.remote_qpn as int, 3));
    // primary path
    let s = put(s, 27, be_bytes(c.primary_pkey_index as int, 1));
    let s = put(s, 29, be_bytes(bit(c.primary_grh) * 128 + c.primary_mlid, 1));
    let s = put(s, 30, be_bytes(c.primary_rlid as int, 2));
    let s = put(s, 32, be_bytes(c.primary_ack_timeout * 8, 1));
    let s = put(s, 56, be_bytes(c.primary_sched_queue as int, 1));
    // alternate path
    let s = put(s, 71, be_bytes(c.alternate_pkey_index as int, 1));
    let s = put(s, 74, be_bytes(c.alternate_rlid as int, 2));
    // retries, completion queues, remote access, RNR NAK timer
    let s = put(s, 114, be_bytes(c.rnr_retry * 32, 1));
    let s = put(s, 125, be_bytes(c.cqn_send as int, 3));
    let s = put(
        s,
        146,
        be_bytes(bit(c.remote_read) * 128 + bit(c.remote_write) * 64 + bit(c.remote_atomic) * 32, 1),
    );
    let s = put(s, 148, be_bytes(c.min_rnr_nak as int, 1));
    let s = put(s, 157, be_bytes(c.cqn_receive as int, 3));
    // doorbell record, queue key, memory translation
    let s = put(s, 160, be_bytes(c.db_record_addr as int, 8));
    let s = put(s, 168, be_bytes(c.qkey as int, 4));
    let s = put(s, 200, be_bytes(c.log_page_size as int, 1));
    put(s, 203, be_bytes(c.mtt_base_addr as int, 5))
}

/// The mailbox of a state transition: the optional parameter mask,
/// big-endian, and the context from byte 8.
pub open spec fn transition_mailbox_bytes(param_mask: u32, c: QpContext) -> Seq<u8> {
    let s = put(zero_bytes(TRANSITION_MAILBOX_SIZE as nat), 0, be_bytes(param_mask as int, 4));
    put(s, TRANSITION_CONTEXT_OFFSET as int, qp_context_bytes(c))
}

fn bit_of(b: bool) -> (r: u64)
    ensures
        r == bit(b),
{
    if b {
        1
    } else {
        0
    }
}

/// The bytes of a queue pair context (see [`qp_context_bytes`]).
pub fn context_bytes(c: &QpContext) -> (r: Vec<u8>)
    ensures
        r@ == qp_context_bytes(*c),
        r@.len() == QP_CONTEXT_SIZE,
{
    let mut s = zeroed(QP_CONTEXT_SIZE);
    write_be(&mut s, 1, c.service_type as u64, 1);
    write_be(&mut s, 2, c.path_migration_state as u64 * 8, 1);
    write_be(&mut s, 8, c.mtu as u64 * 32 + c.msg_max as u64, 1);
    write_be(&mut s, 9, c.log_rq_size as u64 * 8 + c.log_rq_stride as u64, 1);
    write_be(
        &mut s,
        10,
        bit_of(c.sq_no_prefetch) * 128 + c.log_sq_size as u64 * 8 + c.log_sq_stride as u64,
        1,
    );
    write_be(&mut s, 11, bit_of(c.reserved_lkey) * 16, 1);
    write_be(&mut s, 13, c.usr_page as u64, 3);
    write_be(&mut s, 21, c.remote_qpn as u64, 3);
    write_be(&mut s, 27, c.primary_pkey_index as u64, 1);
    write_be(&mut s, 29, bit_of(c.primary_grh) * 128 + c.primary_mlid as u64, 1);
    write_be(&mut s, 30, c.primary_rlid as u64, 2);
    write_be(&mut s, 32, c.primary_ack_timeout as u64 * 8, 1);
    write_be(&mut s, 56, c.primary_sched_queue as u64, 1);
    write_be(&mut s, 71, c.alternate_pkey_index as u64, 1);
    write_be(&mut s, 74, c.alternate_rlid as u64, 2);
    write_be(&mut s, 114, c.rnr_retry as u64 * 32, 1);
    write_be(&mut s, 125, c.cqn_send as u64, 3);
    write_be(
        &mut s,
        146,
        bit_of(c.remote_read) * 128 + bit_of(c.remote_write) * 64 + bit_of(c.remote_atomic) * 32,
        1,
    );
    write_be(&mut s, 148, c.min_rnr_nak as u64, 1);
    write_be(&mut s, 157, c.cqn_receive as u64, 3);
    write_be(&mut s, 160, c.db_record_addr, 8);
    write_be(&mut s, 168, c.qkey as u64, 4);
    write_be(&mut s, 200, c.log_page_size as u64, 1);
    write_be(&mut s, 203, c.mtt_base_addr, 5);
    s
}

/// Copies `src` into `buf` from byte `at`.
fn copy_into(buf: &mut Vec<u8>, at: usize, src: &Vec<u8>)
    requires
        at + src@.len() <= old(buf)@.len(),
    ensures
        final(buf)@ == put(old(buf)@, at as int, src@),
{
    let ghost o = buf@;
    let mut i: usize = 0;
    while i < src.len()
        invariant
            i <= src@.len(),
            at + src@.len() <= o.len(),
            buf@.len() == o.len(),
            forall|j: int| 0 <= j < at ==> buf@[j] == o[j],
            forall|j: int| at <= j < at + i ==> buf@[j] == src@[j - at],
            forall|j: int| at + i <= j < o.len() ==> buf@[j] == o[j],
        decreases src@.len() - i,
    {
        let len = buf.len();
        assert(at + i < len);
        buf.set(at + i, src[i]);
        i = i + 1;
    }
    assert(buf@ =~= put(o, at as int, src@));
}

/// The mailbox of a state transition (see [`transition_mailbox_bytes`]).
pub fn transition_mailbox(param_mask: u32, c: &QpContext) -> (r: Vec<u8>)
    ensures
        r@ == transition_mailbox_bytes(param_mask, *c),
{
    let mut r = zeroed(TRANSITION_MAILBOX_SIZE);
    write_be(&mut r, 0, param_mask as u64, 4);
    let ctx = context_bytes(c);
    copy_into(&mut r, TRANSITION_CONTEXT_OFFSET, &ctx);
    r
}

} // verus!
