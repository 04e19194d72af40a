//! Decisions of the RTL8139 network driver: the receive ring in main memory,
//! the four transmit descriptors and interrupt status handling.
use vstd::prelude::*;

verus! {

/// Bytes of the receive ring: 8 KiB, 16 bytes of slack and room for one
/// more frame when the card wraps.
pub const BUFFER_SIZE: usize = 9708;
/// Length of the ring after which the read position wraps.
pub const RING_LENGTH: usize = 8192;
/// Bytes of the header that the card writes before each packet.
pub const PACKET_HEADER_SIZE: usize = 4;

/// Receive status: packet received without error.
pub const RECEIVE_STATUS_OK: u16 = 0x0001;
/// Transmit status: the descriptor is owned by the driver again.
pub const TRANSMIT_STATUS_OWN: u32 = 0x2000;

/// Interrupt status bits.
pub const INTERRUPT_RECEIVE_OK: u16 = 0x0001;
pub const INTERRUPT_RECEIVE_ERROR: u16 = 0x0002;
pub const INTERRUPT_TRANSMIT_OK: u16 = 0x0004;
pub const INTERRUPT_TRANSMIT_ERROR: u16 = 0x0008;

/// A little-endian 16-bit word of the ring.
pub open spec fn word_at(data: Seq<u8>, i: int) -> int {
    data[i] + data[i + 1] * 256
}

/// Where the read position goes after a packet of `length` bytes at
/// `index`: past header and packet, rounded up to 4 bytes, wrapped at the
/// end of the ring.
pub open spec fn next_read_index(index: int, length: int) -> int {
    let end = index + length + PACKET_HEADER_SIZE;
    let aligned = (end + 3) / 4 * 4;
    if aligned >= RING_LENGTH { aligned % (RING_LENGTH as int) } else { aligned }
}

/// The read position stays inside the ring and on a 4-byte boundary,
/// whatever packet it moves past.
pub proof fn lemma_read_index_in_ring(index: nat, length: nat)
    ensures
        0 <= next_read_index(index as int, length as int) < RING_LENGTH,
        next_read_index(index as int, length as int) % 4 == 0,
{
    let end = index + length + PACKET_HEADER_SIZE;
    let aligned = (end + 3) / 4 * 4;
    assert(aligned % 4 == 0) by (nonlinear_arith)
        requires aligned == (end + 3) / 4 * 4, end >= 0;
    assert(aligned >= 0) by (nonlinear_arith)
        requires aligned == (end + 3) / 4 * 4, end >= 0;
    if aligned >= RING_LENGTH {
        assert((aligned % 8192) % 4 == 0) by (nonlinear_arith)
            requires aligned % 4 == 0, aligned >= 0;
    }
}

/// The receive ring that the card fills and the driver reads.
pub struct ReceiveBuffer {
    pub index: usize,
    pub data: Vec<u8>,
}

impl ReceiveBuffer {
    /// A zeroed ring, read from its start.
    pub fn new() -> (r: Self)
        ensures
            r.index == 0,
            r.data@.len() == BUFFER_SIZE,
            forall|i: int| 0 <= i < BUFFER_SIZE ==> r.data@[i] == 0,
    {
        let mut data: Vec<u8> = Vec::new();
        let mut i: usize = 0;
        while i < BUFFER_SIZE
            invariant
                i <= BUFFER_SIZE,
                data@.len() == i,
                forall|j: int| 0 <= j < i ==> data@[j] == 0,
            decreases BUFFER_SIZE - i,
        {
            data.push(0);
            i = i + 1;
        }
        ReceiveBuffer { index: 0, data }
    }

    /// Whether the packet at the read position may be read: its header is in
    /// the ring, and if it is marked good, so is the packet.
    pub open spec fn packet_in_bounds(&self) -> bool {
        let d = self.data@;
        let i = self.index as int;
        &&& i + PACKET_HEADER_SIZE <= d.len()
        &&& (word_at(d, i) as u16) & RECEIVE_STATUS_OK != 0
            ==> i + PACKET_HEADER_SIZE + word_at(d, i + 2) <= d.len()
    }

    /// Takes the packet at the read position. A packet marked good is copied
    /// out and the read position moves past it (the caller writes the new
    /// position to the card); otherwise nothing changes and `None` is
    /// returned.
    pub fn take_packet(&mut self) -> (r: Option<Vec<u8>>)
        requires
            old(self).packet_in_bounds(),
            old(self).data@.len() <= usize::MAX - 8,
        ensures
            final(self).data@ == old(self).data@,
            ({
                let d = old(self).data@;
                let i = old(self).index as int;
                let length = word_at(d, i + 2);
                if (word_at(d, i) as u16) & RECEIVE_STATUS_OK != 0 {
                    &&& r matches Some(p) && p@ == d.subrange(i + PACKET_HEADER_SIZE, i + PACKET_HEADER_SIZE + length)
                    &&& final(self).index == next_read_index(i, length)
                } else {
                    r is None && final(self).index == old(self).index
                }
            }),
    {
        let i = self.index;
        let status: u16 = self.data[i] as u16 | ((self.data[i + 1] as u16) << 8);
        let length: usize = self.data[i + 2] as usize + (self.data[i + 3] as usize) * 256;
        proof {
            let lo = self.data@[i as int] as u16;
            let hi = self.data@[i + 1] as u16;
            assert(lo | (hi << 8) == lo + hi * 256) by (bit_vector)
                requires lo < 256, hi < 256;
        }
        if status & RECEIVE_STATUS_OK == 0 {
            return None;
        }
        let msg_start = i + PACKET_HEADER_SIZE;
        let msg_end = msg_start + length;
        let mut packet: Vec<u8> = Vec::new();
        let mut k = msg_start;
        while k < msg_end
            invariant
                msg_start <= k <= msg_end,
                msg_end <= self.data@.len(),
                packet@ == self.data@.subrange(msg_start as int, k as int),
            decreases msg_end - k,
        {
            packet.push(self.data[k]);
            k = k + 1;
        }
        let end = msg_end;
        let aligned = (end + 3) / 4 * 4;
        self.index = if aligned >= RING_LENGTH { aligned % RING_LENGTH } else { aligned };
        Some(packet)
    }
}

/// Hands out the four transmit descriptors in turn.
pub struct TransmitRing {
    pub index: u8,
}

impl TransmitRing {
    pub fn new() -> (r: Self)
        ensures
            r.index == 0,
    {
        TransmitRing { index: 0 }
    }

    /// The descriptor to use next; the counter wraps at 256, which keeps the
    /// turn since 256 is a multiple of 4.
    pub fn next_descriptor(&mut self) -> (r: usize)
        ensures
            r == old(self).index % 4,
            final(self).index == (old(self).index + 1) % 256,
    {
        let index = self.index;
        self.index = self.index.wrapping_add(1);
        (index % 4) as usize
    }
}

/// Whether a transmit descriptor with this status can take a new packet.
pub fn descriptor_available(status: u32) -> (r: bool)
    ensures
        r == (status & TRANSMIT_STATUS_OWN != 0),
{
    status & TRANSMIT_STATUS_OWN != 0
}

/// The status and address ports of transmit descriptor `index`.
pub fn descriptor_ports(base_address: u16, index: u8) -> (r: (u16, u16))
    requires
        index < 4,
        base_address + 0x20 + index * 4 <= u16::MAX,
    ensures
        r.0 == base_address + 0x10 + index * 4,
        r.1 == base_address + 0x20 + index * 4,
{
    let offset = index as u16 * 4;
    (base_address + 0x10 + offset, base_address + 0x20 + offset)
}

/// A failure the card reports in its interrupt status.
#[derive(Copy, Clone, Debug, PartialEq, Eq)]
pub enum InterruptFailure {
    TransmitFailed,
    ReceiveFailed,
}

/// What an interrupt asks the driver to do.
#[derive(Copy, Clone, Debug, PartialEq, Eq)]
pub struct InterruptWork {
    /// Sent packets can be freed.
    pub free_sent: bool,
    /// A packet waits in the receive ring.
    pub receive: bool,
}

/// Reads an interrupt status: a transmit error comes first, then a receive
/// error; otherwise the work to do.
pub fn classify_interrupt(status: u16) -> (r: Result<InterruptWork, InterruptFailure>)
    ensures
        status & INTERRUPT_TRANSMIT_ERROR != 0 ==> r == Err::<InterruptWork, InterruptFailure>(InterruptFailure::TransmitFailed),
        status & INTERRUPT_TRANSMIT_ERROR == 0 && status & INTERRUPT_RECEIVE_ERROR != 0
            ==> r == Err::<InterruptWork, InterruptFailure>(InterruptFailure::ReceiveFailed),
        status & INTERRUPT_TRANSMIT_ERROR == 0 && status & INTERRUPT_RECEIVE_ERROR == 0
            ==> r == Ok::<InterruptWork, InterruptFailure>(InterruptWork {
                free_sent: status & INTERRUPT_TRANSMIT_OK != 0,
                receive: status & INTERRUPT_RECEIVE_OK != 0,
            }),
{
    if status & INTERRUPT_TRANSMIT_ERROR != 0 {
        Err(InterruptFailure::TransmitFailed)
    } else if status & INTERRUPT_RECEIVE_ERROR != 0 {
        Err(InterruptFailure::ReceiveFailed)
    } else {
        Ok(InterruptWork {
            free_sent: status & INTERRUPT_TRANSMIT_OK != 0,
            receive: status & INTERRUPT_RECEIVE_OK != 0,
        })
    }
}

} // verus!
