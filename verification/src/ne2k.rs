//! Decisions of the NE2000 network driver: the receive ring, the header the
//! card puts before each packet, transmit lengths and interrupt handling.
use vstd::prelude::*;

verus! {

/// First page of the transmit buffer in the card's memory.
pub const TRANSMIT_START_PAGE: u8 = 0x40;
/// First page of the receive ring.
pub const RECEIVE_START_PAGE: u8 = 0x46;
/// Page after the last page of the receive ring.
pub const RECEIVE_STOP_PAGE: u8 = 0x80;
/// Largest Ethernet frame that is taken from the ring.
pub const MAXIMUM_ETHERNET_PACKET_SIZE: u32 = 1522;
/// Bytes of the header that the card writes before each received packet.
pub const PACKET_HEADER_SIZE: u16 = 4;

/// Command register: transmit packet.
pub const CR_TXP: u8 = 0x04;
/// Interrupt status: packet received.
pub const ISR_PRX: u8 = 0x01;
/// Interrupt status: packet transmitted.
pub const ISR_PTX: u8 = 0x02;
/// Interrupt status: transmit error.
pub const ISR_TXE: u8 = 0x08;
/// Interrupt status: receive ring overwrite warning.
pub const ISR_OVW: u8 = 0x10;
/// Receive status: packet received intact.
pub const RSR_PRX: u8 = 0x01;

/// Bytes of the driver's receive buffer.
pub const BUFFER_SIZE: usize = 9708;
/// Pages of the driver's receive buffer.
pub const BUFFER_PAGES: usize = 3;

/// The header that the card stores in front of a received packet.
#[derive(Copy, Clone, Debug, PartialEq, Eq)]
pub struct PacketHeader {
    pub receive_status: u8,
    pub next_packet: u8,
    /// Length of the packet without this header.
    pub length: u16,
}

/// The length word of a header, little endian.
pub open spec fn header_word(low: u8, high: u8) -> int {
    high * 256 + low
}

impl PacketHeader {
    /// Reads a header from its four bytes: status, next page, and the
    /// length (header included) low byte first.
    pub fn parse(bytes: [u8; 4]) -> (r: Self)
        requires
            header_word(bytes[2], bytes[3]) >= PACKET_HEADER_SIZE,
        ensures
            r.receive_status == bytes[0],
            r.next_packet == bytes[1],
            r.length == header_word(bytes[2], bytes[3]) - PACKET_HEADER_SIZE,
    {
        let low = bytes[2] as u16;
        let high = bytes[3] as u16;
        let word = (high << 8) | low;
        assert(word == high * 256 + low) by (bit_vector)
            requires high < 256, low < 256, word == (high << 8) | low;
        PacketHeader { receive_status: bytes[0], next_packet: bytes[1], length: word - PACKET_HEADER_SIZE }
    }

    /// Whether the packet arrived intact and fits an Ethernet frame; other
    /// packets are skipped.
    pub fn is_acceptable(&self) -> (r: bool)
        ensures
            r == (self.receive_status & RSR_PRX != 0 && self.length <= MAXIMUM_ETHERNET_PACKET_SIZE),
    {
        (self.receive_status & RSR_PRX) != 0 && (self.length as u32) <= MAXIMUM_ETHERNET_PACKET_SIZE
    }
}

/// The boundary page to write after the packet that ends before
/// `next_packet`: the page before it, wrapping to the last page of the ring.
pub open spec fn boundary_after(next_packet: u8) -> u8 {
    if next_packet - 1 < RECEIVE_START_PAGE {
        (RECEIVE_STOP_PAGE - 1) as u8
    } else {
        (next_packet - 1) as u8
    }
}

pub fn next_boundary(next_packet: u8) -> (r: u8)
    requires
        next_packet >= 1,
    ensures
        r == boundary_after(next_packet),
{
    if next_packet - 1 < RECEIVE_START_PAGE {
        RECEIVE_STOP_PAGE - 1
    } else {
        next_packet - 1
    }
}

/// For a packet that ends inside the receive ring, the boundary stays inside
/// the ring too: it is the page before the next packet, or the last page of
/// the ring when the next packet starts the ring.
pub proof fn lemma_boundary_in_ring(next_packet: u8)
    requires
        RECEIVE_START_PAGE <= next_packet < RECEIVE_STOP_PAGE,
    ensures
        RECEIVE_START_PAGE <= boundary_after(next_packet) < RECEIVE_STOP_PAGE,
        next_packet == RECEIVE_START_PAGE ==> boundary_after(next_packet) == RECEIVE_STOP_PAGE - 1,
        next_packet > RECEIVE_START_PAGE ==> boundary_after(next_packet) == next_packet - 1,
{
}

/// What to do with one packet of the receive ring.
#[derive(Copy, Clone, Debug, PartialEq, Eq)]
pub struct ReceiveStep {
    /// Copy `length` bytes of the packet out of the ring.
    pub accept: bool,
    pub length: u16,
    /// The page where the next packet starts.
    pub next_packet: u8,
    /// The new boundary register value.
    pub boundary: u8,
}

/// The step for the packet described by `header`.
pub fn receive_step(header: PacketHeader) -> (r: ReceiveStep)
    requires
        header.next_packet >= 1,
    ensures
        r.accept == (header.receive_status & RSR_PRX != 0 && header.length <= MAXIMUM_ETHERNET_PACKET_SIZE),
        r.length == header.length,
        r.next_packet == header.next_packet,
        r.boundary == boundary_after(header.next_packet),
{
    ReceiveStep {
        accept: header.is_acceptable(),
        length: header.length,
        next_packet: header.next_packet,
        boundary: next_boundary(header.next_packet),
    }
}

/// The byte count registers for a packet of `len` bytes: low byte, high byte.
pub fn length_bytes(len: u16) -> (r: (u8, u8))
    ensures
        r.0 == len % 256,
        r.1 == len / 256,
        r.1 * 256 + r.0 == len,
{
    let low = (len & 0xff) as u8;
    let high = (len >> 8) as u8;
    assert(len & 0xff == len % 256 && len >> 8 == len / 256) by (bit_vector);
    (low, high)
}

/// Which of the card's interrupt causes are set in a status byte.
#[derive(Copy, Clone, Debug, PartialEq, Eq)]
pub struct Interrupts {
    /// The receive ring ran over.
    pub ovw: bool,
    /// A packet arrived.
    pub rcv: bool,
    /// A packet was sent, so its buffer can be freed.
    pub ptx: bool,
}

impl Interrupts {
    pub fn from_status(isr: u8) -> (r: Self)
        ensures
            r.rcv == (isr & ISR_PRX != 0),
            r.ptx == (isr & ISR_PTX != 0),
            r.ovw == (isr & ISR_OVW != 0),
    {
        Interrupts { ovw: isr & ISR_OVW != 0, rcv: isr & ISR_PRX != 0, ptx: isr & ISR_PTX != 0 }
    }
}

/// After a ring overflow: the transmission that was under way when the card
/// was stopped must be sent again unless it already completed or failed.
pub fn overflow_resend(saved_command: u8, isr: u8) -> (r: bool)
    ensures
        r == (saved_command & CR_TXP != 0 && isr & (ISR_PTX | ISR_TXE) == 0),
{
    (saved_command & CR_TXP) != 0 && (isr & (ISR_PTX | ISR_TXE)) == 0
}

} // verus!
