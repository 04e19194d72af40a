//! Decisions of the PS/2 driver: assembling mouse packets from the bytes the
//! mouse sends, buffering them, and picking the mouse type.
use vstd::prelude::*;

verus! {

/// The kind of mouse, which fixes the length of its packets.
#[derive(Copy, Clone, Debug, PartialEq, Eq)]
pub enum MouseType {
    /// Three-byte packets.
    Standard,
    /// Four-byte packets; the fourth carries the scroll wheel.
    IntelliMouse,
    /// Four-byte packets; the fourth carries the scroll wheel and buttons 4 and 5.
    IntelliMouseExplorer,
}

pub open spec fn four_byte_packets(t: MouseType) -> bool {
    t == MouseType::IntelliMouse || t == MouseType::IntelliMouseExplorer
}

/// The mouse type to use: the one found after enabling the scroll wheel,
/// unless enabling the extra buttons worked and reports an IntelliMouse
/// Explorer.
pub fn choose_mouse_type(after_scroll_wheel: MouseType, after_extra_buttons: Option<MouseType>) -> (r: MouseType)
    ensures
        r == (if after_extra_buttons == Some(MouseType::IntelliMouseExplorer) { MouseType::IntelliMouseExplorer } else { after_scroll_wheel }),
{
    match after_extra_buttons {
        Some(MouseType::IntelliMouseExplorer) => MouseType::IntelliMouseExplorer,
        _ => after_scroll_wheel,
    }
}

/// The bytes of the packet received so far.
#[derive(Copy, Clone, Debug, PartialEq, Eq)]
pub struct MouseState {
    /// Which byte of the packet comes next.
    pub cycle: i8,
    pub packet: u32,
}

/// One step of packet assembly: the state after byte `data`, and the packet
/// it completed, if any.
pub open spec fn mouse_step(s: MouseState, data: u8, t: MouseType) -> (MouseState, Option<u32>) {
    if s.cycle == 0 {
        if data & 0x08 == 0 {
            // the first byte always has bit 3 set: skip the byte
            (s, None)
        } else {
            (MouseState { cycle: 1, packet: data as u32 }, None)
        }
    } else if s.cycle == 1 {
        (MouseState { cycle: 2, packet: s.packet | ((data as u32) << 8u32) }, None)
    } else if s.cycle == 2 {
        let p = s.packet | ((data as u32) << 16u32);
        if four_byte_packets(t) {
            (MouseState { cycle: 3, packet: p }, None)
        } else {
            (MouseState { cycle: 0, packet: p }, Some(p))
        }
    } else if s.cycle == 3 {
        let p = s.packet | ((data as u32) << 24u32);
        // the IntelliMouse's upper nibble is a sign extension, not buttons
        let p = if t == MouseType::IntelliMouse { p & 0x0fff_ffff } else { p };
        (MouseState { cycle: 0, packet: p }, Some(p))
    } else {
        (MouseState { cycle: 0, packet: s.packet }, None)
    }
}

impl MouseState {
    pub fn new() -> (r: Self)
        ensures
            r == (MouseState { cycle: 0, packet: 0 }),
    {
        MouseState { cycle: 0, packet: 0 }
    }

    /// Takes the next byte from the mouse; returns a packet once all of its
    /// bytes have arrived.
    pub fn feed(&mut self, data: u8, mouse_type: MouseType) -> (r: Option<u32>)
        ensures
            (*final(self), r) == mouse_step(*old(self), data, mouse_type),
    {
        if self.cycle == 0 {
            if data & 0x08 == 0 {
                return None;
            }
            self.packet = data as u32;
            self.cycle = 1;
            None
        } else if self.cycle == 1 {
            self.packet = self.packet | ((data as u32) << 8u32);
            self.cycle = 2;
            None
        } else if self.cycle == 2 {
            self.packet = self.packet | ((data as u32) << 16u32);
            match mouse_type {
                MouseType::IntelliMouse | MouseType::IntelliMouseExplorer => {
                    self.cycle = 3;
                    None
                },
                MouseType::Standard => {
                    self.cycle = 0;
                    Some(self.packet)
                },
            }
        } else if self.cycle == 3 {
            self.packet = self.packet | ((data as u32) << 24u32);
            match mouse_type {
                MouseType::IntelliMouse => {
                    self.packet = self.packet & 0x0fff_ffff;
                },
                _ => {},
            }
            self.cycle = 0;
            Some(self.packet)
        } else {
            self.cycle = 0;
            None
        }
    }
}

/// From the start of a packet, the bytes of one packet give it back whole:
/// three bytes for a standard mouse, low byte first.
pub proof fn lemma_standard_packet(b0: u8, b1: u8, b2: u8, packet: u32)
    requires
        b0 & 0x08 != 0,
    ensures
        ({
            let s0 = MouseState { cycle: 0, packet };
            let (s1, r1) = mouse_step(s0, b0, MouseType::Standard);
            let (s2, r2) = mouse_step(s1, b1, MouseType::Standard);
            let (s3, r3) = mouse_step(s2, b2, MouseType::Standard);
            &&& r1 is None && r2 is None
            &&& r3 == Some((b0 as u32 + b1 as u32 * 0x100 + b2 as u32 * 0x1_0000) as u32)
            &&& s3.cycle == 0
        }),
{
    let x0 = b0 as u32;
    let x1 = b1 as u32;
    let x2 = b2 as u32;
    assert(x0 | (x1 << 8u32) | (x2 << 16u32) == (x0 + x1 * 0x100 + x2 * 0x1_0000) as u32) by (bit_vector)
        requires x0 < 256, x1 < 256, x2 < 256;
}

/// The same for the four bytes of an IntelliMouse Explorer packet.
pub proof fn lemma_explorer_packet(b0: u8, b1: u8, b2: u8, b3: u8, packet: u32)
    requires
        b0 & 0x08 != 0,
    ensures
        ({
            let t = MouseType::IntelliMouseExplorer;
            let s0 = MouseState { cycle: 0, packet };
            let (s1, r1) = mouse_step(s0, b0, t);
            let (s2, r2) = mouse_step(s1, b1, t);
            let (s3, r3) = mouse_step(s2, b2, t);
            let (s4, r4) = mouse_step(s3, b3, t);
            &&& r1 is None && r2 is None && r3 is None
            &&& r4 == Some((b0 as u32 + b1 as u32 * 0x100 + b2 as u32 * 0x1_0000 + b3 as u32 * 0x100_0000) as u32)
            &&& s4.cycle == 0
        }),
{
    let x0 = b0 as u32;
    let x1 = b1 as u32;
    let x2 = b2 as u32;
    let x3 = b3 as u32;
    assert(x0 | (x1 << 8u32) | (x2 << 16u32) | (x3 << 24u32)
        == (x0 + x1 * 0x100 + x2 * 0x1_0000 + x3 * 0x100_0000) as u32) by (bit_vector)
        requires x0 < 256, x1 < 256, x2 < 256, x3 < 256;
}


/// The packets that the mouse has sent and nobody has read yet, oldest
/// first. When the buffer is full, a new packet pushes out the oldest.
pub struct MousePacketBuffer {
    packets: Vec<u32>,
    capacity: usize,
}

impl MousePacketBuffer {
    /// The packets in the buffer, oldest first.
    pub closed spec fn view(&self) -> Seq<u32> {
        self.packets@
    }

    pub closed spec fn spec_capacity(&self) -> nat {
        self.capacity as nat
    }

    /// The buffer never holds more than its capacity, which is not zero.
    pub closed spec fn wf(&self) -> bool {
        &&& 0 < self.capacity
        &&& self.packets@.len() <= self.capacity
    }

    /// An empty buffer for `capacity` packets.
    pub fn new(capacity: usize) -> (r: Self)
        requires
            capacity > 0,
        ensures
            r.wf(),
            r.view() == Seq::<u32>::empty(),
            r.spec_capacity() == capacity,
    {
        MousePacketBuffer { packets: Vec::new(), capacity }
    }

    /// Stores `packet` as the newest one, first dropping the oldest packet
    /// when the buffer is full.
    pub fn push(&mut self, packet: u32)
        requires
            old(self).wf(),
        ensures
            final(self).wf(),
            final(self).spec_capacity() == old(self).spec_capacity(),
            final(self).view() == (if old(self).view().len() == old(self).spec_capacity() {
                old(self).view().drop_first().push(packet)
            } else {
                old(self).view().push(packet)
            }),
    {
        if self.packets.len() >= self.capacity {
            self.packets.remove(0);
        }
        self.packets.push(packet);
        proof {
            assert(old(self).packets@.remove(0) =~= old(self).packets@.drop_first());
        }
    }

    /// Takes the oldest packet, if there is one.
    pub fn pop(&mut self) -> (r: Option<u32>)
        requires
            old(self).wf(),
        ensures
            final(self).wf(),
            final(self).spec_capacity() == old(self).spec_capacity(),
            old(self).view().len() == 0 ==> r is None && final(self).view() == old(self).view(),
            old(self).view().len() > 0 ==> r == Some(old(self).view()[0]) && final(self).view() == old(self).view().drop_first(),
    {
        if self.packets.len() == 0 {
            None
        } else {
            let p = self.packets.remove(0);
            proof {
                assert(old(self).packets@.remove(0) =~= old(self).packets@.drop_first());
            }
            Some(p)
        }
    }

    /// The number of packets in the buffer.
    pub fn len(&self) -> (r: usize)
        ensures
            r == self.view().len(),
    {
        self.packets.len()
    }
}

} // verus!
