//! The host command register protocol: how a command is posted, when it is
//! still pending, and what its status means.
use vstd::prelude::*;

verus! {

/// The byte offset of the host command register in the configuration BAR.
pub const HCR_BASE: usize = 0x80680;
pub const HCR_OPMOD_SHIFT: u32 = 12;
pub const HCR_T_BIT: u32 = 21;
pub const HCR_E_BIT: u32 = 22;
pub const HCR_GO_BIT: u32 = 23;
/// The token of polled (not event-driven) commands.
pub const POLL_TOKEN: u32 = 0xffff;

/// The status a command returns.
#[derive(Clone, Copy, Debug, PartialEq, Eq)]
pub enum ReturnStatus {
    Success,
    InternalErr,
    BadOp,
    BadParam,
    BadSysState,
    BadResource,
    ResourceBusy,
    ExceedLim,
    BadResState,
    BadIndex,
    BadNvmem,
    IcmError,
    BadPerm,
    BadQpState,
    RegBound,
    BadPkt,
    BadSize,
}

pub open spec fn status_of_code(code: u32) -> Option<ReturnStatus> {
    if code == 0x00 { Some(ReturnStatus::Success) }
    else if code == 0x01 { Some(ReturnStatus::InternalErr) }
    else if code == 0x02 { Some(ReturnStatus::BadOp) }
    else if code == 0x03 { Some(ReturnStatus::BadParam) }
    else if code == 0x04 { Some(ReturnStatus::BadSysState) }
    else if code == 0x05 { Some(ReturnStatus::BadResource) }
    else if code == 0x06 { Some(ReturnStatus::ResourceBusy) }
    else if code == 0x08 { Some(ReturnStatus::ExceedLim) }
    else if code == 0x09 { Some(ReturnStatus::BadResState) }
    else if code == 0x0a { Some(ReturnStatus::BadIndex) }
    else if code == 0x0b { Some(ReturnStatus::BadNvmem) }
    else if code == 0x0c { Some(ReturnStatus::IcmError) }
    else if code == 0x0d { Some(ReturnStatus::BadPerm) }
    else if code == 0x10 { Some(ReturnStatus::BadQpState) }
    else if code == 0x21 { Some(ReturnStatus::RegBound) }
    else if code == 0x30 { Some(ReturnStatus::BadPkt) }
    else if code == 0x40 { Some(ReturnStatus::BadSize) }
    else { None }
}

impl ReturnStatus {
    /// The status in the top byte of the status/opcode word, or `None` for
    /// an unknown status.
    pub fn from_status_word(word: u32) -> (r: Option<ReturnStatus>)
        ensures
            r == status_of_code(word / 0x100_0000),
    {
        let code = word >> 24u32;
        assert(word >> 24u32 == word / 0x100_0000) by (bit_vector);
        match code {
            0x00 => Some(ReturnStatus::Success),
            0x01 => Some(ReturnStatus::InternalErr),
            0x02 => Some(ReturnStatus::BadOp),
            0x03 => Some(ReturnStatus::BadParam),
            0x04 => Some(ReturnStatus::BadSysState),
            0x05 => Some(ReturnStatus::BadResource),
            0x06 => Some(ReturnStatus::ResourceBusy),
            0x08 => Some(ReturnStatus::ExceedLim),
            0x09 => Some(ReturnStatus::BadResState),
            0x0a => Some(ReturnStatus::BadIndex),
            0x0b => Some(ReturnStatus::BadNvmem),
            0x0c => Some(ReturnStatus::IcmError),
            0x0d => Some(ReturnStatus::BadPerm),
            0x10 => Some(ReturnStatus::BadQpState),
            0x21 => Some(ReturnStatus::RegBound),
            0x30 => Some(ReturnStatus::BadPkt),
            0x40 => Some(ReturnStatus::BadSize),
            _ => None,
        }
    }
}

/// The word that posts a command: the go bit, the toggle the driver
/// expects, the opcode modifier and the opcode (events are not used).
pub open spec fn post_word(toggle: u32, opmod: u8, opcode: u16) -> u32 {
    (0x80_0000u32 | (toggle * 0x20_0000) as u32 | (opmod as u32 * 0x1000) as u32 | opcode as u32) as u32
}

/// The token register value of a polled command.
pub fn poll_token_word() -> (r: u32)
    ensures
        r == 0xffff_0000,
{
    assert(POLL_TOKEN << 16u32 == 0xffff_0000u32) by (bit_vector);
    POLL_TOKEN << 16u32
}

/// The driver's side of the host command register.
#[derive(Clone, Copy, Debug, PartialEq, Eq)]
pub struct CommandInterface {
    /// The toggle bit value that the next command is posted with.
    pub exp_toggle: u32,
}

impl CommandInterface {
    pub open spec fn wf(&self) -> bool {
        self.exp_toggle <= 1
    }

    pub fn new() -> (r: Self)
        ensures
            r.wf(),
            r.exp_toggle == 1,
    {
        CommandInterface { exp_toggle: 1 }
    }

    /// The status/opcode word that posts `opcode`; the expected toggle flips
    /// for the next command.
    pub fn post(&mut self, opcode: u16, opmod: u8) -> (word: u32)
        requires
            old(self).wf(),
        ensures
            final(self).wf(),
            word == post_word(old(self).exp_toggle, opmod, opcode),
            final(self).exp_toggle == 1 - old(self).exp_toggle,
    {
        let t = self.exp_toggle;
        let word = (1u32 << HCR_GO_BIT) | (t << HCR_T_BIT) | (0u32 << HCR_E_BIT) | ((opmod as u32) << HCR_OPMOD_SHIFT) | opcode as u32;
        let m = opmod as u32;
        let o = opcode as u32;
        assert((1u32 << 23u32) | (t << 21u32) | (0u32 << 22u32) | (m << 12u32) | o
            == (0x80_0000u32 | (t * 0x20_0000) as u32 | (m * 0x1000) as u32 | o)) by (bit_vector)
            requires t <= 1, m < 256, o < 0x1_0000;
        self.exp_toggle = t ^ 1;
        assert(t ^ 1 == 1 - t) by (bit_vector)
            requires t <= 1;
        word
    }

    /// Whether the command register still holds a command: the go bit is set,
    /// or the toggle bit (as masked in the word) equals the expected toggle.
    pub fn is_pending(&self, status: u32) -> (r: bool)
        ensures
            r == (status & 0x80_0000 != 0 || (status & 0x20_0000) == self.exp_toggle),
    {
        assert(1u32 << 23u32 == 0x80_0000u32 && 1u32 << 21u32 == 0x20_0000u32) by (bit_vector);
        status & (1u32 << HCR_GO_BIT) != 0 || (status & (1u32 << HCR_T_BIT)) == self.exp_toggle
    }
}

} // verus!
