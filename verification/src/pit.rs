//! The programmable interval timer: command encoding, rate programming and
//! elapsed-time accounting.
use vstd::prelude::*;

verus! {

/// The base frequency of the PIT in Hz.
pub const BASE_FREQUENCY: usize = 1193182;

/// The length of one PIT tick in nanoseconds (rounded down).
pub const NANOSECONDS_PER_TICK: usize = 838;

#[derive(Copy, Clone, Debug, PartialEq, Eq)]
pub enum BcdBinaryMode {
    Binary,
    Bcd,
}

#[derive(Copy, Clone, Debug, PartialEq, Eq)]
pub enum OperatingMode {
    InterruptOnTerminalCount,
    OneShot,
    RateGenerator,
    SquareWaveGenerator,
    SoftwareTriggeredStrobe,
    HardwareTriggeredStrobe,
}

#[derive(Copy, Clone, Debug, PartialEq, Eq)]
pub enum AccessMode {
    LatchCount,
    LowByteOnly,
    HighByteOnly,
    LowByteHighByte,
}

#[derive(Copy, Clone, Debug, PartialEq, Eq)]
pub enum Channel {
    Channel0,
    Channel1,
    Channel2,
    ReadBack,
}

pub open spec fn bcd_code(m: BcdBinaryMode) -> u8 {
    match m {
        BcdBinaryMode::Binary => 0u8,
        BcdBinaryMode::Bcd => 1u8,
    }
}

pub open spec fn operating_code(m: OperatingMode) -> u8 {
    match m {
        OperatingMode::InterruptOnTerminalCount => 0u8,
        OperatingMode::OneShot => 1u8,
        OperatingMode::RateGenerator => 2u8,
        OperatingMode::SquareWaveGenerator => 3u8,
        OperatingMode::SoftwareTriggeredStrobe => 4u8,
        OperatingMode::HardwareTriggeredStrobe => 5u8,
    }
}

pub open spec fn access_code(m: AccessMode) -> u8 {
    match m {
        AccessMode::LatchCount => 0u8,
        AccessMode::LowByteOnly => 1u8,
        AccessMode::HighByteOnly => 2u8,
        AccessMode::LowByteHighByte => 3u8,
    }
}

pub open spec fn channel_code(c: Channel) -> u8 {
    match c {
        Channel::Channel0 => 0u8,
        Channel::Channel1 => 1u8,
        Channel::Channel2 => 2u8,
        Channel::ReadBack => 3u8,
    }
}

impl BcdBinaryMode {
    pub fn code(&self) -> (r: u8)
        ensures
            r == bcd_code(*self),
    {
        match self {
            BcdBinaryMode::Binary => 0,
            BcdBinaryMode::Bcd => 1,
        }
    }
}

impl OperatingMode {
    pub fn code(&self) -> (r: u8)
        ensures
            r == operating_code(*self),
    {
        match self {
            OperatingMode::InterruptOnTerminalCount => 0,
            OperatingMode::OneShot => 1,
            OperatingMode::RateGenerator => 2,
            OperatingMode::SquareWaveGenerator => 3,
            OperatingMode::SoftwareTriggeredStrobe => 4,
            OperatingMode::HardwareTriggeredStrobe => 5,
        }
    }
}

impl AccessMode {
    pub fn code(&self) -> (r: u8)
        ensures
            r == access_code(*self),
    {
        match self {
            AccessMode::LatchCount => 0,
            AccessMode::LowByteOnly => 1,
            AccessMode::HighByteOnly => 2,
            AccessMode::LowByteHighByte => 3,
        }
    }
}

impl Channel {
    pub fn code(&self) -> (r: u8)
        ensures
            r == channel_code(*self),
    {
        match self {
            Channel::Channel0 => 0,
            Channel::Channel1 => 1,
            Channel::Channel2 => 2,
            Channel::ReadBack => 3,
        }
    }
}

/// A PIT command byte, by fields.
#[derive(Copy, Clone, Debug, PartialEq, Eq)]
pub struct Command {
    pub bcd_binary_mode: BcdBinaryMode,
    pub operating_mode: OperatingMode,
    pub access_mode: AccessMode,
    pub channel: Channel,
}

/// The command byte: BCD flag in bit 0, operating mode in bits 1-3, access
/// mode in bits 4-5, channel in bits 6-7.
pub open spec fn command_byte(c: Command) -> u8 {
    (bcd_code(c.bcd_binary_mode) | operating_code(c.operating_mode) << 1u8 | access_code(
        c.access_mode,
    ) << 4u8 | channel_code(c.channel) << 6u8) as u8
}

impl Command {
    /// A binary-mode command for channel 0.
    pub fn new(operating_mode: OperatingMode, access_mode: AccessMode) -> (r: Self)
        ensures
            r == (Command {
                bcd_binary_mode: BcdBinaryMode::Binary,
                operating_mode,
                access_mode,
                channel: Channel::Channel0,
            }),
    {
        Self { bcd_binary_mode: BcdBinaryMode::Binary, operating_mode, access_mode, channel: Channel::Channel0 }
    }

    pub fn as_u8(&self) -> (r: u8)
        ensures
            r == command_byte(*self),
    {
        self.bcd_binary_mode.code() | self.operating_mode.code() << 1u8 | self.access_mode.code()
            << 4u8 | self.channel.code() << 6u8
    }
}

/// The fields of a command byte can be read back from it.
pub proof fn lemma_command_byte_fields(c: Command)
    ensures
        command_byte(c) & 1u8 == bcd_code(c.bcd_binary_mode),
        (command_byte(c) >> 1u8) & 7u8 == operating_code(c.operating_mode),
        (command_byte(c) >> 4u8) & 3u8 == access_code(c.access_mode),
        command_byte(c) >> 6u8 == channel_code(c.channel),
{
    let b = bcd_code(c.bcd_binary_mode);
    let o = operating_code(c.operating_mode);
    let a = access_code(c.access_mode);
    let ch = channel_code(c.channel);
    assert(b <= 1 && o <= 5 && a <= 3 && ch <= 3);
    assert({
        let x = (b | o << 1u8 | a << 4u8 | ch << 6u8) as u8;
        &&& x & 1u8 == b
        &&& (x >> 1u8) & 7u8 == o
        &&& (x >> 4u8) & 3u8 == a
        &&& x >> 6u8 == ch
    }) by (bit_vector)
        requires
            b <= 1,
            o <= 5,
            a <= 3,
            ch <= 3,
    ;
}

/// The divisor and the resulting interrupt interval for a requested interval.
pub open spec fn rate_divisor(interval_ms: nat) -> nat {
    let d = (interval_ms * 1000000) / 838;
    if d > 65535 {
        65535
    } else {
        d
    }
}

/// How the timer is programmed for an interrupt every `interval_ms`
/// milliseconds: the counter divisor (at most 65535) and the interval in
/// nanoseconds that it gives.
pub fn interrupt_rate(interval_ms: usize) -> (r: (usize, usize))
    requires
        interval_ms * 1000000 <= usize::MAX,
    ensures
        r.0 == rate_divisor(interval_ms as nat),
        r.1 == 838 * r.0,
{
    let mut divisor = (interval_ms * 1000000) / NANOSECONDS_PER_TICK;
    if divisor > 65535 {
        divisor = 65535;
    }
    (divisor, NANOSECONDS_PER_TICK * divisor)
}

/// The ticks between two readings of the down-counting timer that counts
/// from `reload` (the divisor) to 0 and wraps around.
pub open spec fn ticks_between(last: u16, now: u16, reload: u16) -> u16 {
    if last >= now {
        (last - now) as u16
    } else {
        (reload - now + last) as u16
    }
}

/// The reload value of a counter programmed for `interval_ns`: the
/// interval in ticks, truncated to 16 bits.
pub open spec fn reload_of(interval_ns: usize) -> u16 {
    (interval_ns / 838) as u16
}

/// The ticks between two readings of the timer; the counter reloads with
/// `interval_ns / NANOSECONDS_PER_TICK`, truncated to 16 bits. After a wrap
/// the later reading cannot lie above the reload value.
pub fn elapsed_ticks(last: u16, now: u16, interval_ns: usize) -> (r: u16)
    requires
        last < now ==> now <= reload_of(interval_ns),
    ensures
        r == ticks_between(last, now, reload_of(interval_ns)),
{
    if last >= now {
        // Timer did not wrap around
        last - now
    } else {
        // Timer wrapped around
        let reload = (interval_ns / NANOSECONDS_PER_TICK) as u16;
        reload - now + last
    }
}

/// The progress of a busy wait: the nanoseconds counted so far and the last
/// reading of the timer.
#[derive(Copy, Clone, Debug, PartialEq, Eq)]
pub struct WaitClock {
    pub elapsed_ns: usize,
    pub last: u16,
}

impl WaitClock {
    /// A wait that starts at the timer reading `first`.
    pub fn start(first: u16) -> (r: Self)
        ensures
            r == (WaitClock { elapsed_ns: 0, last: first }),
    {
        WaitClock { elapsed_ns: 0, last: first }
    }

    /// Whether `wait_ns` nanoseconds have been counted.
    pub fn is_done(&self, wait_ns: usize) -> (r: bool)
        ensures
            r == (self.elapsed_ns >= wait_ns),
    {
        self.elapsed_ns >= wait_ns
    }

    /// Counts the ticks from the last reading to the reading `now` of a
    /// timer programmed for `interval_ns`.
    pub fn advance(&mut self, now: u16, interval_ns: usize)
        requires
            old(self).last < now ==> now <= reload_of(interval_ns),
            old(self).elapsed_ns + ticks_between(old(self).last, now, reload_of(interval_ns)) * 838 <= usize::MAX,
        ensures
            final(self).elapsed_ns == old(self).elapsed_ns + ticks_between(old(self).last, now, reload_of(interval_ns)) * 838,
            final(self).last == now,
    {
        let ticks = elapsed_ticks(self.last, now, interval_ns);
        self.elapsed_ns = self.elapsed_ns + ticks as usize * NANOSECONDS_PER_TICK;
        self.last = now;
    }
}

/// The system time kept by counting timer interrupts.
#[derive(Copy, Clone, Debug, PartialEq, Eq)]
pub struct SystemTime {
    pub interval_ns: usize,
    pub systime_ns: usize,
}

impl SystemTime {
    /// One timer interrupt has passed.
    pub fn inc_systime(&mut self)
        requires
            old(self).systime_ns + old(self).interval_ns <= usize::MAX,
        ensures
            *final(self) == (SystemTime { systime_ns: (old(self).systime_ns + old(self).interval_ns) as usize, ..*old(self) }),
    {
        self.systime_ns = self.systime_ns + self.interval_ns;
    }

    /// The system time in milliseconds.
    pub fn systime_ms(&self) -> (r: usize)
        ensures
            r == self.systime_ns / 1000000,
    {
        self.systime_ns / 1000000
    }
}

} // verus!
