//! Serial port (16550 UART) register layout and line discipline.
use vstd::prelude::*;

verus! {

/// The legacy COM ports.
#[derive(Copy, Clone, Debug, PartialEq, Eq)]
pub enum ComPort {
    Com1,
    Com2,
    Com3,
    Com4,
}

/// The I/O base address of a COM port.
pub open spec fn com_base(port: ComPort) -> u16 {
    match port {
        ComPort::Com1 => 0x3f8u16,
        ComPort::Com2 => 0x2f8u16,
        ComPort::Com3 => 0x3e8u16,
        ComPort::Com4 => 0x2e8u16,
    }
}

/// The interrupt line that a COM port raises.
#[derive(Copy, Clone, Debug, PartialEq, Eq)]
pub enum ComInterrupt {
    Com1,
    Com2,
}

/// The registers of a UART, relative to its base address.
#[derive(Copy, Clone, Debug, PartialEq, Eq)]
pub struct UartRegisters {
    pub data: u16,
    pub interrupt_control: u16,
    pub interrupt_status: u16,
    pub line_control: u16,
    pub line_status: u16,
    pub scratch: u16,
}

impl ComPort {
    /// The I/O base address of the port.
    pub fn base(&self) -> (r: u16)
        ensures
            r == com_base(*self),
    {
        match self {
            ComPort::Com1 => 0x3f8,
            ComPort::Com2 => 0x2f8,
            ComPort::Com3 => 0x3e8,
            ComPort::Com4 => 0x2e8,
        }
    }

    /// The port addresses of the UART registers.
    pub fn registers(&self) -> (r: UartRegisters)
        ensures
            r == (UartRegisters {
                data: com_base(*self),
                interrupt_control: (com_base(*self) + 1) as u16,
                interrupt_status: (com_base(*self) + 2) as u16,
                line_control: (com_base(*self) + 3) as u16,
                line_status: (com_base(*self) + 5) as u16,
                scratch: (com_base(*self) + 7) as u16,
            }),
    {
        let base = self.base();
        UartRegisters {
            data: base,
            interrupt_control: base + 1,
            interrupt_status: base + 2,
            line_control: base + 3,
            line_status: base + 5,
            scratch: base + 7,
        }
    }

    /// COM1 and COM3 share the first interrupt line, COM2 and COM4 the second.
    pub fn interrupt(&self) -> (r: ComInterrupt)
        ensures
            r == (match *self {
                ComPort::Com1 | ComPort::Com3 => ComInterrupt::Com1,
                ComPort::Com2 | ComPort::Com4 => ComInterrupt::Com2,
            }),
    {
        match self {
            ComPort::Com1 | ComPort::Com3 => ComInterrupt::Com1,
            ComPort::Com2 | ComPort::Com4 => ComInterrupt::Com2,
        }
    }
}

/// The baud rates of a UART, by name.
#[derive(Copy, Clone, Debug, PartialEq, Eq)]
pub enum BaudRate {
    Baud115200,
    Baud57600,
    Baud38400,
    Baud28800,
    Baud23040,
    Baud19200,
    Baud14400,
    Baud12800,
    Baud11520,
    Baud9600,
    Baud7680,
    Baud7200,
    Baud6400,
    Baud5760,
    Baud4800,
    Baud4608,
    Baud3840,
    Baud3600,
    Baud3200,
    Baud2880,
    Baud2560,
    Baud2400,
    Baud2304,
    Baud1920,
    Baud1800,
    Baud1600,
    Baud1536,
    Baud1440,
    Baud1280,
    Baud1200,
    Baud1152,
    Baud960,
    Baud900,
    Baud800,
    Baud768,
    Baud720,
    Baud640,
    Baud600,
    Baud576,
    Baud512,
    Baud480,
    Baud450,
    Baud400,
    Baud384,
    Baud360,
    Baud320,
    Baud300,
    Baud288,
    Baud256,
    Baud240,
    Baud225,
    Baud200,
    Baud192,
    Baud180,
    Baud160,
    Baud150,
    Baud144,
    Baud128,
    Baud120,
    Baud100,
    Baud96,
    Baud90,
    Baud80,
    Baud75,
    Baud72,
    Baud64,
    Baud60,
    Baud50,
    Baud48,
    Baud45,
    Baud40,
    Baud36,
    Baud32,
    Baud30,
    Baud25,
    Baud24,
    Baud20,
    Baud18,
    Baud16,
    Baud15,
    Baud12,
    Baud10,
    Baud9,
    Baud8,
    Baud6,
    Baud5,
    Baud4,
    Baud3,
    Baud2,
}

/// The divisor of the 115200 baud base clock that gives the rate.
pub open spec fn baud_divisor(rate: BaudRate) -> u16 {
    match rate {
        BaudRate::Baud115200 => 1u16,
        BaudRate::Baud57600 => 2u16,
        BaudRate::Baud38400 => 3u16,
        BaudRate::Baud28800 => 4u16,
        BaudRate::Baud23040 => 5u16,
        BaudRate::Baud19200 => 6u16,
        BaudRate::Baud14400 => 8u16,
        BaudRate::Baud12800 => 9u16,
        BaudRate::Baud11520 => 10u16,
        BaudRate::Baud9600 => 12u16,
        BaudRate::Baud7680 => 15u16,
        BaudRate::Baud7200 => 16u16,
        BaudRate::Baud6400 => 18u16,
        BaudRate::Baud5760 => 20u16,
        BaudRate::Baud4800 => 24u16,
        BaudRate::Baud4608 => 25u16,
        BaudRate::Baud3840 => 30u16,
        BaudRate::Baud3600 => 32u16,
        BaudRate::Baud3200 => 36u16,
        BaudRate::Baud2880 => 40u16,
        BaudRate::Baud2560 => 45u16,
        BaudRate::Baud2400 => 48u16,
        BaudRate::Baud2304 => 50u16,
        BaudRate::Baud1920 => 60u16,
        BaudRate::Baud1800 => 64u16,
        BaudRate::Baud1600 => 72u16,
        BaudRate::Baud1536 => 75u16,
        BaudRate::Baud1440 => 80u16,
        BaudRate::Baud1280 => 90u16,
        BaudRate::Baud1200 => 96u16,
        BaudRate::Baud1152 => 100u16,
        BaudRate::Baud960 => 120u16,
        BaudRate::Baud900 => 128u16,
        BaudRate::Baud800 => 144u16,
        BaudRate::Baud768 => 150u16,
        BaudRate::Baud720 => 160u16,
        BaudRate::Baud640 => 180u16,
        BaudRate::Baud600 => 192u16,
        BaudRate::Baud576 => 200u16,
        BaudRate::Baud512 => 225u16,
        BaudRate::Baud480 => 240u16,
        BaudRate::Baud450 => 256u16,
        BaudRate::Baud400 => 288u16,
        BaudRate::Baud384 => 300u16,
        BaudRate::Baud360 => 320u16,
        BaudRate::Baud320 => 360u16,
        BaudRate::Baud300 => 384u16,
        BaudRate::Baud288 => 400u16,
        BaudRate::Baud256 => 450u16,
        BaudRate::Baud240 => 480u16,
        BaudRate::Baud225 => 512u16,
        BaudRate::Baud200 => 576u16,
        BaudRate::Baud192 => 600u16,
        BaudRate::Baud180 => 640u16,
        BaudRate::Baud160 => 720u16,
        BaudRate::Baud150 => 768u16,
        BaudRate::Baud144 => 800u16,
        BaudRate::Baud128 => 900u16,
        BaudRate::Baud120 => 960u16,
        BaudRate::Baud100 => 1152u16,
        BaudRate::Baud96 => 1200u16,
        BaudRate::Baud90 => 1280u16,
        BaudRate::Baud80 => 1440u16,
        BaudRate::Baud75 => 1536u16,
        BaudRate::Baud72 => 1600u16,
        BaudRate::Baud64 => 1800u16,
        BaudRate::Baud60 => 1920u16,
        BaudRate::Baud50 => 2304u16,
        BaudRate::Baud48 => 2400u16,
        BaudRate::Baud45 => 2560u16,
        BaudRate::Baud40 => 2880u16,
        BaudRate::Baud36 => 3200u16,
        BaudRate::Baud32 => 3600u16,
        BaudRate::Baud30 => 3840u16,
        BaudRate::Baud25 => 4608u16,
        BaudRate::Baud24 => 4800u16,
        BaudRate::Baud20 => 5760u16,
        BaudRate::Baud18 => 6400u16,
        BaudRate::Baud16 => 7200u16,
        BaudRate::Baud15 => 7680u16,
        BaudRate::Baud12 => 9600u16,
        BaudRate::Baud10 => 11520u16,
        BaudRate::Baud9 => 12800u16,
        BaudRate::Baud8 => 14400u16,
        BaudRate::Baud6 => 19200u16,
        BaudRate::Baud5 => 23040u16,
        BaudRate::Baud4 => 28800u16,
        BaudRate::Baud3 => 38400u16,
        BaudRate::Baud2 => 57600u16,
    }
}

/// The rate that a baud rate names, in baud.
pub open spec fn baud_value(rate: BaudRate) -> nat {
    match rate {
        BaudRate::Baud115200 => 115200,
        BaudRate::Baud57600 => 57600,
        BaudRate::Baud38400 => 38400,
        BaudRate::Baud28800 => 28800,
        BaudRate::Baud23040 => 23040,
        BaudRate::Baud19200 => 19200,
        BaudRate::Baud14400 => 14400,
        BaudRate::Baud12800 => 12800,
        BaudRate::Baud11520 => 11520,
        BaudRate::Baud9600 => 9600,
        BaudRate::Baud7680 => 7680,
        BaudRate::Baud7200 => 7200,
        BaudRate::Baud6400 => 6400,
        BaudRate::Baud5760 => 5760,
        BaudRate::Baud4800 => 4800,
        BaudRate::Baud4608 => 4608,
        BaudRate::Baud3840 => 3840,
        BaudRate::Baud3600 => 3600,
        BaudRate::Baud3200 => 3200,
        BaudRate::Baud2880 => 2880,
        BaudRate::Baud2560 => 2560,
        BaudRate::Baud2400 => 2400,
        BaudRate::Baud2304 => 2304,
        BaudRate::Baud1920 => 1920,
        BaudRate::Baud1800 => 1800,
        BaudRate::Baud1600 => 1600,
        BaudRate::Baud1536 => 1536,
        BaudRate::Baud1440 => 1440,
        BaudRate::Baud1280 => 1280,
        BaudRate::Baud1200 => 1200,
        BaudRate::Baud1152 => 1152,
        BaudRate::Baud960 => 960,
        BaudRate::Baud900 => 900,
        BaudRate::Baud800 => 800,
        BaudRate::Baud768 => 768,
        BaudRate::Baud720 => 720,
        BaudRate::Baud640 => 640,
        BaudRate::Baud600 => 600,
        BaudRate::Baud576 => 576,
        BaudRate::Baud512 => 512,
        BaudRate::Baud480 => 480,
        BaudRate::Baud450 => 450,
        BaudRate::Baud400 => 400,
        BaudRate::Baud384 => 384,
        BaudRate::Baud360 => 360,
        BaudRate::Baud320 => 320,
        BaudRate::Baud300 => 300,
        BaudRate::Baud288 => 288,
        BaudRate::Baud256 => 256,
        BaudRate::Baud240 => 240,
        BaudRate::Baud225 => 225,
        BaudRate::Baud200 => 200,
        BaudRate::Baud192 => 192,
        BaudRate::Baud180 => 180,
        BaudRate::Baud160 => 160,
        BaudRate::Baud150 => 150,
        BaudRate::Baud144 => 144,
        BaudRate::Baud128 => 128,
        BaudRate::Baud120 => 120,
        BaudRate::Baud100 => 100,
        BaudRate::Baud96 => 96,
        BaudRate::Baud90 => 90,
        BaudRate::Baud80 => 80,
        BaudRate::Baud75 => 75,
        BaudRate::Baud72 => 72,
        BaudRate::Baud64 => 64,
        BaudRate::Baud60 => 60,
        BaudRate::Baud50 => 50,
        BaudRate::Baud48 => 48,
        BaudRate::Baud45 => 45,
        BaudRate::Baud40 => 40,
        BaudRate::Baud36 => 36,
        BaudRate::Baud32 => 32,
        BaudRate::Baud30 => 30,
        BaudRate::Baud25 => 25,
        BaudRate::Baud24 => 24,
        BaudRate::Baud20 => 20,
        BaudRate::Baud18 => 18,
        BaudRate::Baud16 => 16,
        BaudRate::Baud15 => 15,
        BaudRate::Baud12 => 12,
        BaudRate::Baud10 => 10,
        BaudRate::Baud9 => 9,
        BaudRate::Baud8 => 8,
        BaudRate::Baud6 => 6,
        BaudRate::Baud5 => 5,
        BaudRate::Baud4 => 4,
        BaudRate::Baud3 => 3,
        BaudRate::Baud2 => 2,
    }
}

impl BaudRate {
    /// The divisor latch value for the rate.
    pub fn divisor(&self) -> (r: u16)
        ensures
            r == baud_divisor(*self),
    {
        match self {
            BaudRate::Baud115200 => 1,
            BaudRate::Baud57600 => 2,
            BaudRate::Baud38400 => 3,
            BaudRate::Baud28800 => 4,
            BaudRate::Baud23040 => 5,
            BaudRate::Baud19200 => 6,
            BaudRate::Baud14400 => 8,
            BaudRate::Baud12800 => 9,
            BaudRate::Baud11520 => 10,
            BaudRate::Baud9600 => 12,
            BaudRate::Baud7680 => 15,
            BaudRate::Baud7200 => 16,
            BaudRate::Baud6400 => 18,
            BaudRate::Baud5760 => 20,
            BaudRate::Baud4800 => 24,
            BaudRate::Baud4608 => 25,
            BaudRate::Baud3840 => 30,
            BaudRate::Baud3600 => 32,
            BaudRate::Baud3200 => 36,
            BaudRate::Baud2880 => 40,
            BaudRate::Baud2560 => 45,
            BaudRate::Baud2400 => 48,
            BaudRate::Baud2304 => 50,
            BaudRate::Baud1920 => 60,
            BaudRate::Baud1800 => 64,
            BaudRate::Baud1600 => 72,
            BaudRate::Baud1536 => 75,
            BaudRate::Baud1440 => 80,
            BaudRate::Baud1280 => 90,
            BaudRate::Baud1200 => 96,
            BaudRate::Baud1152 => 100,
            BaudRate::Baud960 => 120,
            BaudRate::Baud900 => 128,
            BaudRate::Baud800 => 144,
            BaudRate::Baud768 => 150,
            BaudRate::Baud720 => 160,
            BaudRate::Baud640 => 180,
            BaudRate::Baud600 => 192,
            BaudRate::Baud576 => 200,
            BaudRate::Baud512 => 225,
            BaudRate::Baud480 => 240,
            BaudRate::Baud450 => 256,
            BaudRate::Baud400 => 288,
            BaudRate::Baud384 => 300,
            BaudRate::Baud360 => 320,
            BaudRate::Baud320 => 360,
            BaudRate::Baud300 => 384,
            BaudRate::Baud288 => 400,
            BaudRate::Baud256 => 450,
            BaudRate::Baud240 => 480,
            BaudRate::Baud225 => 512,
            BaudRate::Baud200 => 576,
            BaudRate::Baud192 => 600,
            BaudRate::Baud180 => 640,
            BaudRate::Baud160 => 720,
            BaudRate::Baud150 => 768,
            BaudRate::Baud144 => 800,
            BaudRate::Baud128 => 900,
            BaudRate::Baud120 => 960,
            BaudRate::Baud100 => 1152,
            BaudRate::Baud96 => 1200,
            BaudRate::Baud90 => 1280,
            BaudRate::Baud80 => 1440,
            BaudRate::Baud75 => 1536,
            BaudRate::Baud72 => 1600,
            BaudRate::Baud64 => 1800,
            BaudRate::Baud60 => 1920,
            BaudRate::Baud50 => 2304,
            BaudRate::Baud48 => 2400,
            BaudRate::Baud45 => 2560,
            BaudRate::Baud40 => 2880,
            BaudRate::Baud36 => 3200,
            BaudRate::Baud32 => 3600,
            BaudRate::Baud30 => 3840,
            BaudRate::Baud25 => 4608,
            BaudRate::Baud24 => 4800,
            BaudRate::Baud20 => 5760,
            BaudRate::Baud18 => 6400,
            BaudRate::Baud16 => 7200,
            BaudRate::Baud15 => 7680,
            BaudRate::Baud12 => 9600,
            BaudRate::Baud10 => 11520,
            BaudRate::Baud9 => 12800,
            BaudRate::Baud8 => 14400,
            BaudRate::Baud6 => 19200,
            BaudRate::Baud5 => 23040,
            BaudRate::Baud4 => 28800,
            BaudRate::Baud3 => 38400,
            BaudRate::Baud2 => 57600,
        }
    }
}

/// Every baud rate is the 115200 baud base clock divided by its divisor.
pub proof fn lemma_baud_divisor_matches_name(rate: BaudRate)
    ensures
        baud_divisor(rate) > 0,
        115200nat / (baud_divisor(rate) as nat) == baud_value(rate),
        115200nat % (baud_divisor(rate) as nat) == 0,
{
    match rate {
        BaudRate::Baud115200 => {
            assert(115200nat / 1nat == 115200nat);
            assert(115200nat % 1nat == 0);
        },
        BaudRate::Baud57600 => {
            assert(115200nat / 2nat == 57600nat);
            assert(115200nat % 2nat == 0);
        },
        BaudRate::Baud38400 => {
            assert(115200nat / 3nat == 38400nat);
            assert(115200nat % 3nat == 0);
        },
        BaudRate::Baud28800 => {
            assert(115200nat / 4nat == 28800nat);
            assert(115200nat % 4nat == 0);
        },
        BaudRate::Baud23040 => {
            assert(115200nat / 5nat == 23040nat);
            assert(115200nat % 5nat == 0);
        },
        BaudRate::Baud19200 => {
            assert(115200nat / 6nat == 19200nat);
            assert(115200nat % 6nat == 0);
        },
        BaudRate::Baud14400 => {
            assert(115200nat / 8nat == 14400nat);
            assert(115200nat % 8nat == 0);
        },
        BaudRate::Baud12800 => {
            assert(115200nat / 9nat == 12800nat);
            assert(115200nat % 9nat == 0);
        },
        BaudRate::Baud11520 => {
            assert(115200nat / 10nat == 11520nat);
            assert(115200nat % 10nat == 0);
        },
        BaudRate::Baud9600 => {
            assert(115200nat / 12nat == 9600nat);
            assert(115200nat % 12nat == 0);
        },
        BaudRate::Baud7680 => {
            assert(115200nat / 15nat == 7680nat);
            assert(115200nat % 15nat == 0);
        },
        BaudRate::Baud7200 => {
            assert(115200nat / 16nat == 7200nat);
            assert(115200nat % 16nat == 0);
        },
        BaudRate::Baud6400 => {
            assert(115200nat / 18nat == 6400nat);
            assert(115200nat % 18nat == 0);
        },
        BaudRate::Baud5760 => {
            assert(115200nat / 20nat == 5760nat);
            assert(115200nat % 20nat == 0);
        },
        BaudRate::Baud4800 => {
            assert(115200nat / 24nat == 4800nat);
            assert(115200nat % 24nat == 0);
        },
        BaudRate::Baud4608 => {
            assert(115200nat / 25nat == 4608nat);
            assert(115200nat % 25nat == 0);
        },
        BaudRate::Baud3840 => {
            assert(115200nat / 30nat == 3840nat);
            assert(115200nat % 30nat == 0);
        },
        BaudRate::Baud3600 => {
            assert(115200nat / 32nat == 3600nat);
            assert(115200nat % 32nat == 0);
        },
        BaudRate::Baud3200 => {
            assert(115200nat / 36nat == 3200nat);
            assert(115200nat % 36nat == 0);
        },
        BaudRate::Baud2880 => {
            assert(115200nat / 40nat == 2880nat);
            assert(115200nat % 40nat == 0);
        },
        BaudRate::Baud2560 => {
            assert(115200nat / 45nat == 2560nat);
            assert(115200nat % 45nat == 0);
        },
        BaudRate::Baud2400 => {
            assert(115200nat / 48nat == 2400nat);
            assert(115200nat % 48nat == 0);
        },
        BaudRate::Baud2304 => {
            assert(115200nat / 50nat == 2304nat);
            assert(115200nat % 50nat == 0);
        },
        BaudRate::Baud1920 => {
            assert(115200nat / 60nat == 1920nat);
            assert(115200nat % 60nat == 0);
        },
        BaudRate::Baud1800 => {
            assert(115200nat / 64nat == 1800nat);
            assert(115200nat % 64nat == 0);
        },
        BaudRate::Baud1600 => {
            assert(115200nat / 72nat == 1600nat);
            assert(115200nat % 72nat == 0);
        },
        BaudRate::Baud1536 => {
            assert(115200nat / 75nat == 1536nat);
            assert(115200nat % 75nat == 0);
        },
        BaudRate::Baud1440 => {
            assert(115200nat / 80nat == 1440nat);
            assert(115200nat % 80nat == 0);
        },
        BaudRate::Baud1280 => {
            assert(115200nat / 90nat == 1280nat);
            assert(115200nat % 90nat == 0);
        },
        BaudRate::Baud1200 => {
            assert(115200nat / 96nat == 1200nat);
            assert(115200nat % 96nat == 0);
        },
        BaudRate::Baud1152 => {
            assert(115200nat / 100nat == 1152nat);
            assert(115200nat % 100nat == 0);
        },
        BaudRate::Baud960 => {
            assert(115200nat / 120nat == 960nat);
            assert(115200nat % 120nat == 0);
        },
        BaudRate::Baud900 => {
            assert(115200nat / 128nat == 900nat);
            assert(115200nat % 128nat == 0);
        },
        BaudRate::Baud800 => {
            assert(115200nat / 144nat == 800nat);
            assert(115200nat % 144nat == 0);
        },
        BaudRate::Baud768 => {
            assert(115200nat / 150nat == 768nat);
            assert(115200nat % 150nat == 0);
        },
        BaudRate::Baud720 => {
            assert(115200nat / 160nat == 720nat);
            assert(115200nat % 160nat == 0);
        },
        BaudRate::Baud640 => {
            assert(115200nat / 180nat == 640nat);
            assert(115200nat % 180nat == 0);
        },
        BaudRate::Baud600 => {
            assert(115200nat / 192nat == 600nat);
            assert(115200nat % 192nat == 0);
        },
        BaudRate::Baud576 => {
            assert(115200nat / 200nat == 576nat);
            assert(115200nat % 200nat == 0);
        },
        BaudRate::Baud512 => {
            assert(115200nat / 225nat == 512nat);
            assert(115200nat % 225nat == 0);
        },
        BaudRate::Baud480 => {
            assert(115200nat / 240nat == 480nat);
            assert(115200nat % 240nat == 0);
        },
        BaudRate::Baud450 => {
            assert(115200nat / 256nat == 450nat);
            assert(115200nat % 256nat == 0);
        },
        BaudRate::Baud400 => {
            assert(115200nat / 288nat == 400nat);
            assert(115200nat % 288nat == 0);
        },
        BaudRate::Baud384 => {
            assert(115200nat / 300nat == 384nat);
            assert(115200nat % 300nat == 0);
        },
        BaudRate::Baud360 => {
            assert(115200nat / 320nat == 360nat);
            assert(115200nat % 320nat == 0);
        },
        BaudRate::Baud320 => {
            assert(115200nat / 360nat == 320nat);
            assert(115200nat % 360nat == 0);
        },
        BaudRate::Baud300 => {
            assert(115200nat / 384nat == 300nat);
            assert(115200nat % 384nat == 0);
        },
        BaudRate::Baud288 => {
            assert(115200nat / 400nat == 288nat);
            assert(115200nat % 400nat == 0);
        },
        BaudRate::Baud256 => {
            assert(115200nat / 450nat == 256nat);
            assert(115200nat % 450nat == 0);
        },
        BaudRate::Baud240 => {
            assert(115200nat / 480nat == 240nat);
            assert(115200nat % 480nat == 0);
        },
        BaudRate::Baud225 => {
            assert(115200nat / 512nat == 225nat);
            assert(115200nat % 512nat == 0);
        },
        BaudRate::Baud200 => {
            assert(115200nat / 576nat == 200nat);
            assert(115200nat % 576nat == 0);
        },
        BaudRate::Baud192 => {
            assert(115200nat / 600nat == 192nat);
            assert(115200nat % 600nat == 0);
        },
        BaudRate::Baud180 => {
            assert(115200nat / 640nat == 180nat);
            assert(115200nat % 640nat == 0);
        },
        BaudRate::Baud160 => {
            assert(115200nat / 720nat == 160nat);
            assert(115200nat % 720nat == 0);
        },
        BaudRate::Baud150 => {
            assert(115200nat / 768nat == 150nat);
            assert(115200nat % 768nat == 0);
        },
        BaudRate::Baud144 => {
            assert(115200nat / 800nat == 144nat);
            assert(115200nat % 800nat == 0);
        },
        BaudRate::Baud128 => {
            assert(115200nat / 900nat == 128nat);
            assert(115200nat % 900nat == 0);
        },
        BaudRate::Baud120 => {
            assert(115200nat / 960nat == 120nat);
            assert(115200nat % 960nat == 0);
        },
        BaudRate::Baud100 => {
            assert(115200nat / 1152nat == 100nat);
            assert(115200nat % 1152nat == 0);
        },
        BaudRate::Baud96 => {
            assert(115200nat / 1200nat == 96nat);
            assert(115200nat % 1200nat == 0);
        },
        BaudRate::Baud90 => {
            assert(115200nat / 1280nat == 90nat);
            assert(115200nat % 1280nat == 0);
        },
        BaudRate::Baud80 => {
            assert(115200nat / 1440nat == 80nat);
            assert(115200nat % 1440nat == 0);
        },
        BaudRate::Baud75 => {
            assert(115200nat / 1536nat == 75nat);
            assert(115200nat % 1536nat == 0);
        },
        BaudRate::Baud72 => {
            assert(115200nat / 1600nat == 72nat);
            assert(115200nat % 1600nat == 0);
        },
        BaudRate::Baud64 => {
            assert(115200nat / 1800nat == 64nat);
            assert(115200nat % 1800nat == 0);
        },
        BaudRate::Baud60 => {
            assert(115200nat / 1920nat == 60nat);
            assert(115200nat % 1920nat == 0);
        },
        BaudRate::Baud50 => {
            assert(115200nat / 2304nat == 50nat);
            assert(115200nat % 2304nat == 0);
        },
        BaudRate::Baud48 => {
            assert(115200nat / 2400nat == 48nat);
            assert(115200nat % 2400nat == 0);
        },
        BaudRate::Baud45 => {
            assert(115200nat / 2560nat == 45nat);
            assert(115200nat % 2560nat == 0);
        },
        BaudRate::Baud40 => {
            assert(115200nat / 2880nat == 40nat);
            assert(115200nat % 2880nat == 0);
        },
        BaudRate::Baud36 => {
            assert(115200nat / 3200nat == 36nat);
            assert(115200nat % 3200nat == 0);
        },
        BaudRate::Baud32 => {
            assert(115200nat / 3600nat == 32nat);
            assert(115200nat % 3600nat == 0);
        },
        BaudRate::Baud30 => {
            assert(115200nat / 3840nat == 30nat);
            assert(115200nat % 3840nat == 0);
        },
        BaudRate::Baud25 => {
            assert(115200nat / 4608nat == 25nat);
            assert(115200nat % 4608nat == 0);
        },
        BaudRate::Baud24 => {
            assert(115200nat / 4800nat == 24nat);
            assert(115200nat % 4800nat == 0);
        },
        BaudRate::Baud20 => {
            assert(115200nat / 5760nat == 20nat);
            assert(115200nat % 5760nat == 0);
        },
        BaudRate::Baud18 => {
            assert(115200nat / 6400nat == 18nat);
            assert(115200nat % 6400nat == 0);
        },
        BaudRate::Baud16 => {
            assert(115200nat / 7200nat == 16nat);
            assert(115200nat % 7200nat == 0);
        },
        BaudRate::Baud15 => {
            assert(115200nat / 7680nat == 15nat);
            assert(115200nat % 7680nat == 0);
        },
        BaudRate::Baud12 => {
            assert(115200nat / 9600nat == 12nat);
            assert(115200nat % 9600nat == 0);
        },
        BaudRate::Baud10 => {
            assert(115200nat / 11520nat == 10nat);
            assert(115200nat % 11520nat == 0);
        },
        BaudRate::Baud9 => {
            assert(115200nat / 12800nat == 9nat);
            assert(115200nat % 12800nat == 0);
        },
        BaudRate::Baud8 => {
            assert(115200nat / 14400nat == 8nat);
            assert(115200nat % 14400nat == 0);
        },
        BaudRate::Baud6 => {
            assert(115200nat / 19200nat == 6nat);
            assert(115200nat % 19200nat == 0);
        },
        BaudRate::Baud5 => {
            assert(115200nat / 23040nat == 5nat);
            assert(115200nat % 23040nat == 0);
        },
        BaudRate::Baud4 => {
            assert(115200nat / 28800nat == 4nat);
            assert(115200nat % 28800nat == 0);
        },
        BaudRate::Baud3 => {
            assert(115200nat / 38400nat == 3nat);
            assert(115200nat % 38400nat == 0);
        },
        BaudRate::Baud2 => {
            assert(115200nat / 57600nat == 2nat);
            assert(115200nat % 57600nat == 0);
        },
    }
}

/// The two bytes of the divisor latch: the low byte goes to the data
/// register, the high byte to the interrupt control register.
pub fn divisor_bytes(divisor: u16) -> (r: (u8, u8))
    ensures
        r.0 == divisor & 0xff,
        r.1 == (divisor & 0xff00) >> 8,
        r.0 as u16 | ((r.1 as u16) << 8u16) == divisor,
{
    let lo: u16 = divisor & 0x00ff;
    let hi: u16 = (divisor & 0xff00) >> 8;
    assert(lo < 256 && hi < 256 && lo | (hi << 8u16) == divisor) by (bit_vector)
        requires
            lo == divisor & 0x00ff,
            hi == (divisor & 0xff00) >> 8,
    ;
    (lo as u8, hi as u8)
}

/// The line status bit that tells that a byte has been received.
pub const LINE_STATUS_DATA_READY: u8 = 0x01;

/// The line status bit that tells that the transmitter is empty.
pub const LINE_STATUS_TRANSMITTER_EMPTY: u8 = 0x40;

/// The interrupt status bit that tells that an interrupt is pending.
pub const INTERRUPT_STATUS_PENDING: u8 = 0x01;

/// Whether the line status reports a received byte.
pub fn readable(line_status: u8) -> (r: bool)
    ensures
        r == (line_status & 0x01 != 0),
{
    line_status & LINE_STATUS_DATA_READY != 0
}

/// Whether the line status reports an empty transmitter.
pub fn writable(line_status: u8) -> (r: bool)
    ensures
        r == (line_status & 0x40 != 0),
{
    line_status & LINE_STATUS_TRANSMITTER_EMPTY != 0
}

/// Whether the interrupt status reports a pending interrupt.
pub fn interrupt_pending(interrupt_status: u8) -> (r: bool)
    ensures
        r == (interrupt_status & 0x01 != 0),
{
    interrupt_status & INTERRUPT_STATUS_PENDING != 0
}

/// The bytes that go out on the line for `s`: every line feed is preceded
/// by a carriage return.
pub open spec fn line_bytes(s: Seq<u8>) -> Seq<u8>
    decreases s.len(),
{
    if s.len() == 0 {
        Seq::empty()
    } else {
        let head = if s[0] == 10 { seq![13u8, 10u8] } else { seq![s[0]] };
        head + line_bytes(s.drop_first())
    }
}

proof fn lemma_line_bytes_push(s: Seq<u8>, b: u8)
    ensures
        line_bytes(s.push(b)) == line_bytes(s) + (if b == 10 { seq![13u8, 10u8] } else { seq![b] }),
    decreases s.len(),
{
    if s.len() == 0 {
        assert(s.push(b).drop_first() =~= Seq::<u8>::empty());
        assert(line_bytes(Seq::<u8>::empty()) =~= Seq::<u8>::empty());
        assert(line_bytes(s.push(b)) =~= line_bytes(s) + (if b == 10 { seq![13u8, 10u8] } else { seq![b] }));
    } else {
        assert(s.push(b).drop_first() =~= s.drop_first().push(b));
        lemma_line_bytes_push(s.drop_first(), b);
        let head = if s[0] == 10 { seq![13u8, 10u8] } else { seq![s[0]] };
        let tail = if b == 10 { seq![13u8, 10u8] } else { seq![b] };
        assert(head + (line_bytes(s.drop_first()) + tail) =~= (head + line_bytes(s.drop_first())) + tail);
    }
}

/// The bytes to transmit for a string.
pub fn to_line_bytes(s: &[u8]) -> (r: Vec<u8>)
    ensures
        r@ == line_bytes(s@),
{
    let mut out: Vec<u8> = Vec::new();
    let mut i: usize = 0;
    while i < s.len()
        invariant
            i <= s.len(),
            out@ == line_bytes(s@.take(i as int)),
        decreases s.len() - i,
    {
        proof {
            assert(s@.take(i as int + 1) =~= s@.take(i as int).push(s@[i as int]));
            lemma_line_bytes_push(s@.take(i as int), s@[i as int]);
        }
        if s[i] == 10 {
            out.push(13);
        }
        out.push(s[i]);
        i = i + 1;
    }
    assert(s@.take(s.len() as int) =~= s@);
    out
}

} // verus!
