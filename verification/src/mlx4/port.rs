//! The port management mailboxes of the ConnectX-3: what SET_PORT is sent,
//! the subnet management query of a port's PortInfo attribute, and what the
//! driver reads from the QUERY_PORT output and the PortInfo reply.
use vstd::prelude::*;
use crate::mlx4::mailbox::zeroed;

verus! {

/// The size of a management datagram.
pub const MAD_SIZE: usize = 256;
/// Where the attribute data starts in a management datagram.
pub const MAD_DATA_OFFSET: usize = 64;
/// The size of the attribute data of a subnet management datagram.
pub const SMP_DATA_SIZE: usize = 64;
pub const MGMT_CLASS_SUBN_LID_ROUTED: u8 = 0x1;
pub const MGMT_METHOD_GET: u8 = 0x1;
pub const SMP_ATTR_PORT_INFO: u16 = 0x15;
/// The opcode modifier bits of MAD_IFC.
pub const MAD_IFC_DISABLE_MKEY_VALIDATION: u8 = 0x1;
pub const MAD_IFC_DISABLE_BKEY_VALIDATION: u8 = 0x2;
/// The opcode modifier of the PortInfo query: neither key is validated.
pub const MAD_IFC_PORT_INFO_MODIFIER: u8 = 0x3;
/// The opcode modifier of SET_PORT for an InfiniBand port.
pub const SET_PORT_IB: u8 = 0x0;
/// The size of the SET_PORT mailbox.
pub const SET_PORT_COMMAND_SIZE: usize = 42;
/// The flags in the second byte of the SET_PORT mailbox.
pub const CHANGE_PORT_MTU: u8 = 0x40;
pub const CHANGE_PORT_VL: u8 = 0x20;
pub const CHANGE_PORT_PKEY: u8 = 0x10;
/// The size of the part of the QUERY_PORT output that the driver reads.
pub const PORT_CAPABILITIES_SIZE: usize = 24;
/// How many SET_PORT mailboxes bringing a port up sends.
pub const VL_CAP_ATTEMPTS: usize = 4;

/// The big-endian numbers at byte `i` of `b`.
pub open spec fn be16(b: Seq<u8>, i: int) -> int {
    b[i] * 0x100 + b[i + 1]
}

pub open spec fn be32(b: Seq<u8>, i: int) -> int {
    be16(b, i) * 0x1_0000 + be16(b, i + 2)
}

pub open spec fn be48(b: Seq<u8>, i: int) -> int {
    be16(b, i) * 0x1_0000_0000 + be32(b, i + 2)
}

/// Byte `k` (0 the most significant) of the big-endian encoding of `x`.
pub open spec fn be32_byte(x: u32, k: int) -> u8 {
    if k == 0 {
        (x / 0x100_0000) as u8
    } else if k == 1 {
        (x / 0x1_0000 % 0x100) as u8
    } else if k == 2 {
        (x / 0x100 % 0x100) as u8
    } else {
        (x % 0x100) as u8
    }
}

/// The subnet management GET of the PortInfo attribute of `port`: version 1
/// of the LID-routed subnet management class, the attribute's identifier
/// and the port number as the attribute modifier, both big-endian.
pub open spec fn port_info_request_bytes(port: u8) -> Seq<u8> {
    Seq::new(
        MAD_SIZE as nat,
        |i: int|
            if i == 0 || i == 2 {
                1u8
            } else if i == 1 {
                MGMT_CLASS_SUBN_LID_ROUTED
            } else if i == 3 {
                MGMT_METHOD_GET
            } else if i == 16 {
                (SMP_ATTR_PORT_INFO / 0x100) as u8
            } else if i == 17 {
                (SMP_ATTR_PORT_INFO % 0x100) as u8
            } else if i == 23 {
                port
            } else {
                0u8
            },
    )
}

/// The SET_PORT mailbox of an InfiniBand port: the MTU and the virtual lane
/// capability are changed, the maximal partition key table size only where
/// one is given, and the port's capability mask is set.
pub open spec fn set_port_bytes(capabilities: u32, max_pkey: Option<u16>, mtu: u8, vl_cap: u8) -> Seq<u8> {
    Seq::new(
        SET_PORT_COMMAND_SIZE as nat,
        |i: int|
            if i == 1 {
                (CHANGE_PORT_MTU + CHANGE_PORT_VL + if max_pkey is Some {
                    CHANGE_PORT_PKEY
                } else {
                    0u8
                }) as u8
            } else if i == 2 {
                (mtu * 16) as u8
            } else if i == 3 {
                (vl_cap * 16) as u8
            } else if 4 <= i < 8 {
                be32_byte(capabilities, i - 4)
            } else if i == 40 {
                match max_pkey {
                    Some(size) => (size / 0x100) as u8,
                    None => 0u8,
                }
            } else if i == 41 {
                match max_pkey {
                    Some(size) => (size % 0x100) as u8,
                    None => 0u8,
                }
            } else {
                0u8
            },
    )
}

/// The virtual lane capability of the `k`-th SET_PORT mailbox: 8, 4, 2, 1.
pub open spec fn vl_cap_of_attempt(k: int) -> u8 {
    if k == 0 {
        8
    } else if k == 1 {
        4
    } else if k == 2 {
        2
    } else {
        1
    }
}

/// The request that queries the PortInfo attribute of `port` through
/// MAD_IFC.
pub fn port_info_request(port: u8) -> (r: Vec<u8>)
    ensures
        r@ == port_info_request_bytes(port),
{
    let mut r = zeroed(MAD_SIZE);
    r.set(0, 1);
    r.set(1, MGMT_CLASS_SUBN_LID_ROUTED);
    r.set(2, 1);
    r.set(3, MGMT_METHOD_GET);
    r.set(16, (SMP_ATTR_PORT_INFO / 0x100) as u8);
    r.set(17, (SMP_ATTR_PORT_INFO % 0x100) as u8);
    r.set(23, port);
    assert(r@ =~= port_info_request_bytes(port));
    r
}

/// The SET_PORT mailbox for an InfiniBand port (see [`set_port_bytes`]).
/// The MTU and the virtual lane capability are four-bit fields.
pub fn set_port_command(capabilities: u32, max_pkey: Option<u16>, mtu: u8, vl_cap: u8) -> (r: Vec<u8>)
    requires
        mtu < 16,
        vl_cap < 16,
    ensures
        r@ == set_port_bytes(capabilities, max_pkey, mtu, vl_cap),
{
    let mut r = zeroed(SET_PORT_COMMAND_SIZE);
    let flags: u8 = match max_pkey {
        Some(_) => CHANGE_PORT_MTU + CHANGE_PORT_VL + CHANGE_PORT_PKEY,
        None => CHANGE_PORT_MTU + CHANGE_PORT_VL,
    };
    r.set(1, flags);
    r.set(2, mtu * 16);
    r.set(3, vl_cap * 16);
    r.set(4, (capabilities / 0x100_0000) as u8);
    r.set(5, (capabilities / 0x1_0000 % 0x100) as u8);
    r.set(6, (capabilities / 0x100 % 0x100) as u8);
    r.set(7, (capabilities % 0x100) as u8);
    if let Some(size) = max_pkey {
        r.set(40, (size / 0x100) as u8);
        r.set(41, (size % 0x100) as u8);
    }
    assert(r@ =~= set_port_bytes(capabilities, max_pkey, mtu, vl_cap));
    r
}

/// The SET_PORT mailboxes that bringing a port up sends, in order: the same
/// settings with a virtual lane capability of 8, 4, 2 and then 1.
pub fn set_port_commands(capabilities: u32, max_pkey: Option<u16>, mtu: u8) -> (r: Vec<Vec<u8>>)
    requires
        mtu < 16,
    ensures
        r@.len() == VL_CAP_ATTEMPTS,
        forall|k: int|
            0 <= k < VL_CAP_ATTEMPTS ==> (#[trigger] r@[k])@ == set_port_bytes(
                capabilities,
                max_pkey,
                mtu,
                vl_cap_of_attempt(k),
            ),
{
    let mut r: Vec<Vec<u8>> = Vec::new();
    let mut k: usize = 0;
    let mut vl_cap: u8 = 8;
    while k < VL_CAP_ATTEMPTS
        invariant
            k <= VL_CAP_ATTEMPTS,
            mtu < 16,
            r@.len() == k,
            k < VL_CAP_ATTEMPTS ==> vl_cap == vl_cap_of_attempt(k as int),
            forall|j: int|
                0 <= j < k ==> (#[trigger] r@[j])@ == set_port_bytes(
                    capabilities,
                    max_pkey,
                    mtu,
                    vl_cap_of_attempt(j),
                ),
        decreases VL_CAP_ATTEMPTS - k,
    {
        r.push(set_port_command(capabilities, max_pkey, mtu, vl_cap));
        k = k + 1;
        vl_cap = vl_cap / 2;
    }
    r
}

fn read_be16(b: &[u8], i: usize) -> (r: u16)
    requires
        i + 2 <= b.len(),
    ensures
        r == be16(b@, i as int),
{
    (b[i] as u16) * 0x100 + b[i + 1] as u16
}

fn read_be32(b: &[u8], i: usize) -> (r: u32)
    requires
        i + 4 <= b.len(),
    ensures
        r == be32(b@, i as int),
{
    (read_be16(b, i) as u32) * 0x1_0000 + read_be16(b, i + 2) as u32
}

fn read_be48(b: &[u8], i: usize) -> (r: u64)
    requires
        i + 6 <= b.len(),
    ensures
        r == be48(b@, i as int),
{
    (read_be16(b, i) as u64) * 0x1_0000_0000 + read_be32(b, i + 2) as u64
}

/// What the driver reads of a port's PortInfo attribute.
#[derive(Clone, Copy, Debug, PartialEq, Eq)]
pub struct PortInfo {
    pub lid: u16,
    pub sm_lid: u16,
    pub port_cap_flags: u32,
    pub state: u8,
    pub phys_state: u8,
    pub lmc: u8,
    pub active_mtu: u8,
    pub max_mtu: u8,
}

impl PortInfo {
    /// Reads the attribute from the data of a subnet management reply: the
    /// LIDs and the capability mask are big-endian, the state, physical
    /// state, LMC and MTUs are bit fields of their bytes.
    pub fn parse(data: &[u8]) -> (r: PortInfo)
        requires
            data.len() >= SMP_DATA_SIZE,
        ensures
            r.lid == be16(data@, 16),
            r.sm_lid == be16(data@, 18),
            r.port_cap_flags == be32(data@, 20),
            r.state == data@[32] % 16,
            r.phys_state == data@[33] / 16,
            r.lmc == data@[34] % 8,
            r.active_mtu == data@[36] / 16,
            r.max_mtu == data@[41] % 16,
    {
        PortInfo {
            lid: read_be16(data, 16),
            sm_lid: read_be16(data, 18),
            port_cap_flags: read_be32(data, 20),
            state: data[32] % 16,
            phys_state: data[33] / 16,
            lmc: data[34] % 8,
            active_mtu: data[36] / 16,
            max_mtu: data[41] % 16,
        }
    }
}

/// What the driver reads of the QUERY_PORT output.
#[derive(Clone, Copy, Debug, PartialEq, Eq)]
pub struct PortCapabilities {
    pub link_up: bool,
    pub eth: bool,
    pub ib: bool,
    pub ib_mtu: u8,
    pub eth_mtu: u16,
    pub mac: u64,
}

impl PortCapabilities {
    /// Reads the capabilities: the flags are bits of the first byte, most
    /// significant first; the MAC address is the six bytes from byte 18.
    pub fn parse(bytes: &[u8]) -> (r: PortCapabilities)
        requires
            bytes.len() >= PORT_CAPABILITIES_SIZE,
        ensures
            r.link_up == (bytes@[0] >= 0x80),
            r.eth == (bytes@[0] / 2 % 2 == 1),
            r.ib == (bytes@[0] % 2 == 1),
            r.ib_mtu == bytes@[1] % 16,
            r.eth_mtu == be16(bytes@, 2),
            r.mac == be48(bytes@, 18),
    {
        PortCapabilities {
            link_up: bytes[0] >= 0x80,
            eth: bytes[0] / 2 % 2 == 1,
            ib: bytes[0] % 2 == 1,
            ib_mtu: bytes[1] % 16,
            eth_mtu: read_be16(bytes, 2),
            mac: read_be48(bytes, 18),
        }
    }
}

} // verus!
