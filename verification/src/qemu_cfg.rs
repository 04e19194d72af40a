//! Detection of QEMU's firmware configuration interface.
use vstd::prelude::*;

verus! {

/// The port that selects an item of the interface.
pub const SELECTOR_PORT: u16 = 0x510;
/// The port that yields the selected item byte by byte.
pub const DATA_PORT: u16 = 0x511;
/// The item that holds the interface signature.
pub const SIGNATURE_SELECTOR: u16 = 0x0000;

/// Whether the four bytes read after selecting the signature spell "QEMU":
/// only then is the interface present.
pub fn is_qemu_signature(id: [u8; 4]) -> (r: bool)
    ensures
        r == (id[0] == 0x51u8 && id[1] == 0x45u8 && id[2] == 0x4du8 && id[3] == 0x55u8),
{
    // 'Q', 'E', 'M', 'U'
    id[0] == 0x51u8 && id[1] == 0x45u8 && id[2] == 0x4du8 && id[3] == 0x55u8
}

} // verus!
