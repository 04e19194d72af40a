//! Verified core logic of the D3OS kernel drivers and window manager.
//!
//! Each module holds the decisions and computations of one driver or
//! subsystem, over plain values: what is read from or written to a device
//! register, a DMA ring or a boot memory map goes in and out as integers and
//! byte sequences, and the program around the library performs the I/O.
//!
//! - devices: [`serial`], [`pit`], [`apic`], [`cpu`], [`ide`], [`ps2`],
//!   [`qemu_cfg`], [`virtio`], [`ne2k`], [`rtl8139`] and the ConnectX-3
//!   driver in [`mlx4`];
//! - kernel: [`boot`], [`capabilities`], [`tty`], [`bits`];
//! - window manager: [`window_tree`], [`workspace`], [`window_manager`],
//!   [`mouse`].
pub mod bits;
pub mod mlx4;
pub mod window_tree;
pub mod mouse;
pub mod serial;
pub mod pit;
pub mod apic;
pub mod capabilities;
pub mod virtio;
pub mod tty;
pub mod ide;
pub mod workspace;
pub mod cpu;
pub mod window_manager;
pub mod ne2k;
pub mod rtl8139;
pub mod boot;
pub mod ps2;
pub mod qemu_cfg;
