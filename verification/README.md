# d3os_core

The decisions and computations of the D3OS kernel drivers and of its tiling
window manager, written in Verus and proved against their contracts.

- `src/` is the verified library. Every module works on plain values: what
  the kernel reads from a device register, a DMA ring, a boot memory map or a
  command mailbox comes in as integers and byte sequences, and what it writes
  goes out the same way. Laws that relate several operations (a split window
  closed again gives back the layout, a key stored in a dMPT index reads back
  unchanged, the ICM tables are disjoint, and aligned when the card's entry
  sizes are powers of two, ...) are public proof
  functions next to the operations they speak of.
- `tests/` runs the library on concrete values.
- `app/` holds what cannot be verified: port I/O, floating-point scaling and
  the glue that hands device values to the library.

The only trusted items are three wrappers around `raw_cpuid` in
`src/cpu.rs`.
