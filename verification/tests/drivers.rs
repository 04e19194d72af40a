use d3os_core::apic::{
    allow_target, calibrated_ticks_per_ms, io_apic_for_target, is_nmi, nmi_entry, override_for_source,
    override_for_target, redirection_entry, target_gsi, timer_initial_count, AllowError,
    InterruptSourceOverride, IrqMode,
};
use d3os_core::boot::{
    fill_test_pattern, framebuffer_region, kernel_image_region, matches_test_pattern, page_align_down,
    page_align_up, scan_efi_memory_map, scan_multiboot2_memory_map, EfiArea, FrameRange, Multiboot2Area,
};
use d3os_core::ide::{
    channel_base_addresses, channel_interface, classify_reset, controller_supports_dma, dma_pages,
    drive_selector, lba28_registers, lba48_registers, max_sectors_per_command, native_switch_config,
    needs_native_switch, needs_selection, next_chunk, AtaTransfer, parse_identify, prd_entries, sector_words, store_sector_words,
    transfer_command, trim_utf8,
    AddressType, Command,
    DriveType, TransferMode, PRD_END_OF_TRANSMISSION,
};
use d3os_core::ne2k::{
    length_bytes, next_boundary, overflow_resend, receive_step, Interrupts, PacketHeader, RECEIVE_STOP_PAGE,
};
use d3os_core::ps2::{choose_mouse_type, MousePacketBuffer, MouseState, MouseType};
use d3os_core::rtl8139::{
    classify_interrupt, descriptor_available, descriptor_ports, InterruptFailure, InterruptWork, ReceiveBuffer,
    TransmitRing, BUFFER_SIZE,
};
use d3os_core::virtio::{
    align_up, bar_mapping, interrupt_vector_of_line, overlaps, pages, read_capabilities, BarMapping,
    VirtioGpuCtrlHdr, VirtioGpuError,
};

fn ovr(isa: u8, gsi: u32, low: bool, level: bool) -> InterruptSourceOverride {
    InterruptSourceOverride { isa_source: isa, global_system_interrupt: gsi, active_low: low, level_triggered: level }
}

#[test]
fn apic_overrides_route_isa_interrupts() {
    let overrides = vec![ovr(0, 2, false, false), ovr(9, 9, true, true), ovr(0, 5, false, false)];
    assert_eq!(override_for_source(&overrides, 0), Some(0));
    assert_eq!(override_for_source(&overrides, 1), None);
    assert_eq!(override_for_target(&overrides, 9), Some(1));
    assert_eq!(target_gsi(&overrides, 0), 2);
    assert_eq!(target_gsi(&overrides, 4), 4);
    assert!(is_nmi(&vec![3, 7], 7));
    assert!(!is_nmi(&vec![3, 7], 4));
    let io_apics = vec![(0u32, 23u32), (24, 23)];
    assert_eq!(io_apic_for_target(&io_apics, 23), Some(0));
    assert_eq!(io_apic_for_target(&io_apics, 30), Some(1));
    assert_eq!(io_apic_for_target(&io_apics, 48), None);
}

#[test]
fn apic_redirection_entries() {
    let overrides = vec![ovr(0, 2, false, false), ovr(9, 9, true, true)];
    // the PIT arrives at GSI 2 and keeps vector 32
    let e = redirection_entry(&overrides, 2, 0);
    assert_eq!(e.vector, 32);
    assert!(e.masked && !e.low_active && !e.level_triggered);
    assert_eq!(e.mode, IrqMode::Fixed);
    let e = redirection_entry(&overrides, 9, 1);
    assert_eq!(e.vector, 41);
    assert!(e.low_active && e.level_triggered);
    assert_eq!(e.dest, 1);
    let e = redirection_entry(&overrides, 4, 0);
    assert_eq!(e.vector, 36);
    let n = nmi_entry(true, false, 3);
    assert_eq!(n.mode, IrqMode::NonMaskable);
    assert_eq!(n.vector, 0);
    assert_eq!(n.dest, 3);
}

#[test]
fn apic_allow_finds_the_io_apic() {
    let overrides = vec![ovr(0, 2, false, false)];
    let io_apics = vec![(0u32, 23u32)];
    // the PIT vector 32 is ISA 0, which is GSI 2
    assert_eq!(allow_target(&overrides, &vec![], &io_apics, 32), Ok((0, 2)));
    assert_eq!(allow_target(&overrides, &vec![2], &io_apics, 32), Err(AllowError::NonMaskable));
    assert_eq!(allow_target(&overrides, &vec![], &io_apics, 32 + 30), Err(AllowError::NoIoApic));
    assert_eq!(timer_initial_count(1000, 10), 10000);
    assert_eq!(timer_initial_count(0x1_0000_0000, 1), 0);
    assert_eq!(calibrated_ticks_per_ms(0xffff_ffff - 500_000), 10_000);
}

#[test]
fn boot_memory_map_scans() {
    assert_eq!(page_align_up(4097), 8192);
    assert_eq!(page_align_up(4096), 4096);
    assert_eq!(page_align_down(8191), 4096);
    let areas = vec![
        Multiboot2Area { start: 0x100, end: 0x9f000, available: true },
        Multiboot2Area { start: 0x9f000, end: 0x100000, available: false },
        Multiboot2Area { start: 0x100000, end: 0x7fe0800, available: true },
    ];
    assert_eq!(
        scan_multiboot2_memory_map(&areas),
        vec![
            FrameRange { start: 0x1000, end: 0x9f000, unprotect: false },
            FrameRange { start: 0x100000, end: 0x7fe0000, unprotect: false },
        ]
    );
    let efi = vec![
        EfiArea { ty: 7, phys_start: 0x1000, page_count: 2 },
        EfiArea { ty: 0, phys_start: 0x3000, page_count: 1 },
        EfiArea { ty: 4, phys_start: 0x4800, page_count: 1 },
        EfiArea { ty: 11, phys_start: 0x10000, page_count: 4 },
    ];
    assert_eq!(
        scan_efi_memory_map(&efi),
        vec![
            FrameRange { start: 0x1000, end: 0x3000, unprotect: false },
            FrameRange { start: 0x5000, end: 0x6000, unprotect: true },
        ]
    );
    assert_eq!(kernel_image_region(0x100000, 0x234567), (0x100000, 0x235000));
    assert_eq!(framebuffer_region(0xfd000000, 768, 4096), (0xfd000000, 0xfd300000));
    assert_eq!(framebuffer_region(0xfd000000, 3, 100), (0xfd000000, 0xfd001000));
}

#[test]
fn boot_self_test_pattern() {
    let mut buf = vec![0u8; 8192];
    assert!(!matches_test_pattern(&buf));
    fill_test_pattern(&mut buf);
    assert!(matches_test_pattern(&buf));
    assert_eq!(buf[300], 44);
    buf[5000] ^= 1;
    assert!(!matches_test_pattern(&buf));
}

#[test]
fn ide_commands_and_registers() {
    assert_eq!(transfer_command(TransferMode::Read, AddressType::Lba48, true), Command::ReadDmaLba48);
    assert_eq!(transfer_command(TransferMode::Write, AddressType::Lba28, false), Command::WritePioLba28);
    assert_eq!(drive_selector(true, 1, 0x0f), 0xff);
    assert_eq!(drive_selector(false, 0, 0), 0xa0);
    assert!(!needs_selection(0xa0, 0, false, 0xa0));
    assert!(needs_selection(0xa0, 1, false, 0xb0));
    assert!(!needs_selection(0xe0, 0, true, 0xe0));
    assert_eq!(lba28_registers(0x0123_4567, 8), (0x01, 8, 0x67, 0x45, 0x23));
    assert_eq!(lba48_registers(0x0102_0304_0506, 0x0708), [0x07, 0x03, 0x02, 0x01, 0x08, 0x06, 0x05, 0x04]);
    assert_eq!(max_sectors_per_command(AddressType::Lba48), 65535);
    assert_eq!(max_sectors_per_command(AddressType::Chs), 255);
}

#[test]
fn ide_transfers_are_cut_into_commands() {
    let c = next_chunk(100, 600, 0, 255, 512);
    assert_eq!((c.start, c.count, c.buffer_start, c.buffer_end), (100, 255, 0, 255 * 512));
    let c = next_chunk(100, 600, 510, 255, 512);
    assert_eq!((c.start, c.count, c.buffer_start, c.buffer_end), (610, 90, 510 * 512, 600 * 512));
    assert_eq!(dma_pages(16, 512), (2, 1));
    assert_eq!(dma_pages(1, 512), (1, 1));
    let prds = prd_entries(0x10000, 3);
    assert_eq!(prds.len(), 3);
    assert_eq!(prds[1].base_address, 0x11000);
    assert_eq!(prds[0].flags, 0);
    assert_eq!(prds[2].flags, PRD_END_OF_TRANSMISSION);
}

#[test]
fn ide_controller_channels() {
    assert!(controller_supports_dma(0x8a));
    assert!(!controller_supports_dma(0x0a));
    assert_eq!(channel_interface(0x8a, 0), 0x8a);
    assert_eq!(channel_interface(0x8a, 1), 0x22);
    assert!(needs_native_switch(0x02));
    assert!(!needs_native_switch(0x03));
    assert!(!needs_native_switch(0x00));
    assert_eq!(native_switch_config(0x0101_8a00, 0), 0x0101_8b00);
    assert_eq!(native_switch_config(0x0101_8a00, 1), 0x0101_8e00);
    assert_eq!(channel_base_addresses(0x02, 1, 0xc000, 0xc100), (0x0170, 0x0374));
    assert_eq!(channel_base_addresses(0x03, 0, 0xc000, 0xc100), (0xc000, 0xc100));
}

#[test]
fn ide_reset_signatures() {
    assert_eq!(classify_reset(0, 1, 1, 0, 0), (true, Some(DriveType::Ata)));
    assert_eq!(classify_reset(1, 1, 1, 0x14, 0xeb), (true, Some(DriveType::Atapi)));
    assert_eq!(classify_reset(0, 1, 1, 0x69, 0x96), (true, Some(DriveType::Atapi)));
    assert_eq!(classify_reset(4, 1, 1, 0, 0), (false, Some(DriveType::Other)));
    assert_eq!(classify_reset(0, 2, 1, 0, 0), (false, Some(DriveType::Other)));
    assert_eq!(classify_reset(0, 1, 1, 0x3c, 0xc3), (false, None));
}

#[test]
fn ne2k_packet_headers() {
    let h = PacketHeader::parse([0x01, 0x4c, 0x40, 0x00]);
    assert_eq!(h, PacketHeader { receive_status: 1, next_packet: 0x4c, length: 60 });
    assert!(h.is_acceptable());
    let bad = PacketHeader::parse([0x02, 0x4c, 0x40, 0x00]);
    assert!(!bad.is_acceptable());
    let long = PacketHeader::parse([0x01, 0x4c, 0x00, 0x08]);
    assert_eq!(long.length, 2044);
    assert!(!long.is_acceptable());
    let s = receive_step(h);
    assert!(s.accept);
    assert_eq!(s.boundary, 0x4b);
    // a packet that ends at the start of the ring wraps the boundary
    assert_eq!(next_boundary(0x46), RECEIVE_STOP_PAGE - 1);
    assert_eq!(next_boundary(0x47), 0x46);
    assert_eq!(length_bytes(1514), (0xea, 0x05));
}

#[test]
fn ne2k_interrupts_and_overflow() {
    let i = Interrupts::from_status(0x13);
    assert!(i.rcv && i.ptx && i.ovw);
    let i = Interrupts::from_status(0x00);
    assert!(!i.rcv && !i.ptx && !i.ovw);
    // a transmission was under way and did not finish: send again
    assert!(overflow_resend(0x26, 0x10));
    // it finished or failed: do not
    assert!(!overflow_resend(0x26, 0x12));
    assert!(!overflow_resend(0x26, 0x18));
    // nothing was being sent
    assert!(!overflow_resend(0x22, 0x10));
}

#[test]
fn rtl8139_receive_ring() {
    let mut rb = ReceiveBuffer::new();
    assert_eq!(rb.data.len(), BUFFER_SIZE);
    // a good packet of 6 bytes at the start of the ring
    rb.data[0] = 0x01;
    rb.data[1] = 0x00;
    rb.data[2] = 6;
    rb.data[3] = 0;
    for i in 0..6 {
        rb.data[4 + i] = 10 + i as u8;
    }
    let p = rb.take_packet().unwrap();
    assert_eq!(p, vec![10, 11, 12, 13, 14, 15]);
    // 4 + 6 = 10, aligned to 12
    assert_eq!(rb.index, 12);
    // a bad packet leaves the read position
    assert_eq!(rb.take_packet(), None);
    assert_eq!(rb.index, 12);
    // a packet near the end of the ring wraps the read position
    rb.index = 8184;
    rb.data[8184] = 0x01;
    rb.data[8186] = 20;
    let p = rb.take_packet().unwrap();
    assert_eq!(p.len(), 20);
    assert_eq!(rb.index, 8208 - 8192);
}

#[test]
fn rtl8139_transmit_and_interrupts() {
    let mut ring = TransmitRing::new();
    let used: Vec<usize> = (0..6).map(|_| ring.next_descriptor()).collect();
    assert_eq!(used, vec![0, 1, 2, 3, 0, 1]);
    ring.index = 255;
    assert_eq!(ring.next_descriptor(), 3);
    assert_eq!(ring.next_descriptor(), 0);
    assert!(descriptor_available(0x2000));
    assert!(!descriptor_available(0x8000));
    assert_eq!(descriptor_ports(0xc000, 2), (0xc018, 0xc028));
    assert_eq!(classify_interrupt(0x0008), Err(InterruptFailure::TransmitFailed));
    assert_eq!(classify_interrupt(0x000a), Err(InterruptFailure::TransmitFailed));
    assert_eq!(classify_interrupt(0x0002), Err(InterruptFailure::ReceiveFailed));
    assert_eq!(classify_interrupt(0x0005), Ok(InterruptWork { free_sent: true, receive: true }));
    assert_eq!(classify_interrupt(0x0000), Ok(InterruptWork { free_sent: false, receive: false }));
}

#[test]
fn ps2_mouse_packets() {
    let mut s = MouseState::new();
    // a byte without the always-one bit is skipped
    assert_eq!(s.feed(0x00, MouseType::Standard), None);
    assert_eq!(s.feed(0x09, MouseType::Standard), None);
    assert_eq!(s.feed(0x05, MouseType::Standard), None);
    assert_eq!(s.feed(0xfe, MouseType::Standard), Some(0x00fe_0509));
    assert_eq!(s.cycle, 0);
    // four bytes for an IntelliMouse, whose top nibble is dropped
    assert_eq!(s.feed(0x08, MouseType::IntelliMouse), None);
    assert_eq!(s.feed(0x01, MouseType::IntelliMouse), None);
    assert_eq!(s.feed(0x02, MouseType::IntelliMouse), None);
    assert_eq!(s.feed(0xff, MouseType::IntelliMouse), Some(0x0f02_0108));
    // the Explorer keeps all four bytes
    for b in [0x08, 0x01, 0x02] {
        assert_eq!(s.feed(b, MouseType::IntelliMouseExplorer), None);
    }
    assert_eq!(s.feed(0xff, MouseType::IntelliMouseExplorer), Some(0xff02_0108));
    assert_eq!(choose_mouse_type(MouseType::IntelliMouse, Some(MouseType::IntelliMouseExplorer)), MouseType::IntelliMouseExplorer);
    assert_eq!(choose_mouse_type(MouseType::IntelliMouse, Some(MouseType::Standard)), MouseType::IntelliMouse);
    assert_eq!(choose_mouse_type(MouseType::Standard, None), MouseType::Standard);
}

#[test]
fn virtio_pages_and_ranges() {
    assert_eq!(align_up(0), 4096);
    assert_eq!(align_up(4095), 4096);
    assert_eq!(align_up(4096), 8192);
    assert_eq!(pages(0), 0);
    assert_eq!(pages(4097), 2);
    assert!(overlaps(0, 10, 5, 15));
    assert!(!overlaps(0, 10, 10, 20));
    assert_eq!(VirtioGpuCtrlHdr::with_type(0x0100).type_, 0x0100);
    assert_eq!(VirtioGpuError::QueueExhausted.message(), "Virtqueue lacks available descriptors");
}

#[test]
fn virtio_bars_and_interrupts() {
    let fb = (0xfd00_0000u64, 0xfd30_0000u64);
    assert_eq!(bar_mapping(0xfe00_0000, 0x4000, fb.0, fb.1), BarMapping::Identity(0xfe00_0000, 0xfe00_4000));
    assert_eq!(bar_mapping(0xfe00_0000, 0, fb.0, fb.1), BarMapping::Skip);
    assert_eq!(bar_mapping(0xfe00_0800, 0x4000, fb.0, fb.1), BarMapping::Skip);
    assert_eq!(bar_mapping(0, 0x1000, fb.0, fb.1), BarMapping::Skip);
    assert_eq!(bar_mapping(0xfd00_0000, 0x100_0000, fb.0, fb.1), BarMapping::ReuseFramebuffer(Some((0xfd30_0000, 0xfe00_0000))));
    assert_eq!(bar_mapping(0xfd00_0000, 0x10_0000, fb.0, fb.1), BarMapping::ReuseFramebuffer(None));
    assert_eq!(interrupt_vector_of_line(11), Some(43));
    assert_eq!(interrupt_vector_of_line(0), None);
    assert_eq!(interrupt_vector_of_line(0xff), None);
}

#[test]
fn virtio_capability_list() {
    let mut c = vec![0u8; 0x110];
    // status: capability list present
    c[6] = 0x10;
    c[0x34] = 0x40;
    // a vendor capability at 0x40, then a power management one at 0x50,
    // then another vendor capability at 0x60
    c[0x40] = 0x09;
    c[0x41] = 0x50;
    c[0x42] = 16;
    c[0x43] = 1;
    c[0x44] = 4;
    c[0x48] = 0x00;
    c[0x49] = 0x30;
    c[0x4c] = 0x00;
    c[0x4d] = 0x10;
    c[0x50] = 0x01;
    c[0x51] = 0x60;
    c[0x60] = 0x09;
    c[0x61] = 0x00;
    c[0x63] = 2;
    let caps = read_capabilities(&c);
    assert_eq!(caps.len(), 2);
    assert_eq!(caps[0].cfg_type, 1);
    assert_eq!(caps[0].bar, 4);
    assert_eq!(caps[0].offset, 0x3000);
    assert_eq!(caps[0].length, 0x1000);
    assert_eq!(caps[1].cfg_type, 2);
    c[6] = 0;
    assert!(read_capabilities(&c).is_empty());
}

fn put_string(words: &mut [u16], first_word: usize, text: &[u8]) {
    for i in 0..text.len() / 2 {
        words[first_word + i] = ((text[2 * i] as u16) << 8) | text[2 * i + 1] as u16;
    }
}

#[test]
fn identify_strings_are_swapped_and_trimmed() {
    let mut words = [0u16; 256];
    put_string(&mut words, 10, b"QM00001   ");
    put_string(&mut words, 23, b"2.5+");
    put_string(&mut words, 27, b"QEMU HARDDISK                           ");
    words[60] = 0x5000;
    words[61] = 0x0001;
    let info = parse_identify(&words, 0, 1, DriveType::Ata);
    assert_eq!(info.model(), b"QEMU HARDDISK");
    assert_eq!(info.serial(), b"QM00001");
    assert_eq!(info.firmware(), b"2.5+");
    assert_eq!(info.max_sectors_lba28, 0x0001_5000);
    assert_eq!(info.drive, 1);
}

#[test]
fn trim_takes_off_unicode_white_space() {
    assert_eq!(trim_utf8(b"  abc \t\n"), b"abc");
    assert_eq!(trim_utf8(b"   "), b"");
    assert_eq!(trim_utf8(b""), b"");
    assert_eq!(trim_utf8(b"a b"), b"a b");
    let text = "\u{a0}\u{3000} d\u{e9}j\u{e0} vu\u{2028}\u{85}";
    assert_eq!(trim_utf8(text.as_bytes()), "d\u{e9}j\u{e0} vu".as_bytes());
    let emoji = "\u{1f600}\u{2003}";
    assert_eq!(trim_utf8(emoji.as_bytes()), "\u{1f600}".as_bytes());
    assert_eq!(trim_utf8(text.as_bytes()), text.trim().as_bytes());
}

#[test]
fn pio_words_are_little_endian() {
    let buffer: Vec<u8> = (0..16u8).collect();
    assert_eq!(sector_words(&buffer, 1, 8), vec![0x0908, 0x0b0a, 0x0d0c, 0x0f0e]);
    assert_eq!(sector_words(&buffer, 0, 4), vec![0x0100, 0x0302]);
    let mut target = vec![0xeeu8; 12];
    store_sector_words(&mut target, 1, 4, &[0x1234, 0xabcd]);
    assert_eq!(target, vec![0xee, 0xee, 0xee, 0xee, 0x34, 0x12, 0xcd, 0xab, 0xee, 0xee, 0xee, 0xee]);
    let words = sector_words(&target, 1, 4);
    let mut copy = vec![0u8; 12];
    store_sector_words(&mut copy, 1, 4, &words);
    assert_eq!(&copy[4..8], &target[4..8]);
}

#[test]
fn mouse_buffer_drops_oldest_when_full() {
    let mut b = MousePacketBuffer::new(2);
    assert_eq!(b.pop(), None);
    b.push(1);
    b.push(2);
    assert_eq!(b.len(), 2);
    b.push(3);
    assert_eq!(b.len(), 2);
    assert_eq!(b.pop(), Some(2));
    assert_eq!(b.pop(), Some(3));
    assert_eq!(b.pop(), None);
}

#[test]
fn ata_transfer_splits_and_stops() {
    let mut t = AtaTransfer::new(100, 600, AddressType::Lba28, 512);
    let c = t.next_command().unwrap();
    assert_eq!((c.start, c.count, c.buffer_start, c.buffer_end), (100, 255, 0, 255 * 512));
    t.finish_command(255);
    let c = t.next_command().unwrap();
    assert_eq!((c.start, c.count), (355, 255));
    t.finish_command(100);
    let c = t.next_command().unwrap();
    assert_eq!((c.start, c.count, c.buffer_start), (455, 245, 355 * 512));
    t.finish_command(0);
    assert_eq!(t.next_command(), None);
    assert_eq!(t.processed, 355);
    let mut done = AtaTransfer::new(0, 3, AddressType::Lba48, 512);
    assert_eq!(done.next_command().unwrap().count, 3);
    done.finish_command(3);
    assert_eq!(done.next_command(), None);
    assert_eq!(done.processed, 3);
}
