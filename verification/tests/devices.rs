use d3os_core::bits::{ilog2_u32, ilog2_u64, next_power_of_two_u32, next_power_of_two_u64};
use d3os_core::capabilities::{naming_capability_flags, OpenOptions, Syscall};
use d3os_core::cpu::{tsc_bit, tsc_feature_query, Cpu, CpuError};
use d3os_core::mouse::{ButtonState, MouseButtonState, MouseCursor, ScrollDirection};
use d3os_core::pit::{elapsed_ticks, interrupt_rate, AccessMode, Command, OperatingMode, SystemTime, WaitClock};
use d3os_core::qemu_cfg::is_qemu_signature;
use d3os_core::serial::{divisor_bytes, interrupt_pending, readable, to_line_bytes, writable, BaudRate, ComInterrupt, ComPort};
use d3os_core::tty::{TtyInput, TtyInputState, TtyOutput};

#[test]
fn integer_logarithm_and_next_power_of_two() {
    assert_eq!(ilog2_u64(1), 0);
    assert_eq!(ilog2_u64(1024), 10);
    assert_eq!(ilog2_u64(1025), 10);
    assert_eq!(ilog2_u64(u64::MAX), 63);
    assert_eq!(ilog2_u32(255), 7);
    assert_eq!(next_power_of_two_u64(0), 1);
    assert_eq!(next_power_of_two_u64(1), 1);
    assert_eq!(next_power_of_two_u64(257), 512);
    assert_eq!(next_power_of_two_u32(256), 256);
    assert_eq!(next_power_of_two_u32(300), 512);
}

#[test]
fn button_states_follow_the_press_cycle() {
    let mut s = ButtonState::Idle;
    let downs = [true, true, false, false, true, false, true];
    let expected = [
        ButtonState::Pressed,
        ButtonState::Down,
        ButtonState::Released,
        ButtonState::Idle,
        ButtonState::Pressed,
        ButtonState::Released,
        ButtonState::Pressed,
    ];
    for (d, e) in downs.iter().zip(expected.iter()) {
        s = s.next_state(*d);
        assert_eq!(s, *e);
    }
    // an idle button that stays up stays idle, a held one stays down
    assert_eq!(ButtonState::Idle.next_state(false), ButtonState::Idle);
    assert_eq!(ButtonState::Down.next_state(true), ButtonState::Down);
}

#[test]
fn mouse_buttons_advance_independently() {
    let b = MouseButtonState::new();
    assert_eq!(b.left, ButtonState::Idle);
    let b = b.advance(true, false, true, false, false);
    assert_eq!(b.left, ButtonState::Pressed);
    assert_eq!(b.right, ButtonState::Idle);
    assert_eq!(b.middle, ButtonState::Pressed);
    let b = b.advance(true, false, false, false, false);
    assert_eq!(b.left, ButtonState::Down);
    assert_eq!(b.middle, ButtonState::Released);
}

#[test]
fn scroll_direction_from_wheel() {
    assert_eq!(ScrollDirection::from_dz(-1), ScrollDirection::Up);
    assert_eq!(ScrollDirection::from_dz(1), ScrollDirection::Down);
    assert_eq!(ScrollDirection::from_dz(-2), ScrollDirection::Right);
    assert_eq!(ScrollDirection::from_dz(2), ScrollDirection::Left);
    assert_eq!(ScrollDirection::from_dz(0), ScrollDirection::NoScroll);
    assert_eq!(ScrollDirection::from_dz(5), ScrollDirection::NoScroll);
}

#[test]
fn cursor_remembers_where_it_was_drawn() {
    let mut c = MouseCursor::new();
    c.update(10, 20);
    assert_eq!(c.mark_drawn(), 0);
    c.update(30, 40);
    assert_eq!(c.mark_drawn(), 20);
    assert_eq!(c.last_position, (30, 40));
}

#[test]
fn syscall_and_naming_capabilities() {
    let s = Syscall::new(7, 0x1234);
    assert_eq!(s.number(), 7);
    assert_eq!(s.function_pointer(), 0x1234);
    let f = naming_capability_flags(OpenOptions { readonly: true, writeonly: false, readwrite: false, share: false });
    assert!(f.read && !f.write && !f.share);
    let f = naming_capability_flags(OpenOptions { readonly: false, writeonly: false, readwrite: true, share: true });
    assert!(f.read && f.write && f.share);
    let f = naming_capability_flags(OpenOptions { readonly: false, writeonly: true, readwrite: false, share: false });
    assert!(!f.read && f.write);
}

#[test]
fn cpu_features_from_cpuid_leaves() {
    let cpu = Cpu::from_features(Some((46, 57)), Some(true)).unwrap();
    assert_eq!(cpu.physical_address_bits(), 46);
    assert_eq!(cpu.linear_address_bits(), 57);
    assert!(cpu.supports_1gib_pages());
    assert_eq!(Cpu::from_features(None, Some(true)), Err(CpuError::NoCapacityInfo));
    assert_eq!(Cpu::from_features(Some((36, 48)), None), Err(CpuError::NoExtendedFeatures));
    assert!(tsc_bit(0x10));
    assert!(!tsc_bit(0xef));
    assert_eq!(tsc_feature_query(), (1, 0));
}

#[test]
fn cpu_features_of_this_machine() {
    // every x86-64 processor reports its address widths
    let cpu = Cpu::new().unwrap();
    assert!(cpu.physical_address_bits() >= 32);
    assert!(cpu.linear_address_bits() >= 48);
    // x86-64 processors have a time stamp counter
    assert!(cpu.has_tsc());
}

#[test]
fn pit_command_bytes() {
    // channel 0, low then high byte, rate generator, binary
    assert_eq!(Command::new(OperatingMode::RateGenerator, AccessMode::LowByteHighByte).as_u8(), 0x34);
    // latching the count of channel 0
    assert_eq!(Command::new(OperatingMode::InterruptOnTerminalCount, AccessMode::LatchCount).as_u8(), 0x00);
}

#[test]
fn pit_rate_and_elapsed_ticks() {
    // 1 ms: 1000000 / 838 = 1193 ticks
    assert_eq!(interrupt_rate(1), (1193, 1193 * 838));
    // long intervals saturate at the 16-bit divisor
    assert_eq!(interrupt_rate(100), (65535, 65535 * 838));
    let interval = 1193 * 838;
    assert_eq!(elapsed_ticks(1000, 400, interval), 600);
    // wrapped around: 1193 - 1100 + 100
    assert_eq!(elapsed_ticks(100, 1100, interval), 193);
    // an interval above 16 bits of ticks: the reload value is truncated
    let long = 70000 * 838;
    assert_eq!(elapsed_ticks(10, 4000, long), (70000u32 as u16) - 4000 + 10);
}

#[test]
fn wait_clock_counts_ticks() {
    let interval = 1193 * 838;
    let mut clock = WaitClock::start(1000);
    assert!(!clock.is_done(1));
    clock.advance(400, interval);
    assert_eq!(clock.elapsed_ns, 600 * 838);
    clock.advance(1100, interval);
    assert_eq!(clock.elapsed_ns, (600 + 493) * 838);
    assert_eq!(clock.last, 1100);
    assert!(clock.is_done(1093 * 838));
    assert!(!clock.is_done(1093 * 838 + 1));
}

#[test]
fn system_time_counts_intervals() {
    let mut t = SystemTime { interval_ns: 999_726, systime_ns: 0 };
    for _ in 0..3 {
        t.inc_systime();
    }
    assert_eq!(t.systime_ns, 2_999_178);
    assert_eq!(t.systime_ms(), 2);
}

#[test]
fn qemu_signature() {
    assert!(is_qemu_signature(*b"QEMU"));
    assert!(!is_qemu_signature(*b"QEMV"));
    assert!(!is_qemu_signature([0, 0, 0, 0]));
}

#[test]
fn serial_ports_and_rates() {
    assert_eq!(ComPort::Com1.base(), 0x3f8);
    assert_eq!(ComPort::Com4.base(), 0x2e8);
    let r = ComPort::Com2.registers();
    assert_eq!(r.line_status, 0x2fd);
    assert_eq!(r.scratch, 0x2ff);
    assert_eq!(ComPort::Com3.interrupt(), ComInterrupt::Com1);
    assert_eq!(ComPort::Com4.interrupt(), ComInterrupt::Com2);
    assert_eq!(BaudRate::Baud115200.divisor(), 1);
    assert_eq!(BaudRate::Baud9600.divisor(), 12);
    assert_eq!(divisor_bytes(0x0102), (0x02, 0x01));
    assert!(readable(0x61) && !readable(0x60));
    assert!(writable(0x60) && !writable(0x21));
    assert!(interrupt_pending(0xc1) && !interrupt_pending(0xc2));
}

#[test]
fn serial_line_feeds_get_carriage_returns() {
    assert_eq!(to_line_bytes(b"a\nb\n"), b"a\r\nb\r\n".to_vec());
    assert_eq!(to_line_bytes(b""), Vec::<u8>::new());
}

#[test]
fn tty_input_state_numbers() {
    for s in [TtyInputState::Idle, TtyInputState::Waiting, TtyInputState::Ready] {
        assert_eq!(TtyInputState::from_usize(s.to_usize()), s);
    }
    assert_eq!(TtyInputState::from_usize(9), TtyInputState::Idle);
}

#[test]
fn tty_input_delivers_to_a_waiting_reader_of_the_same_mode() {
    let mut input = TtyInput::new();
    // no reader yet: nothing is delivered
    assert_eq!(input.write(b"xy", 0), 0);
    input.begin_read(1);
    assert_eq!(input.state(), TtyInputState::Waiting);
    // another mode: nothing is delivered
    assert_eq!(input.write(b"xy", 0), 0);
    assert!(!input.is_ready());
    assert_eq!(input.write(b"hello", 1), 5);
    assert!(input.is_ready());
    let mut buf = vec![0u8; 3];
    assert_eq!(input.finish_read(&mut buf), 3);
    assert_eq!(buf, b"hel".to_vec());
    assert_eq!(input.state(), TtyInputState::Idle);
    input.begin_read(1);
    let mut buf = vec![9u8; 4];
    // the rest is still buffered
    assert_eq!(input.finish_read(&mut buf), 2);
    assert_eq!(buf, vec![b'l', b'o', 9, 9]);
}

#[test]
fn tty_output_reads_what_was_written() {
    let mut out = TtyOutput::new();
    assert_eq!(out.write(b"abc"), 3);
    assert_eq!(out.write(b"de"), 2);
    let mut buf = vec![0u8; 4];
    assert_eq!(out.read(&mut buf), 4);
    assert_eq!(buf, b"abcd".to_vec());
    let mut buf = vec![0u8; 4];
    assert_eq!(out.read(&mut buf), 1);
    assert_eq!(buf[0], b'e');
}
