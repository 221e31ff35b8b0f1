use bootloader::bytes::{u32_from_le, u32_to_le};
use bootloader::clock::{
    get_main_clock_rate, get_system_clock_rate, ClockRegisters, MainClockSource,
};
use bootloader::descriptor::find_iface_pos;
use bootloader::device::{commit_status, erase_status, write_status};
use bootloader::flash::{CommitError, EraseError, FlashError};
use bootloader::led::{led_advance_blink, tick_led_blink, LED_BLINK_INTENSITY_LOOP};
use bootloader::report::{
    write_firmware_report, write_heartbeat_packet, write_hwinfo_report, write_report_0x94,
};

/// A configuration descriptor with one HID and two CDC interfaces.
const CONFIGURATION: [u8; 101] = [
    9, 2, 100, 0, 3, 1, 0, 0x80, 0x32, // configuration
    9, 4, 0, 0, 1, 3, 0, 0, 0, // interface 0
    9, 0x21, 0x11, 0x01, 0, 1, 0x22, 33, 0, // HID
    7, 5, 0x81, 3, 64, 0, 6, // endpoint
    8, 0x0B, 1, 2, 2, 2, 0, 4, // interface association
    9, 4, 1, 0, 1, 2, 2, 0, 4, // interface 1
    5, 0x24, 0, 110, 0, // CDC header
    5, 0x24, 1, 1, 2, // CDC call management
    4, 0x24, 2, 2, // CDC abstract control management
    5, 0x24, 6, 1, 2, // CDC union
    7, 5, 0x83, 3, 16, 0, 2, // endpoint
    9, 4, 2, 0, 2, 0x0A, 0, 0, 4, // interface 2
    7, 5, 0x82, 2, 64, 0, 0, // endpoint
    7, 5, 0x03, 2, 64, 0, 0, // endpoint
    0,
];

fn registers(source: MainClockSource) -> ClockRegisters {
    ClockRegisters {
        source,
        watchdog_freqsel: 1,
        watchdog_divsel: 0,
        pll_msel: 3,
        ahb_divider: 1,
    }
}

#[test]
fn little_endian_bytes() {
    assert_eq!(u32_to_le(0x1234_5678), [0x78, 0x56, 0x34, 0x12]);
    assert_eq!(u32_to_le(0), [0, 0, 0, 0]);
    assert_eq!(u32_to_le(u32::MAX), [0xFF; 4]);
    assert_eq!(u32_to_le(0xECAA_BAC0), [0xC0, 0xBA, 0xAA, 0xEC]);
    assert_eq!(u32_from_le(0x78, 0x56, 0x34, 0x12), 0x1234_5678);
    assert_eq!(u32_from_le(0xFF, 0xFF, 0xFF, 0xFF), u32::MAX);
    assert_eq!(u32_from_le(0, 1, 0, 0), 256);
}

#[test]
fn status_report_layout() {
    let report = write_report_0x94(0x0304);
    assert_eq!(&report[..4], &[0x94, 2, 0x04, 0x03]);
    assert!(report[4..].iter().all(|b| *b == 0));
    assert_eq!(&write_report_0x94(0)[..4], &[0x94, 2, 0, 0]);
    assert_eq!(&write_report_0x94(0xFFFF)[..4], &[0x94, 2, 0xFF, 0xFF]);
}

#[test]
fn firmware_report_layout() {
    let report = write_firmware_report();
    assert_eq!(report[0], 0x92);
    assert!(report[1..].iter().all(|b| *b == 0));
}

#[test]
fn hwinfo_report_layout() {
    let report = write_hwinfo_report(0xAABB_CCDD, 0x0102_0304);
    assert_eq!(
        &report[..17],
        &[
            0x83, 0x0F, 1, 0x02, 0x10, 0, 0, 4, 0xDD, 0xCC, 0xBB, 0xAA, 9, 0x04, 0x03, 0x02,
            0x01
        ]
    );
    assert!(report[17..].iter().all(|b| *b == 0));
}

#[test]
fn heartbeat_packet_layout() {
    assert_eq!(
        write_heartbeat_packet(0x0A0B_0C0D),
        [1, 0, 4, 0x0C, 0x0D, 0x0C, 0x0B, 0x0A, 0, 0, 0, 0, 0, 0, 0, 0]
    );
    assert_eq!(
        write_heartbeat_packet(u32::MAX),
        [1, 0, 4, 0x0C, 0xFF, 0xFF, 0xFF, 0xFF, 0, 0, 0, 0, 0, 0, 0, 0]
    );
}

#[test]
fn erase_and_write_codes() {
    assert_eq!(erase_status(Ok(())), 0);
    assert_eq!(erase_status(Err(EraseError::PrepareFailed)), 1);
    assert_eq!(erase_status(Err(EraseError::EraseFailed)), 1);
    assert_eq!(write_status(Ok(())), 0);
    assert_eq!(write_status(Err(FlashError::OutOfRange)), 1);
    assert_eq!(write_status(Err(FlashError::FlashProgramFailed)), 1);
}

#[test]
fn commit_codes() {
    assert_eq!(commit_status(Ok(())), 0);
    assert_eq!(commit_status(Err(CommitError::FlushPrepareFailed)), 2);
    assert_eq!(commit_status(Err(CommitError::FlushProgramFailed)), 3);
    assert_eq!(commit_status(Err(CommitError::SignatureMismatch)), 4);
    assert_eq!(commit_status(Err(CommitError::MarkerPrepareFailed)), 5);
    assert_eq!(commit_status(Err(CommitError::MarkerEraseFailed)), 6);
    assert_eq!(commit_status(Err(CommitError::MarkerReprepareFailed)), 7);
    assert_eq!(commit_status(Err(CommitError::MarkerProgramFailed)), 8);
}

#[test]
fn led_curve() {
    assert_eq!(tick_led_blink(0), 0);
    assert_eq!(tick_led_blink(1), 1);
    assert_eq!(tick_led_blink(64), 0x2E2);
    assert_eq!(tick_led_blink(127), 0xFEC);
    assert_eq!(tick_led_blink(128), 0);
    assert_eq!(tick_led_blink(255), 0);
    for tick in 0..128u8 {
        assert_eq!(tick_led_blink(tick), LED_BLINK_INTENSITY_LOOP[tick as usize]);
    }
    for tick in 1..128usize {
        assert!(LED_BLINK_INTENSITY_LOOP[tick - 1] <= LED_BLINK_INTENSITY_LOOP[tick]);
    }
}

#[test]
fn led_advance_wraps() {
    assert_eq!(led_advance_blink(0), (1, 1));
    assert_eq!(led_advance_blink(5), (6, 2));
    assert_eq!(led_advance_blink(126), (127, 0xFEC));
    assert_eq!(led_advance_blink(127), (0, 0));
    assert_eq!(led_advance_blink(200), (73, 0x400));
    assert_eq!(led_advance_blink(255), (0, 0));
}

#[test]
fn main_clock_from_the_oscillator() {
    assert_eq!(get_main_clock_rate(&registers(MainClockSource::IrcOscillator)), 12_000_000);
    assert_eq!(get_main_clock_rate(&registers(MainClockSource::PllInput)), 12_000_000);
}

#[test]
fn main_clock_from_the_pll() {
    assert_eq!(get_main_clock_rate(&registers(MainClockSource::PllOutput)), 48_000_000);
    let mut regs = registers(MainClockSource::PllOutput);
    regs.pll_msel = 0;
    assert_eq!(get_main_clock_rate(&regs), 12_000_000);
    regs.pll_msel = 255;
    assert_eq!(get_main_clock_rate(&regs), 3_072_000_000);
}

#[test]
fn main_clock_from_the_watchdog_oscillator() {
    let mut regs = registers(MainClockSource::WatchdogOscillator);
    assert_eq!(get_main_clock_rate(&regs), 300_000);
    regs.watchdog_divsel = 31;
    assert_eq!(get_main_clock_rate(&regs), 9_375);
    regs.watchdog_freqsel = 15;
    regs.watchdog_divsel = 0;
    assert_eq!(get_main_clock_rate(&regs), 2_300_000);
    regs.watchdog_freqsel = 0;
    assert_eq!(get_main_clock_rate(&regs), 0);
    regs.watchdog_freqsel = 8;
    regs.watchdog_divsel = 255;
    assert_eq!(get_main_clock_rate(&regs), 3_000_000 / 512);
}

#[test]
fn system_clock_divides_the_main_clock() {
    let mut regs = registers(MainClockSource::PllOutput);
    assert_eq!(get_system_clock_rate(&regs), 48_000_000);
    regs.ahb_divider = 2;
    assert_eq!(get_system_clock_rate(&regs), 24_000_000);
    regs.ahb_divider = 255;
    assert_eq!(get_system_clock_rate(&regs), 188_235);
}

#[test]
fn interfaces_are_found_in_the_configuration() {
    assert_eq!(find_iface_pos(&CONFIGURATION, 0), Some(9));
    assert_eq!(find_iface_pos(&CONFIGURATION, 1), Some(42));
    assert_eq!(find_iface_pos(&CONFIGURATION, 2), Some(77));
    assert_eq!(find_iface_pos(&CONFIGURATION, 3), None);
    assert_eq!(CONFIGURATION[9 + 5], 3);
}

#[test]
fn descriptor_walk_ends_at_a_zero_length() {
    assert_eq!(find_iface_pos(&[0, 4, 7], 7), None);
    assert_eq!(find_iface_pos(&[3, 1, 0, 0, 4, 7, 3, 4, 7], 7), None);
    assert_eq!(find_iface_pos(&[3, 1, 0, 3, 4, 7], 7), Some(3));
}

#[test]
fn descriptor_walk_ends_where_the_bytes_are_cut_short() {
    assert_eq!(find_iface_pos(&[], 0), None);
    assert_eq!(find_iface_pos(&[9], 0), None);
    assert_eq!(find_iface_pos(&[9, 4], 0), None);
    assert_eq!(find_iface_pos(&[9, 4, 0], 0), Some(0));
    assert_eq!(find_iface_pos(&[9, 4, 1], 0), None);
    assert_eq!(find_iface_pos(&[2, 5, 9, 4], 0), None);
    assert_eq!(find_iface_pos(&[200, 5, 9, 4, 0], 0), None);
}

#[test]
fn first_matching_interface_wins() {
    assert_eq!(find_iface_pos(&[3, 4, 1, 3, 4, 2, 3, 4, 2], 2), Some(3));
}
