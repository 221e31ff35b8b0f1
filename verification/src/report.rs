//! The fixed layouts that leave the device: the 64-byte feature reports and
//! the 16-byte heartbeat packet.

use crate::bytes::{le_bytes, u32_to_le};
use vstd::prelude::*;

verus! {

/// Length of every feature report.
pub const REPORT_LEN: usize = 64;

/// Length of the heartbeat packet.
pub const HEARTBEAT_LEN: usize = 16;

/// Opcode of the generic status report.
pub const REPORT_STATUS: u8 = 0x94;

/// Opcode of the hardware information report.
pub const REPORT_HWINFO: u8 = 0x83;

/// Opcode of the report that acknowledges firmware data.
pub const REPORT_FIRMWARE: u8 = 0x92;

/// The product id that the hardware information report carries.
pub const PRODUCT_ID: u32 = 0x1002;

/// `fields` at the front of a report, zeros behind it.
pub open spec fn report_with(fields: Seq<u8>) -> Seq<u8> {
    Seq::new(
        REPORT_LEN as nat,
        |i: int|
            if i < fields.len() {
                fields[i]
            } else {
                0u8
            },
    )
}

/// The report in which nothing was written yet.
pub open spec fn blank_report() -> Seq<u8> {
    report_with(Seq::empty())
}

/// The generic status report: opcode, length 2, the error code in
/// little-endian order.
pub open spec fn status_report(err_code: u16) -> Seq<u8> {
    report_with(seq![REPORT_STATUS, 2u8, (err_code % 256) as u8, (err_code / 256) as u8])
}

/// The report that acknowledges firmware data: the opcode and zeros.
pub open spec fn firmware_report() -> Seq<u8> {
    report_with(seq![REPORT_FIRMWARE])
}

/// The hardware information report: opcode, length 15, then three tagged
/// 32-bit fields in little-endian order: product id (tag 1), bootloader
/// version (tag 4) and stored settings version (tag 9).
pub open spec fn hwinfo_report(bootloader_version: u32, settings_version: u32) -> Seq<u8> {
    report_with(
        seq![REPORT_HWINFO, 0x0Fu8, 1u8] + le_bytes(PRODUCT_ID) + seq![4u8] + le_bytes(
            bootloader_version,
        ) + seq![9u8] + le_bytes(settings_version),
    )
}

/// The heartbeat packet with the given counter.
pub open spec fn heartbeat_packet(counter: u32) -> Seq<u8> {
    seq![1u8, 0u8, 4u8, 0x0Cu8] + le_bytes(counter) + seq![0u8, 0u8, 0u8, 0u8, 0u8, 0u8, 0u8, 0u8]
}

/// Builds the generic status report for `err_code`.
pub fn write_report_0x94(err_code: u16) -> (report: [u8; 64])
    ensures
        report@ == status_report(err_code),
{
    let mut report: [u8; 64] = [0u8; 64];
    report[0] = REPORT_STATUS;
    report[1] = 2;
    report[2] = (err_code % 256) as u8;
    report[3] = (err_code / 256) as u8;
    assert(report@ =~= status_report(err_code));
    report
}

/// Builds the report that acknowledges firmware data.
pub fn write_firmware_report() -> (report: [u8; 64])
    ensures
        report@ == firmware_report(),
{
    let mut report: [u8; 64] = [0u8; 64];
    report[0] = REPORT_FIRMWARE;
    assert(report@ =~= firmware_report());
    report
}

/// Builds the hardware information report.
pub fn write_hwinfo_report(bootloader_version: u32, settings_version: u32) -> (report: [u8; 64])
    ensures
        report@ == hwinfo_report(bootloader_version, settings_version),
{
    let product = u32_to_le(PRODUCT_ID);
    let bootloader = u32_to_le(bootloader_version);
    let settings = u32_to_le(settings_version);
    let mut report: [u8; 64] = [0u8; 64];
    report[0] = REPORT_HWINFO;
    report[1] = 0x0F;
    report[2] = 1;
    report[3] = product[0];
    report[4] = product[1];
    report[5] = product[2];
    report[6] = product[3];
    report[7] = 4;
    report[8] = bootloader[0];
    report[9] = bootloader[1];
    report[10] = bootloader[2];
    report[11] = bootloader[3];
    report[12] = 9;
    report[13] = settings[0];
    report[14] = settings[1];
    report[15] = settings[2];
    report[16] = settings[3];
    assert(report@ =~= hwinfo_report(bootloader_version, settings_version));
    report
}

/// Builds the heartbeat packet with the given counter.
pub fn write_heartbeat_packet(counter: u32) -> (packet: [u8; 16])
    ensures
        packet@ == heartbeat_packet(counter),
{
    let bytes = u32_to_le(counter);
    let mut packet: [u8; 16] = [0u8; 16];
    packet[0] = 1;
    packet[2] = 4;
    packet[3] = 0x0C;
    packet[4] = bytes[0];
    packet[5] = bytes[1];
    packet[6] = bytes[2];
    packet[7] = bytes[3];
    assert(packet@ =~= heartbeat_packet(counter));
    packet
}

} // verus!
