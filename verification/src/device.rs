//! The programming mode as a whole: the state that the command dispatcher,
//! the interrupt handlers and the main loop share, and what each of them does
//! to it.
//!
//! Nothing here touches the hardware. What has to happen there comes back as
//! an `Effect`; the answer to a flash request goes in through
//! `flash_completed`.

use crate::bytes::{le_value, u32_from_le};
use crate::flash::{
    CommitError, EraseError, FlashError, FlashEvent, FlashRequest, FlashStep, Programmer,
    ProgrammerModel,
};
use crate::framing::frame;
use crate::led::{intensity, led_advance_blink, next_tick, tick_led_blink};
use crate::report::{
    blank_report, firmware_report, heartbeat_packet, hwinfo_report, status_report,
    write_firmware_report, write_heartbeat_packet, write_hwinfo_report, write_report_0x94,
};
use crate::ring_buffer::RING_CAPACITY;
use crate::uart::{
    heartbeat_payload, reset_body, send_usart_R_if_usb_disconnected, send_usart_V_packet, sent,
    transmit, usart_send_erase_request, usart_send_reset, usart_send_sig_packet,
    usart_send_z_packet, UartModel, UartTransmitter, TAG_ERASE, TAG_HEARTBEAT,
    TAG_PROGRAM_DATA, TAG_READY, TAG_SIGNATURE,
};
use vstd::prelude::*;

verus! {

/// Reports the hardware information.
pub const GET_HWINFO: u8 = 0x83;

/// Asks for a restart into the in-system-programming mode of the ROM.
pub const REINVOKE_ISP: u8 = 0x90;

/// Erases the second program slot.
pub const ERASE_PROGRAM2: u8 = 0x91;

/// Carries firmware data for the second program slot.
pub const FLASH_FIRMWARE: u8 = 0x92;

/// Carries the expected signature of the firmware in the second program slot.
pub const VERIFY_FIRMWARE_SIG: u8 = 0x93;

/// Resets the downstream device and this one.
pub const RESET_WHOLE_SOC: u8 = 0x95;

/// Has the downstream device erase its program.
pub const NRF_ERASE_PROGRAM: u8 = 0x97;

/// Carries firmware data for the downstream device.
pub const NRF_FLASH_PROGRAM: u8 = 0x98;

/// Carries the expected signature of the downstream device's firmware.
pub const NRF_VERIFY_FIRMWARE_SIG: u8 = 0x99;

/// Stores the hardware version.
pub const SET_HARDWARE_VERSION: u8 = 0xA0;

/// The watchdog timeout that a reset command arms.
pub const WATCHDOG_TICKS: u32 = 10_000;

/// The status with which the USB stack turns a request down.
pub const USB_STALL: i32 = 0x40002;

/// The status that a relay command reports: nothing is known of what the
/// downstream device made of it.
pub const RELAY_STATUS: u16 = 2;

/// The status that an erase reports while it runs.
pub const ERASE_RUNNING: u16 = 2;

/// Input report.
pub const REPORT_TYPE_INPUT: u8 = 1;

/// Output report.
pub const REPORT_TYPE_OUTPUT: u8 = 2;

/// Feature report.
pub const REPORT_TYPE_FEATURE: u8 = 3;

/// Offset of a command's payload in its buffer.
pub const PAYLOAD_OFFSET: usize = 2;

/// Length of the signature that a verify command carries.
pub const SIGNATURE_LEN: usize = 16;

/// Mask that clears the stall bit of an endpoint's list entry.
pub const CLEAR_STALL: u32 = 0xDFFF_FFFF;

/// What the caller has to do on the hardware after a call.
#[derive(Debug, PartialEq, Eq)]
pub enum Effect<B = Vec<u8>> {
    /// Nothing.
    Nothing,
    /// Carry the flash request out and hand the answer to `flash_completed`.
    Flash(FlashRequest<B>),
    /// Load the compare value into the LED timer.
    SetLedIntensity(u16),
    /// Arm the watchdog with the timeout.
    ArmWatchdog(u32),
    /// Persist the settings with the version.
    StoreSettings(u32),
}

impl View for Effect<Vec<u8>> {
    type V = Effect<Seq<u8>>;

    open spec fn view(&self) -> Effect<Seq<u8>> {
        match *self {
            Effect::Nothing => Effect::Nothing,
            Effect::Flash(request) => Effect::Flash(request@),
            Effect::SetLedIntensity(compare) => Effect::SetLedIntensity(compare),
            Effect::ArmWatchdog(ticks) => Effect::ArmWatchdog(ticks),
            Effect::StoreSettings(version) => Effect::StoreSettings(version),
        }
    }
}

/// What an exception handler has the core do.
#[derive(Clone, Copy, Debug, PartialEq, Eq, Structural)]
pub enum ExceptionAction {
    /// Spin for ever.
    Halt,
}

/// The number that a finished erase reports: 0 for success, 1 for either
/// way to fail.
pub open spec fn erase_code(result: Result<(), EraseError>) -> u16 {
    match result {
        Ok(()) => 0,
        Err(_) => 1,
    }
}

/// The number that stands for a finished write: 0 for success, 1 for either
/// way to fail. The firmware command does not report it.
pub open spec fn write_code(result: Result<(), FlashError>) -> u16 {
    match result {
        Ok(()) => 0,
        Err(_) => 1,
    }
}

/// The number that a finished finalize reports: 0 for success, and for each
/// way to fail a number of its own.
pub open spec fn commit_code(result: Result<(), CommitError>) -> u16 {
    match result {
        Ok(()) => 0,
        Err(CommitError::FlushPrepareFailed) => 2,
        Err(CommitError::FlushProgramFailed) => 3,
        Err(CommitError::SignatureMismatch) => 4,
        Err(CommitError::MarkerPrepareFailed) => 5,
        Err(CommitError::MarkerEraseFailed) => 6,
        Err(CommitError::MarkerReprepareFailed) => 7,
        Err(CommitError::MarkerProgramFailed) => 8,
    }
}

/// Whether `buffer` holds the payload that its second byte announces.
pub open spec fn has_payload(buffer: Seq<u8>) -> bool {
    buffer.len() >= PAYLOAD_OFFSET && PAYLOAD_OFFSET + buffer[1] <= buffer.len()
}

/// The payload that the second byte of `buffer` announces.
pub open spec fn payload(buffer: Seq<u8>) -> Seq<u8> {
    buffer.subrange(PAYLOAD_OFFSET as int, PAYLOAD_OFFSET + buffer[1])
}

/// Whether `buffer` holds a signature.
pub open spec fn has_signature(buffer: Seq<u8>) -> bool {
    buffer.len() >= PAYLOAD_OFFSET + SIGNATURE_LEN
}

/// The signature that `buffer` holds.
pub open spec fn signature(buffer: Seq<u8>) -> Seq<u8> {
    buffer.subrange(PAYLOAD_OFFSET as int, PAYLOAD_OFFSET + SIGNATURE_LEN)
}

/// The counter after one more tick.
pub open spec fn next_counter(counter: u32) -> u32 {
    if counter == u32::MAX {
        0
    } else {
        (counter + 1) as u32
    }
}

/// What the programming mode is, to its callers.
pub struct DeviceModel {
    /// The programmer of the second program slot.
    pub programmer: ProgrammerModel,
    /// The serial transmitter.
    pub uart: UartModel,
    /// The report that the next get-report request is answered with.
    pub report: Seq<u8>,
    /// The step of the LED's brightness curve.
    pub led_tick: u8,
    /// The counter of the heartbeat packet.
    pub heartbeat_counter: u32,
    /// Whether heartbeat packets are sent.
    pub heartbeat_enabled: bool,
    /// Whether the heartbeat timer runs.
    pub timer_enabled: bool,
    /// Whether the heartbeat timer has fired since the main loop looked.
    pub timer_elapsed: bool,
    /// Whether the main loop is to restart into the ROM's programming mode.
    pub reinvoke_isp: bool,
    /// The version of the running bootloader.
    pub bootloader_version: u32,
    /// The version in the stored settings.
    pub settings_version: u32,
}

impl DeviceModel {
    /// What holds of every state: the parts are well formed, and the report
    /// has its full length.
    pub open spec fn wf(self) -> bool {
        &&& self.programmer.wf()
        &&& self.uart.queue.len() <= RING_CAPACITY
        &&& self.report.len() == crate::report::REPORT_LEN
    }

    /// The state in which the programming mode starts: nothing is queued
    /// for the serial line, the LED is dark, the heartbeat timer runs, and
    /// heartbeat packets are not sent yet.
    pub open spec fn start(bootloader_version: u32, settings_version: u32) -> DeviceModel {
        DeviceModel {
            programmer: ProgrammerModel::empty(),
            uart: UartModel { queue: Seq::empty(), tx_interrupt_enabled: false },
            report: blank_report(),
            led_tick: 0xFF,
            heartbeat_counter: 0,
            heartbeat_enabled: false,
            timer_enabled: true,
            timer_elapsed: false,
            reinvoke_isp: false,
            bootloader_version,
            settings_version,
        }
    }

    /// The state after the start-up looked at the USB side: when it reports
    /// a disconnect the ready frame is queued, and nothing changes otherwise.
    pub open spec fn announced(self, usb_disconnected: bool) -> DeviceModel {
        if usb_disconnected {
            DeviceModel { uart: sent(self.uart, frame(seq![TAG_READY])), ..self }
        } else {
            self
        }
    }

    /// Takes note of where a flash operation stands. A request goes out to
    /// the caller. An operation that has ended leaves its report: an erase
    /// and a finalize the status report with their code. A write, however it
    /// ended, leaves the firmware report and moves the LED one step on.
    pub open spec fn conclude(self, step: FlashStep<Seq<u8>>) -> (DeviceModel, Effect<Seq<u8>>) {
        match step {
            FlashStep::Request(request) => (self, Effect::Flash(request)),
            FlashStep::Erased(result) => (
                DeviceModel { report: status_report(erase_code(result)), ..self },
                Effect::Nothing,
            ),
            FlashStep::Written(result) => (
                DeviceModel {
                    report: firmware_report(),
                    led_tick: next_tick(self.led_tick),
                    ..self
                },
                Effect::SetLedIntensity(intensity(next_tick(self.led_tick))),
            ),
            FlashStep::Finalized(result) => (
                DeviceModel { report: status_report(commit_code(result)), ..self },
                Effect::Nothing,
            ),
            FlashStep::Ignored => (self, Effect::Nothing),
        }
    }

    /// The state with the programmer replaced, and then `conclude`.
    pub open spec fn proceed(self, next: (ProgrammerModel, FlashStep<Seq<u8>>)) -> (
        DeviceModel,
        Effect<Seq<u8>>,
    ) {
        DeviceModel { programmer: next.0, ..self }.conclude(next.1)
    }

    /// The state and the effect after the hardware answered a flash request.
    pub open spec fn flash_completed(self, event: FlashEvent<Seq<u8>>) -> (
        DeviceModel,
        Effect<Seq<u8>>,
    ) {
        self.proceed(self.programmer.resume(event))
    }

    /// The state with `bytes` offered to the transmitter and the relay
    /// status reported.
    pub open spec fn relayed(self, bytes: Seq<u8>) -> DeviceModel {
        DeviceModel {
            uart: sent(self.uart, bytes),
            report: status_report(RELAY_STATUS),
            ..self
        }
    }

    /// The state and the effect after the feature report `buffer` was set.
    ///
    /// A buffer that is too short for what its command reads is ignored, and
    /// so is an unknown command: state and report stay as they are.
    pub open spec fn handle(self, buffer: Seq<u8>) -> (DeviceModel, Effect<Seq<u8>>) {
        if buffer.len() == 0 {
            (self, Effect::Nothing)
        } else if buffer[0] == GET_HWINFO {
            (
                DeviceModel {
                    report: hwinfo_report(self.bootloader_version, self.settings_version),
                    ..self
                },
                Effect::Nothing,
            )
        } else if buffer[0] == REINVOKE_ISP {
            (DeviceModel { reinvoke_isp: true, ..self }, Effect::Nothing)
        } else if buffer[0] == ERASE_PROGRAM2 {
            DeviceModel { report: status_report(ERASE_RUNNING), ..self }.proceed(
                self.programmer.erase(),
            )
        } else if buffer[0] == FLASH_FIRMWARE {
            if has_payload(buffer) {
                self.proceed(self.programmer.write(payload(buffer)))
            } else {
                (self, Effect::Nothing)
            }
        } else if buffer[0] == VERIFY_FIRMWARE_SIG {
            if has_signature(buffer) {
                self.proceed(self.programmer.finalize(signature(buffer)))
            } else {
                (self, Effect::Nothing)
            }
        } else if buffer[0] == RESET_WHOLE_SOC {
            if buffer.len() >= 2 && buffer[1] == 0 {
                (
                    DeviceModel { uart: sent(self.uart, frame(reset_body())), ..self },
                    Effect::ArmWatchdog(WATCHDOG_TICKS),
                )
            } else {
                (self, Effect::Nothing)
            }
        } else if buffer[0] == NRF_ERASE_PROGRAM {
            (self.relayed(frame(seq![TAG_ERASE])), Effect::Nothing)
        } else if buffer[0] == NRF_FLASH_PROGRAM {
            if has_payload(buffer) {
                (self.relayed(frame(seq![TAG_PROGRAM_DATA] + payload(buffer))), Effect::Nothing)
            } else {
                (self, Effect::Nothing)
            }
        } else if buffer[0] == NRF_VERIFY_FIRMWARE_SIG {
            if has_signature(buffer) {
                (self.relayed(frame(seq![TAG_SIGNATURE] + signature(buffer))), Effect::Nothing)
            } else {
                (self, Effect::Nothing)
            }
        } else if buffer[0] == SET_HARDWARE_VERSION {
            if buffer.len() >= 6 && buffer[1] == 4 {
                let version = le_value(buffer.subrange(2, 6)) as u32;
                (DeviceModel { settings_version: version, ..self }, Effect::StoreSettings(version))
            } else {
                (self, Effect::Nothing)
            }
        } else {
            (self, Effect::Nothing)
        }
    }

    /// The state, the status for the USB stack and the effect after a
    /// set-report request. Only feature reports are taken; input and output
    /// reports are turned down, and an empty buffer is passed over.
    pub open spec fn set_report(self, report_type: u8, buffer: Seq<u8>) -> (
        DeviceModel,
        i32,
        Effect<Seq<u8>>,
    ) {
        if buffer.len() == 0 {
            (self, 0, Effect::Nothing)
        } else if report_type == REPORT_TYPE_INPUT || report_type == REPORT_TYPE_OUTPUT {
            (self, USB_STALL, Effect::Nothing)
        } else if report_type == REPORT_TYPE_FEATURE {
            (self.handle(buffer).0, 0, self.handle(buffer).1)
        } else {
            (self, 0, Effect::Nothing)
        }
    }

    /// The status for the USB stack and the report to send after a
    /// get-report request. Only feature reports are given out.
    pub open spec fn get_report(self, report_type: u8) -> (i32, Option<Seq<u8>>) {
        if report_type == REPORT_TYPE_INPUT || report_type == REPORT_TYPE_OUTPUT {
            (USB_STALL, None)
        } else if report_type == REPORT_TYPE_FEATURE {
            (0, Some(self.report))
        } else {
            (0, None)
        }
    }

    /// The state after the main loop looked at the heartbeat timer. If the
    /// timer runs and has fired, the counter goes up by one, wrapping, and
    /// where heartbeat packets are enabled one is queued.
    pub open spec fn timer_turn(self) -> DeviceModel {
        if self.timer_enabled && self.timer_elapsed {
            let counter = next_counter(self.heartbeat_counter);
            DeviceModel {
                timer_elapsed: false,
                heartbeat_counter: counter,
                uart: if self.heartbeat_enabled {
                    sent(
                        self.uart,
                        frame(seq![TAG_HEARTBEAT] + heartbeat_payload(heartbeat_packet(counter))),
                    )
                } else {
                    self.uart
                },
                ..self
            }
        } else {
            self
        }
    }
}

/// The state of the programming mode.
pub struct DeviceState {
    programmer: Programmer,
    uart: UartTransmitter,
    report: [u8; 64],
    led_tick: u8,
    heartbeat_counter: u32,
    heartbeat_enabled: bool,
    timer_enabled: bool,
    timer_elapsed: bool,
    reinvoke_isp: bool,
    bootloader_version: u32,
    settings_version: u32,
}

impl View for DeviceState {
    type V = DeviceModel;

    closed spec fn view(&self) -> DeviceModel {
        DeviceModel {
            programmer: self.programmer@,
            uart: self.uart@,
            report: self.report@,
            led_tick: self.led_tick,
            heartbeat_counter: self.heartbeat_counter,
            heartbeat_enabled: self.heartbeat_enabled,
            timer_enabled: self.timer_enabled,
            timer_elapsed: self.timer_elapsed,
            reinvoke_isp: self.reinvoke_isp,
            bootloader_version: self.bootloader_version,
            settings_version: self.settings_version,
        }
    }
}

impl DeviceState {
    /// What every state that this module hands out satisfies.
    pub open spec fn wf(&self) -> bool {
        self@.wf()
    }

    /// The report that the next get-report request is answered with.
    pub fn report(&self) -> (report: [u8; 64])
        ensures
            report@ == self@.report,
    {
        self.report
    }

    /// Whether the main loop is to restart into the ROM's programming mode.
    pub fn should_reinvoke_isp(&self) -> (wanted: bool)
        ensures
            wanted == self@.reinvoke_isp,
    {
        self.reinvoke_isp
    }

    /// Whether the transmit interrupt is wanted.
    pub fn tx_interrupt_enabled(&self) -> (enabled: bool)
        ensures
            enabled == self@.uart.tx_interrupt_enabled,
    {
        self.uart.tx_interrupt_enabled()
    }

    /// Number of bytes that wait in the transmit ring buffer.
    pub fn tx_pending(&self) -> (n: usize)
        ensures
            n == self@.uart.queue.len(),
    {
        self.uart.pending()
    }

    /// The compare value that the LED timer should hold.
    pub fn led_intensity(&self) -> (compare: u16)
        ensures
            compare == intensity(self@.led_tick),
    {
        tick_led_blink(self.led_tick)
    }

    /// The heartbeat packet as it would be sent next.
    pub fn heartbeat(&self) -> (packet: [u8; 16])
        ensures
            packet@ == heartbeat_packet(self@.heartbeat_counter),
    {
        write_heartbeat_packet(self.heartbeat_counter)
    }

    /// The version in the stored settings.
    pub fn settings_version(&self) -> (version: u32)
        ensures
            version == self@.settings_version,
    {
        self.settings_version
    }

    /// Bytes of the image that are in flash.
    pub fn write_cursor(&self) -> (cursor: usize)
        ensures
            cursor == self@.programmer.write_cursor,
    {
        self.programmer.write_cursor()
    }

    /// Bytes of the image received and not yet in flash.
    pub fn staged_len(&self) -> (len: usize)
        ensures
            len == self@.programmer.staged.len(),
    {
        self.programmer.staged_len()
    }

    /// Switches the sending of heartbeat packets on or off.
    pub fn set_heartbeat_enabled(&mut self, enabled: bool)
        ensures
            final(self)@ == (DeviceModel { heartbeat_enabled: enabled, ..old(self)@ }),
    {
        self.heartbeat_enabled = enabled;
    }

    /// See `DeviceModel::conclude`.
    fn conclude(&mut self, step: FlashStep) -> (effect: Effect)
        requires
            old(self).wf(),
        ensures
            final(self).wf(),
            final(self)@ == old(self)@.conclude(step@).0,
            effect@ == old(self)@.conclude(step@).1,
    {
        match step {
            FlashStep::Request(request) => Effect::Flash(request),
            FlashStep::Erased(result) => {
                self.report = write_report_0x94(erase_status(result));
                Effect::Nothing
            },
            FlashStep::Written(_) => {
                let next = led_advance_blink(self.led_tick);
                self.led_tick = next.0;
                self.report = write_firmware_report();
                Effect::SetLedIntensity(next.1)
            },
            FlashStep::Finalized(result) => {
                self.report = write_report_0x94(commit_status(result));
                Effect::Nothing
            },
            FlashStep::Ignored => Effect::Nothing,
        }
    }
}

/// The number that a finished erase reports.
pub fn erase_status(result: Result<(), EraseError>) -> (code: u16)
    ensures
        code == erase_code(result),
{
    match result {
        Ok(()) => 0,
        Err(_) => 1,
    }
}

/// The number that stands for a finished write.
pub fn write_status(result: Result<(), FlashError>) -> (code: u16)
    ensures
        code == write_code(result),
{
    match result {
        Ok(()) => 0,
        Err(_) => 1,
    }
}

/// The number that a finished finalize reports.
pub fn commit_status(result: Result<(), CommitError>) -> (code: u16)
    ensures
        code == commit_code(result),
{
    match result {
        Ok(()) => 0,
        Err(CommitError::FlushPrepareFailed) => 2,
        Err(CommitError::FlushProgramFailed) => 3,
        Err(CommitError::SignatureMismatch) => 4,
        Err(CommitError::MarkerPrepareFailed) => 5,
        Err(CommitError::MarkerEraseFailed) => 6,
        Err(CommitError::MarkerReprepareFailed) => 7,
        Err(CommitError::MarkerProgramFailed) => 8,
    }
}

/// The signature that a verify command carries.
fn signature_of(buffer: &[u8]) -> (bytes: [u8; 16])
    requires
        has_signature(buffer@),
    ensures
        bytes@ == signature(buffer@),
{
    let bytes: [u8; 16] = [
        buffer[2],
        buffer[3],
        buffer[4],
        buffer[5],
        buffer[6],
        buffer[7],
        buffer[8],
        buffer[9],
        buffer[10],
        buffer[11],
        buffer[12],
        buffer[13],
        buffer[14],
        buffer[15],
        buffer[16],
        buffer[17],
    ];
    assert(bytes@ =~= signature(buffer@));
    bytes
}

/// Brings the state of the programming mode up; see `DeviceModel::start`.
pub fn enter_programming_mode(bootloader_version: u32, settings_version: u32) -> (state:
    DeviceState)
    ensures
        state.wf(),
        state@ == DeviceModel::start(bootloader_version, settings_version),
{
    let report: [u8; 64] = [0u8; 64];
    assert(report@ =~= blank_report());
    DeviceState {
        programmer: Programmer::new(),
        uart: UartTransmitter::new(),
        report,
        led_tick: 0xFF,
        heartbeat_counter: 0,
        heartbeat_enabled: false,
        timer_enabled: true,
        timer_elapsed: false,
        reinvoke_isp: false,
        bootloader_version,
        settings_version,
    }
}

/// The start-up's look at the USB side, once USB and the serial port are up;
/// see `DeviceModel::announced`.
pub fn send_ready_if_usb_disconnected(state: &mut DeviceState, usb_disconnected: bool)
    requires
        old(state).wf(),
    ensures
        final(state).wf(),
        final(state)@ == old(state)@.announced(usb_disconnected),
{
    send_usart_R_if_usb_disconnected(&mut state.uart, usb_disconnected);
}

/// Carries out the command in the feature report `buffer`; see
/// `DeviceModel::handle`.
pub fn hid_handle_set_feature_report(state: &mut DeviceState, buffer: &[u8]) -> (effect: Effect)
    requires
        old(state).wf(),
    ensures
        final(state).wf(),
        final(state)@ == old(state)@.handle(buffer@).0,
        effect@ == old(state)@.handle(buffer@).1,
{
    if buffer.len() == 0 {
        return Effect::Nothing;
    }
    let command = buffer[0];
    if command == GET_HWINFO {
        state.report = write_hwinfo_report(state.bootloader_version, state.settings_version);
        Effect::Nothing
    } else if command == REINVOKE_ISP {
        state.reinvoke_isp = true;
        Effect::Nothing
    } else if command == ERASE_PROGRAM2 {
        state.report = write_report_0x94(ERASE_RUNNING);
        let step = state.programmer.erase();
        state.conclude(step)
    } else if command == FLASH_FIRMWARE {
        if buffer.len() >= PAYLOAD_OFFSET && PAYLOAD_OFFSET + (buffer[1] as usize)
            <= buffer.len() {
            let data = vstd::slice::slice_subrange(
                buffer,
                PAYLOAD_OFFSET,
                PAYLOAD_OFFSET + (buffer[1] as usize),
            );
            let step = state.programmer.write(data);
            state.conclude(step)
        } else {
            Effect::Nothing
        }
    } else if command == VERIFY_FIRMWARE_SIG {
        if buffer.len() >= PAYLOAD_OFFSET + SIGNATURE_LEN {
            let step = state.programmer.finalize(signature_of(buffer));
            state.conclude(step)
        } else {
            Effect::Nothing
        }
    } else if command == RESET_WHOLE_SOC {
        if buffer.len() >= 2 && buffer[1] == 0 {
            usart_send_reset(&mut state.uart);
            Effect::ArmWatchdog(WATCHDOG_TICKS)
        } else {
            Effect::Nothing
        }
    } else if command == NRF_ERASE_PROGRAM {
        usart_send_erase_request(&mut state.uart);
        state.report = write_report_0x94(RELAY_STATUS);
        Effect::Nothing
    } else if command == NRF_FLASH_PROGRAM {
        if buffer.len() >= PAYLOAD_OFFSET && PAYLOAD_OFFSET + (buffer[1] as usize)
            <= buffer.len() {
            let data = vstd::slice::slice_subrange(
                buffer,
                PAYLOAD_OFFSET,
                PAYLOAD_OFFSET + (buffer[1] as usize),
            );
            usart_send_z_packet(&mut state.uart, data);
            state.report = write_report_0x94(RELAY_STATUS);
            Effect::Nothing
        } else {
            Effect::Nothing
        }
    } else if command == NRF_VERIFY_FIRMWARE_SIG {
        if buffer.len() >= PAYLOAD_OFFSET + SIGNATURE_LEN {
            let data = vstd::slice::slice_subrange(
                buffer,
                PAYLOAD_OFFSET,
                PAYLOAD_OFFSET + SIGNATURE_LEN,
            );
            usart_send_sig_packet(&mut state.uart, data);
            assert(data@.take(SIGNATURE_LEN as int) =~= signature(buffer@));
            state.report = write_report_0x94(RELAY_STATUS);
            Effect::Nothing
        } else {
            Effect::Nothing
        }
    } else if command == SET_HARDWARE_VERSION {
        if buffer.len() >= 6 && buffer[1] == 4 {
            let version = u32_from_le(buffer[2], buffer[3], buffer[4], buffer[5]);
            state.settings_version = version;
            Effect::StoreSettings(version)
        } else {
            Effect::Nothing
        }
    } else {
        Effect::Nothing
    }
}

/// Goes on after the hardware answered a flash request; see
/// `DeviceModel::flash_completed`.
pub fn flash_completed(state: &mut DeviceState, event: FlashEvent) -> (effect: Effect)
    requires
        old(state).wf(),
    ensures
        final(state).wf(),
        final(state)@ == old(state)@.flash_completed(event@).0,
        effect@ == old(state)@.flash_completed(event@).1,
{
    let step = state.programmer.resume(event);
    state.conclude(step)
}

/// Answers a set-report request of the USB stack; see
/// `DeviceModel::set_report`.
pub fn hid_set_report_handler(state: &mut DeviceState, report_type: u8, buffer: &[u8]) -> (answer:
    (i32, Effect))
    requires
        old(state).wf(),
    ensures
        final(state).wf(),
        final(state)@ == old(state)@.set_report(report_type, buffer@).0,
        answer.0 == old(state)@.set_report(report_type, buffer@).1,
        answer.1@ == old(state)@.set_report(report_type, buffer@).2,
{
    if buffer.len() != 0 {
        if report_type == REPORT_TYPE_INPUT || report_type == REPORT_TYPE_OUTPUT {
            return (USB_STALL, Effect::Nothing);
        } else if report_type == REPORT_TYPE_FEATURE {
            let effect = hid_handle_set_feature_report(state, buffer);
            return (0, effect);
        }
    }
    (0, Effect::Nothing)
}

/// Answers a get-report request of the USB stack; see
/// `DeviceModel::get_report`.
pub fn hid_get_report_handler(state: &DeviceState, report_type: u8) -> (answer: (
    i32,
    Option<[u8; 64]>,
))
    ensures
        answer.0 == state@.get_report(report_type).0,
        answer.1 is Some <==> state@.get_report(report_type).1 is Some,
        answer.1 matches Some(report) ==> state@.get_report(report_type).1 == Some(report@),
{
    if report_type == REPORT_TYPE_INPUT || report_type == REPORT_TYPE_OUTPUT {
        (USB_STALL, None)
    } else if report_type == REPORT_TYPE_FEATURE {
        (0, Some(state.report))
    } else {
        (0, None)
    }
}

/// One turn of the main loop's look at the heartbeat timer; see
/// `DeviceModel::timer_turn`.
pub fn send_usart_packet_if_timer_elapsed(state: &mut DeviceState)
    requires
        old(state).wf(),
    ensures
        final(state).wf(),
        final(state)@ == old(state)@.timer_turn(),
{
    if state.timer_enabled && state.timer_elapsed {
        state.timer_elapsed = false;
        state.heartbeat_counter = state.heartbeat_counter.wrapping_add(1);
        if state.heartbeat_enabled {
            let packet = write_heartbeat_packet(state.heartbeat_counter);
            send_usart_V_packet(&mut state.uart, packet.as_slice());
        }
    }
}

/// The heartbeat timer's interrupt: the timer has fired.
#[allow(non_snake_case)]
pub fn CT32B1(state: &mut DeviceState)
    ensures
        final(state)@ == (DeviceModel { timer_elapsed: true, ..old(state)@ }),
{
    state.timer_elapsed = true;
}

/// One turn of the serial interrupt's transmit side. `transmitter_ready`
/// says whether the transmit holding register is free; the byte that comes
/// back, if any, is to be written to it. See `transmit`.
#[allow(non_snake_case)]
pub fn USART(state: &mut DeviceState, transmitter_ready: bool) -> (byte: Option<u8>)
    requires
        old(state).wf(),
    ensures
        final(state).wf(),
        final(state)@ == (DeviceModel {
            uart: transmit(old(state)@.uart, transmitter_ready).0,
            ..old(state)@
        }),
        byte == transmit(old(state)@.uart, transmitter_ready).1,
{
    state.uart.transmit_step(transmitter_ready)
}

/// The USB interrupt's part before the ROM driver runs: when a setup packet
/// has arrived, the stall bits of both directions of endpoint 0 are cleared
/// in the endpoint list. Gives the two entries back as they are to be
/// stored.
#[allow(non_snake_case)]
pub fn USB_IRQ(setup_received: bool, ep0_out: u32, ep0_in: u32) -> (entries: (u32, u32))
    ensures
        setup_received ==> entries == (ep0_out & CLEAR_STALL, ep0_in & CLEAR_STALL),
        !setup_received ==> entries == (ep0_out, ep0_in),
{
    if setup_received {
        (ep0_out & CLEAR_STALL, ep0_in & CLEAR_STALL)
    } else {
        (ep0_out, ep0_in)
    }
}

/// The pending-service exception, which the programming mode never asks
/// for: the core is parked.
#[allow(non_snake_case)]
pub fn PendSV() -> (action: ExceptionAction)
    ensures
        action == ExceptionAction::Halt,
{
    ExceptionAction::Halt
}

} // verus!
