//! The serial transmitter: frames are escaped into the transmit ring buffer,
//! and the transmit interrupt takes bytes out of it one at a time.
//!
//! Nothing here touches a register. The caller writes each byte that
//! `transmit_step` hands out into the transmit holding register, and mirrors
//! `tx_interrupt_enabled` into the interrupt enable bit.

use crate::framing::{
    escape, escape_byte, frame, lemma_escape_concat, FRAME_END, FRAME_ESCAPE, FRAME_START,
};
use crate::ring_buffer::{
    accept, accepted_len, lemma_accept_concat, lemma_accept_empty, TransmitRingBuffer,
    RING_CAPACITY,
};
use vstd::prelude::*;

verus! {

/// Tag of a signature relay frame, `[`.
pub const TAG_SIGNATURE: u8 = 0x5B;

/// Tag of a program-data relay frame, `Z`.
pub const TAG_PROGRAM_DATA: u8 = 0x5A;

/// Tag of a heartbeat frame, `V`.
pub const TAG_HEARTBEAT: u8 = 0x56;

/// The whole body of the erase-request frame, `Y`.
pub const TAG_ERASE: u8 = 0x59;

/// The whole body of the ready frame, `R`.
pub const TAG_READY: u8 = 0x52;

/// Length of a relayed signature.
pub const SIGNATURE_LEN: usize = 16;

/// What the transmitter is, to its callers.
pub struct UartModel {
    /// Bytes waiting to go out, oldest first.
    pub queue: Seq<u8>,
    /// Whether the transmit interrupt is wanted.
    pub tx_interrupt_enabled: bool,
}

/// The serial transmitter: the transmit ring buffer and the state of the
/// transmit interrupt.
pub struct UartTransmitter {
    ring: TransmitRingBuffer,
    tx_interrupt_enabled: bool,
}

impl View for UartTransmitter {
    type V = UartModel;

    closed spec fn view(&self) -> UartModel {
        UartModel { queue: self.ring@, tx_interrupt_enabled: self.tx_interrupt_enabled }
    }
}

/// The transmitter after `bytes` were offered to it: what fits is queued, and
/// the transmit interrupt is wanted.
pub open spec fn sent(uart: UartModel, bytes: Seq<u8>) -> UartModel {
    UartModel { queue: accept(uart.queue, bytes), tx_interrupt_enabled: true }
}

/// One turn of the transmit interrupt. With the interrupt enabled and the
/// holding register free, the oldest byte goes out; once the queue is empty
/// the interrupt is switched off.
pub open spec fn transmit(uart: UartModel, transmitter_ready: bool) -> (UartModel, Option<u8>) {
    if !uart.tx_interrupt_enabled {
        (uart, None)
    } else if uart.queue.len() == 0 {
        (UartModel { queue: uart.queue, tx_interrupt_enabled: false }, None)
    } else if transmitter_ready {
        (
            UartModel { queue: uart.queue.skip(1), tx_interrupt_enabled: uart.queue.len() > 1 },
            Some(uart.queue[0]),
        )
    } else {
        (uart, None)
    }
}

/// The body of the reset frame, `\RESET`.
pub open spec fn reset_body() -> Seq<u8> {
    seq![0x5Cu8, 0x52u8, 0x45u8, 0x53u8, 0x45u8, 0x54u8]
}

/// The part of a heartbeat packet that travels: `packet[3]` bytes from index 2.
pub open spec fn heartbeat_payload(packet: Seq<u8>) -> Seq<u8> {
    packet.subrange(2, 2 + packet[3])
}

impl UartTransmitter {
    /// What every transmitter that this module hands out satisfies: the ring
    /// buffer holds no more than its capacity.
    pub open spec fn wf(&self) -> bool {
        self@.queue.len() <= RING_CAPACITY
    }

    /// An idle transmitter: nothing queued, interrupt off.
    pub fn new() -> (uart: Self)
        ensures
            uart.wf(),
            uart@ == (UartModel { queue: Seq::<u8>::empty(), tx_interrupt_enabled: false }),
    {
        UartTransmitter { ring: TransmitRingBuffer::new(), tx_interrupt_enabled: false }
    }

    /// Number of bytes waiting to go out.
    pub fn pending(&self) -> (n: usize)
        ensures
            n == self@.queue.len(),
    {
        self.ring.len()
    }

    /// Whether the transmit interrupt is wanted.
    pub fn tx_interrupt_enabled(&self) -> (b: bool)
        ensures
            b == self@.tx_interrupt_enabled,
    {
        self.tx_interrupt_enabled
    }

    /// One turn of the transmit interrupt; see `transmit`.
    pub fn transmit_step(&mut self, transmitter_ready: bool) -> (byte: Option<u8>)
        requires
            old(self).wf(),
        ensures
            final(self).wf(),
            final(self)@ == transmit(old(self)@, transmitter_ready).0,
            byte == transmit(old(self)@, transmitter_ready).1,
    {
        if !self.tx_interrupt_enabled {
            return None;
        }
        if self.ring.is_empty() {
            self.tx_interrupt_enabled = false;
            return None;
        }
        if !transmitter_ready {
            return None;
        }
        let byte = self.ring.dequeue();
        self.tx_interrupt_enabled = !self.ring.is_empty();
        byte
    }

    /// Queues one byte as it is, if it fits.
    fn send_byte(&mut self, byte: u8)
        requires
            old(self).wf(),
        ensures
            final(self).wf(),
            final(self)@ == sent(old(self)@, seq![byte]),
    {
        let _ = self.ring.enqueue(byte);
        self.tx_interrupt_enabled = true;
        proof {
            let q = old(self)@.queue;
            if q.len() < RING_CAPACITY {
                assert(seq![byte].take(1) =~= seq![byte]);
                assert(q + seq![byte] =~= q.push(byte));
            } else {
                assert(q + seq![byte].take(0) =~= q);
            }
        }
    }
}

/// Queues `data` as it is. Bytes that do not fit are dropped. Returns how
/// many bytes were queued.
pub fn usart_send_raw_str(uart: &mut UartTransmitter, data: &[u8]) -> (inserted: usize)
    requires
        old(uart).wf(),
    ensures
        final(uart).wf(),
        final(uart)@ == sent(old(uart)@, data@),
        inserted == accepted_len(old(uart)@.queue, data@),
{
    let inserted = uart.ring.insert_mult(data);
    uart.tx_interrupt_enabled = true;
    inserted
}

/// Queues the start byte.
pub fn usart_send_02(uart: &mut UartTransmitter)
    requires
        old(uart).wf(),
    ensures
        final(uart).wf(),
        final(uart)@ == sent(old(uart)@, seq![FRAME_START]),
{
    uart.send_byte(FRAME_START);
}

/// Queues the end byte.
pub fn usart_send_03(uart: &mut UartTransmitter)
    requires
        old(uart).wf(),
    ensures
        final(uart).wf(),
        final(uart)@ == sent(old(uart)@, seq![FRAME_END]),
{
    uart.send_byte(FRAME_END);
}

/// Queues the escaped form of `data`. For an empty `data` nothing happens.
pub fn usart_send_escaped_str(uart: &mut UartTransmitter, data: &[u8])
    requires
        old(uart).wf(),
    ensures
        final(uart).wf(),
        data@.len() == 0 ==> final(uart)@ == old(uart)@,
        data@.len() > 0 ==> final(uart)@ == sent(old(uart)@, escape(data@)),
{
    let ghost start = uart@.queue;
    let mut i: usize = 0;
    proof {
        assert(data@.take(0) =~= Seq::<u8>::empty());
        lemma_accept_empty(start);
    }
    while i < data.len()
        invariant
            i <= data.len(),
            uart.wf(),
            start.len() <= RING_CAPACITY,
            start == old(uart)@.queue,
            i == 0 ==> uart@ == old(uart)@,
            i > 0 ==> uart@ == sent(old(uart)@, escape(data@.take(i as int))),
        decreases data.len() - i,
    {
        let byte = data[i];
        proof {
            let done = data@.take(i as int);
            assert(data@.take(i + 1).drop_last() =~= done);
            assert(data@.take(i + 1).last() == byte);
            lemma_accept_concat(start, escape(done), escape_byte(byte));
            lemma_accept_concat(start, escape(done), seq![FRAME_ESCAPE]);
            lemma_accept_concat(start, escape(done) + seq![FRAME_ESCAPE], seq![byte]);
            assert(escape(done) + seq![FRAME_ESCAPE] + seq![byte] =~= escape(done) + seq![
                FRAME_ESCAPE,
                byte,
            ]);
        }
        if byte == FRAME_START || byte == FRAME_END || byte == FRAME_ESCAPE {
            uart.send_byte(FRAME_ESCAPE);
        }
        uart.send_byte(byte);
        i += 1;
    }
    proof {
        assert(data@.take(data@.len() as int) =~= data@);
    }
}

/// Queues one whole frame whose body is `data`.
pub fn usart_send_text_transmission(uart: &mut UartTransmitter, data: &[u8])
    requires
        old(uart).wf(),
    ensures
        final(uart).wf(),
        final(uart)@ == sent(old(uart)@, frame(data@)),
{
    let ghost start = uart@.queue;
    usart_send_02(uart);
    usart_send_escaped_str(uart, data);
    usart_send_03(uart);
    proof {
        lemma_accept_empty(accept(start, seq![FRAME_START]));
        lemma_accept_concat(start, seq![FRAME_START], escape(data@));
        lemma_accept_concat(start, seq![FRAME_START] + escape(data@), seq![FRAME_END]);
    }
}

/// Queues one whole frame whose body is the tag followed by the payload.
pub fn send_frame(uart: &mut UartTransmitter, tag: u8, data: &[u8])
    requires
        old(uart).wf(),
    ensures
        final(uart).wf(),
        final(uart)@ == sent(old(uart)@, frame(seq![tag] + data@)),
{
    let ghost start = uart@.queue;
    let tag_bytes: [u8; 1] = [tag];
    usart_send_02(uart);
    usart_send_escaped_str(uart, tag_bytes.as_slice());
    usart_send_escaped_str(uart, data);
    usart_send_03(uart);
    proof {
        assert(tag_bytes@ =~= seq![tag]);
        let head = seq![FRAME_START];
        lemma_escape_concat(seq![tag], data@);
        lemma_accept_empty(accept(accept(start, head), escape(seq![tag])));
        lemma_accept_concat(start, head, escape(seq![tag]));
        lemma_accept_concat(start, head + escape(seq![tag]), escape(data@));
        lemma_accept_concat(
            start,
            head + escape(seq![tag]) + escape(data@),
            seq![FRAME_END],
        );
        assert(head + escape(seq![tag]) + escape(data@) =~= head + escape(seq![tag] + data@));
    }
}

/// Queues the ready frame, `R`.
#[allow(non_snake_case)]
pub fn usart_send_R(uart: &mut UartTransmitter)
    requires
        old(uart).wf(),
    ensures
        final(uart).wf(),
        final(uart)@ == sent(old(uart)@, frame(seq![TAG_READY])),
{
    let body: [u8; 1] = [TAG_READY];
    usart_send_text_transmission(uart, body.as_slice());
    proof {
        assert(body@ =~= seq![TAG_READY]);
    }
}

/// Queues the erase-request frame, `Y`.
pub fn usart_send_erase_request(uart: &mut UartTransmitter)
    requires
        old(uart).wf(),
    ensures
        final(uart).wf(),
        final(uart)@ == sent(old(uart)@, frame(seq![TAG_ERASE])),
{
    let body: [u8; 1] = [TAG_ERASE];
    usart_send_text_transmission(uart, body.as_slice());
    proof {
        assert(body@ =~= seq![TAG_ERASE]);
    }
}

/// Queues a signature relay frame: `[` and the first 16 bytes of `data`.
pub fn usart_send_sig_packet(uart: &mut UartTransmitter, data: &[u8])
    requires
        old(uart).wf(),
        data@.len() >= SIGNATURE_LEN,
    ensures
        final(uart).wf(),
        final(uart)@ == sent(
            old(uart)@,
            frame(seq![TAG_SIGNATURE] + data@.take(SIGNATURE_LEN as int)),
        ),
{
    let signature = vstd::slice::slice_subrange(data, 0, SIGNATURE_LEN);
    proof {
        assert(signature@ =~= data@.take(SIGNATURE_LEN as int));
    }
    send_frame(uart, TAG_SIGNATURE, signature);
}

/// Queues a program-data relay frame: `Z` and `data`.
pub fn usart_send_z_packet(uart: &mut UartTransmitter, data: &[u8])
    requires
        old(uart).wf(),
    ensures
        final(uart).wf(),
        final(uart)@ == sent(old(uart)@, frame(seq![TAG_PROGRAM_DATA] + data@)),
{
    send_frame(uart, TAG_PROGRAM_DATA, data);
}

/// Queues the reset frame, `\RESET`.
pub fn usart_send_reset(uart: &mut UartTransmitter)
    requires
        old(uart).wf(),
    ensures
        final(uart).wf(),
        final(uart)@ == sent(old(uart)@, frame(reset_body())),
{
    let body: [u8; 6] = [0x5C, 0x52, 0x45, 0x53, 0x45, 0x54];
    usart_send_text_transmission(uart, body.as_slice());
    proof {
        assert(body@ =~= reset_body());
    }
}

/// Tells the device behind the serial line that this one is ready after a
/// disconnect: the ready frame is queued when the USB side reports a
/// disconnect, and nothing happens otherwise.
#[allow(non_snake_case)]
pub fn send_usart_R_if_usb_disconnected(uart: &mut UartTransmitter, usb_disconnected: bool)
    requires
        old(uart).wf(),
    ensures
        final(uart).wf(),
        usb_disconnected ==> final(uart)@ == sent(old(uart)@, frame(seq![TAG_READY])),
        !usb_disconnected ==> final(uart)@ == old(uart)@,
{
    if usb_disconnected {
        usart_send_R(uart);
    }
}

/// Queues a heartbeat frame: `V` and the payload that `packet` announces in
/// its fourth byte.
#[allow(non_snake_case)]
pub fn send_usart_V_packet(uart: &mut UartTransmitter, data: &[u8])
    requires
        old(uart).wf(),
        data@.len() >= 4,
        2 + data@[3] <= data@.len(),
    ensures
        final(uart).wf(),
        final(uart)@ == sent(old(uart)@, frame(seq![TAG_HEARTBEAT] + heartbeat_payload(data@))),
{
    let len: usize = data[3] as usize;
    let payload = vstd::slice::slice_subrange(data, 2, 2 + len);
    send_frame(uart, TAG_HEARTBEAT, payload);
}

/// What can happen to the transmitter.
pub enum UartOp {
    /// Bytes are offered to it.
    Send { bytes: Seq<u8> },
    /// The transmit interrupt takes a turn.
    Interrupt { transmitter_ready: bool },
}

/// The transmitter after a run of events, with what went in and what came
/// out.
pub struct UartHistory {
    /// The transmitter at the end.
    pub uart: UartModel,
    /// All bytes that were queued, in the order of their queueing.
    pub accepted: Seq<u8>,
    /// All bytes that were handed out for the wire, in that order.
    pub wire: Seq<u8>,
}

/// The history of the events `ops`, in order, on the transmitter `start`.
pub open spec fn replay(start: UartModel, ops: Seq<UartOp>) -> UartHistory
    decreases ops.len(),
{
    if ops.len() == 0 {
        UartHistory { uart: start, accepted: Seq::empty(), wire: Seq::empty() }
    } else {
        let before = replay(start, ops.drop_last());
        match ops.last() {
            UartOp::Send { bytes } => UartHistory {
                uart: sent(before.uart, bytes),
                accepted: before.accepted + bytes.take(
                    accepted_len(before.uart.queue, bytes) as int,
                ),
                wire: before.wire,
            },
            UartOp::Interrupt { transmitter_ready } => UartHistory {
                uart: transmit(before.uart, transmitter_ready).0,
                accepted: before.accepted,
                wire: match transmit(before.uart, transmitter_ready).1 {
                    Some(byte) => before.wire.push(byte),
                    None => before.wire,
                },
            },
        }
    }
}

/// First in, first out: whatever is offered and however the interrupt takes
/// its turns, the ring buffer never holds more than its capacity, and the
/// bytes that went out followed by those still queued are the bytes that
/// were queued, in their order: none is lost, doubled or moved.
pub proof fn lemma_fifo(start: UartModel, ops: Seq<UartOp>)
    requires
        start.queue.len() <= RING_CAPACITY,
    ensures
        replay(start, ops).uart.queue.len() <= RING_CAPACITY,
        replay(start, ops).wire + replay(start, ops).uart.queue == start.queue + replay(
            start,
            ops,
        ).accepted,
    decreases ops.len(),
{
    let end = replay(start, ops);
    if ops.len() == 0 {
        assert(end.wire + end.uart.queue =~= start.queue + end.accepted);
    } else {
        lemma_fifo(start, ops.drop_last());
        let before = replay(start, ops.drop_last());
        match ops.last() {
            UartOp::Send { bytes } => {
                let taken = bytes.take(accepted_len(before.uart.queue, bytes) as int);
                assert(end.wire + end.uart.queue =~= (before.wire + before.uart.queue) + taken);
                assert(start.queue + end.accepted =~= (start.queue + before.accepted) + taken);
            },
            UartOp::Interrupt { transmitter_ready } => {
                let turn = transmit(before.uart, transmitter_ready);
                if turn.1 is Some {
                    assert(end.wire + end.uart.queue =~= before.wire + before.uart.queue);
                }
            },
        }
    }
}

} // verus!
