//! Staging and committing the firmware image of the second program slot.
//!
//! The programmer never touches the flash itself. Each operation answers with
//! a `FlashStep`: either a `FlashRequest` that the caller has to carry out on
//! the hardware, or the operation's result. After carrying a request out the
//! caller hands what came back to `resume`, before it does anything else with
//! the programmer, and gets the next step.

use crate::bytes::{le_bytes, u32_to_le};
use vstd::prelude::*;

verus! {

/// The unit in which the image is programmed.
pub const BLOCK_SIZE: usize = 512;

/// Where the image starts in flash.
pub const BASE_ADDRESS: usize = 0x2000;

/// The most an image can hold: from `BASE_ADDRESS` to the end of the flash at
/// `0x20000`.
pub const SIZE_LIMIT: usize = 0x1E000;

/// Offset of the boot-eligibility marker in the image: the tenth word of the
/// vector table.
pub const MARKER_OFFSET: usize = 36;

/// Length of the marker.
pub const MARKER_LEN: usize = 4;

/// The marker of an image that may be booted.
pub const VALID_MARKER: u32 = 0xECAA_BAC0;

/// What an erased flash byte reads as.
pub const ERASED_BYTE: u8 = 0xFF;

/// Length of the part of the image that is rewritten to set the marker: one
/// flash sector.
pub const VECTOR_TABLE_LEN: usize = 4096;

/// The sector that holds the start of the image.
pub const FIRST_SECTOR: u32 = 2;

/// The last sector of the flash.
pub const LAST_SECTOR: u32 = 0x1F;

/// The signature engine works on words of this many bytes.
pub const SIGNATURE_WORD: usize = 16;

/// Length of a signature.
pub const SIGNATURE_BYTES: usize = 16;

/// Why a block of image data was not taken.
#[derive(Clone, Copy, Debug, PartialEq, Eq, Structural)]
pub enum FlashError {
    /// The image would outgrow `SIZE_LIMIT`.
    OutOfRange,
    /// The flash reported a nonzero status while a block was programmed.
    FlashProgramFailed,
}

/// Why the image region was not erased.
#[derive(Clone, Copy, Debug, PartialEq, Eq, Structural)]
pub enum EraseError {
    /// Preparing the sectors failed.
    PrepareFailed,
    /// Erasing the sectors failed.
    EraseFailed,
}

/// Why the image was not made bootable.
#[derive(Clone, Copy, Debug, PartialEq, Eq, Structural)]
pub enum CommitError {
    /// Preparing the sectors for the last, partly filled block failed.
    FlushPrepareFailed,
    /// Programming the last, partly filled block failed.
    FlushProgramFailed,
    /// The signature of what is in flash is not the expected one.
    SignatureMismatch,
    /// Preparing the first sector for erasure failed.
    MarkerPrepareFailed,
    /// Erasing the first sector failed.
    MarkerEraseFailed,
    /// Preparing the first sector for programming failed.
    MarkerReprepareFailed,
    /// Programming the first sector with the valid marker failed.
    MarkerProgramFailed,
}

/// One operation for the caller to carry out on the hardware.
#[derive(Debug, PartialEq, Eq)]
pub enum FlashRequest<B = Vec<u8>> {
    /// Prepare the sectors `first..=last` for erasing or programming.
    /// Answered by a status.
    PrepareSectors { first: u32, last: u32 },
    /// Erase the sectors `first..=last`. Answered by a status.
    EraseSectors { first: u32, last: u32 },
    /// Program `data` at the absolute flash address `address`. Answered by a
    /// status.
    CopyRamToFlash { address: u32, data: B },
    /// Compute the signature of the 16-byte words `first_word..=last_word` of
    /// the flash. Answered by a signature.
    ComputeSignature { first_word: u32, last_word: u32 },
    /// Read `length` bytes at the absolute flash address `address`. Answered
    /// by contents.
    ReadFlash { address: u32, length: u32 },
}

/// What the hardware answered.
#[derive(Debug, PartialEq, Eq)]
pub enum FlashEvent<B = Vec<u8>> {
    /// Status of a prepare, erase or program operation; zero is success.
    Status(u32),
    /// The four words of the signature engine, first word first.
    Signature([u32; 4]),
    /// Bytes read from flash.
    Contents(B),
}

/// Where an operation stands.
#[derive(Debug, PartialEq, Eq)]
pub enum FlashStep<B = Vec<u8>> {
    /// The caller has to carry this out and `resume` with the answer.
    Request(FlashRequest<B>),
    /// An erase has ended.
    Erased(Result<(), EraseError>),
    /// A write has ended.
    Written(Result<(), FlashError>),
    /// A finalize has ended.
    Finalized(Result<(), CommitError>),
    /// The event answers nothing that is in flight; it was dropped.
    Ignored,
}

/// The request that is in flight, with what is needed to go on after it.
#[derive(Debug, PartialEq, Eq)]
pub enum Pending<B = Vec<u8>> {
    /// Nothing is in flight.
    Idle,
    /// Erase: the sectors are being prepared.
    ErasePrepare,
    /// Erase: the sectors are being erased.
    EraseRun,
    /// Write: the sectors are being prepared for `block`; `rest` follows it.
    WritePrepare { block: B, rest: B },
    /// Write: a block is being programmed; `rest` follows it.
    WriteProgram { rest: B },
    /// Finalize: the sectors are being prepared for the padded last block.
    FlushPrepare { block: B, expected: B },
    /// Finalize: the padded last block is being programmed.
    FlushProgram { expected: B },
    /// Finalize: the signature is being computed.
    Signature { expected: B },
    /// Finalize: the first sector is being read back.
    ReadTable,
    /// Finalize: the first sector is being prepared for erasure.
    MarkerPrepare { table: B },
    /// Finalize: the first sector is being erased.
    MarkerErase { table: B },
    /// Finalize: the first sector is being prepared for programming.
    MarkerReprepare { table: B },
    /// Finalize: the first sector is being programmed with the valid marker.
    MarkerProgram,
}

impl View for FlashRequest<Vec<u8>> {
    type V = FlashRequest<Seq<u8>>;

    open spec fn view(&self) -> FlashRequest<Seq<u8>> {
        match *self {
            FlashRequest::PrepareSectors { first, last } => FlashRequest::PrepareSectors {
                first,
                last,
            },
            FlashRequest::EraseSectors { first, last } => FlashRequest::EraseSectors {
                first,
                last,
            },
            FlashRequest::CopyRamToFlash { address, data } => FlashRequest::CopyRamToFlash {
                address,
                data: data@,
            },
            FlashRequest::ComputeSignature {
                first_word,
                last_word,
            } => FlashRequest::ComputeSignature { first_word, last_word },
            FlashRequest::ReadFlash { address, length } => FlashRequest::ReadFlash {
                address,
                length,
            },
        }
    }
}

impl View for FlashEvent<Vec<u8>> {
    type V = FlashEvent<Seq<u8>>;

    open spec fn view(&self) -> FlashEvent<Seq<u8>> {
        match *self {
            FlashEvent::Status(status) => FlashEvent::Status(status),
            FlashEvent::Signature(words) => FlashEvent::Signature(words),
            FlashEvent::Contents(bytes) => FlashEvent::Contents(bytes@),
        }
    }
}

impl View for FlashStep<Vec<u8>> {
    type V = FlashStep<Seq<u8>>;

    open spec fn view(&self) -> FlashStep<Seq<u8>> {
        match *self {
            FlashStep::Request(request) => FlashStep::Request(request@),
            FlashStep::Erased(result) => FlashStep::Erased(result),
            FlashStep::Written(result) => FlashStep::Written(result),
            FlashStep::Finalized(result) => FlashStep::Finalized(result),
            FlashStep::Ignored => FlashStep::Ignored,
        }
    }
}

impl View for Pending<Vec<u8>> {
    type V = Pending<Seq<u8>>;

    open spec fn view(&self) -> Pending<Seq<u8>> {
        match *self {
            Pending::Idle => Pending::Idle,
            Pending::ErasePrepare => Pending::ErasePrepare,
            Pending::EraseRun => Pending::EraseRun,
            Pending::WritePrepare { block, rest } => Pending::WritePrepare {
                block: block@,
                rest: rest@,
            },
            Pending::WriteProgram { rest } => Pending::WriteProgram { rest: rest@ },
            Pending::FlushPrepare { block, expected } => Pending::FlushPrepare {
                block: block@,
                expected: expected@,
            },
            Pending::FlushProgram { expected } => Pending::FlushProgram { expected: expected@ },
            Pending::Signature { expected } => Pending::Signature { expected: expected@ },
            Pending::ReadTable => Pending::ReadTable,
            Pending::MarkerPrepare { table } => Pending::MarkerPrepare { table: table@ },
            Pending::MarkerErase { table } => Pending::MarkerErase { table: table@ },
            Pending::MarkerReprepare { table } => Pending::MarkerReprepare { table: table@ },
            Pending::MarkerProgram => Pending::MarkerProgram,
        }
    }
}

/// `count` erased bytes.
pub open spec fn padding(count: nat) -> Seq<u8> {
    Seq::new(count, |i: int| ERASED_BYTE)
}

/// The marker of an image that must not be booted: four erased bytes.
pub open spec fn invalid_marker() -> Seq<u8> {
    padding(MARKER_LEN as nat)
}

/// The marker of an image that may be booted, as it lies in flash.
pub open spec fn valid_marker() -> Seq<u8> {
    le_bytes(VALID_MARKER)
}

/// `bytes` with the marker slot overwritten by `marker`.
pub open spec fn with_marker(bytes: Seq<u8>, marker: Seq<u8>) -> Seq<u8> {
    Seq::new(
        bytes.len(),
        |i: int|
            if MARKER_OFFSET <= i < MARKER_OFFSET + MARKER_LEN {
                marker[i - MARKER_OFFSET]
            } else {
                bytes[i]
            },
    )
}

/// The marker slot of `bytes`.
pub open spec fn marker_of(bytes: Seq<u8>) -> Seq<u8> {
    bytes.subrange(MARKER_OFFSET as int, MARKER_OFFSET + MARKER_LEN)
}

/// What is programmed for the block at `cursor` when `bytes` were received
/// for it: the block that holds the marker never reaches the flash with
/// anything but the invalid marker.
pub open spec fn block_for(cursor: nat, bytes: Seq<u8>) -> Seq<u8> {
    if cursor == 0 {
        with_marker(bytes, invalid_marker())
    } else {
        bytes
    }
}

/// The sixteen bytes of a signature, from the engine's four words.
pub open spec fn signature_bytes(words: [u32; 4]) -> Seq<u8> {
    le_bytes(words[0]) + le_bytes(words[1]) + le_bytes(words[2]) + le_bytes(words[3])
}

/// First word of the range that the signature covers.
pub open spec fn signature_first_word() -> u32 {
    (BASE_ADDRESS / SIGNATURE_WORD) as u32
}

/// Last word of the range that the signature covers when `cursor` bytes of
/// the image are in flash: the range is `[BASE_ADDRESS, BASE_ADDRESS + cursor)`.
pub open spec fn signature_last_word(cursor: nat) -> u32 {
    ((BASE_ADDRESS + cursor) / (SIGNATURE_WORD as int) - 1) as u32
}

/// What the programmer is, to its callers.
pub struct ProgrammerModel {
    /// Bytes of the image that are in flash; a multiple of `BLOCK_SIZE`.
    pub write_cursor: nat,
    /// Bytes received for the block at `write_cursor` and not yet in flash.
    pub staged: Seq<u8>,
    /// The request in flight.
    pub pending: Pending<Seq<u8>>,
}

impl ProgrammerModel {
    /// What holds of every programmer: the cursor stands at a block's start,
    /// less than a block is staged, the image lies within `SIZE_LIMIT`, and a
    /// block or sector that waits to be programmed has its full length.
    pub open spec fn wf(self) -> bool {
        &&& self.write_cursor % (BLOCK_SIZE as nat) == 0
        &&& self.staged.len() < BLOCK_SIZE
        &&& self.write_cursor + self.staged.len() <= SIZE_LIMIT
        &&& match self.pending {
            Pending::WritePrepare { block, rest } => block.len() == BLOCK_SIZE && self.write_cursor
                + BLOCK_SIZE <= SIZE_LIMIT,
            Pending::WriteProgram { rest } => self.write_cursor + BLOCK_SIZE <= SIZE_LIMIT,
            Pending::FlushPrepare { block, expected } => block.len() == BLOCK_SIZE
                && self.write_cursor + BLOCK_SIZE <= SIZE_LIMIT,
            Pending::FlushProgram { expected } => self.write_cursor + BLOCK_SIZE <= SIZE_LIMIT,
            Pending::MarkerPrepare { table } => table.len() == VECTOR_TABLE_LEN,
            Pending::MarkerErase { table } => table.len() == VECTOR_TABLE_LEN,
            Pending::MarkerReprepare { table } => table.len() == VECTOR_TABLE_LEN,
            _ => true,
        }
    }

    /// Nothing received, nothing in flight.
    pub open spec fn empty() -> ProgrammerModel {
        ProgrammerModel { write_cursor: 0, staged: Seq::empty(), pending: Pending::Idle }
    }

    /// The model with no request in flight.
    pub open spec fn idle(self) -> ProgrammerModel {
        ProgrammerModel { pending: Pending::Idle, ..self }
    }

    /// The model once the block at the cursor is in flash.
    pub open spec fn advanced(self) -> ProgrammerModel {
        ProgrammerModel {
            write_cursor: self.write_cursor + BLOCK_SIZE as nat,
            staged: Seq::empty(),
            pending: Pending::Idle,
        }
    }

    /// The request to prepare the whole image region.
    pub open spec fn prepare_image() -> FlashStep<Seq<u8>> {
        FlashStep::Request(FlashRequest::PrepareSectors { first: FIRST_SECTOR, last: LAST_SECTOR })
    }

    /// The request to prepare the sector that holds the marker.
    pub open spec fn prepare_table() -> FlashStep<Seq<u8>> {
        FlashStep::Request(
            FlashRequest::PrepareSectors { first: FIRST_SECTOR, last: FIRST_SECTOR },
        )
    }

    /// The request to program `block` at the cursor.
    pub open spec fn program_at_cursor(self, block: Seq<u8>) -> FlashStep<Seq<u8>> {
        FlashStep::Request(
            FlashRequest::CopyRamToFlash {
                address: (BASE_ADDRESS + self.write_cursor) as u32,
                data: block,
            },
        )
    }

    /// Starts an erase: the image is forgotten, whatever was in flight is
    /// abandoned, and the whole image region is to be prepared.
    pub open spec fn erase(self) -> (ProgrammerModel, FlashStep<Seq<u8>>) {
        (
            ProgrammerModel {
                write_cursor: 0,
                staged: Seq::empty(),
                pending: Pending::ErasePrepare,
            },
            Self::prepare_image(),
        )
    }

    /// Takes `rest` into the image, as far as that goes without the flash.
    ///
    /// While bytes are left and the block at the cursor lies within
    /// `SIZE_LIMIT`, they are staged. A block that they fill is programmed
    /// next, and the bytes behind it wait in `pending`.
    pub open spec fn stage(self, rest: Seq<u8>) -> (ProgrammerModel, FlashStep<Seq<u8>>) {
        let room = BLOCK_SIZE - self.staged.len();
        if rest.len() == 0 {
            (self.idle(), FlashStep::Written(Ok(())))
        } else if self.write_cursor + BLOCK_SIZE > SIZE_LIMIT {
            (self.idle(), FlashStep::Written(Err(FlashError::OutOfRange)))
        } else if rest.len() < room {
            (
                ProgrammerModel { staged: self.staged + rest, pending: Pending::Idle, ..self },
                FlashStep::Written(Ok(())),
            )
        } else {
            (
                ProgrammerModel {
                    pending: Pending::WritePrepare {
                        block: block_for(self.write_cursor, self.staged + rest.take(room)),
                        rest: rest.skip(room),
                    },
                    ..self
                },
                Self::prepare_image(),
            )
        }
    }

    /// Starts a write of `data`; whatever was in flight is abandoned.
    pub open spec fn write(self, data: Seq<u8>) -> (ProgrammerModel, FlashStep<Seq<u8>>) {
        self.stage(data)
    }

    /// Checks the image against `expected`, once all of it is in flash. An
    /// image without a single block has no signature to match.
    pub open spec fn verify(self, expected: Seq<u8>) -> (ProgrammerModel, FlashStep<Seq<u8>>) {
        if self.write_cursor == 0 {
            (self.idle(), FlashStep::Finalized(Err(CommitError::SignatureMismatch)))
        } else {
            (
                ProgrammerModel { pending: Pending::Signature { expected }, ..self },
                FlashStep::Request(
                    FlashRequest::ComputeSignature {
                        first_word: signature_first_word(),
                        last_word: signature_last_word(self.write_cursor),
                    },
                ),
            )
        }
    }

    /// Starts a finalize; whatever was in flight is abandoned. Staged bytes
    /// are padded with erased bytes to a whole block, which is programmed
    /// first.
    pub open spec fn finalize(self, expected: Seq<u8>) -> (ProgrammerModel, FlashStep<Seq<u8>>) {
        if self.staged.len() > 0 {
            (
                ProgrammerModel {
                    pending: Pending::FlushPrepare {
                        block: block_for(
                            self.write_cursor,
                            self.staged + padding((BLOCK_SIZE - self.staged.len()) as nat),
                        ),
                        expected,
                    },
                    ..self
                },
                Self::prepare_image(),
            )
        } else {
            self.verify(expected)
        }
    }

    /// Goes on after the hardware answered `event`.
    pub open spec fn resume(self, event: FlashEvent<Seq<u8>>) -> (
        ProgrammerModel,
        FlashStep<Seq<u8>>,
    ) {
        match (self.pending, event) {
            (Pending::ErasePrepare, FlashEvent::Status(status)) => if status != 0 {
                (self.idle(), FlashStep::Erased(Err(EraseError::PrepareFailed)))
            } else {
                (
                    ProgrammerModel { pending: Pending::EraseRun, ..self },
                    FlashStep::Request(
                        FlashRequest::EraseSectors { first: FIRST_SECTOR, last: LAST_SECTOR },
                    ),
                )
            },
            (Pending::EraseRun, FlashEvent::Status(status)) => if status != 0 {
                (self.idle(), FlashStep::Erased(Err(EraseError::EraseFailed)))
            } else {
                (self.idle(), FlashStep::Erased(Ok(())))
            },
            (Pending::WritePrepare { block, rest }, FlashEvent::Status(status)) => if status != 0 {
                (self.idle(), FlashStep::Written(Err(FlashError::FlashProgramFailed)))
            } else {
                (
                    ProgrammerModel { pending: Pending::WriteProgram { rest }, ..self },
                    self.program_at_cursor(block),
                )
            },
            (Pending::WriteProgram { rest }, FlashEvent::Status(status)) => if status != 0 {
                (self.idle(), FlashStep::Written(Err(FlashError::FlashProgramFailed)))
            } else {
                self.advanced().stage(rest)
            },
            (Pending::FlushPrepare { block, expected }, FlashEvent::Status(status)) => if status
                != 0 {
                (self.idle(), FlashStep::Finalized(Err(CommitError::FlushPrepareFailed)))
            } else {
                (
                    ProgrammerModel { pending: Pending::FlushProgram { expected }, ..self },
                    self.program_at_cursor(block),
                )
            },
            (Pending::FlushProgram { expected }, FlashEvent::Status(status)) => if status != 0 {
                (self.idle(), FlashStep::Finalized(Err(CommitError::FlushProgramFailed)))
            } else {
                self.advanced().verify(expected)
            },
            (Pending::Signature { expected }, FlashEvent::Signature(words)) => if signature_bytes(
                words,
            ) != expected {
                (self.idle(), FlashStep::Finalized(Err(CommitError::SignatureMismatch)))
            } else {
                (
                    ProgrammerModel { pending: Pending::ReadTable, ..self },
                    FlashStep::Request(
                        FlashRequest::ReadFlash {
                            address: BASE_ADDRESS as u32,
                            length: VECTOR_TABLE_LEN as u32,
                        },
                    ),
                )
            },
            (Pending::ReadTable, FlashEvent::Contents(bytes)) => if bytes.len()
                != VECTOR_TABLE_LEN {
                (self, FlashStep::Ignored)
            } else {
                (
                    ProgrammerModel {
                        pending: Pending::MarkerPrepare {
                            table: with_marker(bytes, valid_marker()),
                        },
                        ..self
                    },
                    Self::prepare_table(),
                )
            },
            (Pending::MarkerPrepare { table }, FlashEvent::Status(status)) => if status != 0 {
                (self.idle(), FlashStep::Finalized(Err(CommitError::MarkerPrepareFailed)))
            } else {
                (
                    ProgrammerModel { pending: Pending::MarkerErase { table }, ..self },
                    FlashStep::Request(
                        FlashRequest::EraseSectors { first: FIRST_SECTOR, last: FIRST_SECTOR },
                    ),
                )
            },
            (Pending::MarkerErase { table }, FlashEvent::Status(status)) => if status != 0 {
                (self.idle(), FlashStep::Finalized(Err(CommitError::MarkerEraseFailed)))
            } else {
                (
                    ProgrammerModel { pending: Pending::MarkerReprepare { table }, ..self },
                    Self::prepare_table(),
                )
            },
            (Pending::MarkerReprepare { table }, FlashEvent::Status(status)) => if status != 0 {
                (self.idle(), FlashStep::Finalized(Err(CommitError::MarkerReprepareFailed)))
            } else {
                (
                    ProgrammerModel { pending: Pending::MarkerProgram, ..self },
                    FlashStep::Request(
                        FlashRequest::CopyRamToFlash {
                            address: BASE_ADDRESS as u32,
                            data: table,
                        },
                    ),
                )
            },
            (Pending::MarkerProgram, FlashEvent::Status(status)) => if status != 0 {
                (self.idle(), FlashStep::Finalized(Err(CommitError::MarkerProgramFailed)))
            } else {
                (self.idle(), FlashStep::Finalized(Ok(())))
            },
            _ => (self, FlashStep::Ignored),
        }
    }
}

/// A copy of `data[from..to]`.
fn copy_range(data: &[u8], from: usize, to: usize) -> (out: Vec<u8>)
    requires
        from <= to <= data@.len(),
    ensures
        out@ == data@.subrange(from as int, to as int),
{
    let mut out: Vec<u8> = Vec::new();
    append_range(&mut out, data, from, to);
    assert(Seq::<u8>::empty() + data@.subrange(from as int, to as int) =~= data@.subrange(
        from as int,
        to as int,
    ));
    out
}

/// Appends `data[from..to]` to `out`.
fn append_range(out: &mut Vec<u8>, data: &[u8], from: usize, to: usize)
    requires
        from <= to <= data@.len(),
    ensures
        final(out)@ == old(out)@ + data@.subrange(from as int, to as int),
{
    let mut i: usize = from;
    assert(old(out)@ + data@.subrange(from as int, from as int) =~= old(out)@);
    while i < to
        invariant
            from <= i <= to <= data@.len(),
            out@ == old(out)@ + data@.subrange(from as int, i as int),
        decreases to - i,
    {
        out.push(data[i]);
        assert(data@.subrange(from as int, i as int).push(data@[i as int]) =~= data@.subrange(
            from as int,
            i + 1,
        ));
        i += 1;
    }
}

/// Appends `count` erased bytes to `out`.
fn append_padding(out: &mut Vec<u8>, count: usize)
    ensures
        final(out)@ == old(out)@ + padding(count as nat),
{
    let mut i: usize = 0;
    assert(old(out)@ + padding(0) =~= old(out)@);
    while i < count
        invariant
            i <= count,
            out@ == old(out)@ + padding(i as nat),
        decreases count - i,
    {
        out.push(ERASED_BYTE);
        assert(padding(i as nat).push(ERASED_BYTE) =~= padding((i + 1) as nat));
        i += 1;
    }
}

/// Overwrites the marker slot of `bytes` with `marker`.
fn set_marker(bytes: &mut Vec<u8>, marker: [u8; 4])
    requires
        old(bytes)@.len() >= MARKER_OFFSET + MARKER_LEN,
    ensures
        final(bytes)@ == with_marker(old(bytes)@, marker@),
{
    bytes[MARKER_OFFSET] = marker[0];
    bytes[MARKER_OFFSET + 1] = marker[1];
    bytes[MARKER_OFFSET + 2] = marker[2];
    bytes[MARKER_OFFSET + 3] = marker[3];
    assert(bytes@ =~= with_marker(old(bytes)@, marker@));
}

/// Whether the engine's four words spell `expected`.
fn signature_matches(words: [u32; 4], expected: &Vec<u8>) -> (same: bool)
    ensures
        same == (signature_bytes(words) == expected@),
{
    let w0 = u32_to_le(words[0]);
    let w1 = u32_to_le(words[1]);
    let w2 = u32_to_le(words[2]);
    let w3 = u32_to_le(words[3]);
    proof {
        assert(signature_bytes(words) =~= w0@ + w1@ + w2@ + w3@);
    }
    if expected.len() != SIGNATURE_BYTES {
        return false;
    }
    let same = w0[0] == expected[0] && w0[1] == expected[1] && w0[2] == expected[2] && w0[3]
        == expected[3] && w1[0] == expected[4] && w1[1] == expected[5] && w1[2] == expected[6]
        && w1[3] == expected[7] && w2[0] == expected[8] && w2[1] == expected[9] && w2[2]
        == expected[10] && w2[3] == expected[11] && w3[0] == expected[12] && w3[1]
        == expected[13] && w3[2] == expected[14] && w3[3] == expected[15];
    proof {
        let computed = signature_bytes(words);
        if same {
            assert(computed =~= expected@);
        } else {
            if computed == expected@ {
                assert(computed[0] == w0@[0] && computed[1] == w0@[1] && computed[2] == w0@[2]
                    && computed[3] == w0@[3]);
                assert(computed[4] == w1@[0] && computed[5] == w1@[1] && computed[6] == w1@[2]
                    && computed[7] == w1@[3]);
                assert(computed[8] == w2@[0] && computed[9] == w2@[1] && computed[10] == w2@[2]
                    && computed[11] == w2@[3]);
                assert(computed[12] == w3@[0] && computed[13] == w3@[1] && computed[14]
                    == w3@[2] && computed[15] == w3@[3]);
            }
        }
    }
    same
}

/// The sans-hardware programmer of the image; see the module's description.
pub struct Programmer {
    write_cursor: usize,
    staging: Vec<u8>,
    pending: Pending<Vec<u8>>,
}

impl View for Programmer {
    type V = ProgrammerModel;

    closed spec fn view(&self) -> ProgrammerModel {
        ProgrammerModel {
            write_cursor: self.write_cursor as nat,
            staged: self.staging@,
            pending: self.pending@,
        }
    }
}

impl Programmer {
    /// What every programmer that this module hands out satisfies.
    pub open spec fn wf(&self) -> bool {
        self@.wf()
    }

    /// A programmer that has received nothing.
    pub fn new() -> (programmer: Self)
        ensures
            programmer.wf(),
            programmer@ == ProgrammerModel::empty(),
    {
        Programmer { write_cursor: 0, staging: Vec::new(), pending: Pending::Idle }
    }

    /// Bytes of the image that are in flash.
    pub fn write_cursor(&self) -> (cursor: usize)
        ensures
            cursor == self@.write_cursor,
    {
        self.write_cursor
    }

    /// Bytes received and not yet in flash.
    pub fn staged_len(&self) -> (len: usize)
        ensures
            len == self@.staged.len(),
    {
        self.staging.len()
    }

    /// Whether no request is in flight.
    pub fn is_idle(&self) -> (idle: bool)
        ensures
            idle == (self@.pending is Idle),
    {
        match &self.pending {
            Pending::Idle => true,
            _ => false,
        }
    }

    /// Starts erasing the image region; see `ProgrammerModel::erase`.
    pub fn erase(&mut self) -> (step: FlashStep)
        requires
            old(self).wf(),
        ensures
            final(self).wf(),
            final(self)@ == old(self)@.erase().0,
            step@ == old(self)@.erase().1,
    {
        self.write_cursor = 0;
        self.staging = Vec::new();
        self.pending = Pending::ErasePrepare;
        FlashStep::Request(FlashRequest::PrepareSectors { first: FIRST_SECTOR, last: LAST_SECTOR })
    }

    /// Starts taking `data` into the image; see `ProgrammerModel::write`.
    pub fn write(&mut self, data: &[u8]) -> (step: FlashStep)
        requires
            old(self).wf(),
        ensures
            final(self).wf(),
            final(self)@ == old(self)@.write(data@).0,
            step@ == old(self)@.write(data@).1,
    {
        let rest = copy_range(data, 0, data.len());
        assert(rest@ =~= data@);
        self.stage(rest)
    }

    /// Starts making the image bootable; see `ProgrammerModel::finalize`.
    pub fn finalize(&mut self, expected: [u8; 16]) -> (step: FlashStep)
        requires
            old(self).wf(),
        ensures
            final(self).wf(),
            final(self)@ == old(self)@.finalize(expected@).0,
            step@ == old(self)@.finalize(expected@).1,
    {
        let ghost wanted = expected@;
        let expected = copy_range(expected.as_slice(), 0, SIGNATURE_BYTES);
        assert(expected@ =~= wanted);
        let staged = self.staging.len();
        if staged > 0 {
            let mut block = copy_range(self.staging.as_slice(), 0, staged);
            append_padding(&mut block, BLOCK_SIZE - staged);
            assert(self.staging@.subrange(0, staged as int) =~= self.staging@);
            if self.write_cursor == 0 {
                let marker: [u8; 4] = [ERASED_BYTE, ERASED_BYTE, ERASED_BYTE, ERASED_BYTE];
                assert(marker@ =~= invalid_marker());
                set_marker(&mut block, marker);
            }
            self.pending = Pending::FlushPrepare { block, expected };
            FlashStep::Request(
                FlashRequest::PrepareSectors { first: FIRST_SECTOR, last: LAST_SECTOR },
            )
        } else {
            self.verify(expected)
        }
    }

    /// Goes on after the hardware answered; see `ProgrammerModel::resume`.
    pub fn resume(&mut self, event: FlashEvent) -> (step: FlashStep)
        requires
            old(self).wf(),
        ensures
            final(self).wf(),
            final(self)@ == old(self)@.resume(event@).0,
            step@ == old(self)@.resume(event@).1,
    {
        let mut pending: Pending<Vec<u8>> = Pending::Idle;
        core::mem::swap(&mut self.pending, &mut pending);
        match (pending, event) {
            (Pending::ErasePrepare, FlashEvent::Status(status)) => {
                if status != 0 {
                    FlashStep::Erased(Err(EraseError::PrepareFailed))
                } else {
                    self.pending = Pending::EraseRun;
                    FlashStep::Request(
                        FlashRequest::EraseSectors { first: FIRST_SECTOR, last: LAST_SECTOR },
                    )
                }
            },
            (Pending::EraseRun, FlashEvent::Status(status)) => {
                if status != 0 {
                    FlashStep::Erased(Err(EraseError::EraseFailed))
                } else {
                    FlashStep::Erased(Ok(()))
                }
            },
            (Pending::WritePrepare { block, rest }, FlashEvent::Status(status)) => {
                if status != 0 {
                    FlashStep::Written(Err(FlashError::FlashProgramFailed))
                } else {
                    self.pending = Pending::WriteProgram { rest };
                    self.program_at_cursor(block)
                }
            },
            (Pending::WriteProgram { rest }, FlashEvent::Status(status)) => {
                if status != 0 {
                    FlashStep::Written(Err(FlashError::FlashProgramFailed))
                } else {
                    self.advance();
                    self.stage(rest)
                }
            },
            (Pending::FlushPrepare { block, expected }, FlashEvent::Status(status)) => {
                if status != 0 {
                    FlashStep::Finalized(Err(CommitError::FlushPrepareFailed))
                } else {
                    self.pending = Pending::FlushProgram { expected };
                    self.program_at_cursor(block)
                }
            },
            (Pending::FlushProgram { expected }, FlashEvent::Status(status)) => {
                if status != 0 {
                    FlashStep::Finalized(Err(CommitError::FlushProgramFailed))
                } else {
                    self.advance();
                    self.verify(expected)
                }
            },
            (Pending::Signature { expected }, FlashEvent::Signature(words)) => {
                if !signature_matches(words, &expected) {
                    FlashStep::Finalized(Err(CommitError::SignatureMismatch))
                } else {
                    self.pending = Pending::ReadTable;
                    FlashStep::Request(
                        FlashRequest::ReadFlash {
                            address: BASE_ADDRESS as u32,
                            length: VECTOR_TABLE_LEN as u32,
                        },
                    )
                }
            },
            (Pending::ReadTable, FlashEvent::Contents(bytes)) => {
                if bytes.len() != VECTOR_TABLE_LEN {
                    self.pending = Pending::ReadTable;
                    FlashStep::Ignored
                } else {
                    let mut table = bytes;
                    set_marker(&mut table, u32_to_le(VALID_MARKER));
                    self.pending = Pending::MarkerPrepare { table };
                    FlashStep::Request(
                        FlashRequest::PrepareSectors { first: FIRST_SECTOR, last: FIRST_SECTOR },
                    )
                }
            },
            (Pending::MarkerPrepare { table }, FlashEvent::Status(status)) => {
                if status != 0 {
                    FlashStep::Finalized(Err(CommitError::MarkerPrepareFailed))
                } else {
                    self.pending = Pending::MarkerErase { table };
                    FlashStep::Request(
                        FlashRequest::EraseSectors { first: FIRST_SECTOR, last: FIRST_SECTOR },
                    )
                }
            },
            (Pending::MarkerErase { table }, FlashEvent::Status(status)) => {
                if status != 0 {
                    FlashStep::Finalized(Err(CommitError::MarkerEraseFailed))
                } else {
                    self.pending = Pending::MarkerReprepare { table };
                    FlashStep::Request(
                        FlashRequest::PrepareSectors { first: FIRST_SECTOR, last: FIRST_SECTOR },
                    )
                }
            },
            (Pending::MarkerReprepare { table }, FlashEvent::Status(status)) => {
                if status != 0 {
                    FlashStep::Finalized(Err(CommitError::MarkerReprepareFailed))
                } else {
                    self.pending = Pending::MarkerProgram;
                    FlashStep::Request(
                        FlashRequest::CopyRamToFlash { address: BASE_ADDRESS as u32, data: table },
                    )
                }
            },
            (Pending::MarkerProgram, FlashEvent::Status(status)) => {
                if status != 0 {
                    FlashStep::Finalized(Err(CommitError::MarkerProgramFailed))
                } else {
                    FlashStep::Finalized(Ok(()))
                }
            },
            (other, _) => {
                self.pending = other;
                FlashStep::Ignored
            },
        }
    }

    /// The request to program `block` at the cursor.
    fn program_at_cursor(&self, block: Vec<u8>) -> (step: FlashStep)
        requires
            self.write_cursor + BLOCK_SIZE <= SIZE_LIMIT,
        ensures
            step@ == self@.program_at_cursor(block@),
    {
        FlashStep::Request(
            FlashRequest::CopyRamToFlash {
                address: (BASE_ADDRESS + self.write_cursor) as u32,
                data: block,
            },
        )
    }

    /// Notes that the block at the cursor is in flash.
    fn advance(&mut self)
        requires
            old(self).write_cursor % BLOCK_SIZE == 0,
            old(self).write_cursor + BLOCK_SIZE <= SIZE_LIMIT,
        ensures
            final(self)@ == old(self)@.advanced(),
            final(self).wf(),
    {
        self.write_cursor = self.write_cursor + BLOCK_SIZE;
        self.staging = Vec::new();
        self.pending = Pending::Idle;
    }

    /// See `ProgrammerModel::stage`.
    fn stage(&mut self, rest: Vec<u8>) -> (step: FlashStep)
        requires
            old(self).wf(),
        ensures
            final(self).wf(),
            final(self)@ == old(self)@.stage(rest@).0,
            step@ == old(self)@.stage(rest@).1,
    {
        let staged = self.staging.len();
        let room = BLOCK_SIZE - staged;
        if rest.len() == 0 {
            self.pending = Pending::Idle;
            FlashStep::Written(Ok(()))
        } else if self.write_cursor + BLOCK_SIZE > SIZE_LIMIT {
            self.pending = Pending::Idle;
            FlashStep::Written(Err(FlashError::OutOfRange))
        } else if rest.len() < room {
            append_range(&mut self.staging, rest.as_slice(), 0, rest.len());
            assert(rest@.subrange(0, rest@.len() as int) =~= rest@);
            self.pending = Pending::Idle;
            FlashStep::Written(Ok(()))
        } else {
            let mut block = copy_range(self.staging.as_slice(), 0, staged);
            append_range(&mut block, rest.as_slice(), 0, room);
            assert(self.staging@.subrange(0, staged as int) =~= self.staging@);
            assert(rest@.subrange(0, room as int) =~= rest@.take(room as int));
            if self.write_cursor == 0 {
                let marker: [u8; 4] = [ERASED_BYTE, ERASED_BYTE, ERASED_BYTE, ERASED_BYTE];
                assert(marker@ =~= invalid_marker());
                set_marker(&mut block, marker);
            }
            let tail = copy_range(rest.as_slice(), room, rest.len());
            assert(rest@.subrange(room as int, rest@.len() as int) =~= rest@.skip(room as int));
            self.pending = Pending::WritePrepare { block, rest: tail };
            FlashStep::Request(
                FlashRequest::PrepareSectors { first: FIRST_SECTOR, last: LAST_SECTOR },
            )
        }
    }

    /// See `ProgrammerModel::verify`.
    fn verify(&mut self, expected: Vec<u8>) -> (step: FlashStep)
        requires
            old(self).wf(),
        ensures
            final(self).wf(),
            final(self)@ == old(self)@.verify(expected@).0,
            step@ == old(self)@.verify(expected@).1,
    {
        if self.write_cursor == 0 {
            self.pending = Pending::Idle;
            FlashStep::Finalized(Err(CommitError::SignatureMismatch))
        } else {
            self.pending = Pending::Signature { expected };
            FlashStep::Request(
                FlashRequest::ComputeSignature {
                    first_word: (BASE_ADDRESS / SIGNATURE_WORD) as u32,
                    last_word: ((BASE_ADDRESS + self.write_cursor) / SIGNATURE_WORD - 1) as u32,
                },
            )
        }
    }
}

} // verus!
