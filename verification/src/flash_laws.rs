//! What holds of the programmer when its requests are carried out on a flash
//! that behaves: an operation reported as failed leaves the flash as it was,
//! one reported as done has taken effect as a whole.
//!
//! The flash is modelled by the bytes of the image region: index 0 is the
//! byte at `BASE_ADDRESS`.

use crate::flash::{
    block_for, invalid_marker, marker_of, padding, signature_bytes, valid_marker, with_marker,
    CommitError, FlashEvent, FlashRequest, FlashStep, Pending, ProgrammerModel, BASE_ADDRESS,
    BLOCK_SIZE, ERASED_BYTE, FIRST_SECTOR, LAST_SECTOR, MARKER_LEN, SIGNATURE_WORD, SIZE_LIMIT,
    VECTOR_TABLE_LEN,
};
use vstd::prelude::*;

verus! {

/// Size of a flash sector.
pub const SECTOR_SIZE: usize = 4096;

/// The hardware around the programmer, as far as it matters here.
pub struct Hardware {
    /// The status that the flash reports for the operation carried out when
    /// `n` more steps may follow.
    pub status: spec_fn(nat) -> u32,
    /// The signature engine: from the bytes of a range to its four words.
    pub engine: spec_fn(Seq<u8>) -> [u32; 4],
}

/// The image region with every byte erased.
pub open spec fn erased_flash() -> Seq<u8> {
    padding(SIZE_LIMIT as nat)
}

/// `flash` with `data` programmed at the image offset `offset`.
pub open spec fn programmed(flash: Seq<u8>, offset: int, data: Seq<u8>) -> Seq<u8> {
    Seq::new(
        flash.len(),
        |i: int|
            if offset <= i < offset + data.len() {
                data[i - offset]
            } else {
                flash[i]
            },
    )
}

/// `flash` with the sectors `first..=last` erased.
pub open spec fn sectors_erased(flash: Seq<u8>, first: u32, last: u32) -> Seq<u8> {
    Seq::new(
        flash.len(),
        |i: int|
            if first * SECTOR_SIZE <= BASE_ADDRESS + i < (last + 1) * SECTOR_SIZE {
                ERASED_BYTE
            } else {
                flash[i]
            },
    )
}

/// The flash after `request` was carried out with the given status.
pub open spec fn flash_after(flash: Seq<u8>, request: FlashRequest<Seq<u8>>, status: u32) -> Seq<
    u8,
> {
    match request {
        FlashRequest::EraseSectors { first, last } => if status == 0 {
            sectors_erased(flash, first, last)
        } else {
            flash
        },
        FlashRequest::CopyRamToFlash { address, data } => if status == 0 {
            programmed(flash, address - BASE_ADDRESS, data)
        } else {
            flash
        },
        _ => flash,
    }
}

/// What the hardware answers to `request`.
pub open spec fn answer(
    flash: Seq<u8>,
    request: FlashRequest<Seq<u8>>,
    status: u32,
    engine: spec_fn(Seq<u8>) -> [u32; 4],
) -> FlashEvent<Seq<u8>> {
    match request {
        FlashRequest::ComputeSignature { first_word, last_word } => FlashEvent::Signature(
            engine(
                flash.subrange(
                    first_word * SIGNATURE_WORD - BASE_ADDRESS,
                    (last_word + 1) * SIGNATURE_WORD - BASE_ADDRESS,
                ),
            ),
        ),
        FlashRequest::ReadFlash { address, length } => FlashEvent::Contents(
            flash.subrange(address - BASE_ADDRESS, address - BASE_ADDRESS + length),
        ),
        _ => FlashEvent::Status(status),
    }
}

/// Whether `step` is what a programmer in the state `programmer` has handed
/// out last: its request in flight, or the end of an operation.
pub open spec fn awaits(programmer: ProgrammerModel, step: FlashStep<Seq<u8>>) -> bool {
    match programmer.pending {
        Pending::Idle => !(step is Request),
        Pending::ErasePrepare => step == ProgrammerModel::prepare_image(),
        Pending::EraseRun => step == FlashStep::Request(
            FlashRequest::<Seq<u8>>::EraseSectors { first: FIRST_SECTOR, last: LAST_SECTOR },
        ),
        Pending::WritePrepare { block, rest } => step == ProgrammerModel::prepare_image(),
        Pending::WriteProgram { rest } => step matches FlashStep::Request(
            FlashRequest::CopyRamToFlash { address, data },
        ) && address == BASE_ADDRESS + programmer.write_cursor && data.len() == BLOCK_SIZE,
        Pending::FlushPrepare { block, expected } => step == ProgrammerModel::prepare_image(),
        Pending::FlushProgram { expected } => step matches FlashStep::Request(
            FlashRequest::CopyRamToFlash { address, data },
        ) && address == BASE_ADDRESS + programmer.write_cursor && data.len() == BLOCK_SIZE,
        Pending::Signature { expected } => step == programmer.idle().verify(expected).1,
        Pending::ReadTable => step == FlashStep::Request(
            FlashRequest::<Seq<u8>>::ReadFlash {
                address: BASE_ADDRESS as u32,
                length: VECTOR_TABLE_LEN as u32,
            },
        ),
        Pending::MarkerPrepare { table } => step == ProgrammerModel::prepare_table(),
        Pending::MarkerErase { table } => step == FlashStep::Request(
            FlashRequest::<Seq<u8>>::EraseSectors { first: FIRST_SECTOR, last: FIRST_SECTOR },
        ),
        Pending::MarkerReprepare { table } => step == ProgrammerModel::prepare_table(),
        Pending::MarkerProgram => step matches FlashStep::Request(
            FlashRequest::CopyRamToFlash { address, data },
        ) && address == BASE_ADDRESS && data.len() == VECTOR_TABLE_LEN,
    }
}

/// Whether a block that is on its way to the flash leaves the marker invalid.
pub open spec fn harmless(programmer: ProgrammerModel, block: Seq<u8>) -> bool {
    block.len() == BLOCK_SIZE && (programmer.write_cursor == 0 ==> marker_of(block)
        == invalid_marker())
}

/// The image in flash cannot be booted, and nothing that is on its way to the
/// flash changes that, short of a finalize that succeeds.
pub open spec fn unbootable(
    programmer: ProgrammerModel,
    flash: Seq<u8>,
    step: FlashStep<Seq<u8>>,
) -> bool {
    &&& flash.len() == SIZE_LIMIT
    &&& programmer.wf()
    &&& awaits(programmer, step)
    &&& marker_of(flash) == invalid_marker()
    &&& match programmer.pending {
        Pending::WritePrepare { block, rest } => harmless(programmer, block),
        Pending::FlushPrepare { block, expected } => harmless(programmer, block),
        Pending::WriteProgram { rest } => step matches FlashStep::Request(
            FlashRequest::CopyRamToFlash { address, data },
        ) && harmless(programmer, data),
        Pending::FlushProgram { expected } => step matches FlashStep::Request(
            FlashRequest::CopyRamToFlash { address, data },
        ) && harmless(programmer, data),
        Pending::MarkerPrepare { table } => marker_of(table) == valid_marker(),
        Pending::MarkerErase { table } => marker_of(table) == valid_marker(),
        Pending::MarkerReprepare { table } => marker_of(table) == valid_marker(),
        Pending::MarkerProgram => step matches FlashStep::Request(
            FlashRequest::CopyRamToFlash { address, data },
        ) && marker_of(data) == valid_marker(),
        _ => true,
    }
}

/// The invalid marker is not the valid one.
pub proof fn lemma_markers_differ()
    ensures
        invalid_marker() != valid_marker(),
        invalid_marker().len() == MARKER_LEN,
        valid_marker().len() == MARKER_LEN,
{
    assert(invalid_marker()[0] == 0xFF);
    assert(valid_marker()[0] == 0xC0);
}

/// A block built for the cursor leaves the marker invalid.
pub proof fn lemma_block_for_harmless(programmer: ProgrammerModel, bytes: Seq<u8>)
    requires
        bytes.len() == BLOCK_SIZE,
    ensures
        harmless(programmer, block_for(programmer.write_cursor, bytes)),
{
    if programmer.write_cursor == 0 {
        assert(marker_of(with_marker(bytes, invalid_marker())) =~= invalid_marker());
    }
}

/// Every operation starts in step with its first request, and leaves an
/// unbootable image unbootable: starting an operation does not touch the
/// flash.
pub proof fn lemma_commands_keep_unbootable(
    programmer: ProgrammerModel,
    flash: Seq<u8>,
    data: Seq<u8>,
    expected: Seq<u8>,
)
    requires
        programmer.wf(),
        flash.len() == SIZE_LIMIT,
        marker_of(flash) == invalid_marker(),
    ensures
        unbootable(programmer.erase().0, flash, programmer.erase().1),
        unbootable(programmer.write(data).0, flash, programmer.write(data).1),
        unbootable(programmer.finalize(expected).0, flash, programmer.finalize(expected).1),
{
    lemma_stage_unbootable(programmer, flash, data);
    if programmer.staged.len() > 0 {
        lemma_block_for_harmless(
            programmer,
            programmer.staged + padding((BLOCK_SIZE - programmer.staged.len()) as nat),
        );
    }
}

/// Staging bytes leaves an unbootable image unbootable.
proof fn lemma_stage_unbootable(programmer: ProgrammerModel, flash: Seq<u8>, rest: Seq<u8>)
    requires
        programmer.wf(),
        flash.len() == SIZE_LIMIT,
        marker_of(flash) == invalid_marker(),
    ensures
        unbootable(programmer.stage(rest).0, flash, programmer.stage(rest).1),
{
    let room = BLOCK_SIZE - programmer.staged.len();
    if rest.len() >= room && programmer.write_cursor + BLOCK_SIZE <= SIZE_LIMIT {
        lemma_block_for_harmless(programmer, programmer.staged + rest.take(room));
    }
}

/// An erase that the flash reports as done leaves the whole image region
/// erased and the image unbootable, whatever the flash held before.
pub proof fn lemma_erase_makes_unbootable(programmer: ProgrammerModel, flash: Seq<u8>)
    requires
        programmer.wf(),
        programmer.pending is EraseRun,
        flash.len() == SIZE_LIMIT,
    ensures
        ({
            let request = FlashRequest::<Seq<u8>>::EraseSectors {
                first: FIRST_SECTOR,
                last: LAST_SECTOR,
            };
            let next = programmer.resume(FlashEvent::Status(0));
            &&& flash_after(flash, request, 0) == erased_flash()
            &&& next.1 == FlashStep::<Seq<u8>>::Erased(Ok(()))
            &&& unbootable(next.0, erased_flash(), next.1)
        }),
{
    let request = FlashRequest::<Seq<u8>>::EraseSectors { first: FIRST_SECTOR, last: LAST_SECTOR };
    assert(flash_after(flash, request, 0) =~= erased_flash());
    assert(marker_of(erased_flash()) =~= invalid_marker());
}

/// Between an erase and a finalize that succeeds, the marker in flash is
/// invalid at every point: whatever status the flash reports for the request
/// in flight, and whatever the signature engine computes, the image stays
/// unbootable, unless this very step ends a finalize with success, and then
/// the marker is the valid one.
pub proof fn lemma_step_keeps_unbootable(
    programmer: ProgrammerModel,
    flash: Seq<u8>,
    request: FlashRequest<Seq<u8>>,
    status: u32,
    engine: spec_fn(Seq<u8>) -> [u32; 4],
)
    requires
        unbootable(programmer, flash, FlashStep::Request(request)),
    ensures
        ({
            let next = programmer.resume(answer(flash, request, status, engine));
            let after = flash_after(flash, request, status);
            if next.1 == FlashStep::<Seq<u8>>::Finalized(Ok(())) {
                marker_of(after) == valid_marker()
            } else {
                unbootable(next.0, after, next.1)
            }
        }),
{
    let event = answer(flash, request, status, engine);
    let next = programmer.resume(event);
    let after = flash_after(flash, request, status);
    lemma_markers_differ();
    match programmer.pending {
        Pending::Idle => {},
        Pending::ErasePrepare => {},
        Pending::EraseRun => {
            if status == 0 {
                assert(marker_of(after) =~= invalid_marker());
            }
        },
        Pending::WritePrepare { block, rest } => {
            if status == 0 {
                assert(next.1 == programmer.program_at_cursor(block));
                assert(awaits(next.0, next.1));
            }
        },
        Pending::WriteProgram { rest } => {
            let data = request->CopyRamToFlash_data;
            if status == 0 {
                assert(marker_of(after) =~= invalid_marker());
                lemma_stage_unbootable(programmer.advanced(), after, rest);
            }
        },
        Pending::FlushPrepare { block, expected } => {
            if status == 0 {
                assert(next.1 == programmer.program_at_cursor(block));
                assert(awaits(next.0, next.1));
            }
        },
        Pending::FlushProgram { expected } => {
            if status == 0 {
                assert(marker_of(after) =~= invalid_marker());
            }
        },
        Pending::Signature { expected } => {},
        Pending::ReadTable => {
            let bytes = event->Contents_0;
            assert(bytes.len() == VECTOR_TABLE_LEN);
            assert(marker_of(with_marker(bytes, valid_marker())) =~= valid_marker());
        },
        Pending::MarkerPrepare { table } => {},
        Pending::MarkerErase { table } => {
            if status == 0 {
                assert(marker_of(after) =~= invalid_marker());
            }
        },
        Pending::MarkerReprepare { table } => {
            if status == 0 {
                assert(awaits(next.0, next.1));
            }
        },
        Pending::MarkerProgram => {
            if status == 0 {
                let table = request->CopyRamToFlash_data;
                assert(marker_of(after) =~= marker_of(table));
            }
        },
    }
}

/// Whether the flash reports success for every operation.
pub open spec fn succeeds(hardware: Hardware) -> bool {
    forall|n: nat| #[trigger] (hardware.status)(n) == 0
}

/// Carries out the request of `step` on the flash, hands the answer to the
/// programmer, and goes on with the step that this gives, for at most `fuel`
/// requests. Gives the programmer, the flash and the step at which it stops.
pub open spec fn run(
    programmer: ProgrammerModel,
    flash: Seq<u8>,
    step: FlashStep<Seq<u8>>,
    hardware: Hardware,
    fuel: nat,
) -> (ProgrammerModel, Seq<u8>, FlashStep<Seq<u8>>)
    decreases fuel,
{
    match step {
        FlashStep::Request(request) => if fuel == 0 {
            (programmer, flash, step)
        } else {
            let status = (hardware.status)(fuel);
            let next = programmer.resume(answer(flash, request, status, hardware.engine));
            run(next.0, flash_after(flash, request, status), next.1, hardware, (fuel - 1) as nat)
        },
        _ => (programmer, flash, step),
    }
}

/// Erasing forgets the image at once, whatever the flash then reports. Where
/// it reports success, the whole image region reads as erased afterwards,
/// the image is unbootable, and a finalize without new data is turned down
/// as a signature mismatch, whatever signature is expected.
pub proof fn lemma_erase_clears(
    programmer: ProgrammerModel,
    flash: Seq<u8>,
    hardware: Hardware,
    fuel: nat,
    expected: Seq<u8>,
)
    requires
        programmer.wf(),
        flash.len() == SIZE_LIMIT,
        fuel >= 2,
    ensures
        programmer.erase().0.write_cursor == 0,
        programmer.erase().0.staged.len() == 0,
        succeeds(hardware) ==> ({
            let start = programmer.erase();
            let end = run(start.0, flash, start.1, hardware, fuel);
            &&& end.0 == ProgrammerModel::empty()
            &&& end.1 == erased_flash()
            &&& end.2 == FlashStep::<Seq<u8>>::Erased(Ok(()))
            &&& unbootable(end.0, end.1, end.2)
            &&& end.0.finalize(expected) == (
                end.0,
                FlashStep::<Seq<u8>>::Finalized(Err(CommitError::SignatureMismatch)),
            )
        }),
{
    if succeeds(hardware) {
        reveal_with_fuel(run, 3);
        let start = programmer.erase();
        let end = run(start.0, flash, start.1, hardware, fuel);
        assert((hardware.status)(fuel) == 0);
        assert((hardware.status)((fuel - 1) as nat) == 0);
        assert(end.1 =~= erased_flash());
        assert(marker_of(erased_flash()) =~= invalid_marker());
    }
}

/// `image` is what was received since the erase: its whole blocks lie in
/// flash from the start of the image region, with the marker invalid, and
/// what is left of it is staged.
pub open spec fn holds_image(programmer: ProgrammerModel, flash: Seq<u8>, image: Seq<u8>) -> bool {
    &&& programmer.write_cursor + programmer.staged.len() == image.len()
    &&& programmer.staged == image.skip(programmer.write_cursor as int)
    &&& flash.take(programmer.write_cursor as int) == with_marker(
        image.take(programmer.write_cursor as int),
        invalid_marker(),
    )
    &&& flash.skip(programmer.write_cursor as int) == padding(
        (SIZE_LIMIT - programmer.write_cursor) as nat,
    )
}

/// Requests that a write of `data` makes: two for each block that it fills.
pub open spec fn write_requests(programmer: ProgrammerModel, data: Seq<u8>) -> nat {
    2 * ((programmer.staged.len() + data.len()) / BLOCK_SIZE as nat)
}

/// A write that fits adds its bytes to the image, however many blocks it
/// fills on the way.
pub proof fn lemma_write_appends(
    programmer: ProgrammerModel,
    flash: Seq<u8>,
    image: Seq<u8>,
    data: Seq<u8>,
    hardware: Hardware,
    fuel: nat,
)
    requires
        programmer.wf(),
        flash.len() == SIZE_LIMIT,
        holds_image(programmer, flash, image),
        image.len() + data.len() <= SIZE_LIMIT,
        succeeds(hardware),
        fuel >= write_requests(programmer, data),
    ensures
        ({
            let start = programmer.write(data);
            let end = run(start.0, flash, start.1, hardware, fuel);
            &&& end.2 == FlashStep::<Seq<u8>>::Written(Ok(()))
            &&& end.0.wf()
            &&& end.0.pending is Idle
            &&& end.1.len() == SIZE_LIMIT
            &&& holds_image(end.0, end.1, image + data)
        }),
    decreases data.len(),
{
    let start = programmer.write(data);
    let cursor = programmer.write_cursor as int;
    let room = BLOCK_SIZE - programmer.staged.len();
    if data.len() == 0 {
        assert(image + data =~= image);
    } else if data.len() < room {
        assert((image + data).skip(cursor) =~= programmer.staged + data);
        assert((image + data).take(cursor) =~= image.take(cursor));
    } else {
        assert(cursor + BLOCK_SIZE <= SIZE_LIMIT);
        let block = block_for(programmer.write_cursor, programmer.staged + data.take(room));
        let rest = data.skip(room);
        assert((hardware.status)(fuel) == 0);
        assert((hardware.status)((fuel - 1) as nat) == 0);
        let prepared = start.0.resume(FlashEvent::Status(0));
        assert(prepared.1 == programmer.program_at_cursor(block));
        let flash2 = programmed(flash, cursor, block);
        let next = programmer.advanced();
        let image2 = image + data.take(room);
        assert(prepared.0.resume(FlashEvent::Status(0)) == next.stage(rest));
        assert(run(start.0, flash, start.1, hardware, fuel) == run(
            next.stage(rest).0,
            flash2,
            next.stage(rest).1,
            hardware,
            (fuel - 2) as nat,
        )) by {
            reveal_with_fuel(run, 3);
        }
        assert(image =~= image.take(cursor) + programmer.staged);
        assert(image2.skip(cursor + BLOCK_SIZE) =~= Seq::<u8>::empty());
        assert(image2.take(cursor + BLOCK_SIZE) =~= image2);
        assert(flash2.take(cursor + BLOCK_SIZE) =~= with_marker(image2, invalid_marker())) by {
            let left = flash2.take(cursor + BLOCK_SIZE);
            let right = with_marker(image2, invalid_marker());
            assert(left.len() == right.len());
            assert forall|i: int| 0 <= i < left.len() implies left[i] == right[i] by {
                if i < cursor {
                    assert(flash.take(cursor)[i] == flash[i]);
                    assert(image.take(cursor)[i] == image2[i]);
                } else {
                    assert(image2[i] == (programmer.staged + data.take(room))[i - cursor]);
                }
            }
        }
        assert(flash2.skip(cursor + BLOCK_SIZE) =~= padding(
            (SIZE_LIMIT - cursor - BLOCK_SIZE) as nat,
        )) by {
            let left = flash2.skip(cursor + BLOCK_SIZE);
            assert forall|i: int| 0 <= i < left.len() implies left[i] == ERASED_BYTE by {
                assert(flash.skip(cursor)[i + BLOCK_SIZE] == flash[cursor + BLOCK_SIZE + i]);
            }
        }
        lemma_write_appends(next, flash2, image2, rest, hardware, (fuel - 2) as nat);
        assert(image2 + rest =~= image + data);
    }
}

/// The chunks one after the other.
pub open spec fn concat(chunks: Seq<Seq<u8>>) -> Seq<u8>
    decreases chunks.len(),
{
    if chunks.len() == 0 {
        Seq::empty()
    } else {
        concat(chunks.drop_last()) + chunks.last()
    }
}

/// The programmer and the flash after each chunk was written in turn, each
/// write carried through before the next.
pub open spec fn write_all(
    programmer: ProgrammerModel,
    flash: Seq<u8>,
    chunks: Seq<Seq<u8>>,
    hardware: Hardware,
    fuel: nat,
) -> (ProgrammerModel, Seq<u8>)
    decreases chunks.len(),
{
    if chunks.len() == 0 {
        (programmer, flash)
    } else {
        let before = write_all(programmer, flash, chunks.drop_last(), hardware, fuel);
        let start = before.0.write(chunks.last());
        let end = run(start.0, before.1, start.1, hardware, fuel);
        (end.0, end.1)
    }
}

/// Requests that suffice for any one operation on an image within
/// `SIZE_LIMIT`.
pub open spec fn plenty() -> nat {
    2 * (SIZE_LIMIT as nat / BLOCK_SIZE as nat) + 8
}

/// The length of `image` rounded up to whole blocks.
pub open spec fn padded_len(image: Seq<u8>) -> nat {
    if image.len() % BLOCK_SIZE as nat == 0 {
        image.len()
    } else {
        (image.len() + BLOCK_SIZE - image.len() % BLOCK_SIZE as nat) as nat
    }
}

/// `image` filled up with erased bytes to whole blocks.
pub open spec fn padded(image: Seq<u8>) -> Seq<u8> {
    image + padding((padded_len(image) - image.len()) as nat)
}

/// However an image is cut into chunks, after an erase the programmer holds
/// the chunks' concatenation.
pub proof fn lemma_write_all(chunks: Seq<Seq<u8>>, hardware: Hardware, fuel: nat)
    requires
        concat(chunks).len() <= SIZE_LIMIT,
        succeeds(hardware),
        fuel >= plenty(),
    ensures
        ({
            let end = write_all(
                ProgrammerModel::empty(),
                erased_flash(),
                chunks,
                hardware,
                fuel,
            );
            &&& end.0.wf()
            &&& end.0.pending is Idle
            &&& end.1.len() == SIZE_LIMIT
            &&& holds_image(end.0, end.1, concat(chunks))
        }),
    decreases chunks.len(),
{
    if chunks.len() == 0 {
        let flash = erased_flash();
        assert(flash.take(0) =~= with_marker(Seq::<u8>::empty().take(0), invalid_marker()));
        assert(flash.skip(0) =~= padding(SIZE_LIMIT as nat));
        assert(Seq::<u8>::empty().skip(0) =~= Seq::<u8>::empty());
    } else {
        lemma_write_all(chunks.drop_last(), hardware, fuel);
        let before = write_all(
            ProgrammerModel::empty(),
            erased_flash(),
            chunks.drop_last(),
            hardware,
            fuel,
        );
        lemma_write_appends(
            before.0,
            before.1,
            concat(chunks.drop_last()),
            chunks.last(),
            hardware,
            fuel,
        );
    }
}

/// With all of the image in flash, a finalize asks for the signature of
/// exactly the image's blocks and succeeds if and only if it is the expected
/// one; then, and only then, the marker in flash becomes the valid one.
/// Nothing else in flash changes.
pub proof fn lemma_verify_commits(
    programmer: ProgrammerModel,
    flash: Seq<u8>,
    image: Seq<u8>,
    expected: Seq<u8>,
    hardware: Hardware,
    fuel: nat,
)
    requires
        programmer.wf(),
        programmer.staged.len() == 0,
        flash.len() == SIZE_LIMIT,
        holds_image(programmer, flash, image),
        succeeds(hardware),
        fuel >= 6,
    ensures
        ({
            let start = programmer.verify(expected);
            let end = run(start.0, flash, start.1, hardware, fuel);
            let matched = image.len() > 0 && signature_bytes(
                (hardware.engine)(with_marker(image, invalid_marker())),
            ) == expected;
            &&& end.0 == programmer.idle()
            &&& matched ==> end.2 == FlashStep::<Seq<u8>>::Finalized(Ok(())) && end.1
                == with_marker(flash, valid_marker())
            &&& !matched ==> end.2 == FlashStep::<Seq<u8>>::Finalized(
                Err(CommitError::SignatureMismatch),
            ) && end.1 == flash
        }),
{
    let start = programmer.verify(expected);
    let cursor = programmer.write_cursor as int;
    assert(image.take(cursor) =~= image);
    if cursor > 0 {
        let range = flash.subrange(0, cursor);
        assert(range =~= flash.take(cursor));
        let words = (hardware.engine)(range);
        let request = start.1->Request_0;
        assert(answer(flash, request, 0, hardware.engine) == FlashEvent::<Seq<u8>>::Signature(
            words,
        ));
        assert((hardware.status)(fuel) == 0);
        assert((hardware.status)((fuel - 1) as nat) == 0);
        assert((hardware.status)((fuel - 2) as nat) == 0);
        assert((hardware.status)((fuel - 3) as nat) == 0);
        assert((hardware.status)((fuel - 4) as nat) == 0);
        assert((hardware.status)((fuel - 5) as nat) == 0);
        if signature_bytes(words) == expected {
            let s1 = start.0.resume(FlashEvent::Signature(words));
            let bytes = flash.subrange(0, VECTOR_TABLE_LEN as int);
            let table = with_marker(bytes, valid_marker());
            let s2 = s1.0.resume(FlashEvent::Contents(bytes));
            let s3 = s2.0.resume(FlashEvent::Status(0));
            let s4 = s3.0.resume(FlashEvent::Status(0));
            let flash4 = sectors_erased(flash, FIRST_SECTOR, FIRST_SECTOR);
            let s5 = s4.0.resume(FlashEvent::Status(0));
            let s6 = s5.0.resume(FlashEvent::Status(0));
            let flash6 = programmed(flash4, 0, table);
            assert(flash6 =~= with_marker(flash, valid_marker()));
            assert(s6 == (programmer.idle(), FlashStep::<Seq<u8>>::Finalized(Ok(()))));
            assert(run(start.0, flash, start.1, hardware, fuel) == run(
                s1.0,
                flash,
                s1.1,
                hardware,
                (fuel - 1) as nat,
            ));
            assert(run(s1.0, flash, s1.1, hardware, (fuel - 1) as nat) == run(
                s2.0,
                flash,
                s2.1,
                hardware,
                (fuel - 2) as nat,
            ));
            assert(run(s2.0, flash, s2.1, hardware, (fuel - 2) as nat) == run(
                s3.0,
                flash,
                s3.1,
                hardware,
                (fuel - 3) as nat,
            ));
            assert(run(s3.0, flash, s3.1, hardware, (fuel - 3) as nat) == run(
                s4.0,
                flash4,
                s4.1,
                hardware,
                (fuel - 4) as nat,
            ));
            assert(run(s4.0, flash4, s4.1, hardware, (fuel - 4) as nat) == run(
                s5.0,
                flash4,
                s5.1,
                hardware,
                (fuel - 5) as nat,
            ));
            assert(run(s5.0, flash4, s5.1, hardware, (fuel - 5) as nat) == run(
                s6.0,
                flash6,
                s6.1,
                hardware,
                (fuel - 6) as nat,
            ));
        } else {
            reveal_with_fuel(run, 2);
        }
    }
}

/// The image region once `image` was written and flushed, before anything
/// made it bootable: the image's blocks with the marker invalid, and erased
/// bytes behind them.
pub open spec fn staged_flash(image: Seq<u8>) -> Seq<u8> {
    with_marker(padded(image), invalid_marker()) + padding(
        (SIZE_LIMIT - padded_len(image)) as nat,
    )
}

/// However an image of any length up to `SIZE_LIMIT` is cut into chunks:
/// written after an erase and finalized, it lies in flash from the start of
/// the image region, chunk after chunk, filled up with erased bytes to the
/// next block boundary, and everything behind it is still erased. The one
/// exception is the marker slot. It holds the valid marker where the
/// signature of the image's blocks, taken with the marker invalid, is the
/// expected one, and finalize reports success exactly then; otherwise it
/// holds the invalid marker, and finalize reports a signature mismatch.
pub proof fn lemma_image_reaches_flash(
    chunks: Seq<Seq<u8>>,
    expected: Seq<u8>,
    hardware: Hardware,
    fuel: nat,
)
    requires
        concat(chunks).len() <= SIZE_LIMIT,
        succeeds(hardware),
        fuel >= plenty(),
    ensures
        ({
            let image = concat(chunks);
            let written = write_all(
                ProgrammerModel::empty(),
                erased_flash(),
                chunks,
                hardware,
                fuel,
            );
            let start = written.0.finalize(expected);
            let end = run(start.0, written.1, start.1, hardware, fuel);
            let matched = image.len() > 0 && signature_bytes(
                (hardware.engine)(with_marker(padded(image), invalid_marker())),
            ) == expected;
            &&& end.0.write_cursor == padded_len(image)
            &&& end.0.staged.len() == 0
            &&& matched ==> end.2 == FlashStep::<Seq<u8>>::Finalized(Ok(())) && end.1
                == with_marker(staged_flash(image), valid_marker())
            &&& !matched ==> end.2 == FlashStep::<Seq<u8>>::Finalized(
                Err(CommitError::SignatureMismatch),
            ) && end.1 == staged_flash(image)
        }),
{
    let image = concat(chunks);
    lemma_write_all(chunks, hardware, fuel);
    let written = write_all(ProgrammerModel::empty(), erased_flash(), chunks, hardware, fuel);
    let programmer = written.0;
    let flash = written.1;
    let cursor = programmer.write_cursor as int;
    let start = programmer.finalize(expected);
    if programmer.staged.len() == 0 {
        assert(padded(image) =~= image);
        assert(image.take(cursor) =~= image);
        assert(flash =~= flash.take(cursor) + flash.skip(cursor));
        lemma_verify_commits(programmer, flash, image, expected, hardware, fuel);
    } else {
        let full = padded(image);
        assert(padded_len(image) == cursor + BLOCK_SIZE);
        let bytes = programmer.staged + padding((BLOCK_SIZE - programmer.staged.len()) as nat);
        let block = block_for(programmer.write_cursor, bytes);
        assert((hardware.status)(fuel) == 0);
        assert((hardware.status)((fuel - 1) as nat) == 0);
        let prepared = start.0.resume(FlashEvent::Status(0));
        assert(prepared.1 == programmer.program_at_cursor(block));
        let flash2 = programmed(flash, cursor, block);
        let next = programmer.advanced();
        assert(prepared.0.resume(FlashEvent::Status(0)) == next.verify(expected));
        assert(run(start.0, flash, start.1, hardware, fuel) == run(
            next.verify(expected).0,
            flash2,
            next.verify(expected).1,
            hardware,
            (fuel - 2) as nat,
        )) by {
            reveal_with_fuel(run, 3);
        }
        assert(image =~= image.take(cursor) + programmer.staged);
        assert(full.skip(cursor + BLOCK_SIZE) =~= Seq::<u8>::empty());
        assert(full.take(cursor + BLOCK_SIZE) =~= full);
        assert(flash2.take(cursor + BLOCK_SIZE) =~= with_marker(full, invalid_marker())) by {
            let left = flash2.take(cursor + BLOCK_SIZE);
            let right = with_marker(full, invalid_marker());
            assert(left.len() == right.len());
            assert forall|i: int| 0 <= i < left.len() implies left[i] == right[i] by {
                if i < cursor {
                    assert(flash.take(cursor)[i] == flash[i]);
                    assert(image.take(cursor)[i] == full[i]);
                } else {
                    assert(full[i] == bytes[i - cursor]);
                }
            }
        }
        assert(flash2.skip(cursor + BLOCK_SIZE) =~= padding(
            (SIZE_LIMIT - cursor - BLOCK_SIZE) as nat,
        )) by {
            let left = flash2.skip(cursor + BLOCK_SIZE);
            assert forall|i: int| 0 <= i < left.len() implies left[i] == ERASED_BYTE by {
                assert(flash.skip(cursor)[i + BLOCK_SIZE] == flash[cursor + BLOCK_SIZE + i]);
            }
        }
        assert(flash2 =~= flash2.take(cursor + BLOCK_SIZE) + flash2.skip(cursor + BLOCK_SIZE));
        lemma_verify_commits(next, flash2, full, expected, hardware, (fuel - 2) as nat);
    }
}

/// Whatever the flash reports and however often: a verification that ends in
/// success has seen the signature engine give the expected signature for the
/// bytes from the start of the image region up to the cursor.
pub proof fn lemma_verify_needs_signature(
    programmer: ProgrammerModel,
    flash: Seq<u8>,
    expected: Seq<u8>,
    hardware: Hardware,
    fuel: nat,
)
    requires
        programmer.wf(),
        flash.len() == SIZE_LIMIT,
    ensures
        ({
            let start = programmer.verify(expected);
            let end = run(start.0, flash, start.1, hardware, fuel);
            end.2 == FlashStep::<Seq<u8>>::Finalized(Ok(())) ==> programmer.write_cursor > 0
                && signature_bytes(
                (hardware.engine)(flash.take(programmer.write_cursor as int)),
            ) == expected
        }),
{
    let start = programmer.verify(expected);
    let cursor = programmer.write_cursor as int;
    if cursor > 0 && fuel >= 1 {
        let range = flash.subrange(0, cursor);
        assert(range =~= flash.take(cursor));
        let words = (hardware.engine)(range);
        let s1 = start.0.resume(FlashEvent::Signature(words));
        if signature_bytes(words) != expected {
            reveal_with_fuel(run, 2);
        }
    }
}

/// Whatever the flash reports and however often: a finalize that ends in
/// success has seen the signature engine give the expected signature for the
/// image's blocks as they lay in flash when all of them were written.
pub proof fn lemma_success_needs_signature(
    programmer: ProgrammerModel,
    flash: Seq<u8>,
    expected: Seq<u8>,
    hardware: Hardware,
    fuel: nat,
)
    requires
        programmer.wf(),
        flash.len() == SIZE_LIMIT,
    ensures
        ({
            let start = programmer.finalize(expected);
            let end = run(start.0, flash, start.1, hardware, fuel);
            let cursor = programmer.write_cursor as int;
            let flushed = programmed(
                flash,
                cursor,
                block_for(
                    programmer.write_cursor,
                    programmer.staged + padding((BLOCK_SIZE - programmer.staged.len()) as nat),
                ),
            );
            end.2 == FlashStep::<Seq<u8>>::Finalized(Ok(())) ==> if programmer.staged.len() > 0 {
                signature_bytes((hardware.engine)(flushed.take(cursor + BLOCK_SIZE))) == expected
            } else {
                cursor > 0 && signature_bytes((hardware.engine)(flash.take(cursor))) == expected
            }
        }),
{
    let start = programmer.finalize(expected);
    let cursor = programmer.write_cursor as int;
    if programmer.staged.len() == 0 {
        lemma_verify_needs_signature(programmer, flash, expected, hardware, fuel);
    } else if fuel >= 2 {
        let block = block_for(
            programmer.write_cursor,
            programmer.staged + padding((BLOCK_SIZE - programmer.staged.len()) as nat),
        );
        let status1 = (hardware.status)(fuel);
        let status2 = (hardware.status)((fuel - 1) as nat);
        let prepared = start.0.resume(FlashEvent::Status(status1));
        if status1 == 0 {
            let flushed = prepared.0.resume(FlashEvent::Status(status2));
            if status2 == 0 {
                let next = programmer.advanced();
                let flash2 = programmed(flash, cursor, block);
                assert(run(start.0, flash, start.1, hardware, fuel) == run(
                    next.verify(expected).0,
                    flash2,
                    next.verify(expected).1,
                    hardware,
                    (fuel - 2) as nat,
                )) by {
                    reveal_with_fuel(run, 3);
                }
                lemma_verify_needs_signature(next, flash2, expected, hardware, (fuel - 2) as nat);
            } else {
                reveal_with_fuel(run, 3);
            }
        } else {
            reveal_with_fuel(run, 2);
        }
    } else {
        reveal_with_fuel(run, 2);
    }
}

} // verus!
