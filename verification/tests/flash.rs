use bootloader::flash::{
    CommitError, EraseError, FlashError, FlashEvent, FlashRequest, FlashStep, Programmer,
    BASE_ADDRESS, BLOCK_SIZE, MARKER_OFFSET, SIZE_LIMIT, VECTOR_TABLE_LEN,
};

/// A flash that does what it is asked, and a signature engine that sums.
struct Sim {
    mem: Vec<u8>,
    /// Requests carried out so far.
    log: Vec<FlashRequest>,
    /// The request with this index, counted from 0, fails with status 9.
    fail_at: Option<usize>,
}

fn sim() -> Sim {
    Sim { mem: vec![0x00; SIZE_LIMIT], log: Vec::new(), fail_at: None }
}

fn signature_words(bytes: &[u8]) -> [u32; 4] {
    let mut words = [0x811C_9DC5u32, 1, 2, 3];
    for (i, b) in bytes.iter().enumerate() {
        let w = &mut words[i % 4];
        *w = (*w ^ u32::from(*b)).wrapping_mul(0x0100_0193);
    }
    words
}

fn signature_of(bytes: &[u8]) -> [u8; 16] {
    let words = signature_words(bytes);
    let mut out = [0u8; 16];
    for (i, w) in words.iter().enumerate() {
        out[4 * i..4 * i + 4].copy_from_slice(&w.to_le_bytes());
    }
    out
}

fn copy_of(request: &FlashRequest) -> FlashRequest {
    match request {
        FlashRequest::PrepareSectors { first, last } => {
            FlashRequest::PrepareSectors { first: *first, last: *last }
        }
        FlashRequest::EraseSectors { first, last } => {
            FlashRequest::EraseSectors { first: *first, last: *last }
        }
        FlashRequest::CopyRamToFlash { address, data } => {
            FlashRequest::CopyRamToFlash { address: *address, data: data.to_vec() }
        }
        FlashRequest::ComputeSignature { first_word, last_word } => {
            FlashRequest::ComputeSignature { first_word: *first_word, last_word: *last_word }
        }
        FlashRequest::ReadFlash { address, length } => {
            FlashRequest::ReadFlash { address: *address, length: *length }
        }
    }
}

fn perform(sim: &mut Sim, request: FlashRequest) -> FlashEvent {
    let index = sim.log.len();
    sim.log.push(copy_of(&request));
    let failed = sim.fail_at == Some(index);
    match request {
        FlashRequest::PrepareSectors { .. } => FlashEvent::Status(if failed { 9 } else { 0 }),
        FlashRequest::EraseSectors { first, last } => {
            if failed {
                return FlashEvent::Status(9);
            }
            let from = first as usize * 4096 - BASE_ADDRESS;
            let to = (last as usize + 1) * 4096 - BASE_ADDRESS;
            for b in &mut sim.mem[from..to] {
                *b = 0xFF;
            }
            FlashEvent::Status(0)
        }
        FlashRequest::CopyRamToFlash { address, data } => {
            if failed {
                return FlashEvent::Status(9);
            }
            let at = address as usize - BASE_ADDRESS;
            sim.mem[at..at + data.len()].copy_from_slice(&data);
            FlashEvent::Status(0)
        }
        FlashRequest::ComputeSignature { first_word, last_word } => {
            let from = first_word as usize * 16 - BASE_ADDRESS;
            let to = (last_word as usize + 1) * 16 - BASE_ADDRESS;
            FlashEvent::Signature(signature_words(&sim.mem[from..to]))
        }
        FlashRequest::ReadFlash { address, length } => {
            let at = address as usize - BASE_ADDRESS;
            FlashEvent::Contents(sim.mem[at..at + length as usize].to_vec())
        }
    }
}

fn run(sim: &mut Sim, programmer: &mut Programmer, mut step: FlashStep) -> FlashStep {
    loop {
        match step {
            FlashStep::Request(request) => {
                let event = perform(sim, request);
                step = programmer.resume(event);
            }
            done => return done,
        }
    }
}

fn erased(sim: &mut Sim, programmer: &mut Programmer) {
    let step = programmer.erase();
    assert_eq!(run(sim, programmer, step), FlashStep::Erased(Ok(())));
}

fn image(len: usize) -> Vec<u8> {
    (0..len).map(|i| (i * 7 + 3) as u8).collect()
}

fn marker(sim: &Sim) -> [u8; 4] {
    let mut m = [0u8; 4];
    m.copy_from_slice(&sim.mem[MARKER_OFFSET..MARKER_OFFSET + 4]);
    m
}

/// What the image region holds once `image` is written and flushed.
fn expected_flash(image: &[u8], marker: [u8; 4]) -> Vec<u8> {
    let mut want = image.to_vec();
    while want.len() % BLOCK_SIZE != 0 {
        want.push(0xFF);
    }
    if !want.is_empty() {
        want[MARKER_OFFSET..MARKER_OFFSET + 4].copy_from_slice(&marker);
    }
    want.resize(SIZE_LIMIT, 0xFF);
    want
}

#[test]
fn new_programmer_is_empty() {
    let programmer = Programmer::new();
    assert_eq!(programmer.write_cursor(), 0);
    assert_eq!(programmer.staged_len(), 0);
    assert!(programmer.is_idle());
}

#[test]
fn erase_asks_for_prepare_then_erase_of_the_whole_region() {
    let mut sim = sim();
    let mut programmer = Programmer::new();
    let step = programmer.erase();
    assert_eq!(step, FlashStep::Request(FlashRequest::PrepareSectors { first: 2, last: 0x1F }));
    assert!(!programmer.is_idle());
    let step = programmer.resume(FlashEvent::Status(0));
    assert_eq!(step, FlashStep::Request(FlashRequest::EraseSectors { first: 2, last: 0x1F }));
    let event = perform(&mut sim, FlashRequest::EraseSectors { first: 2, last: 0x1F });
    assert_eq!(programmer.resume(event), FlashStep::Erased(Ok(())));
    assert!(programmer.is_idle());
    assert!(sim.mem.iter().all(|b| *b == 0xFF));
}

#[test]
fn erase_resets_cursor_and_staging() {
    let mut sim = sim();
    let mut programmer = Programmer::new();
    erased(&mut sim, &mut programmer);
    let step = programmer.write(&image(700));
    assert_eq!(run(&mut sim, &mut programmer, step), FlashStep::Written(Ok(())));
    assert_eq!(programmer.write_cursor(), 512);
    assert_eq!(programmer.staged_len(), 188);
    let step = programmer.erase();
    assert_eq!(programmer.write_cursor(), 0);
    assert_eq!(programmer.staged_len(), 0);
    assert_eq!(run(&mut sim, &mut programmer, step), FlashStep::Erased(Ok(())));
    assert!(sim.mem.iter().all(|b| *b == 0xFF));
}

#[test]
fn erase_reports_a_failed_prepare() {
    let mut programmer = Programmer::new();
    programmer.erase();
    assert_eq!(
        programmer.resume(FlashEvent::Status(11)),
        FlashStep::Erased(Err(EraseError::PrepareFailed))
    );
    assert!(programmer.is_idle());
}

#[test]
fn erase_reports_a_failed_erase() {
    let mut programmer = Programmer::new();
    programmer.erase();
    programmer.resume(FlashEvent::Status(0));
    assert_eq!(
        programmer.resume(FlashEvent::Status(1)),
        FlashStep::Erased(Err(EraseError::EraseFailed))
    );
}

#[test]
fn finalize_after_erase_without_data_is_a_signature_mismatch() {
    let mut sim = sim();
    let mut programmer = Programmer::new();
    erased(&mut sim, &mut programmer);
    let before = sim.log.len();
    let step = programmer.finalize(signature_of(&[]));
    assert_eq!(step, FlashStep::Finalized(Err(CommitError::SignatureMismatch)));
    assert_eq!(sim.log.len(), before);
}

#[test]
fn short_write_is_only_staged() {
    let mut programmer = Programmer::new();
    assert_eq!(programmer.write(&[1, 2, 3]), FlashStep::Written(Ok(())));
    assert_eq!(programmer.staged_len(), 3);
    assert_eq!(programmer.write_cursor(), 0);
    assert_eq!(programmer.write(&[]), FlashStep::Written(Ok(())));
    assert_eq!(programmer.staged_len(), 3);
}

#[test]
fn write_that_fills_the_block_programs_it() {
    let mut sim = sim();
    let mut programmer = Programmer::new();
    erased(&mut sim, &mut programmer);
    let data = image(BLOCK_SIZE);
    let step = programmer.write(&data);
    assert_eq!(step, FlashStep::Request(FlashRequest::PrepareSectors { first: 2, last: 0x1F }));
    let step = programmer.resume(FlashEvent::Status(0));
    let mut block = data.clone();
    block[36..40].copy_from_slice(&[0xFF; 4]);
    assert_eq!(
        step,
        FlashStep::Request(FlashRequest::CopyRamToFlash { address: 0x2000, data: block })
    );
    assert_eq!(programmer.resume(FlashEvent::Status(0)), FlashStep::Written(Ok(())));
    assert_eq!(programmer.write_cursor(), BLOCK_SIZE);
    assert_eq!(programmer.staged_len(), 0);
}

#[test]
fn second_block_keeps_its_bytes_at_the_marker_offset() {
    let mut sim = sim();
    let mut programmer = Programmer::new();
    erased(&mut sim, &mut programmer);
    let data = image(2 * BLOCK_SIZE);
    let step = programmer.write(&data);
    assert_eq!(run(&mut sim, &mut programmer, step), FlashStep::Written(Ok(())));
    assert_eq!(programmer.write_cursor(), 2 * BLOCK_SIZE);
    assert_eq!(&sim.mem[BLOCK_SIZE..2 * BLOCK_SIZE], &data[BLOCK_SIZE..]);
    assert_eq!(
        sim.log[5],
        FlashRequest::CopyRamToFlash { address: 0x2200, data: data[BLOCK_SIZE..].to_vec() }
    );
}

#[test]
fn chunk_splits_do_not_change_what_reaches_the_flash() {
    let whole = image(3 * BLOCK_SIZE + 77);
    let splits: [&[usize]; 5] = [
        &[3 * BLOCK_SIZE + 77],
        &[1, 510, 1, 2, 1099],
        &[62; 26],
        &[512, 512, 512, 77],
        &[0, 509, 3, 0, 1101],
    ];
    for split in splits {
        let mut sim = sim();
        let mut programmer = Programmer::new();
        erased(&mut sim, &mut programmer);
        let mut at = 0;
        for len in split {
            let end = (at + len).min(whole.len());
            let step = programmer.write(&whole[at..end]);
            assert_eq!(run(&mut sim, &mut programmer, step), FlashStep::Written(Ok(())));
            at = end;
        }
        if at < whole.len() {
            let step = programmer.write(&whole[at..]);
            assert_eq!(run(&mut sim, &mut programmer, step), FlashStep::Written(Ok(())));
        }
        assert_eq!(programmer.write_cursor(), 3 * BLOCK_SIZE);
        assert_eq!(programmer.staged_len(), 77);
        let step = programmer.finalize([0u8; 16]);
        assert_eq!(
            run(&mut sim, &mut programmer, step),
            FlashStep::Finalized(Err(CommitError::SignatureMismatch))
        );
        assert_eq!(sim.mem, expected_flash(&whole, [0xFF; 4]));
        assert_eq!(programmer.write_cursor(), 4 * BLOCK_SIZE);
        assert_eq!(programmer.staged_len(), 0);
    }
}

#[test]
fn finalize_with_the_right_signature_sets_the_marker() {
    let whole = image(5000);
    let mut sim = sim();
    let mut programmer = Programmer::new();
    erased(&mut sim, &mut programmer);
    let step = programmer.write(&whole);
    assert_eq!(run(&mut sim, &mut programmer, step), FlashStep::Written(Ok(())));
    let staged = expected_flash(&whole, [0xFF; 4]);
    let signature = signature_of(&staged[..5120]);
    let step = programmer.finalize(signature);
    assert_eq!(run(&mut sim, &mut programmer, step), FlashStep::Finalized(Ok(())));
    assert_eq!(sim.mem, expected_flash(&whole, [0xC0, 0xBA, 0xAA, 0xEC]));
    assert!(programmer.is_idle());
}

#[test]
fn finalize_asks_for_the_signature_of_the_written_blocks() {
    let mut sim = sim();
    let mut programmer = Programmer::new();
    erased(&mut sim, &mut programmer);
    let step = programmer.write(&image(1024));
    run(&mut sim, &mut programmer, step);
    let step = programmer.finalize([0u8; 16]);
    assert_eq!(
        step,
        FlashStep::Request(FlashRequest::ComputeSignature { first_word: 0x200, last_word: 0x23F })
    );
}

#[test]
fn finalize_walks_through_the_commit_sequence() {
    let whole = image(BLOCK_SIZE);
    let mut sim = sim();
    let mut programmer = Programmer::new();
    erased(&mut sim, &mut programmer);
    let step = programmer.write(&whole);
    run(&mut sim, &mut programmer, step);
    sim.log.clear();
    let staged = expected_flash(&whole, [0xFF; 4]);
    let step = programmer.finalize(signature_of(&staged[..BLOCK_SIZE]));
    assert_eq!(run(&mut sim, &mut programmer, step), FlashStep::Finalized(Ok(())));
    let mut table = staged[..VECTOR_TABLE_LEN].to_vec();
    table[36..40].copy_from_slice(&0xECAA_BAC0u32.to_le_bytes());
    assert_eq!(
        sim.log,
        vec![
            FlashRequest::ComputeSignature { first_word: 0x200, last_word: 0x21F },
            FlashRequest::ReadFlash { address: 0x2000, length: 4096 },
            FlashRequest::PrepareSectors { first: 2, last: 2 },
            FlashRequest::EraseSectors { first: 2, last: 2 },
            FlashRequest::PrepareSectors { first: 2, last: 2 },
            FlashRequest::CopyRamToFlash { address: 0x2000, data: table },
        ]
    );
}

#[test]
fn one_flipped_bit_in_flash_is_a_signature_mismatch() {
    let whole = image(2000);
    let mut sim = sim();
    let mut programmer = Programmer::new();
    erased(&mut sim, &mut programmer);
    let step = programmer.write(&whole);
    run(&mut sim, &mut programmer, step);
    let staged = expected_flash(&whole, [0xFF; 4]);
    let signature = signature_of(&staged[..2048]);
    sim.mem[1000] ^= 0x10;
    let step = programmer.finalize(signature);
    assert_eq!(
        run(&mut sim, &mut programmer, step),
        FlashStep::Finalized(Err(CommitError::SignatureMismatch))
    );
    assert_eq!(marker(&sim), [0xFF; 4]);
}

#[test]
fn one_flipped_bit_in_the_expected_signature_is_a_mismatch() {
    let whole = image(600);
    let mut sim = sim();
    let mut programmer = Programmer::new();
    erased(&mut sim, &mut programmer);
    let step = programmer.write(&whole);
    run(&mut sim, &mut programmer, step);
    let staged = expected_flash(&whole, [0xFF; 4]);
    for bit in 0..128 {
        let mut signature = signature_of(&staged[..1024]);
        signature[bit / 8] ^= 1 << (bit % 8);
        let step = programmer.finalize(signature);
        assert_eq!(
            run(&mut sim, &mut programmer, step),
            FlashStep::Finalized(Err(CommitError::SignatureMismatch))
        );
    }
    let step = programmer.finalize(signature_of(&staged[..1024]));
    assert_eq!(run(&mut sim, &mut programmer, step), FlashStep::Finalized(Ok(())));
}

#[test]
fn marker_is_invalid_until_finalize_succeeds() {
    let whole = image(9000);
    let mut sim = sim();
    let mut programmer = Programmer::new();
    let mut step = programmer.erase();
    let staged = expected_flash(&whole, [0xFF; 4]);
    let signature = signature_of(&staged[..9216]);
    let mut phase = 0;
    let mut erase_done = false;
    loop {
        match step {
            FlashStep::Request(request) => {
                let event = perform(&mut sim, request);
                step = programmer.resume(event);
                if erase_done && step != FlashStep::Finalized(Ok(())) {
                    assert_eq!(marker(&sim), [0xFF; 4]);
                }
            }
            FlashStep::Erased(Ok(())) => {
                erase_done = true;
                assert_eq!(marker(&sim), [0xFF; 4]);
                step = programmer.write(&whole[..100]);
            }
            FlashStep::Written(Ok(())) => {
                assert_eq!(marker(&sim), [0xFF; 4]);
                phase += 1;
                step = match phase {
                    1 => programmer.write(&whole[100..5000]),
                    2 => programmer.write(&whole[5000..]),
                    3 => programmer.finalize([7u8; 16]),
                    _ => unreachable!(),
                };
            }
            FlashStep::Finalized(Err(CommitError::SignatureMismatch)) => {
                assert_eq!(marker(&sim), [0xFF; 4]);
                step = programmer.finalize(signature);
            }
            FlashStep::Finalized(Ok(())) => {
                assert_eq!(marker(&sim), [0xC0, 0xBA, 0xAA, 0xEC]);
                break;
            }
            other => panic!("unexpected step {:?}", other),
        }
    }
}

#[test]
fn write_reports_a_failed_prepare() {
    let mut programmer = Programmer::new();
    programmer.write(&image(10));
    let step = programmer.write(&image(BLOCK_SIZE));
    assert_eq!(step, FlashStep::Request(FlashRequest::PrepareSectors { first: 2, last: 0x1F }));
    assert_eq!(
        programmer.resume(FlashEvent::Status(3)),
        FlashStep::Written(Err(FlashError::FlashProgramFailed))
    );
    assert_eq!(programmer.write_cursor(), 0);
    assert_eq!(programmer.staged_len(), 10);
    assert!(programmer.is_idle());
}

#[test]
fn write_reports_a_failed_program() {
    let mut programmer = Programmer::new();
    programmer.write(&image(BLOCK_SIZE + 5));
    programmer.resume(FlashEvent::Status(0));
    assert_eq!(
        programmer.resume(FlashEvent::Status(2)),
        FlashStep::Written(Err(FlashError::FlashProgramFailed))
    );
    assert_eq!(programmer.write_cursor(), 0);
    assert_eq!(programmer.staged_len(), 0);
}

#[test]
fn write_beyond_the_size_limit_is_out_of_range() {
    let mut sim = sim();
    let mut programmer = Programmer::new();
    erased(&mut sim, &mut programmer);
    let step = programmer.write(&image(SIZE_LIMIT));
    assert_eq!(run(&mut sim, &mut programmer, step), FlashStep::Written(Ok(())));
    assert_eq!(programmer.write_cursor(), SIZE_LIMIT);
    assert_eq!(programmer.staged_len(), 0);
    assert_eq!(programmer.write(&[1]), FlashStep::Written(Err(FlashError::OutOfRange)));
    assert_eq!(programmer.write(&[]), FlashStep::Written(Ok(())));
    assert_eq!(programmer.staged_len(), 0);
    assert_eq!(sim.mem, expected_flash(&image(SIZE_LIMIT), [0xFF; 4]));
}

#[test]
fn write_that_outgrows_the_limit_keeps_what_fits() {
    let mut sim = sim();
    let mut programmer = Programmer::new();
    erased(&mut sim, &mut programmer);
    let step = programmer.write(&image(SIZE_LIMIT + 1));
    assert_eq!(
        run(&mut sim, &mut programmer, step),
        FlashStep::Written(Err(FlashError::OutOfRange))
    );
    assert_eq!(programmer.write_cursor(), SIZE_LIMIT);
    assert_eq!(programmer.staged_len(), 0);
}

#[test]
fn last_block_of_the_region_can_be_written() {
    let mut sim = sim();
    let mut programmer = Programmer::new();
    erased(&mut sim, &mut programmer);
    let step = programmer.write(&image(SIZE_LIMIT - 1));
    assert_eq!(run(&mut sim, &mut programmer, step), FlashStep::Written(Ok(())));
    assert_eq!(programmer.write_cursor(), SIZE_LIMIT - BLOCK_SIZE);
    assert_eq!(programmer.staged_len(), BLOCK_SIZE - 1);
    let step = programmer.finalize([0u8; 16]);
    assert_eq!(
        run(&mut sim, &mut programmer, step),
        FlashStep::Finalized(Err(CommitError::SignatureMismatch))
    );
    assert_eq!(sim.mem, expected_flash(&image(SIZE_LIMIT - 1), [0xFF; 4]));
    assert_eq!(
        sim.log[sim.log.len() - 2],
        FlashRequest::CopyRamToFlash {
            address: 0x1FE00,
            data: sim.mem[SIZE_LIMIT - BLOCK_SIZE..].to_vec()
        }
    );
}

#[test]
fn finalize_pads_the_staged_bytes_with_erased_bytes() {
    let mut programmer = Programmer::new();
    programmer.write(&[0x11; 50]);
    let step = programmer.finalize([0u8; 16]);
    assert_eq!(step, FlashStep::Request(FlashRequest::PrepareSectors { first: 2, last: 0x1F }));
    let step = programmer.resume(FlashEvent::Status(0));
    let mut block = vec![0x11u8; 50];
    block.resize(BLOCK_SIZE, 0xFF);
    block[36..40].copy_from_slice(&[0xFF; 4]);
    assert_eq!(
        step,
        FlashStep::Request(FlashRequest::CopyRamToFlash { address: 0x2000, data: block })
    );
}

fn finalize_failing_at(index: usize) -> FlashStep {
    let whole = image(700);
    let mut sim = sim();
    let mut programmer = Programmer::new();
    erased(&mut sim, &mut programmer);
    let step = programmer.write(&whole);
    run(&mut sim, &mut programmer, step);
    let staged = expected_flash(&whole, [0xFF; 4]);
    sim.fail_at = Some(sim.log.len() + index);
    let step = programmer.finalize(signature_of(&staged[..1024]));
    let end = run(&mut sim, &mut programmer, step);
    assert!(programmer.is_idle());
    end
}

#[test]
fn finalize_reports_each_failing_step() {
    assert_eq!(finalize_failing_at(0), FlashStep::Finalized(Err(CommitError::FlushPrepareFailed)));
    assert_eq!(finalize_failing_at(1), FlashStep::Finalized(Err(CommitError::FlushProgramFailed)));
    assert_eq!(finalize_failing_at(4), FlashStep::Finalized(Err(CommitError::MarkerPrepareFailed)));
    assert_eq!(finalize_failing_at(5), FlashStep::Finalized(Err(CommitError::MarkerEraseFailed)));
    assert_eq!(
        finalize_failing_at(6),
        FlashStep::Finalized(Err(CommitError::MarkerReprepareFailed))
    );
    assert_eq!(
        finalize_failing_at(7),
        FlashStep::Finalized(Err(CommitError::MarkerProgramFailed))
    );
    assert_eq!(finalize_failing_at(100), FlashStep::Finalized(Ok(())));
}

#[test]
fn event_of_the_wrong_kind_is_ignored() {
    let mut programmer = Programmer::new();
    assert_eq!(programmer.resume(FlashEvent::Status(0)), FlashStep::Ignored);
    programmer.erase();
    assert_eq!(programmer.resume(FlashEvent::Signature([0; 4])), FlashStep::Ignored);
    assert_eq!(programmer.resume(FlashEvent::Contents(vec![0; 4096])), FlashStep::Ignored);
    assert!(!programmer.is_idle());
    assert_eq!(
        programmer.resume(FlashEvent::Status(0)),
        FlashStep::Request(FlashRequest::EraseSectors { first: 2, last: 0x1F })
    );
}

#[test]
fn contents_of_the_wrong_length_are_ignored() {
    let whole = image(BLOCK_SIZE);
    let mut sim = sim();
    let mut programmer = Programmer::new();
    erased(&mut sim, &mut programmer);
    let step = programmer.write(&whole);
    run(&mut sim, &mut programmer, step);
    let staged = expected_flash(&whole, [0xFF; 4]);
    let step = programmer.finalize(signature_of(&staged[..BLOCK_SIZE]));
    let step = match step {
        FlashStep::Request(request) => programmer.resume(perform(&mut sim, request)),
        other => panic!("unexpected step {:?}", other),
    };
    assert_eq!(step, FlashStep::Request(FlashRequest::ReadFlash { address: 0x2000, length: 4096 }));
    assert_eq!(programmer.resume(FlashEvent::Contents(vec![0; 4095])), FlashStep::Ignored);
    assert_eq!(
        programmer.resume(FlashEvent::Contents(sim.mem[..4096].to_vec())),
        FlashStep::Request(FlashRequest::PrepareSectors { first: 2, last: 2 })
    );
}

#[test]
fn a_new_operation_abandons_the_one_in_flight() {
    let mut programmer = Programmer::new();
    programmer.write(&image(BLOCK_SIZE));
    assert!(!programmer.is_idle());
    assert_eq!(programmer.write(&[1, 2]), FlashStep::Written(Ok(())));
    assert!(programmer.is_idle());
    assert_eq!(programmer.staged_len(), 2);
}
