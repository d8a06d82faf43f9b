use std::io::{Read, Write};

use flash_target::chip::Chip;
use flash_target::command::{Command, SpiAttachParams, Timeout};
use flash_target::error::Error;
use flash_target::operation::{Action, Event, Operation, Step};
use flash_target::segment::RomSegment;
use flash_target::target::{Esp32Target, FlashTarget};
use flash_target::write::{chunk_contribution, SegmentWrite};

const PINS: SpiAttachParams = SpiAttachParams { clk: 6, q: 7, d: 8, hd: 9, cs: 11 };

/// Bytes that do not compress: a linear congruential generator's upper bits.
fn noise(len: usize, seed: u64) -> Vec<u8> {
    let mut state = seed;
    let mut out = Vec::with_capacity(len);
    for _ in 0..len {
        state = state.wrapping_mul(6364136223846793005).wrapping_add(1442695040888963407);
        out.push((state >> 56) as u8);
    }
    out
}

fn deflate(data: &[u8]) -> Vec<u8> {
    let mut encoder = flate2::write::ZlibEncoder::new(Vec::new(), flate2::Compression::best());
    encoder.write_all(data).unwrap();
    encoder.finish().unwrap()
}

fn inflate(stream: &[u8]) -> Vec<u8> {
    let mut out = Vec::new();
    flate2::read::ZlibDecoder::new(stream).read_to_end(&mut out).unwrap();
    out
}

/// What a run of an operation asked for, in order.
struct Run {
    announced: Vec<Command>,
    blocks: Vec<(u32, usize, u8, Vec<u8>, Timeout)>,
    reports: Vec<(usize, usize)>,
    /// 'b' for a block's command, 'r' for a report, in the order they came.
    order: Vec<char>,
    end: Step,
}

/// Runs a write to its end, answering the question for the block size with
/// `write_size` and failing block `fail_at`, if any, with `error`.
fn run(start: (SegmentWrite, Step), write_size: usize, fail_at: Option<(u32, Error)>) -> Run {
    let (mut op, mut step) = start;
    let mut run = Run {
        announced: Vec::new(),
        blocks: Vec::new(),
        reports: Vec::new(),
        order: Vec::new(),
        end: Step::Complete,
    };
    loop {
        let action = match step {
            Step::Perform(action) => action,
            end => {
                run.end = end;
                return run;
            }
        };
        let event = match action {
            Action::QueryFlashWriteSize => Event::FlashWriteSize(write_size),
            Action::Exchange { command: Command::FlashDeflateData { sequence, pad_to, pad_byte, data }, timeout } => {
                run.blocks.push((sequence, pad_to, pad_byte, data, timeout));
                run.order.push('b');
                match fail_at {
                    Some((index, error)) if index == sequence => Event::Failed(error),
                    _ => Event::Done,
                }
            }
            Action::Exchange { command, timeout } => {
                assert!(matches!(timeout, Timeout::ForSize(_)));
                run.announced.push(command);
                Event::Done
            }
            Action::Report { completed, total } => {
                run.reports.push((completed, total));
                run.order.push('r');
                Event::Done
            }
            other => panic!("a write asked for {:?}", other),
        };
        step = op.resume(event);
    }
}

fn target() -> Esp32Target {
    Esp32Target::new(Chip::Esp32c3, PINS, true)
}

#[test]
fn write_asks_for_the_block_size_first() {
    let (_, first) = target().write_segment(RomSegment { addr: 0, data: vec![1, 2, 3] });
    assert_eq!(first, Step::Perform(Action::QueryFlashWriteSize));
}

#[test]
fn write_announces_sizes_offset_and_deadline() {
    let data = noise(10_000, 1);
    let stream = deflate(&data);
    let (mut op, _) = target().write_segment(RomSegment { addr: 0x1_0000, data });
    let blocks = (stream.len() + 1023) / 1024;
    assert_eq!(
        op.resume(Event::FlashWriteSize(1024)),
        Step::Perform(Action::Exchange {
            command: Command::FlashDeflateBegin {
                size: 10_000,
                blocks: blocks as u32,
                block_size: 1024,
                offset: 0x1_0000,
                supports_encryption: false,
            },
            timeout: Timeout::ForSize(12_288),
        })
    );
}

#[test]
fn write_offers_encryption_off_the_stub_on_all_but_the_first_chip() {
    for (chip, use_stub, expected) in [
        (Chip::Esp32, false, false),
        (Chip::Esp32, true, false),
        (Chip::Esp32c3, false, true),
        (Chip::Esp32c3, true, false),
        (Chip::Esp32s3, false, true),
        (Chip::Esp8266, false, true),
    ] {
        let segment = RomSegment { addr: 0, data: vec![0; 100] };
        let (mut op, _) = Esp32Target::new(chip, PINS, use_stub).write_segment(segment);
        match op.resume(Event::FlashWriteSize(1024)) {
            Step::Perform(Action::Exchange {
                command: Command::FlashDeflateBegin { supports_encryption, .. },
                ..
            }) => assert_eq!(supports_encryption, expected),
            other => panic!("{:?}", other),
        }
    }
}

#[test]
fn ten_thousand_bytes_in_one_block() {
    // A segment of 10,000 bytes whose stream is exactly 3,000 bytes long: noise
    // at the front, zeroes behind it, with as much noise as it takes.
    let mut found = None;
    'search: for seed in 1..50u64 {
        for noisy in 2_900..3_000usize {
            let mut data = noise(noisy, seed);
            data.resize(10_000, 0);
            if deflate(&data).len() == 3_000 {
                found = Some(data);
                break 'search;
            }
        }
    }
    let data = found.expect("no segment of the wanted stream length");
    let stream = deflate(&data);
    assert_eq!(stream.len(), 3_000);

    let start = target().write_segment(RomSegment { addr: 0x1000, data: data.clone() });
    let run = run(start, 4096, None);
    assert_eq!(
        run.announced,
        vec![Command::FlashDeflateBegin {
            size: 10_000,
            blocks: 1,
            block_size: 4096,
            offset: 0x1000,
            supports_encryption: false,
        }]
    );
    assert_eq!(run.blocks, vec![(0, 0, 0xff, stream, Timeout::ForSize(10_000))]);
    assert_eq!(run.reports, vec![(1, 1)]);
    assert_eq!(run.end, Step::Complete);
}

#[test]
fn ten_thousand_bytes_announced_for_a_given_stream() {
    let (mut op, _) = SegmentWrite::new(0x1000, 10_000, vec![0; 3_000], false);
    assert_eq!(
        op.resume(Event::FlashWriteSize(4096)),
        Step::Perform(Action::Exchange {
            command: Command::FlashDeflateBegin {
                size: 10_000,
                blocks: 1,
                block_size: 4096,
                offset: 0x1000,
                supports_encryption: false,
            },
            timeout: Timeout::ForSize(12_288),
        })
    );
}

#[test]
fn blocks_carry_the_stream_in_order_and_decode_to_the_segment() {
    for (len, write_size) in [(5_000usize, 1024usize), (20_000, 4096), (300, 7), (4096, 4096)] {
        let data = noise(len, 7);
        let stream = deflate(&data);
        let start = target().write_segment(RomSegment { addr: 0x8000, data: data.clone() });
        let run = run(start, write_size, None);
        assert_eq!(run.end, Step::Complete);

        let count = (stream.len() + write_size - 1) / write_size;
        assert_eq!(run.blocks.len(), count);
        let mut sent = Vec::new();
        let mut decoded = 0u64;
        for (at, (sequence, pad_to, pad_byte, block, timeout)) in run.blocks.iter().enumerate() {
            assert_eq!(*sequence as usize, at);
            assert_eq!(*pad_to, 0);
            assert_eq!(*pad_byte, 0xff);
            if at + 1 < count {
                assert_eq!(block.len(), write_size);
            } else {
                assert!(!block.is_empty() && block.len() <= write_size);
            }
            sent.extend_from_slice(block);
            match timeout {
                Timeout::ForSize(size) => decoded += *size as u64,
                other => panic!("{:?}", other),
            }
        }
        assert_eq!(sent, stream);
        assert_eq!(inflate(&sent), data);
        assert_eq!(decoded, len as u64);
    }
}

#[test]
fn a_block_counts_for_what_it_decodes_to() {
    // Zeroes compress so well that the whole segment comes out of the first
    // blocks' worth of stream; noise comes out block by block.
    let mut data = vec![0u8; 50_000];
    data.extend_from_slice(&noise(2_000, 3));
    let stream = deflate(&data);
    let write_size = 256;
    let start = target().write_segment(RomSegment { addr: 0, data: data.clone() });
    let run = run(start, write_size, None);
    assert_eq!(run.end, Step::Complete);

    let mut decoder = flate2::write::ZlibDecoder::new(Vec::new());
    let mut before = 0;
    for (at, block) in stream.chunks(write_size).enumerate() {
        decoder.write_all(block).unwrap();
        decoder.flush().unwrap();
        let after = decoder.get_ref().len();
        assert_eq!(run.blocks[at].4, Timeout::ForSize((after - before) as u32));
        before = after;
    }
    assert_eq!(before, data.len());
    assert!(run.blocks.iter().any(|block| block.4 != Timeout::ForSize(block.3.len() as u32)));
}

#[test]
fn progress_is_reported_after_each_block_in_order() {
    let data = noise(900, 11);
    let stream = deflate(&data);
    let write_size = 100;
    let count = (stream.len() + write_size - 1) / write_size;
    assert!(count >= 9);
    let start = target().write_segment(RomSegment { addr: 0, data });
    let run = run(start, write_size, None);
    assert_eq!(run.end, Step::Complete);
    let expected: Vec<(usize, usize)> = (1..=count).map(|done| (done, count)).collect();
    assert_eq!(run.reports, expected);
    let alternating: Vec<char> = (0..2 * count).map(|k| if k % 2 == 0 { 'b' } else { 'r' }).collect();
    assert_eq!(run.order, alternating);
}

#[test]
fn no_progress_is_reported_for_a_block_that_failed() {
    let data = noise(900, 11);
    let start = target().write_segment(RomSegment { addr: 0, data });
    let run = run(start, 100, Some((0, Error::Protocol)));
    assert_eq!(run.end, Step::Abort(Error::Protocol));
    assert_eq!(run.blocks.len(), 1);
    assert_eq!(run.reports, vec![]);
}

#[test]
fn timeout_on_the_third_of_five_blocks_ends_the_write() {
    let data = noise(1_000, 5);
    let stream = deflate(&data);
    let write_size = (stream.len() + 4) / 5;
    assert_eq!((stream.len() + write_size - 1) / write_size, 5);

    let (mut op, first) = target().write_segment(RomSegment { addr: 0x2000, data });
    let mut step = first;
    let mut sent = Vec::new();
    let end = loop {
        step = match step {
            Step::Perform(Action::QueryFlashWriteSize) => {
                op.resume(Event::FlashWriteSize(write_size))
            }
            Step::Perform(Action::Exchange {
                command: Command::FlashDeflateData { sequence, .. },
                ..
            }) => {
                sent.push(sequence);
                if sequence == 2 {
                    op.resume(Event::Failed(Error::Timeout))
                } else {
                    op.resume(Event::Done)
                }
            }
            Step::Perform(_) => op.resume(Event::Done),
            end => break end,
        };
    };
    assert_eq!(end, Step::Abort(Error::Timeout));
    assert_eq!(sent, vec![0, 1, 2]);
    assert_eq!(op.resume(Event::Done), Step::Abort(Error::InvalidState));
    assert_eq!(op.resume(Event::Failed(Error::Timeout)), Step::Abort(Error::InvalidState));
}

#[test]
fn a_failure_at_any_point_ends_the_write_with_its_error() {
    let (mut op, _) = target().write_segment(RomSegment { addr: 0, data: vec![9; 64] });
    assert_eq!(op.resume(Event::Failed(Error::Transport)), Step::Abort(Error::Transport));
    assert_eq!(op.resume(Event::FlashWriteSize(64)), Step::Abort(Error::InvalidState));

    let (mut op, _) = target().write_segment(RomSegment { addr: 0, data: vec![9; 64] });
    assert!(matches!(op.resume(Event::FlashWriteSize(64)), Step::Perform(_)));
    assert_eq!(op.resume(Event::Failed(Error::Timeout)), Step::Abort(Error::Timeout));
    assert_eq!(op.resume(Event::Done), Step::Abort(Error::InvalidState));
}

#[test]
fn an_empty_segment_still_travels_as_one_block() {
    let stream = deflate(&[]);
    let start = target().write_segment(RomSegment { addr: 0x4000, data: Vec::new() });
    let run = run(start, 1024, None);
    assert_eq!(
        run.announced,
        vec![Command::FlashDeflateBegin {
            size: 0,
            blocks: 1,
            block_size: 1024,
            offset: 0x4000,
            supports_encryption: false,
        }]
    );
    assert_eq!(run.blocks, vec![(0, 0, 0xff, stream, Timeout::ForSize(0))]);
    assert_eq!(run.reports, vec![(1, 1)]);
    assert_eq!(run.end, Step::Complete);
}

#[test]
fn a_stream_without_blocks_is_right_only_for_an_empty_segment() {
    let run_empty = run(SegmentWrite::new(0, 0, Vec::new(), false), 1024, None);
    assert_eq!(run_empty.blocks.len(), 0);
    assert_eq!(run_empty.end, Step::Complete);
    let run_short = run(SegmentWrite::new(0, 5, Vec::new(), false), 1024, None);
    assert_eq!(run_short.blocks.len(), 0);
    assert_eq!(run_short.end, Step::Abort(Error::LengthMismatch));
}

#[test]
fn a_stream_that_is_no_zlib_stream_is_refused_before_it_is_sent() {
    let run = run(SegmentWrite::new(0, 10, vec![0xde, 0xad, 0xbe, 0xef, 0, 1, 2, 3], false), 1024, None);
    assert_eq!(run.announced.len(), 1);
    assert_eq!(run.blocks.len(), 0);
    assert_eq!(run.end, Step::Abort(Error::Decompression));
}

#[test]
fn bytes_after_the_end_of_the_stream_are_refused() {
    let data = noise(100, 2);
    let mut stream = deflate(&data);
    let write_size = stream.len();
    stream.extend_from_slice(&[1, 2, 3, 4]);
    let run = run(SegmentWrite::new(0, 100, stream, false), write_size, None);
    assert_eq!(run.blocks.len(), 1);
    assert_eq!(run.reports, vec![(1, 2)]);
    assert_eq!(run.end, Step::Abort(Error::Decompression));
}

#[test]
fn a_stream_that_decodes_to_too_much_is_refused_at_once() {
    let data = noise(1_000, 4);
    let stream = deflate(&data);
    let run = run(SegmentWrite::new(0, 999, stream, false), 100, None);
    assert_eq!(run.end, Step::Abort(Error::LengthMismatch));
    assert!(run.blocks.len() < 11);
    assert_eq!(run.reports.len(), run.blocks.len());
}

#[test]
fn a_stream_that_decodes_to_too_little_is_refused_at_the_end() {
    let data = noise(1_000, 4);
    let stream = deflate(&data);
    let count = (stream.len() + 99) / 100;
    let run = run(SegmentWrite::new(0, 1_001, stream, false), 100, None);
    assert_eq!(run.end, Step::Abort(Error::LengthMismatch));
    assert_eq!(run.blocks.len(), count);
    assert_eq!(run.reports.len(), count);
}

#[test]
fn sizes_that_do_not_fit_are_refused() {
    let (mut op, _) = target().write_segment(RomSegment { addr: 0, data: vec![1; 10] });
    assert_eq!(op.resume(Event::FlashWriteSize(0)), Step::Abort(Error::OutOfRange));
    assert_eq!(op.resume(Event::FlashWriteSize(1024)), Step::Abort(Error::InvalidState));
    if usize::BITS > 32 {
        let (mut op, _) = target().write_segment(RomSegment { addr: 0, data: vec![1; 10] });
        assert_eq!(
            op.resume(Event::FlashWriteSize(u32::MAX as usize + 1)),
            Step::Abort(Error::OutOfRange)
        );
    }
}

#[test]
fn write_refuses_an_event_that_answers_nothing() {
    let (mut op, _) = target().write_segment(RomSegment { addr: 0, data: vec![1; 10] });
    assert_eq!(op.resume(Event::Done), Step::Abort(Error::InvalidState));

    let (mut op, _) = target().write_segment(RomSegment { addr: 0, data: vec![1; 10] });
    assert_eq!(op.resume(Event::UsbPid(0x1001)), Step::Abort(Error::InvalidState));

    let (mut op, _) = target().write_segment(RomSegment { addr: 0, data: vec![1; 10] });
    op.resume(Event::FlashWriteSize(1024));
    assert_eq!(op.resume(Event::FlashWriteSize(1024)), Step::Abort(Error::InvalidState));
}

#[test]
fn a_write_that_could_not_begin_has_ended() {
    let (mut op, first) = SegmentWrite::failed(0, 10, false);
    assert_eq!(first, Step::Abort(Error::Compression));
    assert_eq!(op.resume(Event::Done), Step::Abort(Error::InvalidState));
}

#[test]
fn contribution_of_a_block() {
    assert_eq!(chunk_contribution(10_000, 0, Some(10_000)), Ok(10_000));
    assert_eq!(chunk_contribution(10_000, 4_000, Some(4_000)), Ok(0));
    assert_eq!(chunk_contribution(10_000, 4_000, Some(9_999)), Ok(5_999));
    assert_eq!(chunk_contribution(10_000, 4_000, Some(10_001)), Err(Error::LengthMismatch));
    assert_eq!(chunk_contribution(10_000, 4_000, Some(3_999)), Err(Error::LengthMismatch));
    assert_eq!(chunk_contribution(10_000, 4_000, None), Err(Error::Decompression));
    if usize::BITS > 32 {
        let huge = u32::MAX as usize + 10;
        assert_eq!(chunk_contribution(huge, 0, Some(huge)), Err(Error::OutOfRange));
        assert_eq!(chunk_contribution(huge, 10, Some(huge)), Ok(u32::MAX));
    }
}
