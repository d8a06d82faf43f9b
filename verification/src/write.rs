//! Writing one segment: the segment is compressed as a whole, announced, and
//! sent block by block, while a decoder follows the stream to tell how much
//! flash each block makes the device write.

use vstd::prelude::*;
use vstd::slice::{slice_subrange, slice_to_vec};
use crate::codec::{
    Inflater,
    events,
    flush_succeeds,
    inflated,
    inflater_flush,
    inflater_new,
    inflater_sink,
    inflater_write_all,
    sink_after,
    write_succeeds,
};
use crate::command::{Command, CommandView, Timeout};
use crate::error::Error;
use crate::layout::{Layout, block_count, chunk, chunk_range, erase_size};
use crate::operation::{Action, ActionView, Event, Operation, Step};

verus! {

/// What is to be written: the compressed stream of a segment, the segment's
/// own length, where it goes, and whether the device may be told that flash
/// encryption is supported.
pub struct Job {
    pub offset: u32,
    pub raw_len: nat,
    pub stream: Seq<u8>,
    pub supports_encryption: bool,
}

/// The sum of the entries of `sizes`.
pub open spec fn total(sizes: Seq<u32>) -> nat
    decreases sizes.len(),
{
    if sizes.len() == 0 {
        0
    } else {
        total(sizes.drop_last()) + sizes.last() as nat
    }
}

/// The sum grows by the entry that is added.
pub proof fn lemma_total_push(sizes: Seq<u32>, size: u32)
    ensures
        total(sizes.push(size)) == total(sizes) + size,
{
    assert(sizes.push(size).drop_last() =~= sizes);
}

/// The command that announces the write, under a deadline that grows with the
/// region to erase.
pub open spec fn announce_action(job: Job, write_size: usize) -> ActionView
    recommends
        Layout::fits(job.raw_len, job.stream.len(), write_size as nat),
{
    ActionView::Exchange {
        command: CommandView::FlashDeflateBegin {
            size: job.raw_len as u32,
            blocks: block_count(job.stream.len(), write_size as nat) as u32,
            block_size: write_size as u32,
            offset: job.offset,
            supports_encryption: job.supports_encryption,
        },
        timeout: Timeout::ForSize(erase_size(job.raw_len) as u32),
    }
}

/// The command that carries block `index` of the stream, unpadded, under a
/// deadline that grows with `size`, the number of bytes that the block
/// decodes to.
pub open spec fn data_action(job: Job, write_size: usize, index: nat, size: u32) -> ActionView {
    ActionView::Exchange {
        command: CommandView::FlashDeflateData {
            sequence: index as u32,
            pad_to: 0,
            pad_byte: 0xff,
            data: chunk(job.stream, write_size as nat, index),
        },
        timeout: Timeout::ForSize(size),
    }
}

/// The progress to report once block `index` has been written.
pub open spec fn report_action(job: Job, write_size: usize, index: nat) -> ActionView {
    ActionView::Report {
        completed: (index + 1) as usize,
        total: block_count(job.stream.len(), write_size as nat) as usize,
    }
}

/// The actions that write a segment, as far as they are determined: the
/// question for the write block size; once it is answered, the announcement;
/// then, for each block that has gone through the decoder, the block's command
/// followed by the report of its progress. `sizes` holds, block by block, the
/// number of bytes that the block decoded to.
pub open spec fn write_script(job: Job, write_size: Option<usize>, sizes: Seq<u32>) -> Seq<
    ActionView,
> {
    match write_size {
        None => seq![ActionView::QueryFlashWriteSize],
        Some(ws) => seq![ActionView::QueryFlashWriteSize, announce_action(job, ws)] + Seq::new(
            2 * sizes.len(),
            |k: int|
                if k % 2 == 0 {
                    data_action(job, ws, (k / 2) as nat, sizes[k / 2])
                } else {
                    report_action(job, ws, (k / 2) as nat)
                },
        ),
    }
}

/// The blocks go out one command each, in the order of the stream, with
/// nothing but the report of a block's progress between one block and the
/// next: after the question and the announcement, the script alternates
/// between a block's command and the report of that block. No other entry of
/// the script carries a block or reports progress.
pub proof fn lemma_blocks_alternate_with_reports(job: Job, write_size: usize, sizes: Seq<u32>)
    ensures
        write_script(job, Some(write_size), sizes).len() == 2 + 2 * sizes.len(),
        write_script(job, Some(write_size), sizes)[0] == ActionView::QueryFlashWriteSize,
        write_script(job, Some(write_size), sizes)[1] == announce_action(job, write_size),
        forall|i: int|
            0 <= i < sizes.len() ==> {
                &&& (#[trigger] write_script(job, Some(write_size), sizes)[2 + 2 * i])
                    == data_action(job, write_size, i as nat, sizes[i])
                &&& write_script(job, Some(write_size), sizes)[3 + 2 * i] == report_action(
                    job,
                    write_size,
                    i as nat,
                )
            },
        forall|k: int|
            0 <= k < 2 + 2 * sizes.len() ==> {
                &&& (#[trigger] write_script(job, Some(write_size), sizes)[k]
                    matches ActionView::Exchange {
                    command: CommandView::FlashDeflateData { .. },
                    ..
                }) <==> k >= 2 && k % 2 == 0
                &&& write_script(job, Some(write_size), sizes)[k] is Report <==> k >= 3 && k % 2
                    == 1
            },
{
    let script = write_script(job, Some(write_size), sizes);
    assert forall|i: int| 0 <= i < sizes.len() implies {
        &&& (#[trigger] script[2 + 2 * i]) == data_action(job, write_size, i as nat, sizes[i])
        &&& script[3 + 2 * i] == report_action(job, write_size, i as nat)
    } by {
        assert((2 * i) % 2 == 0 && (2 * i) / 2 == i);
        assert((2 * i + 1) % 2 == 1 && (2 * i + 1) / 2 == i);
    }
}

/// Where the sizes fit, a run that has sent `sizes.len()` blocks has numbered
/// them 0, 1, 2 and so on without a gap or a repeat, and has reported after
/// block `i` that `i + 1` of all the blocks are written. When every block has
/// gone out, the numbers are exactly those below the number of blocks.
pub proof fn lemma_blocks_in_sequence(job: Job, write_size: usize, sizes: Seq<u32>, i: int)
    requires
        Layout::fits(job.raw_len, job.stream.len(), write_size as nat),
        sizes.len() <= block_count(job.stream.len(), write_size as nat),
        0 <= i < sizes.len(),
    ensures
        write_script(job, Some(write_size), sizes)[2 + 2 * i] matches ActionView::Exchange {
            command: CommandView::FlashDeflateData { sequence, pad_to, pad_byte, data },
            timeout,
        } && {
            &&& sequence == i
            &&& pad_to == 0
            &&& pad_byte == 0xff
            &&& data == chunk(job.stream, write_size as nat, i as nat)
            &&& timeout == Timeout::ForSize(sizes[i])
        },
        write_script(job, Some(write_size), sizes)[3 + 2 * i] matches ActionView::Report {
            completed,
            total,
        } && {
            &&& completed == i + 1
            &&& total == block_count(job.stream.len(), write_size as nat)
        },
{
    lemma_blocks_alternate_with_reports(job, write_size, sizes);
}

/// Decides what a block counts for once it has gone through the decoder.
///
/// `before` is the number of bytes decoded up to the block, `after` the number
/// decoded up to and including it, or `None` if the decoder refused the block.
/// The block counts for the difference, unless the decoder refused it or has
/// by now produced more bytes than the segment holds.
pub fn chunk_contribution(raw_len: usize, before: usize, after: Option<usize>) -> (r: Result<
    u32,
    Error,
>)
    ensures
        match after {
            None => r == Err::<u32, Error>(Error::Decompression),
            Some(n) => if before <= n <= raw_len {
                if n - before <= u32::MAX {
                    r == Ok::<u32, Error>((n - before) as u32)
                } else {
                    r == Err::<u32, Error>(Error::OutOfRange)
                }
            } else {
                r == Err::<u32, Error>(Error::LengthMismatch)
            },
        },
{
    match after {
        None => Err(Error::Decompression),
        Some(n) => {
            if before <= n && n <= raw_len {
                let grown: usize = n - before;
                if grown <= 0xFFFF_FFFF {
                    Ok(grown as u32)
                } else {
                    Err(Error::OutOfRange)
                }
            } else {
                Err(Error::LengthMismatch)
            }
        },
    }
}

/// What has been asked of the decoder once `count` blocks of the stream have
/// gone through it: each block written to it, in order, and a flush after
/// each.
pub open spec fn decoder_past(stream: Seq<u8>, write_size: nat, count: nat) -> Seq<
    Option<Seq<u8>>,
> {
    Seq::new(
        2 * count,
        |k: int|
            if k % 2 == 0 {
                Some(chunk(stream, write_size, (k / 2) as nat))
            } else {
                None
            },
    )
}

/// Whether the decoder, with `count` blocks of the stream behind it, takes the
/// next one: the block can be written to it, and it can be flushed after that.
pub open spec fn decoder_takes(stream: Seq<u8>, write_size: nat, count: nat) -> bool {
    let past = decoder_past(stream, write_size, count);
    let block = chunk(stream, write_size, count);
    write_succeeds(past, block) && flush_succeeds(past.push(Some(block)))
}

/// The number of bytes that the decoder has produced once `count` blocks of the
/// stream have gone through it.
pub open spec fn decoded_len(stream: Seq<u8>, write_size: nat, count: nat) -> nat {
    sink_after(decoder_past(stream, write_size, count)).len()
}

/// The number of bytes that block `index` decodes to: what the decoder has
/// produced once the block has gone through it, less what it had produced
/// before.
pub open spec fn block_yield(stream: Seq<u8>, write_size: nat, index: nat) -> int {
    decoded_len(stream, write_size, index + 1) - decoded_len(stream, write_size, index)
}

/// One more block through the decoder adds the block and a flush to what has
/// been asked of it.
pub proof fn lemma_decoder_past_grows(stream: Seq<u8>, write_size: nat, count: nat)
    ensures
        decoder_past(stream, write_size, 0) == Seq::<Option<Seq<u8>>>::empty(),
        decoder_past(stream, write_size, count + 1) == decoder_past(
            stream,
            write_size,
            count,
        ).push(Some(chunk(stream, write_size, count))).push(None),
{
    let grown = decoder_past(stream, write_size, count).push(
        Some(chunk(stream, write_size, count)),
    ).push(None);
    assert(decoder_past(stream, write_size, 0) =~= Seq::<Option<Seq<u8>>>::empty());
    assert forall|k: int| 0 <= k < 2 * (count + 1) implies decoder_past(
        stream,
        write_size,
        count + 1,
    )[k] == grown[k] by {
        if k == 2 * count {
            assert(k % 2 == 0 && k / 2 == count);
        } else if k == 2 * count + 1 {
            assert(k % 2 == 1);
        }
    }
    assert(decoder_past(stream, write_size, count + 1) =~= grown);
}

/// Sends a block through the decoder: writes it to the decoder, then flushes
/// the decoder. Tells how many bytes the decoder has produced in all, or
/// `None` if the write or the flush after it failed.
fn feed(decoder: &mut Inflater, block: &[u8]) -> (r: Option<usize>)
    ensures
        inflated(*old(decoder)).is_prefix_of(inflated(*final(decoder))),
        r is Some <==> write_succeeds(events(*old(decoder)), block@) && flush_succeeds(
            events(*old(decoder)).push(Some(block@)),
        ),
        r matches Some(n) ==> {
            &&& n == inflated(*final(decoder)).len()
            &&& events(*final(decoder)) == events(*old(decoder)).push(Some(block@)).push(None)
        },
{
    match inflater_write_all(decoder, block) {
        Ok(_) => {},
        Err(_) => {
            return None;
        },
    }
    match inflater_flush(decoder) {
        Ok(_) => {},
        Err(_) => {
            return None;
        },
    }
    Some(inflater_sink(decoder).len())
}

/// How far the writing of a segment has come.
#[derive(Clone, Copy, Debug, PartialEq, Eq, Structural)]
enum Stage {
    /// Nothing has been asked for.
    Idle,
    /// The write block size has been asked for.
    Size,
    /// The write has been announced.
    Announce,
    /// A block has been sent.
    Data,
    /// A block's progress has been reported.
    Report,
}

/// The writing of one segment, under way.
pub struct SegmentWrite {
    offset: u32,
    raw_len: usize,
    stream: Vec<u8>,
    supports_encryption: bool,
    decoder: Inflater,
    layout: Option<Layout>,
    stage: Stage,
    index: u32,
    decoded: usize,
    closed: bool,
    sizes: Ghost<Seq<u32>>,
}

impl SegmentWrite {
    /// Begins to write a segment of `raw_len` bytes, whose compressed stream
    /// is `stream`, at `offset`. The first step is always the question for
    /// the write block size.
    pub fn new(offset: u32, raw_len: usize, stream: Vec<u8>, supports_encryption: bool) -> (r: (
        SegmentWrite,
        Step,
    ))
        ensures
            r.0.wf(),
            !r.0.closed(),
            r.0.issued() == 1,
            r.0.job() == (Job {
                offset,
                raw_len: raw_len as nat,
                stream: stream@,
                supports_encryption,
            }),
            r.0.write_size() is None,
            r.0.sizes() == Seq::<u32>::empty(),
            inflated(r.0.decoder()) == Seq::<u8>::empty(),
            events(r.0.decoder()) == Seq::<Option<Seq<u8>>>::empty(),
            r.1 matches Step::Perform(action) && action@ == ActionView::QueryFlashWriteSize,
    {
        let op = SegmentWrite {
            offset,
            raw_len,
            stream,
            supports_encryption,
            decoder: inflater_new(),
            layout: None,
            stage: Stage::Size,
            index: 0,
            decoded: 0,
            closed: false,
            sizes: Ghost(Seq::empty()),
        };
        (op, Step::Perform(Action::QueryFlashWriteSize))
    }

    /// A write that has ended before it began, because the segment at
    /// `offset` could not be compressed.
    pub fn failed(offset: u32, raw_len: usize, supports_encryption: bool) -> (r: (
        SegmentWrite,
        Step,
    ))
        ensures
            r.0.wf(),
            r.0.closed(),
            r.0.issued() == 0,
            r.1 == Step::Abort(Error::Compression),
    {
        let op = SegmentWrite {
            offset,
            raw_len,
            stream: Vec::new(),
            supports_encryption,
            decoder: inflater_new(),
            layout: None,
            stage: Stage::Idle,
            index: 0,
            decoded: 0,
            closed: true,
            sizes: Ghost(Seq::empty()),
        };
        (op, Step::Abort(Error::Compression))
    }

    /// What is being written.
    pub closed spec fn job(&self) -> Job {
        Job {
            offset: self.offset,
            raw_len: self.raw_len as nat,
            stream: self.stream@,
            supports_encryption: self.supports_encryption,
        }
    }

    /// The write block size, once it has been reported and found to fit.
    pub closed spec fn write_size(&self) -> Option<usize> {
        match self.layout {
            Some(layout) => Some(layout.block_size as usize),
            None => None,
        }
    }

    /// For each block that has gone through the decoder, the number of bytes
    /// that it decoded to.
    pub closed spec fn sizes(&self) -> Seq<u32> {
        self.sizes@
    }

    /// The decoder that follows the stream.
    pub closed spec fn decoder(&self) -> Inflater {
        self.decoder
    }

    /// The number of blocks in which the stream travels, once the write block
    /// size is known.
    pub open spec fn blocks(&self) -> nat {
        match self.write_size() {
            Some(ws) => block_count(self.job().stream.len(), ws as nat),
            None => 0,
        }
    }

    /// Whether the next thing to hand out is a block: the write has been
    /// announced, the block before has been reported if there is one, and not
    /// all blocks have gone out.
    pub open spec fn block_due(&self) -> bool {
        &&& !self.closed()
        &&& self.issued() == 2 + 2 * self.sizes().len()
        &&& self.sizes().len() < self.blocks()
    }

    /// Whether all blocks have gone out and been reported.
    pub open spec fn all_sent(&self) -> bool {
        &&& !self.closed()
        &&& self.issued() == 2 + 2 * self.sizes().len()
        &&& self.sizes().len() == self.blocks()
    }

    /// Whether a block has gone out and its progress has not been reported
    /// yet.
    pub open spec fn report_due(&self) -> bool {
        &&& !self.closed()
        &&& self.issued() == 1 + 2 * self.sizes().len()
        &&& self.sizes().len() > 0
    }
}

impl Operation for SegmentWrite {
    open spec fn script(&self) -> Seq<ActionView> {
        write_script(self.job(), self.write_size(), self.sizes())
    }

    closed spec fn issued(&self) -> nat {
        match self.stage {
            Stage::Idle => 0,
            Stage::Size => 1,
            Stage::Announce => 2,
            Stage::Data => (3 + 2 * self.index) as nat,
            Stage::Report => (4 + 2 * self.index) as nat,
        }
    }

    closed spec fn closed(&self) -> bool {
        self.closed
    }

    closed spec fn wf(&self) -> bool {
        &&& self.stage == Stage::Idle ==> self.closed
        &&& self.decoded == total(self.sizes@)
        &&& self.decoded <= self.raw_len || self.sizes@.len() == 0
        &&& match self.stage {
            Stage::Idle | Stage::Size => self.layout is None && self.sizes@.len() == 0,
            Stage::Announce => self.layout is Some && self.sizes@.len() == 0,
            Stage::Data | Stage::Report => self.layout is Some && self.sizes@.len() == self.index
                + 1,
        }
        &&& self.layout matches Some(layout) ==> {
            &&& Layout::fits(
                self.raw_len as nat,
                self.stream@.len(),
                layout.block_size as nat,
            )
            &&& layout.size == self.raw_len
            &&& layout.blocks == block_count(self.stream@.len(), layout.block_size as nat)
            &&& layout.erase_size == erase_size(self.raw_len as nat)
            &&& self.sizes@.len() <= layout.blocks
            &&& forall|i: int|
                0 <= i < self.sizes@.len() ==> (#[trigger] self.sizes@[i]) == block_yield(
                    self.stream@,
                    layout.block_size as nat,
                    i as nat,
                )
            &&& self.decoded == decoded_len(
                self.stream@,
                layout.block_size as nat,
                self.sizes@.len(),
            )
        }
        &&& !self.closed ==> {
            &&& self.decoded == inflated(self.decoder).len()
            &&& events(self.decoder) == match self.layout {
                Some(layout) => decoder_past(
                    self.stream@,
                    layout.block_size as nat,
                    self.sizes@.len(),
                ),
                None => Seq::empty(),
            }
        }
    }

    fn resume(&mut self, event: Event) -> (step: Step)
        ensures
            final(self).job() == old(self).job(),
            old(self).write_size() is Some ==> final(self).write_size() == old(self).write_size(),
            old(self).sizes().is_prefix_of(final(self).sizes()),
            !old(self).closed() && old(self).issued() == 1 ==> (event matches Event::FlashWriteSize(
                n,
            ) ==> {
                if Layout::fits(old(self).job().raw_len, old(self).job().stream.len(), n as nat) {
                    &&& step is Perform
                    &&& final(self).write_size() == Some(n)
                    &&& final(self).sizes() == old(self).sizes()
                } else {
                    step == Step::Abort(Error::OutOfRange)
                }
            }),
            old(self).block_due() && event is Done ==> {
                let stream = old(self).job().stream;
                let write_size = old(self).write_size().unwrap() as nat;
                let count = old(self).sizes().len();
                if !decoder_takes(stream, write_size, count) {
                    step == Step::Abort(Error::Decompression)
                } else if decoded_len(stream, write_size, count + 1) > old(self).job().raw_len {
                    step == Step::Abort(Error::LengthMismatch)
                } else {
                    &&& step is Perform
                    &&& 0 <= block_yield(stream, write_size, count) <= u32::MAX
                    &&& final(self).sizes() == old(self).sizes().push(
                        block_yield(stream, write_size, count) as u32,
                    )
                    &&& events(final(self).decoder()) == decoder_past(
                        stream,
                        write_size,
                        count + 1,
                    )
                }
            },
            old(self).report_due() && event is Done ==> {
                &&& step is Perform
                &&& final(self).sizes() == old(self).sizes()
            },
            old(self).all_sent() && event is Done ==> {
                if total(old(self).sizes()) == old(self).job().raw_len {
                    step is Complete
                } else {
                    step == Step::Abort(Error::LengthMismatch)
                }
            },
            step is Complete ==> {
                &&& total(final(self).sizes()) == final(self).job().raw_len
                &&& final(self).sizes().len() == final(self).blocks()
                &&& events(final(self).decoder()) == decoder_past(
                    final(self).job().stream,
                    final(self).write_size().unwrap() as nat,
                    final(self).blocks(),
                )
                &&& decoded_len(
                    final(self).job().stream,
                    final(self).write_size().unwrap() as nat,
                    final(self).blocks(),
                ) == final(self).job().raw_len
            },
    {
        if self.closed {
            return Step::Abort(Error::InvalidState);
        }
        match event {
            Event::Failed(e) => {
                self.closed = true;
                Step::Abort(e)
            },
            Event::FlashWriteSize(n) => {
                match self.stage {
                    Stage::Size => self.announce(n),
                    _ => {
                        self.closed = true;
                        Step::Abort(Error::InvalidState)
                    },
                }
            },
            Event::Done => {
                match self.stage {
                    Stage::Announce => self.next_block(0),
                    Stage::Data => self.report(),
                    Stage::Report => {
                        let next: u32 = self.index + 1;
                        self.next_block(next)
                    },
                    _ => {
                        self.closed = true;
                        Step::Abort(Error::InvalidState)
                    },
                }
            },
            _ => {
                self.closed = true;
                Step::Abort(Error::InvalidState)
            },
        }
    }
}

impl SegmentWrite {
    /// Once the write block size is known, the sizes fit the fields of the
    /// commands, no more blocks have gone through the decoder than the stream
    /// has, and each of them counts for what it decodes to: the sizes are
    /// settled by the stream and the write block size.
    pub proof fn lemma_sizes_are_yields(&self)
        requires
            self.wf(),
        ensures
            self.sizes().len() <= self.blocks(),
            self.write_size() is None ==> self.sizes().len() == 0,
            self.write_size() matches Some(write_size) ==> {
                &&& Layout::fits(
                    self.job().raw_len,
                    self.job().stream.len(),
                    write_size as nat,
                )
                &&& total(self.sizes()) == decoded_len(
                    self.job().stream,
                    write_size as nat,
                    self.sizes().len(),
                )
                &&& forall|i: int|
                    0 <= i < self.sizes().len() ==> (#[trigger] self.sizes()[i]) == block_yield(
                        self.job().stream,
                        write_size as nat,
                        i as nat,
                    )
            },
    {
    }

    /// A write that has not ended waits for exactly one of four things: the
    /// write block size, the outcome of a block's command, or the outcome of
    /// the step before a block, be it the announcement or a report, with or
    /// without a block left to send. Its decoder has been asked for exactly
    /// the blocks that have gone out, each followed by a flush.
    pub proof fn lemma_awaits(&self)
        requires
            self.wf(),
            !self.closed(),
        ensures
            self.issued() == 1 || self.block_due() || self.report_due() || self.all_sent(),
            self.issued() == 1 ==> self.write_size() is None && self.sizes().len() == 0,
            self.issued() >= 2 ==> self.write_size() is Some,
            self.write_size() matches Some(write_size) ==> Layout::fits(
                self.job().raw_len,
                self.job().stream.len(),
                write_size as nat,
            ),
            self.sizes().len() <= self.blocks(),
            events(self.decoder()) == match self.write_size() {
                Some(write_size) => decoder_past(
                    self.job().stream,
                    write_size as nat,
                    self.sizes().len(),
                ),
                None => Seq::empty(),
            },
    {
    }

    /// Takes the write block size and announces the write, if the sizes fit.
    fn announce(&mut self, write_size: usize) -> (step: Step)
        requires
            old(self).wf(),
            !old(self).closed,
            old(self).stage == Stage::Size,
        ensures
            final(self).wf(),
            final(self).job() == old(self).job(),
            final(self).sizes() == old(self).sizes(),
            final(self).decoder() == old(self).decoder(),
            if Layout::fits(
                old(self).job().raw_len,
                old(self).job().stream.len(),
                write_size as nat,
            ) {
                &&& step matches Step::Perform(action)
                &&& action@ == announce_action(old(self).job(), write_size)
                &&& final(self).write_size() == Some(write_size)
                &&& final(self).issued() == 2
                &&& !final(self).closed
            } else {
                &&& step == Step::Abort(Error::OutOfRange)
                &&& final(self).write_size() is None
                &&& final(self).issued() == 1
                &&& final(self).closed
            },
    {
        match Layout::new(self.raw_len, self.stream.len(), write_size) {
            Some(layout) => {
                self.layout = Some(layout);
                self.stage = Stage::Announce;
                proof {
                    lemma_decoder_past_grows(self.stream@, layout.block_size as nat, 0);
                }
                Step::Perform(
                    Action::Exchange {
                        command: Command::FlashDeflateBegin {
                            size: layout.size,
                            blocks: layout.blocks,
                            block_size: layout.block_size,
                            offset: self.offset,
                            supports_encryption: self.supports_encryption,
                        },
                        timeout: Timeout::ForSize(layout.erase_size),
                    },
                )
            },
            None => {
                self.closed = true;
                Step::Abort(Error::OutOfRange)
            },
        }
    }

    /// Reports the progress of the block that has just been written.
    fn report(&mut self) -> (step: Step)
        requires
            old(self).wf(),
            !old(self).closed,
            old(self).stage == Stage::Data,
        ensures
            final(self).wf(),
            !final(self).closed,
            final(self).job() == old(self).job(),
            final(self).write_size() == old(self).write_size(),
            final(self).sizes() == old(self).sizes(),
            final(self).decoder() == old(self).decoder(),
            final(self).issued() == old(self).issued() + 1,
            step matches Step::Perform(action) && action@ == report_action(
                old(self).job(),
                old(self).write_size().unwrap(),
                (old(self).sizes().len() - 1) as nat,
            ),
    {
        let layout = self.layout.unwrap();
        self.stage = Stage::Report;
        Step::Perform(
            Action::Report {
                completed: self.index as usize + 1,
                total: layout.blocks as usize,
            },
        )
    }

    /// Hands out block `index`, or ends the operation if the stream has no
    /// such block.
    fn next_block(&mut self, index: u32) -> (step: Step)
        requires
            old(self).wf(),
            !old(self).closed,
            old(self).stage == Stage::Announce || old(self).stage == Stage::Report,
            index == old(self).sizes@.len(),
        ensures
            final(self).wf(),
            final(self).job() == old(self).job(),
            final(self).write_size() == old(self).write_size(),
            if index < old(self).blocks() {
                let stream = old(self).job().stream;
                let write_size = old(self).write_size().unwrap() as nat;
                let before = decoded_len(stream, write_size, index as nat);
                let after = decoded_len(stream, write_size, (index + 1) as nat);
                if !decoder_takes(stream, write_size, index as nat) {
                    &&& step == Step::Abort(Error::Decompression)
                    &&& final(self).sizes() == old(self).sizes()
                    &&& final(self).issued() == old(self).issued()
                    &&& final(self).closed
                } else if after > old(self).job().raw_len {
                    &&& step == Step::Abort(Error::LengthMismatch)
                    &&& final(self).sizes() == old(self).sizes()
                    &&& final(self).issued() == old(self).issued()
                    &&& final(self).closed
                } else {
                    &&& step matches Step::Perform(action)
                    &&& 0 <= after - before <= u32::MAX
                    &&& action@ == data_action(
                        old(self).job(),
                        old(self).write_size().unwrap(),
                        index as nat,
                        (after - before) as u32,
                    )
                    &&& final(self).sizes() == old(self).sizes().push((after - before) as u32)
                    &&& events(final(self).decoder()) == decoder_past(
                        stream,
                        write_size,
                        (index + 1) as nat,
                    )
                    &&& final(self).issued() == old(self).issued() + 1
                    &&& !final(self).closed
                }
            } else {
                &&& final(self).sizes() == old(self).sizes()
                &&& final(self).issued() == old(self).issued()
                &&& final(self).closed
                &&& final(self).decoder() == old(self).decoder()
                &&& events(old(self).decoder()) == decoder_past(
                    old(self).job().stream,
                    old(self).write_size().unwrap() as nat,
                    old(self).blocks(),
                )
                &&& decoded_len(
                    old(self).job().stream,
                    old(self).write_size().unwrap() as nat,
                    old(self).blocks(),
                ) == total(old(self).sizes())
                &&& if total(old(self).sizes()) == old(self).job().raw_len {
                    step is Complete
                } else {
                    step == Step::Abort(Error::LengthMismatch)
                }
            },
    {
        let layout = self.layout.unwrap();
        if index >= layout.blocks {
            self.closed = true;
            return if self.decoded == self.raw_len {
                Step::Complete
            } else {
                Step::Abort(Error::LengthMismatch)
            };
        }
        let (start, end) = chunk_range(
            self.stream.len(),
            layout.block_size as usize,
            index as usize,
        );
        proof {
            lemma_decoder_past_grows(self.stream@, layout.block_size as nat, index as nat);
        }
        let block = slice_subrange(self.stream.as_slice(), start, end);
        let after = feed(&mut self.decoder, block);
        match chunk_contribution(self.raw_len, self.decoded, after) {
            Ok(size) => {
                let data = slice_to_vec(block);
                proof {
                    lemma_total_push(self.sizes@, size);
                }
                self.decoded = self.decoded + size as usize;
                self.index = index;
                self.stage = Stage::Data;
                self.sizes = Ghost(self.sizes@.push(size));
                Step::Perform(
                    Action::Exchange {
                        command: Command::FlashDeflateData {
                            sequence: index,
                            pad_to: 0,
                            pad_byte: 0xff,
                            data,
                        },
                        timeout: Timeout::ForSize(size),
                    },
                )
            },
            Err(e) => {
                self.closed = true;
                Step::Abort(e)
            },
        }
    }
}

} // verus!
