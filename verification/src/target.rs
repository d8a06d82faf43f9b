//! Flash targets: what a chip family does to attach its flash, to write a
//! segment and to close the session.

use vstd::prelude::*;
use crate::begin::{Begin, begin_script};
use crate::chip::Chip;
use crate::codec::{zlib_compress, zlib_stream, zlib_succeeds};
use crate::command::SpiAttachParams;
use crate::error::Error;
use crate::finish::{Finish, finish_script};
use crate::operation::{ActionView, Operation, Step};
use crate::segment::RomSegment;
use crate::write::{Job, SegmentWrite};

verus! {

/// A way of flashing a chip family, as three operations: attach the flash,
/// write one segment, close the session.
///
/// A session is one `begin`, then any number of `write_segment`, then one
/// `finish`, each run to its end before the next is begun. A target keeps no
/// record of where the session stands: to keep this order is left to the
/// caller.
///
/// Each operation is handed out together with its first step. Either that step
/// is an action, the first of the operation's script, or the operation has
/// ended before it began.
pub trait FlashTarget {
    /// The attaching of the flash, under way.
    type Begin: Operation;

    /// The writing of a segment, under way.
    type Write: Operation;

    /// The closing of the session, under way.
    type Finish: Operation;

    /// Begins to attach the flash.
    fn begin(&self) -> (r: (Self::Begin, Step))
        ensures
            started(r.0, r.1),
    ;

    /// Begins to write `segment`.
    fn write_segment(&self, segment: RomSegment) -> (r: (Self::Write, Step))
        ensures
            started(r.0, r.1),
    ;

    /// Begins to close the session, with a reset of the device at the end if
    /// `reboot`.
    fn finish(&self, reboot: bool) -> (r: (Self::Finish, Step))
        ensures
            started(r.0, r.1),
    ;
}

/// What holds of an operation and the first step that comes with it.
pub open spec fn started<O: Operation>(op: O, step: Step) -> bool {
    &&& op.wf()
    &&& !(step is Complete)
    &&& step matches Step::Perform(action) ==> {
        &&& !op.closed()
        &&& op.issued() == 1
        &&& op.script().len() >= 1
        &&& op.script()[0] == action@
    }
    &&& step is Abort ==> {
        &&& op.closed()
        &&& op.issued() == 0
    }
}

/// Applications running from the flash of an ESP32 or of one of its variants.
///
/// A target is set up once and never changes.
#[derive(Clone, Copy, Debug, PartialEq, Eq, Structural)]
pub struct Esp32Target {
    pub chip: Chip,
    pub spi_attach_params: SpiAttachParams,
    pub use_stub: bool,
}

impl Esp32Target {
    /// A target for `chip`, with its flash attached as `spi_attach_params`
    /// say, talking to the stub loader if `use_stub` and to the ROM loader
    /// otherwise.
    pub fn new(chip: Chip, spi_attach_params: SpiAttachParams, use_stub: bool) -> (r: Self)
        ensures
            r == (Esp32Target { chip, spi_attach_params, use_stub }),
    {
        Esp32Target { chip, spi_attach_params, use_stub }
    }

    /// Whether the device may be told that flash encryption is supported: the
    /// chip must allow it, and the stub loader must not be in use.
    pub open spec fn spec_supports_encryption(&self) -> bool {
        self.chip.spec_may_encrypt() && !self.use_stub
    }

    /// Whether the device may be told that flash encryption is supported: the
    /// chip must allow it, and the stub loader must not be in use.
    #[verifier::when_used_as_spec(spec_supports_encryption)]
    pub fn supports_encryption(&self) -> (r: bool)
        ensures
            r == self.spec_supports_encryption(),
    {
        self.chip.may_encrypt() && !self.use_stub
    }
}

impl FlashTarget for Esp32Target {
    type Begin = Begin;

    type Write = SegmentWrite;

    type Finish = Finish;

    /// Begins to attach the flash: the first step is the attach command, in
    /// the form that the loader in use understands, under its fixed deadline.
    fn begin(&self) -> (r: (Begin, Step))
        ensures
            !r.0.closed(),
            r.0.target() == *self,
            r.0.usb_pid() is None,
            r.1 matches Step::Perform(action) && action@ == begin_script(*self, None)[0],
    {
        Begin::new(*self)
    }

    /// Compresses `segment` and begins to write it. If the codec cannot
    /// compress it, the operation ends at once with
    /// [`Error::Compression`]. Otherwise the first step is the question for
    /// the write block size, and what is written is the segment's compressed
    /// stream.
    fn write_segment(&self, segment: RomSegment) -> (r: (SegmentWrite, Step))
        ensures
            r.1 is Perform <==> zlib_succeeds(segment.data@),
            r.1 matches Step::Abort(e) ==> e == Error::Compression,
            r.1 matches Step::Perform(action) ==> {
                &&& action@ == ActionView::QueryFlashWriteSize
                &&& r.0.job() == (Job {
                    offset: segment.addr,
                    raw_len: segment.data@.len(),
                    stream: zlib_stream(segment.data@),
                    supports_encryption: self.spec_supports_encryption(),
                })
                &&& r.0.write_size() is None
                &&& r.0.sizes() == Seq::<u32>::empty()
            },
    {
        let supports_encryption = self.supports_encryption();
        match zlib_compress(segment.data.as_slice()) {
            Ok(stream) => SegmentWrite::new(
                segment.addr,
                segment.data.len(),
                stream,
                supports_encryption,
            ),
            Err(_) => SegmentWrite::failed(segment.addr, segment.data.len(), supports_encryption),
        }
    }

    /// Begins to close the session: the first step is the command that ends
    /// the compressed write, with its reboot flag off whatever `reboot` says.
    fn finish(&self, reboot: bool) -> (r: (Finish, Step))
        ensures
            !r.0.closed(),
            r.0.reboot() == reboot,
            r.1 matches Step::Perform(action) && action@ == finish_script(reboot)[0],
    {
        Finish::new(reboot)
    }
}

} // verus!
