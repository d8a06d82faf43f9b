//! The zlib codec, used through `flate2`.

use vstd::prelude::*;

verus! {

/// `std::io::Error`, the error of the codec's calls, carried through unread.
#[verifier::external_type_specification]
#[verifier::external_body]
pub struct ExIoError(std::io::Error);

/// A streaming zlib decoder that writes what it decodes to a byte sink of its
/// own: a `flate2::write::ZlibDecoder` over a `Vec<u8>`.
#[verifier::external_body]
pub struct Inflater {
    inner: flate2::write::ZlibDecoder<Vec<u8>>,
}

/// Whether `flate2` compresses `data` at its best compression level without
/// an error.
pub uninterp spec fn zlib_succeeds(data: Seq<u8>) -> bool;

/// The zlib stream that `flate2` produces for `data` at its best compression
/// level.
pub uninterp spec fn zlib_stream(data: Seq<u8>) -> Seq<u8>;

/// What has been asked of a decoder since it was made, in order:
/// `Some(block)` for a block to write, `None` for a flush.
pub uninterp spec fn events(decoder: Inflater) -> Seq<Option<Seq<u8>>>;

/// Whether a decoder of which `past` has been asked takes in the whole of
/// `block` when that is written to it next.
pub uninterp spec fn write_succeeds(past: Seq<Option<Seq<u8>>>, block: Seq<u8>) -> bool;

/// Whether a decoder of which `past` has been asked can be flushed next.
pub uninterp spec fn flush_succeeds(past: Seq<Option<Seq<u8>>>) -> bool;

/// The bytes in the sink of a decoder of which `past` has been asked.
pub uninterp spec fn sink_after(past: Seq<Option<Seq<u8>>>) -> Seq<u8>;

/// The bytes that a decoder has written to its sink so far.
pub open spec fn inflated(decoder: Inflater) -> Seq<u8> {
    sink_after(events(decoder))
}

/// `flate2::write::ZlibEncoder`: `new` on an empty `Vec` with
/// `Compression::best()`, `write_all` of the whole input, then `finish`.
/// The encoder works on nothing but the bytes it is given and writes to
/// memory, so whether it succeeds is settled by `data`; when it succeeds, the
/// bytes handed back are the stream that it made of `data`.
#[verifier::external_body]
pub(crate) fn zlib_compress(data: &[u8]) -> (r: Result<Vec<u8>, std::io::Error>)
    ensures
        r is Ok <==> zlib_succeeds(data@),
        r matches Ok(out) ==> out@ == zlib_stream(data@),
{
    let mut encoder = flate2::write::ZlibEncoder::new(Vec::new(), flate2::Compression::best());
    std::io::Write::write_all(&mut encoder, data)?;
    encoder.finish()
}

/// `flate2::write::ZlibDecoder::new` on an empty `Vec`: nothing has been asked
/// of the decoder and its sink is empty.
#[verifier::external_body]
pub(crate) fn inflater_new() -> (r: Inflater)
    ensures
        events(r) == Seq::<Option<Seq<u8>>>::empty(),
        sink_after(events(r)) == Seq::<u8>::empty(),
{
    Inflater { inner: flate2::write::ZlibDecoder::new(Vec::new()) }
}

/// `std::io::Write::write_all` on the decoder. The decoder works on nothing
/// but what it is given, so whether the write succeeds is settled by what has
/// been asked of the decoder before and by the block. Whatever the outcome,
/// the block is one more thing asked of the decoder, and the sink keeps what
/// it held and may have grown at its end.
#[verifier::external_body]
pub(crate) fn inflater_write_all(decoder: &mut Inflater, block: &[u8]) -> (r: Result<
    (),
    std::io::Error,
>)
    ensures
        r is Ok <==> write_succeeds(events(*old(decoder)), block@),
        events(*final(decoder)) == events(*old(decoder)).push(Some(block@)),
        sink_after(events(*old(decoder))).is_prefix_of(sink_after(events(*final(decoder)))),
{
    std::io::Write::write_all(&mut decoder.inner, block)
}

/// `std::io::Write::flush` on the decoder. Whether it succeeds is settled by
/// what has been asked of the decoder before. Whatever the outcome, the flush
/// is one more thing asked of the decoder, and the sink keeps what it held and
/// may have grown at its end.
#[verifier::external_body]
pub(crate) fn inflater_flush(decoder: &mut Inflater) -> (r: Result<(), std::io::Error>)
    ensures
        r is Ok <==> flush_succeeds(events(*old(decoder))),
        events(*final(decoder)) == events(*old(decoder)).push(None),
        sink_after(events(*old(decoder))).is_prefix_of(sink_after(events(*final(decoder)))),
{
    std::io::Write::flush(&mut decoder.inner)
}

/// `flate2::write::ZlibDecoder::get_ref`: the sink. The decoder works on
/// nothing but what it is given, so what the sink holds is settled by what has
/// been asked of the decoder.
#[verifier::external_body]
pub(crate) fn inflater_sink(decoder: &Inflater) -> (r: &Vec<u8>)
    ensures
        r@ == sink_after(events(*decoder)),
{
    decoder.inner.get_ref()
}

} // verus!
