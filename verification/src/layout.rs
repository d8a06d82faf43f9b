//! How a segment is laid out for a compressed write: the sectors to erase and
//! the blocks in which the compressed stream travels.

use vstd::prelude::*;

verus! {

/// The smallest unit that the flash chip erases, in bytes.
pub const FLASH_SECTOR_SIZE: usize = 0x1000;

/// The longest segment whose erase region, rounded up to whole sectors, still
/// fits the 32-bit size fields of the commands.
pub const MAX_SEGMENT_LEN: usize = 0xFFFF_F000;

/// `n / d`, rounded up.
pub open spec fn ceil_div(n: nat, d: nat) -> nat
    recommends
        d > 0,
{
    if n % d == 0 {
        n / d
    } else {
        n / d + 1
    }
}

/// The number of sectors that a segment of `raw_len` bytes touches.
pub open spec fn erase_count(raw_len: nat) -> nat {
    ceil_div(raw_len, FLASH_SECTOR_SIZE as nat)
}

/// The length of the region to erase for a segment of `raw_len` bytes: the
/// segment's length rounded up to whole sectors.
pub open spec fn erase_size(raw_len: nat) -> nat {
    erase_count(raw_len) * (FLASH_SECTOR_SIZE as nat)
}

/// The number of blocks in which a stream of `stream_len` bytes travels when a
/// block holds at most `write_size` bytes.
pub open spec fn block_count(stream_len: nat, write_size: nat) -> nat
    recommends
        write_size > 0,
{
    ceil_div(stream_len, write_size)
}

/// Where block `index` begins in the stream.
pub open spec fn chunk_start(write_size: nat, index: nat) -> nat {
    index * write_size
}

/// Where block `index` ends in a stream of `stream_len` bytes.
pub open spec fn chunk_end(stream_len: nat, write_size: nat, index: nat) -> nat {
    if (index + 1) * write_size <= stream_len {
        (index + 1) * write_size
    } else {
        stream_len
    }
}

/// The bytes of block `index`.
pub open spec fn chunk(stream: Seq<u8>, write_size: nat, index: nat) -> Seq<u8>
    recommends
        write_size > 0,
        index < block_count(stream.len(), write_size),
{
    stream.subrange(
        chunk_start(write_size, index) as int,
        chunk_end(stream.len(), write_size, index) as int,
    )
}

/// `ceil_div(n, d)` is the least number of pieces of size `d` that cover `n`.
pub proof fn lemma_ceil_div_least(n: nat, d: nat, k: nat)
    requires
        d > 0,
    ensures
        k * d >= n <==> k >= ceil_div(n, d),
{
    let q = n / d;
    let r = n % d;
    assert(n == q * d + r && 0 <= r < d) by (nonlinear_arith)
        requires
            d > 0,
            q == n / d,
            r == n % d,
    ;
    if k >= ceil_div(n, d) {
        assert(k * d >= n) by (nonlinear_arith)
            requires
                n == q * d + r,
                0 <= r < d,
                d > 0,
                (r == 0 && k >= q) || k >= q + 1,
        ;
    } else {
        assert(k * d < n) by (nonlinear_arith)
            requires
                n == q * d + r,
                0 <= r < d,
                d > 0,
                (r == 0 && k < q) || (r > 0 && k <= q),
        ;
    }
}

/// The region to erase is made of whole sectors, holds the whole segment, and
/// is less than one sector longer than it.
pub proof fn lemma_erase_size_covers(raw_len: nat)
    ensures
        erase_size(raw_len) % (FLASH_SECTOR_SIZE as nat) == 0,
        erase_size(raw_len) >= raw_len,
        erase_size(raw_len) < raw_len + FLASH_SECTOR_SIZE,
{
    let d = FLASH_SECTOR_SIZE as nat;
    let c = erase_count(raw_len);
    lemma_ceil_div_least(raw_len, d, c);
    assert((c * d) % d == 0) by (nonlinear_arith)
        requires
            d > 0,
    ;
    if c > 0 {
        lemma_ceil_div_least(raw_len, d, (c - 1) as nat);
        assert(c * d == (c - 1) * d + d) by (nonlinear_arith);
    }
}

/// Every block but the last is full, and the last one is neither empty nor
/// longer than a full one.
pub proof fn lemma_chunk_lengths(stream: Seq<u8>, write_size: nat, index: nat)
    requires
        write_size > 0,
        index < block_count(stream.len(), write_size),
    ensures
        index + 1 < block_count(stream.len(), write_size) ==> chunk(
            stream,
            write_size,
            index,
        ).len() == write_size,
        0 < chunk(stream, write_size, index).len() <= write_size,
        chunk_start(write_size, index) < chunk_end(stream.len(), write_size, index)
            <= stream.len(),
{
    let n = stream.len();
    let blocks = block_count(n, write_size);
    lemma_ceil_div_least(n, write_size, index);
    assert((index + 1) * write_size == index * write_size + write_size) by (nonlinear_arith);
    if index + 1 < blocks {
        lemma_ceil_div_least(n, write_size, index + 1);
    }
}

/// The blocks follow one another without a gap: the first begins where the
/// stream begins, each begins where the one before it ends, and the last ends
/// where the stream ends.
pub proof fn lemma_chunks_abut(stream_len: nat, write_size: nat, index: nat)
    requires
        write_size > 0,
        index < block_count(stream_len, write_size),
    ensures
        chunk_start(write_size, 0) == 0,
        index + 1 < block_count(stream_len, write_size) ==> chunk_end(
            stream_len,
            write_size,
            index,
        ) == chunk_start(write_size, index + 1),
        index + 1 == block_count(stream_len, write_size) ==> chunk_end(
            stream_len,
            write_size,
            index,
        ) == stream_len,
{
    let blocks = block_count(stream_len, write_size);
    assert(0 * write_size == 0) by (nonlinear_arith);
    lemma_ceil_div_least(stream_len, write_size, index + 1);
}

/// The first `count` blocks of the stream, one after the other.
pub open spec fn chunks_joined(stream: Seq<u8>, write_size: nat, count: nat) -> Seq<u8>
    decreases count,
{
    if count == 0 {
        Seq::empty()
    } else {
        chunks_joined(stream, write_size, (count - 1) as nat) + chunk(
            stream,
            write_size,
            (count - 1) as nat,
        )
    }
}

/// The first `count` blocks, one after the other, are the stream up to where
/// the last of them ends.
pub proof fn lemma_chunks_joined_prefix(stream: Seq<u8>, write_size: nat, count: nat)
    requires
        write_size > 0,
        count <= block_count(stream.len(), write_size),
    ensures
        chunks_joined(stream, write_size, count) == stream.take(
            if count == 0 {
                0
            } else {
                chunk_end(stream.len(), write_size, (count - 1) as nat) as int
            },
        ),
    decreases count,
{
    if count > 0 {
        let last = (count - 1) as nat;
        lemma_chunks_joined_prefix(stream, write_size, last);
        lemma_chunk_lengths(stream, write_size, last);
        if last > 0 {
            lemma_chunks_abut(stream.len(), write_size, (last - 1) as nat);
        }
        lemma_chunks_abut(stream.len(), write_size, last);
        assert(stream.take(chunk_start(write_size, last) as int) + chunk(stream, write_size, last)
            =~= stream.take(chunk_end(stream.len(), write_size, last) as int));
    } else {
        assert(stream.take(0) =~= Seq::<u8>::empty());
    }
}

/// All the blocks, one after the other, are the stream, byte for byte.
pub proof fn lemma_chunks_rebuild_stream(stream: Seq<u8>, write_size: nat)
    requires
        write_size > 0,
    ensures
        chunks_joined(stream, write_size, block_count(stream.len(), write_size)) == stream,
{
    let blocks = block_count(stream.len(), write_size);
    lemma_chunks_joined_prefix(stream, write_size, blocks);
    if blocks > 0 {
        lemma_chunks_abut(stream.len(), write_size, (blocks - 1) as nat);
    } else {
        lemma_ceil_div_least(stream.len(), write_size, 0);
    }
    assert(stream.take(stream.len() as int) =~= stream);
}

/// The sizes that the command announcing a compressed write carries.
#[derive(Clone, Copy, Debug, PartialEq, Eq, Structural)]
pub struct Layout {
    /// The segment's length before compression.
    pub size: u32,
    /// The number of blocks of the compressed stream.
    pub blocks: u32,
    /// The most bytes that a block holds.
    pub block_size: u32,
    /// The length of the region to erase.
    pub erase_size: u32,
}

impl Layout {
    /// Whether a segment of `raw_len` bytes that compresses to `stream_len`
    /// bytes can be announced with blocks of `write_size` bytes: the block
    /// size is not zero, and every size fits its 32-bit field.
    pub open spec fn fits(raw_len: nat, stream_len: nat, write_size: nat) -> bool {
        &&& 0 < write_size <= u32::MAX
        &&& raw_len <= MAX_SEGMENT_LEN
        &&& block_count(stream_len, write_size) <= u32::MAX
    }

    /// The layout of a segment of `raw_len` bytes that compresses to
    /// `stream_len` bytes, with blocks of `write_size` bytes; `None` where the
    /// sizes do not fit.
    pub fn new(raw_len: usize, stream_len: usize, write_size: usize) -> (r: Option<Layout>)
        ensures
            r is Some <==> Self::fits(raw_len as nat, stream_len as nat, write_size as nat),
            r matches Some(layout) ==> {
                &&& layout.size == raw_len
                &&& layout.blocks == block_count(stream_len as nat, write_size as nat)
                &&& layout.block_size == write_size
                &&& layout.erase_size == erase_size(raw_len as nat)
                &&& layout.erase_size % (FLASH_SECTOR_SIZE as u32) == 0
                &&& layout.erase_size >= raw_len
            },
    {
        if write_size == 0 || write_size > 0xFFFF_FFFF || raw_len > MAX_SEGMENT_LEN {
            return None;
        }
        let blocks: usize = div_round_up(stream_len, write_size);
        if blocks > 0xFFFF_FFFF {
            return None;
        }
        let sectors: usize = div_round_up(raw_len, FLASH_SECTOR_SIZE);
        proof {
            lemma_erase_size_covers(raw_len as nat);
        }
        let erase: usize = sectors * FLASH_SECTOR_SIZE;
        Some(
            Layout {
                size: raw_len as u32,
                blocks: blocks as u32,
                block_size: write_size as u32,
                erase_size: erase as u32,
            },
        )
    }
}

/// `n / d`, rounded up, without the overflow that adding `d - 1` first could
/// cause.
pub fn div_round_up(n: usize, d: usize) -> (r: usize)
    requires
        d > 0,
    ensures
        r == ceil_div(n as nat, d as nat),
{
    let q: usize = n / d;
    if n % d == 0 {
        q
    } else {
        assert(q < usize::MAX) by (nonlinear_arith)
            requires
                q == n as int / d as int,
                n as int % d as int != 0,
                d > 0,
                n <= usize::MAX,
        ;
        q + 1
    }
}

/// The range of the stream that block `index` holds.
pub fn chunk_range(stream_len: usize, write_size: usize, index: usize) -> (r: (usize, usize))
    requires
        write_size > 0,
        index < block_count(stream_len as nat, write_size as nat),
    ensures
        r.0 == chunk_start(write_size as nat, index as nat),
        r.1 == chunk_end(stream_len as nat, write_size as nat, index as nat),
        r.0 < r.1 <= stream_len,
{
    proof {
        lemma_ceil_div_least(stream_len as nat, write_size as nat, index as nat);
        assert((index + 1) * write_size == index * write_size + write_size) by (nonlinear_arith);
    }
    let start: usize = index * write_size;
    let end: usize = if stream_len - start >= write_size {
        start + write_size
    } else {
        stream_len
    };
    (start, end)
}

} // verus!
