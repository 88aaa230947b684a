//! What holds of the walk over a stream that was written frame by frame.
use crate::blob::{be_u32, data_stream, first_frame, header_info, BlobKind, Frame, Stream,
    MAX_HEADER_SIZE, MAX_UNCOMPRESSED_DATA_SIZE};
use crate::error::ErrorKind;
use crate::pbf::BlobMsg;
use crate::wire::{blob_header_message, blob_message};
use vstd::prelude::*;

verus! {

/// The four bytes that stand for `n` in big-endian order.
pub open spec fn be_bytes(n: int) -> Seq<u8> {
    seq![
        (n / 0x100_0000) as u8,
        (n / 0x1_0000 % 0x100) as u8,
        (n / 0x100 % 0x100) as u8,
        (n % 0x100) as u8,
    ]
}

/// The four bytes of a number below 2^32 stand for that number.
pub proof fn lemma_be_bytes(n: int)
    requires
        0 <= n < 0x1_0000_0000,
    ensures
        be_bytes(n).len() == 4,
        be_u32(be_bytes(n)) == n,
{
}

/// The two parts of a frame that follow its length: the bytes of the blob
/// header and the bytes of the blob.
pub struct FrameBytes {
    pub header: Seq<u8>,
    pub payload: Seq<u8>,
}

/// The frame is one that a writer may write: its header is no longer than
/// 64 KiB and declares the size that the blob has, which is no more than
/// 32 MiB, and header and blob are messages that the decoder reads.
pub open spec fn well_formed(frame: FrameBytes) -> bool {
    &&& frame.header.len() <= MAX_HEADER_SIZE
    &&& header_info(frame.header) matches Ok((_, size))
    &&& size == frame.payload.len()
    &&& blob_message(frame.payload) is Some
}

pub open spec fn all_well_formed(frames: Seq<FrameBytes>) -> bool {
    forall|i: int| 0 <= i < frames.len() ==> well_formed(#[trigger] frames[i])
}

/// The type of the blob of a frame.
pub open spec fn frame_type(frame: FrameBytes) -> BlobKind {
    header_info(frame.header)->Ok_0.0
}

/// The bytes of a frame: the length of its header, its header, its blob.
pub open spec fn frame_bytes(frame: FrameBytes) -> Seq<u8> {
    be_bytes(frame.header.len() as int) + frame.header + frame.payload
}

/// The bytes of a stream of frames.
pub open spec fn stream_bytes(frames: Seq<FrameBytes>) -> Seq<u8>
    decreases frames.len(),
{
    if frames.len() == 0 {
        Seq::empty()
    } else {
        frame_bytes(frames[0]) + stream_bytes(frames.skip(1))
    }
}

/// The blobs of the frames of type `OSMData`, in the order of the frames.
pub open spec fn data_blobs(frames: Seq<FrameBytes>) -> Seq<BlobMsg>
    decreases frames.len(),
{
    if frames.len() == 0 {
        Seq::empty()
    } else if frame_type(frames[0]) is OSMData {
        seq![blob_message(frames[0].payload)->0] + data_blobs(frames.skip(1))
    } else {
        data_blobs(frames.skip(1))
    }
}

/// The number of frames of another type than `OSMData`.
pub open spec fn other_frames(frames: Seq<FrameBytes>) -> int
    decreases frames.len(),
{
    if frames.len() == 0 {
        0
    } else if frame_type(frames[0]) is OSMData {
        other_frames(frames.skip(1))
    } else {
        1 + other_frames(frames.skip(1))
    }
}

/// At the start of a stream that begins with a well-formed frame stands that
/// frame.
pub proof fn lemma_first_frame(frame: FrameBytes, rest: Seq<u8>)
    requires
        well_formed(frame),
    ensures
        first_frame(frame_bytes(frame) + rest) == (Frame::Blob {
            blob_type: frame_type(frame),
            blob: blob_message(frame.payload)->0,
            len: frame_bytes(frame).len() as int,
        }),
        frame_bytes(frame).len() == 4 + frame.header.len() + frame.payload.len(),
        (frame_bytes(frame) + rest).skip(frame_bytes(frame).len() as int) == rest,
{
    let h = frame.header.len() as int;
    let d = frame.payload.len() as int;
    let all = frame_bytes(frame) + rest;
    lemma_be_bytes(h);
    assert(all.subrange(0, 4) =~= be_bytes(h));
    assert(all.subrange(4, 4 + h) =~= frame.header);
    assert(all.subrange(4 + h, 4 + h + d) =~= frame.payload);
    assert(all.skip(frame_bytes(frame).len() as int) =~= rest);
}

/// A walk over a stream of well-formed frames hands out the blobs of its
/// data frames, in the order written, and ends without an error. They are as
/// many as there are frames, less those of another type.
pub proof fn lemma_round_trip(frames: Seq<FrameBytes>)
    requires
        all_well_formed(frames),
    ensures
        data_stream(stream_bytes(frames)) == (Stream { blobs: data_blobs(frames), end: None }),
        data_blobs(frames).len() == frames.len() - other_frames(frames),
    decreases frames.len(),
{
    if frames.len() > 0 {
        let tail = frames.skip(1);
        assert forall|i: int| 0 <= i < tail.len() implies well_formed(#[trigger] tail[i]) by {
            assert(tail[i] == frames[i + 1]);
        }
        lemma_round_trip(tail);
        lemma_first_frame(frames[0], stream_bytes(tail));
    }
}

/// A well-formed frame that is cut short, with at least one byte left,
/// fails with `UnexpectedEof`.
pub proof fn lemma_cut_frame(frame: FrameBytes, k: int)
    requires
        well_formed(frame),
        0 < k < frame_bytes(frame).len(),
    ensures
        first_frame(frame_bytes(frame).take(k)) == Frame::Failed(ErrorKind::UnexpectedEof),
{
    let h = frame.header.len() as int;
    let cut = frame_bytes(frame).take(k);
    lemma_be_bytes(h);
    if k >= 4 {
        assert(cut.subrange(0, 4) =~= be_bytes(h));
        if k - 4 >= h {
            assert(cut.subrange(4, 4 + h) =~= frame.header);
        }
    }
}

/// A walk over a stream of well-formed frames that ends inside a further
/// frame hands out the blobs of the data frames before it, and then the
/// error `UnexpectedEof`.
pub proof fn lemma_cut_stream(frames: Seq<FrameBytes>, last: FrameBytes, k: int)
    requires
        all_well_formed(frames),
        well_formed(last),
        0 < k < frame_bytes(last).len(),
    ensures
        data_stream(stream_bytes(frames) + frame_bytes(last).take(k)) == (Stream {
            blobs: data_blobs(frames),
            end: Some(ErrorKind::UnexpectedEof),
        }),
    decreases frames.len(),
{
    let cut = frame_bytes(last).take(k);
    if frames.len() == 0 {
        lemma_cut_frame(last, k);
        assert(stream_bytes(frames) + cut =~= cut);
    } else {
        let tail = frames.skip(1);
        assert forall|i: int| 0 <= i < tail.len() implies well_formed(#[trigger] tail[i]) by {
            assert(tail[i] == frames[i + 1]);
        }
        lemma_cut_stream(tail, last, k);
        lemma_first_frame(frames[0], stream_bytes(tail) + cut);
        assert(stream_bytes(frames) + cut =~= frame_bytes(frames[0]) + (stream_bytes(tail) + cut));
    }
}

/// A stream that begins with a length above 64 KiB hands out the error
/// `BlobHeaderTooLarge` and nothing else.
pub proof fn lemma_header_too_large(rest: Seq<u8>)
    requires
        rest.len() >= 4,
        be_u32(rest.subrange(0, 4)) > MAX_HEADER_SIZE,
    ensures
        data_stream(rest) == (Stream {
            blobs: Seq::empty(),
            end: Some(ErrorKind::BlobHeaderTooLarge),
        }),
{
}

/// A stream that begins with a blob header which declares a size above
/// 32 MiB hands out the error `BlobDataTooLarge` and nothing else.
pub proof fn lemma_data_too_large(rest: Seq<u8>, header_len: int, name: Seq<char>, datasize: i32)
    requires
        rest.len() >= 4,
        header_len == be_u32(rest.subrange(0, 4)),
        header_len <= MAX_HEADER_SIZE,
        rest.len() - 4 >= header_len,
        blob_header_message(rest.subrange(4, 4 + header_len)) == Some((name, datasize)),
        datasize > MAX_UNCOMPRESSED_DATA_SIZE,
    ensures
        data_stream(rest) == (Stream {
            blobs: Seq::empty(),
            end: Some(ErrorKind::BlobDataTooLarge),
        }),
{
}

/// The empty stream hands out nothing, and no error.
pub proof fn lemma_empty_stream()
    ensures
        data_stream(Seq::empty()) == (Stream { blobs: Seq::empty(), end: None }),
        first_frame(Seq::empty()) == Frame::End,
{
}

} // verus!
