//! Frames and blobs: cutting a byte stream into blobs, and decoding a blob
//! into the bytes of its block.
use crate::codec::{xz_decode, xz_inflated, zlib_decode, zlib_inflated};
use crate::error::{Error, ErrorKind, IoFailure};
use crate::pool::Pool;
use crate::pbf::{BlobDataMsg, BlobMsg, PbfBlob, PbfBlobData};
use crate::wire::{blob_header_message, blob_message, decode_blob, decode_blob_header};
use byteorder::{BigEndian, ByteOrder};
use std::marker::PhantomData;
use vstd::prelude::*;
use vstd::slice::slice_subrange;
use vstd::utf8::encode_utf8;

verus! {

/// The largest length of a blob header: 64 KiB.
pub const MAX_HEADER_SIZE: u32 = 64 * 1024;

/// The largest size that a blob header may declare for its blob: 32 MiB.
pub const MAX_UNCOMPRESSED_DATA_SIZE: usize = 32 * 1024 * 1024;

/// The number that four bytes stand for, the first byte counting most.
pub open spec fn be_u32(bytes: Seq<u8>) -> int {
    bytes[0] * 0x100_0000 + bytes[1] * 0x1_0000 + bytes[2] * 0x100 + bytes[3]
}

/// `read_u32` of `byteorder::BigEndian`: the number that the first four
/// bytes of the buffer stand for in big-endian order. The call panics on a
/// shorter buffer.
#[verifier::external_body]
fn read_be_u32(buf: &[u8]) -> (n: u32)
    requires
        buf@.len() >= 4,
    ensures
        n == be_u32(buf@),
{
    BigEndian::read_u32(buf)
}

/// Whether two strings hold the same characters.
fn str_eq(a: &str, b: &str) -> (r: bool)
    ensures
        r == (a@ == b@),
{
    let x = a.as_bytes();
    let y = b.as_bytes();
    proof {
        vstd::utf8::encode_utf8_decode_utf8(a@);
        vstd::utf8::encode_utf8_decode_utf8(b@);
    }
    if x.len() != y.len() {
        return false;
    }
    let mut i: usize = 0;
    while i < x.len()
        invariant
            i <= x@.len(),
            x@.len() == y@.len(),
            x@ == encode_utf8(a@),
            y@ == encode_utf8(b@),
            forall|j: int| 0 <= j < i ==> x@[j] == y@[j],
        decreases x@.len() - i,
    {
        if x[i] != y[i] {
            return false;
        }
        i += 1;
    }
    assert(x@ =~= y@);
    true
}

/// The type of a blob.
#[derive(Debug, Clone, PartialEq, Eq, PartialOrd, Ord, Hash)]
pub enum BlobType {
    OSMHeader,
    OSMData,
    Other(String),
}

pub enum BlobKind {
    OSMHeader,
    OSMData,
    Other(Seq<char>),
}

/// The type that a name stands for.
pub open spec fn blob_type_of(name: Seq<char>) -> BlobKind {
    if name == "OSMHeader"@ {
        BlobKind::OSMHeader
    } else if name == "OSMData"@ {
        BlobKind::OSMData
    } else {
        BlobKind::Other(name)
    }
}

/// The name of a type.
pub open spec fn blob_type_name(kind: BlobKind) -> Seq<char> {
    match kind {
        BlobKind::OSMHeader => "OSMHeader"@,
        BlobKind::OSMData => "OSMData"@,
        BlobKind::Other(name) => name,
    }
}

impl View for BlobType {
    type V = BlobKind;

    open spec fn view(&self) -> BlobKind {
        match self {
            BlobType::OSMHeader => BlobKind::OSMHeader,
            BlobType::OSMData => BlobKind::OSMData,
            BlobType::Other(name) => BlobKind::Other(name@),
        }
    }
}

impl BlobType {
    pub fn from_str(s: &str) -> (blob_type: Self)
        ensures
            blob_type@ == blob_type_of(s@),
    {
        if str_eq(s, "OSMHeader") {
            BlobType::OSMHeader
        } else if str_eq(s, "OSMData") {
            BlobType::OSMData
        } else {
            BlobType::Other(s.to_owned())
        }
    }

    pub fn as_str(&self) -> (name: &str)
        ensures
            name@ == blob_type_name(self@),
    {
        match self {
            BlobType::OSMHeader => "OSMHeader",
            BlobType::OSMData => "OSMData",
            BlobType::Other(s) => s.as_str(),
        }
    }

    /// The name of the type, as an owned string.
    pub fn to_string(&self) -> (name: String)
        ensures
            name@ == blob_type_name(self@),
    {
        self.as_str().to_owned()
    }
}

/// A name is the name of the type that it stands for.
pub proof fn lemma_blob_type_name(name: Seq<char>)
    ensures
        blob_type_name(blob_type_of(name)) == name,
{
}

/// The bytes that a blob gives when it is decoded: its payload where that is
/// raw, what the codec makes of it where it is compressed with zlib or xz,
/// and an error where the codec fails, where the payload is in another
/// encoding and where there is none.
pub open spec fn decoded_payload(blob: BlobMsg) -> Result<Seq<u8>, ErrorKind> {
    match blob.data {
        BlobDataMsg::Raw(data) => Ok(data),
        BlobDataMsg::ZlibData(data) => match zlib_inflated(data) {
            Some(bytes) => Ok(bytes),
            None => Err(ErrorKind::Codec),
        },
        BlobDataMsg::LzmaData(data) => match xz_inflated(data) {
            Some(bytes) => Ok(bytes),
            None => Err(ErrorKind::Codec),
        },
        _ => Err(ErrorKind::UnsupportedEncoding),
    }
}

/// The number of bytes to set aside for the decoded payload: the size that
/// the writer gave or the length of the compressed payload, whichever is
/// larger.
pub open spec fn reservation(raw_size: Option<i32>, payload_len: int) -> int {
    match raw_size {
        Some(size) => if size > payload_len {
            size as int
        } else {
            payload_len
        },
        None => payload_len,
    }
}

/// The number of bytes to set aside for the decoded payload of a blob.
pub fn reserve_hint(raw_size: Option<i32>, payload_len: usize) -> (room: usize)
    ensures
        room == reservation(raw_size, payload_len as int),
{
    match raw_size {
        Some(size) => if size > 0 && size as usize > payload_len {
            size as usize
        } else {
            payload_len
        },
        None => payload_len,
    }
}

/// The bytes that a blob holds as its payload, raw or compressed.
pub open spec fn payload_bytes(blob: BlobMsg) -> Seq<u8> {
    match blob.data {
        BlobDataMsg::Raw(data) => data,
        BlobDataMsg::ZlibData(data) => data,
        BlobDataMsg::LzmaData(data) => data,
        _ => Seq::empty(),
    }
}

/// The data of a blob.
pub struct BlobData {
    blob: PbfBlob,
}

impl BlobData {
    pub closed spec fn view(&self) -> BlobMsg {
        self.blob@
    }

    /// The data that the bytes of a blob hold. The buffer goes back to the
    /// pool.
    pub fn new(data: Vec<u8>, pool: &mut Pool) -> (r: Result<Self, Error>)
        requires
            old(pool).wf(),
        ensures
            final(pool).wf(),
            final(pool)@ == old(pool)@ || final(pool)@ == old(pool)@.push(data@),
            match r {
                Ok(blob) => blob_message(data@) == Some(blob@),
                Err(e) => blob_message(data@) is None && e.kind() == ErrorKind::Protobuf,
            },
    {
        let decoded = decode_blob(data.as_slice());
        pool.push(data);
        match decoded {
            Ok(blob) => Ok(BlobData::from_message(blob)),
            Err(message) => Err(Error::ProtobufError(message)),
        }
    }

    /// The data of a decoded blob message.
    pub fn from_message(blob: PbfBlob) -> (data: Self)
        ensures
            data@ == blob@,
    {
        BlobData { blob }
    }

    /// Puts decoded bytes in the place of the payload. The buffer of the old
    /// payload goes back to the pool.
    fn set_raw(&mut self, data: Vec<u8>, pool: &mut Pool)
        requires
            old(pool).wf(),
        ensures
            final(pool).wf(),
            final(pool)@ == old(pool)@ || final(pool)@ == old(pool)@.push(
                payload_bytes(old(self)@),
            ),
            final(self)@ == (BlobMsg { raw_size: None, data: BlobDataMsg::Raw(data@) }),
    {
        let mut blob = BlobData { blob: PbfBlob { raw_size: None, data: PbfBlobData::Raw(data) } };
        std::mem::swap(self, &mut blob);
        blob.release(pool);
    }

    /// Hands the buffer of the blob back to the pool: the buffer of its
    /// payload, raw or compressed. A blob without such a payload leaves the
    /// pool as it was.
    pub fn release(self, pool: &mut Pool)
        requires
            old(pool).wf(),
        ensures
            final(pool).wf(),
            release_leaves(self@, old(pool)@, final(pool)@),
    {
        match self.blob.data {
            PbfBlobData::Raw(data) => pool.push(data),
            PbfBlobData::ZlibData(data) => pool.push(data),
            PbfBlobData::LzmaData(data) => pool.push(data),
            _ => {},
        }
    }

    /// An empty buffer with room for the decoded payload as far as its size
    /// is known: the oldest buffer of the pool, which leaves the pool, or a
    /// new one where the pool is empty.
    fn new_buf_with_raw_size(&self, payload_len: usize, pool: &mut Pool) -> (buf: Vec<u8>)
        requires
            old(pool).wf(),
        ensures
            final(pool).wf(),
            buf@.len() == 0,
            final(pool)@ == if old(pool)@.len() > 0 {
                old(pool)@.skip(1)
            } else {
                old(pool)@
            },
    {
        let mut buf = pool.get();
        buf.reserve(reserve_hint(self.blob.raw_size, payload_len));
        buf
    }

    /// Decodes the blob in place: after success it holds its bytes raw. A
    /// compressed blob is decoded into a buffer of the pool, and the buffer
    /// of its payload goes back to the pool; any other blob leaves the pool
    /// as it was.
    pub fn decode(&mut self, pool: &mut Pool) -> (r: Result<(), Error>)
        requires
            old(pool).wf(),
        ensures
            final(pool).wf(),
            !(old(self)@.data is ZlibData || old(self)@.data is LzmaData) ==> final(pool)@
                == old(pool)@,
            match r {
                Ok(_) => decoded_payload(old(self)@) matches Ok(bytes) && final(self)@.data
                    == BlobDataMsg::Raw(bytes),
                Err(e) => decoded_payload(old(self)@) == Err::<Seq<u8>, ErrorKind>(e.kind())
                    && final(self)@ == old(self)@,
            },
    {
        match &self.blob.data {
            PbfBlobData::Raw(_) => Ok(()),
            PbfBlobData::ZlibData(data) => {
                let buf = self.new_buf_with_raw_size(data.len(), pool);
                match zlib_decode(data.as_slice(), buf) {
                    Ok(out) => {
                        self.set_raw(out, pool);
                        Ok(())
                    },
                    Err(e) => Err(Error::IoError(IoFailure::Codec(e))),
                }
            },
            PbfBlobData::LzmaData(data) => {
                let buf = self.new_buf_with_raw_size(data.len(), pool);
                match xz_decode(data.as_slice(), buf) {
                    Ok(out) => {
                        self.set_raw(out, pool);
                        Ok(())
                    },
                    Err(e) => Err(Error::IoError(IoFailure::Codec(e))),
                }
            },
            _ => Err(Error::UnsupportedEncoding),
        }
    }

    /// The bytes of a decoded blob; no bytes for a blob that is not decoded.
    pub fn raw(&self) -> (bytes: &[u8])
        ensures
            match self@.data {
                BlobDataMsg::Raw(data) => bytes@ == data,
                _ => bytes@.len() == 0,
            },
    {
        match &self.blob.data {
            PbfBlobData::Raw(data) => data.as_slice(),
            _ => {
                let empty: &[u8] = &[];
                empty
            },
        }
    }
}

/// A kind of block: what the decoded bytes of a blob are read as.
pub trait Block {
    /// The block that comes out.
    type Target;

    /// What `parse` may give for the bytes: which block on which bytes, and
    /// which error on the others.
    spec fn parses(bytes: Seq<u8>, r: Result<Self::Target, Error>) -> bool;

    /// The block that the bytes hold.
    fn parse(bytes: &[u8]) -> (r: Result<Self::Target, Error>)
        ensures
            Self::parses(bytes@, r),
    ;
}

/// Whether `after` is what handing back the buffer of a blob may leave in a
/// pool that held `before`: what `Pool::push` leaves for the bytes of its
/// payload, and the pool as it was for a blob without a payload that this
/// crate keeps.
pub open spec fn release_leaves(blob: BlobMsg, before: Seq<Seq<u8>>, after: Seq<Seq<u8>>) -> bool {
    match blob.data {
        BlobDataMsg::Raw(data) => Pool::push_leaves(before, data, after),
        BlobDataMsg::ZlibData(data) => Pool::push_leaves(before, data, after),
        BlobDataMsg::LzmaData(data) => Pool::push_leaves(before, data, after),
        _ => after == before,
    }
}

/// What reading a blob as a block of the kind `B` may give: what `B` makes
/// of the decoded bytes, and the error of the decoding where that fails.
pub open spec fn reads<B: Block>(blob: BlobMsg, r: Result<B::Target, Error>) -> bool {
    match decoded_payload(blob) {
        Ok(bytes) => B::parses(bytes, r),
        Err(kind) => r matches Err(e) && e.kind() == kind,
    }
}

/// A blob that holds a block of the kind `B`.
pub struct Blob<B> {
    data: BlobData,
    phantom: PhantomData<B>,
}

impl<B: Block> Blob<B> {
    /// The message of the blob.
    pub closed spec fn view(&self) -> BlobMsg {
        self.data@
    }

    /// A blob with the given data.
    pub fn new(data: BlobData) -> (blob: Self)
        ensures
            blob@ == data@,
    {
        Blob { data, phantom: PhantomData }
    }

    /// Hands the buffer of the blob back to the pool: the buffer of its
    /// payload, raw or compressed. A blob without such a payload leaves the
    /// pool as it was.
    pub fn release(self, pool: &mut Pool)
        requires
            old(pool).wf(),
        ensures
            final(pool).wf(),
            release_leaves(self@, old(pool)@, final(pool)@),
    {
        self.data.release(pool)
    }

    /// Decodes the blob and reads its bytes as a block.
    pub fn read(&mut self, pool: &mut Pool) -> (r: Result<B::Target, Error>)
        requires
            old(pool).wf(),
        ensures
            final(pool).wf(),
            !(old(self)@.data is ZlibData || old(self)@.data is LzmaData) ==> final(pool)@
                == old(pool)@,
            reads::<B>(old(self)@, r),
            match decoded_payload(old(self)@) {
                Ok(bytes) => final(self)@.data == BlobDataMsg::Raw(bytes),
                Err(_) => final(self)@ == old(self)@,
            },
    {
        match self.data.decode(pool) {
            Ok(_) => B::parse(self.data.raw()),
            Err(e) => Err(e),
        }
    }
}

/// What stands at the start of a stream: its end, a failure, or a frame with
/// the type and the message of its blob and the number of bytes that the
/// frame takes.
pub enum Frame {
    End,
    Failed(ErrorKind),
    Blob { blob_type: BlobKind, blob: BlobMsg, len: int },
}

/// What the bytes of a blob header say: the type of the blob and its size.
/// A size below zero or above 32 MiB is an error.
pub open spec fn header_info(header: Seq<u8>) -> Result<(BlobKind, int), ErrorKind> {
    match blob_header_message(header) {
        None => Err(ErrorKind::Protobuf),
        Some((name, datasize)) => if datasize < 0 || datasize > MAX_UNCOMPRESSED_DATA_SIZE {
            Err(ErrorKind::BlobDataTooLarge)
        } else {
            Ok((blob_type_of(name), datasize as int))
        },
    }
}

/// What stands at the start of `rest`. A frame is four bytes with the length
/// of the blob header, the blob header, and the blob in the size that the
/// header declares. No byte at all is the end of the stream; a stream that
/// ends inside a frame fails with `UnexpectedEof`.
pub open spec fn first_frame(rest: Seq<u8>) -> Frame {
    if rest.len() == 0 {
        Frame::End
    } else if rest.len() < 4 {
        Frame::Failed(ErrorKind::UnexpectedEof)
    } else {
        let header_len = be_u32(rest.subrange(0, 4));
        if header_len > MAX_HEADER_SIZE {
            Frame::Failed(ErrorKind::BlobHeaderTooLarge)
        } else if rest.len() - 4 < header_len {
            Frame::Failed(ErrorKind::UnexpectedEof)
        } else {
            match header_info(rest.subrange(4, 4 + header_len)) {
                Err(kind) => Frame::Failed(kind),
                Ok((blob_type, size)) => if rest.len() - 4 - header_len < size {
                    Frame::Failed(ErrorKind::UnexpectedEof)
                } else {
                    match blob_message(rest.subrange(4 + header_len, 4 + header_len + size)) {
                        None => Frame::Failed(ErrorKind::Protobuf),
                        Some(blob) => Frame::Blob { blob_type, blob, len: 4 + header_len + size },
                    }
                },
            }
        }
    }
}

/// A frame takes at least its four bytes of length, and no more bytes than
/// there are.
pub proof fn lemma_frame_len(rest: Seq<u8>)
    ensures
        first_frame(rest) matches Frame::Blob { len, .. } ==> 4 <= len <= rest.len(),
{
}

/// What a walk over a stream hands out: the blobs of data, and the error
/// that ends the walk, if one does.
pub struct Stream {
    pub blobs: Seq<BlobMsg>,
    pub end: Option<ErrorKind>,
}

/// What a walk over `rest` hands out: the blobs of the frames of type
/// `OSMData`, in the order of the frames, up to the end of the stream or to
/// the first frame that fails.
pub open spec fn data_stream(rest: Seq<u8>) -> Stream
    decreases rest.len(),
{
    match first_frame(rest) {
        Frame::End => Stream { blobs: Seq::empty(), end: None },
        Frame::Failed(kind) => Stream { blobs: Seq::empty(), end: Some(kind) },
        Frame::Blob { blob_type, blob, len } => {
            if 4 <= len <= rest.len() {
                let tail = data_stream(rest.skip(len));
                if blob_type is OSMData {
                    Stream { blobs: seq![blob] + tail.blobs, end: tail.end }
                } else {
                    tail
                }
            } else {
                Stream { blobs: Seq::empty(), end: None }
            }
        },
    }
}

/// The length of a blob header, from the four bytes that stand before it.
pub fn header_size(prefix: &[u8]) -> (r: Result<usize, Error>)
    requires
        prefix@.len() == 4,
    ensures
        match r {
            Ok(len) => len == be_u32(prefix@) && len <= MAX_HEADER_SIZE,
            Err(e) => {
                &&& be_u32(prefix@) > MAX_HEADER_SIZE
                &&& e.kind() == ErrorKind::BlobHeaderTooLarge
            },
        },
{
    let len = read_be_u32(prefix);
    if len > MAX_HEADER_SIZE {
        Err(Error::BlobHeaderTooLarge)
    } else {
        Ok(len as usize)
    }
}

/// The type of a blob and its size, from the two fields of its header.
pub fn check_blob_header(name: &str, datasize: i32) -> (r: Result<(BlobType, usize), Error>)
    ensures
        match r {
            Ok((blob_type, size)) => 0 <= datasize <= MAX_UNCOMPRESSED_DATA_SIZE && size
                == datasize && blob_type@ == blob_type_of(name@),
            Err(e) => (datasize < 0 || datasize > MAX_UNCOMPRESSED_DATA_SIZE) && e.kind()
                == ErrorKind::BlobDataTooLarge,
        },
{
    if datasize < 0 || datasize as usize > MAX_UNCOMPRESSED_DATA_SIZE {
        Err(Error::BlobDataTooLarge)
    } else {
        Ok((BlobType::from_str(name), datasize as usize))
    }
}

/// The type of a blob and its size, from the bytes of its header.
pub fn blob_info(header: &[u8]) -> (r: Result<(BlobType, usize), Error>)
    ensures
        match header_info(header@) {
            Ok((kind, size)) => r matches Ok((blob_type, n)) && blob_type@ == kind && n == size,
            Err(kind) => r matches Err(e) && e.kind() == kind,
        },
{
    match decode_blob_header(header) {
        Ok((name, datasize)) => check_blob_header(name.as_str(), datasize),
        Err(message) => Err(Error::ProtobufError(message)),
    }
}

/// Puts the `exact_size` bytes that stand at `pos` in `reader` at the end of
/// `bytes`. Where `reader` has fewer bytes from `pos` on, fails with
/// `UnexpectedEof` and leaves `bytes` as it was.
pub fn read_bytes_exact(reader: &[u8], pos: usize, bytes: &mut Vec<u8>, exact_size: usize) -> (r:
    Result<(), Error>)
    ensures
        match r {
            Ok(_) => pos + exact_size <= reader@.len() && final(bytes)@ == old(bytes)@
                + reader@.subrange(pos as int, pos + exact_size),
            Err(e) => pos + exact_size > reader@.len() && e.kind() == ErrorKind::UnexpectedEof
                && final(bytes)@ == old(bytes)@,
        },
{
    if pos > reader.len() || exact_size > reader.len() - pos {
        Err(Error::unexpected_eof())
    } else {
        bytes.reserve(exact_size);
        bytes.extend_from_slice(slice_subrange(reader, pos, pos + exact_size));
        Ok(())
    }
}

/// Whether a frame follows, from the number of bytes that the source had
/// left for the four bytes of a length: none is the end of the stream, four
/// are a length, and anything between is a stream that ends inside a frame.
pub fn frame_follows(got: usize) -> (r: Result<bool, Error>)
    ensures
        match r {
            Ok(follows) => follows == (got >= 4) && (got == 0 || got >= 4),
            Err(e) => 0 < got < 4 && e.kind() == ErrorKind::UnexpectedEof,
        },
{
    if got == 0 {
        Ok(false)
    } else if got < 4 {
        Err(Error::unexpected_eof())
    } else {
        Ok(true)
    }
}

/// The blob of the header of the file, from the frame that stands where it
/// is expected. A blob of another type is reported with its type, and the
/// end of the stream as `UnexpectedEof`.
pub fn expect_header(frame: Option<(BlobType, BlobData)>) -> (r: Result<
    Blob<crate::header::HeaderBlobMarker>,
    Error,
>)
    ensures
        match frame {
            Some((blob_type, data)) => if blob_type@ is OSMHeader {
                r matches Ok(header) && header@ == data@
            } else {
                &&& r matches Err(Error::UnexpectedBlobType(name))
                &&& name@ == blob_type_name(blob_type@)
            },
            None => r matches Err(e) && e.kind() == ErrorKind::UnexpectedEof,
        },
{
    match frame {
        Some((BlobType::OSMHeader, data)) => Ok(Blob::new(data)),
        Some((blob_type, _)) => Err(Error::UnexpectedBlobType(blob_type.to_string())),
        None => Err(Error::unexpected_eof()),
    }
}

/// The blob of a frame as a blob of data, where the frame is of the type
/// `OSMData`. The buffer of a blob of another type goes back to the pool.
pub fn expect_data(blob_type: BlobType, data: BlobData, pool: &mut Pool) -> (r: Option<
    Blob<crate::data::DataBlobMarker>,
>)
    requires
        old(pool).wf(),
    ensures
        final(pool).wf(),
        match r {
            Some(blob) => blob_type@ is OSMData && blob@ == data@ && final(pool)@ == old(pool)@,
            None => !(blob_type@ is OSMData),
        },
{
    match blob_type {
        BlobType::OSMData => Some(Blob::new(data)),
        _ => {
            data.release(pool);
            None
        },
    }
}

/// A cursor over the blobs of a stream of bytes.
pub struct Blobs {
    reader: Vec<u8>,
    pos: usize,
    hdr_buf: Vec<u8>,
    pool: Pool,
    done: bool,
}

impl Blobs {
    /// The bytes of the stream.
    pub closed spec fn bytes(&self) -> Seq<u8> {
        self.reader@
    }

    /// The number of bytes that the cursor has passed.
    pub closed spec fn position(&self) -> int {
        self.pos as int
    }

    /// A frame has failed: the cursor hands out nothing more.
    pub closed spec fn done(&self) -> bool {
        self.done
    }

    /// The cursor stands inside its stream or at its end, and its pool is in
    /// order.
    pub closed spec fn wf(&self) -> bool {
        &&& self.pos <= self.reader@.len()
        &&& self.pool.wf()
    }

    /// The bytes that the cursor has not passed.
    pub open spec fn rest(&self) -> Seq<u8> {
        self.bytes().skip(self.position())
    }

    /// What stands where the cursor is: the end, for a cursor that is done.
    pub open spec fn next_frame(&self) -> Frame {
        if self.done() {
            Frame::End
        } else {
            first_frame(self.rest())
        }
    }

    /// What the cursor still hands out.
    pub open spec fn view(&self) -> Stream {
        if self.done() {
            Stream { blobs: Seq::empty(), end: None }
        } else {
            data_stream(self.rest())
        }
    }

    /// A cursor at the start of the bytes.
    pub fn from_bytes(bytes: Vec<u8>) -> (blobs: Self)
        ensures
            blobs.wf(),
            blobs.bytes() == bytes@,
            blobs.position() == 0,
            !blobs.done(),
    {
        Blobs { reader: bytes, pos: 0, hdr_buf: Vec::new(), pool: Pool::new(), done: false }
    }

    /// The bytes of the stream.
    pub fn into_inner(self) -> (bytes: Vec<u8>)
        ensures
            bytes@ == self.bytes(),
    {
        self.reader
    }

    /// Puts the cursor back at the start of its bytes.
    pub fn rewind(&mut self) -> (r: std::result::Result<(), std::io::Error>)
        requires
            old(self).wf(),
        ensures
            r is Ok,
            final(self).wf(),
            final(self).bytes() == old(self).bytes(),
            final(self).position() == 0,
            !final(self).done(),
    {
        self.pos = 0;
        self.done = false;
        Ok(())
    }

    /// The pool of the cursor, for decoding its blobs.
    pub fn pool(&mut self) -> (pool: &mut Pool)
        requires
            old(self).wf(),
        ensures
            pool.wf(),
            final(pool).wf() ==> final(self).wf(),
            final(self).bytes() == old(self).bytes(),
            final(self).position() == old(self).position(),
            final(self).done() == old(self).done(),
    {
        &mut self.pool
    }

    /// The blob of the frame where the cursor stands, with its type, or
    /// `None` at the end of the stream. A failure ends the walk.
    pub fn next_blob(&mut self) -> (r: Result<Option<(BlobType, BlobData)>, Error>)
        requires
            old(self).wf(),
        ensures
            final(self).wf(),
            final(self).bytes() == old(self).bytes(),
            match old(self).next_frame() {
                Frame::End => r matches Ok(None) && final(self).position() == old(self).position()
                    && final(self).done() == old(self).done(),
                Frame::Failed(kind) => r matches Err(e) && e.kind() == kind && final(self).done(),
                Frame::Blob { blob_type, blob, len } => r matches Ok(Some((t, data))) && t@
                    == blob_type && data@ == blob && final(self).position() == old(self).position()
                    + len && !final(self).done(),
            },
    {
        if self.done {
            return Ok(None);
        }
        let pos = self.pos;
        let left = self.reader.len() - pos;
        let ghost rest = self.rest();
        match frame_follows(left) {
            Ok(true) => {},
            Ok(false) => {
                return Ok(None);
            },
            Err(e) => {
                self.done = true;
                return Err(e);
            },
        }
        let prefix = slice_subrange(self.reader.as_slice(), pos, pos + 4);
        assert(prefix@ =~= rest.subrange(0, 4));
        let header_len = match header_size(prefix) {
            Ok(len) => len,
            Err(e) => {
                self.done = true;
                return Err(e);
            },
        };
        self.hdr_buf.clear();
        match read_bytes_exact(self.reader.as_slice(), pos + 4, &mut self.hdr_buf, header_len) {
            Ok(_) => {},
            Err(e) => {
                self.done = true;
                return Err(e);
            },
        }
        assert(self.hdr_buf@ =~= rest.subrange(4, 4 + header_len));
        let (blob_type, data_len) = match blob_info(self.hdr_buf.as_slice()) {
            Ok(info) => info,
            Err(e) => {
                self.done = true;
                return Err(e);
            },
        };
        let mut data = self.pool.get();
        match read_bytes_exact(self.reader.as_slice(), pos + 4 + header_len, &mut data, data_len) {
            Ok(_) => {},
            Err(e) => {
                self.pool.push(data);
                self.done = true;
                return Err(e);
            },
        }
        assert(data@ =~= rest.subrange(4 + header_len, 4 + header_len + data_len));
        match BlobData::new(data, &mut self.pool) {
            Ok(blob) => {
                self.pos = pos + 4 + header_len + data_len;
                Ok(Some((blob_type, blob)))
            },
            Err(e) => {
                self.done = true;
                Err(e)
            },
        }
    }

    /// The blob of the header of the file, which the frame where the cursor
    /// stands must hold. A blob of another type there is passed and reported
    /// with its type; the end of the stream is reported as `UnexpectedEof`.
    pub fn header(&mut self) -> (r: Result<Blob<crate::header::HeaderBlobMarker>, Error>)
        requires
            old(self).wf(),
        ensures
            final(self).wf(),
            final(self).bytes() == old(self).bytes(),
            match old(self).next_frame() {
                Frame::End => {
                    &&& r matches Err(e)
                    &&& e.kind() == ErrorKind::UnexpectedEof
                    &&& final(self).position() == old(self).position()
                    &&& final(self).done() == old(self).done()
                },
                Frame::Failed(kind) => r matches Err(e) && e.kind() == kind && final(self).done(),
                Frame::Blob { blob_type, blob, len } => {
                    &&& final(self).position() == old(self).position() + len
                    &&& !final(self).done()
                    &&& if blob_type is OSMHeader {
                        r matches Ok(header) && header@ == blob
                    } else {
                        &&& r matches Err(Error::UnexpectedBlobType(name))
                        &&& name@ == blob_type_name(blob_type)
                    }
                },
            },
    {
        match self.next_blob() {
            Ok(frame) => expect_header(frame),
            Err(e) => Err(e),
        }
    }

    /// The next blob of data. Frames of other types are passed over. A
    /// failure is handed out once; after it, and at the end of the stream,
    /// there is nothing more.
    pub fn next(&mut self) -> (item: Option<Result<Blob<crate::data::DataBlobMarker>, Error>>)
        requires
            old(self).wf(),
        ensures
            final(self).wf(),
            final(self).bytes() == old(self).bytes(),
            match item {
                Some(Ok(blob)) => old(self)@.blobs.len() > 0 && blob@ == old(self)@.blobs[0]
                    && final(self)@ == (Stream {
                    blobs: old(self)@.blobs.skip(1),
                    end: old(self)@.end,
                }),
                Some(Err(e)) => old(self)@.blobs.len() == 0 && old(self)@.end == Some(e.kind())
                    && final(self).done(),
                None => old(self)@.blobs.len() == 0 && old(self)@.end is None && final(self)@
                    == old(self)@,
            },
    {
        loop
            invariant
                self.wf(),
                self.bytes() == old(self).bytes(),
                self@ == old(self)@,
            decreases self.bytes().len() - self.position(),
        {
            let ghost before = self@;
            let ghost rest = self.rest();
            let ghost start = self.position();
            proof {
                lemma_frame_len(rest);
            }
            match self.next_blob() {
                Err(e) => {
                    return Some(Err(e));
                },
                Ok(None) => {
                    return None;
                },
                Ok(Some((blob_type, data))) => {
                    assert(self.rest() =~= rest.skip(self.position() - start));
                    if let Some(blob) = expect_data(blob_type, data, &mut self.pool) {
                        assert(self@.blobs =~= before.blobs.skip(1));
                        return Some(Ok(blob));
                    }
                },
            }
        }
    }
}

} // verus!
