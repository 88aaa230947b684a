//! The errors of the reader.
use vstd::prelude::*;

verus! {

/// `std::io::Error`, carried through as it came from a codec.
#[verifier::external_type_specification]
#[verifier::external_body]
pub struct ExIoError(std::io::Error);

/// The error of `std::str::from_utf8`, carried through as it came.
#[verifier::external_type_specification]
#[verifier::external_body]
pub struct ExUtf8Error(std::str::Utf8Error);

/// A failure of the byte source or of a codec.
#[derive(Debug)]
pub enum IoFailure {
    /// The stream ended inside a frame.
    UnexpectedEof,
    /// The failure that a codec reported.
    Codec(std::io::Error),
}

/// The kinds of error, without what they carry.
#[derive(Clone, Copy, Debug, PartialEq, Eq, Structural)]
pub enum ErrorKind {
    UnexpectedEof,
    Codec,
    Protobuf,
    Utf8,
    BlobHeaderTooLarge,
    BlobDataTooLarge,
    UnsupportedEncoding,
    UnexpectedBlobType,
}

#[derive(Debug)]
#[non_exhaustive]
pub enum Error {
    /// The stream ended inside a frame, or a codec failed.
    IoError(IoFailure),
    /// A message did not decode by its schema. Carries what the decoder
    /// said of it.
    ProtobufError(String),
    /// An entry of a string table is not UTF-8.
    Utf8Error(std::str::Utf8Error),
    /// The length of a blob header is above 64 KiB.
    BlobHeaderTooLarge,
    /// The size that a blob header declares is above 32 MiB.
    BlobDataTooLarge,
    /// The blob is compressed in a way that this crate does not read, or
    /// holds no data at all.
    UnsupportedEncoding,
    /// A blob of another type stands where the header of the file was
    /// expected. Carries the type that was found.
    UnexpectedBlobType(String),
}

pub type Result<T> = std::result::Result<T, Error>;

impl Error {
    /// The kind of this error.
    pub open spec fn kind_of(&self) -> ErrorKind {
        match self {
            Error::IoError(IoFailure::UnexpectedEof) => ErrorKind::UnexpectedEof,
            Error::IoError(IoFailure::Codec(_)) => ErrorKind::Codec,
            Error::ProtobufError(_) => ErrorKind::Protobuf,
            Error::Utf8Error(_) => ErrorKind::Utf8,
            Error::BlobHeaderTooLarge => ErrorKind::BlobHeaderTooLarge,
            Error::BlobDataTooLarge => ErrorKind::BlobDataTooLarge,
            Error::UnsupportedEncoding => ErrorKind::UnsupportedEncoding,
            Error::UnexpectedBlobType(_) => ErrorKind::UnexpectedBlobType,
        }
    }

    #[verifier::when_used_as_spec(kind_of)]
    pub fn kind(&self) -> (kind: ErrorKind)
        ensures
            kind == self.kind_of(),
    {
        match self {
            Error::IoError(IoFailure::UnexpectedEof) => ErrorKind::UnexpectedEof,
            Error::IoError(IoFailure::Codec(_)) => ErrorKind::Codec,
            Error::ProtobufError(_) => ErrorKind::Protobuf,
            Error::Utf8Error(_) => ErrorKind::Utf8,
            Error::BlobHeaderTooLarge => ErrorKind::BlobHeaderTooLarge,
            Error::BlobDataTooLarge => ErrorKind::BlobDataTooLarge,
            Error::UnsupportedEncoding => ErrorKind::UnsupportedEncoding,
            Error::UnexpectedBlobType(_) => ErrorKind::UnexpectedBlobType,
        }
    }

    /// The error for a stream that ends inside a frame.
    pub fn unexpected_eof() -> (e: Error)
        ensures
            e.kind() == ErrorKind::UnexpectedEof,
    {
        Error::IoError(IoFailure::UnexpectedEof)
    }
}

} // verus!
