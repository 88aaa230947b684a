//! The header block of a file.
use crate::blob::{Blob, Block};
use crate::error::{Error, ErrorKind};
use crate::wire::{decode_header_block, header_block_message};
use vstd::prelude::*;

verus! {

/// Required feature: the file holds dense nodes.
pub const DENSE_NODES: &'static str = "DenseNodes";

/// Required feature: the file holds more than one version of a primitive.
pub const HISTORICAL_INFORMATION: &'static str = "HistoricalInformation";

/// Optional feature: the primitives carry metadata.
pub const HAS_METADATA: &'static str = "Has_Metadata";

/// Optional feature: the primitives are sorted by type, then by identity.
pub const SORT_TYPE_THEN_ID: &'static str = "Sort.Type_then_ID";

/// Optional feature: the primitives are sorted by place.
pub const SORT_GEOGRAPHIC: &'static str = "Sort.Geographic";

/// Optional feature: the ways carry the places of their nodes.
pub const LOCATIONS_ON_WAYS: &'static str = "LocationsOnWays";

/// The bounding box of a file, in nanodegrees.
#[derive(Copy, Clone, Debug, PartialEq, Eq, Structural)]
pub struct HeaderBBox {
    pub left: i64,
    pub right: i64,
    pub top: i64,
    pub bottom: i64,
}

impl HeaderBBox {
    /// The box with the given edges.
    pub fn new(left: i64, right: i64, top: i64, bottom: i64) -> (bbox: HeaderBBox)
        ensures
            bbox == (HeaderBBox { left, right, top, bottom }),
    {
        HeaderBBox { left, right, top, bottom }
    }
}

/// The header block of a file.
#[derive(Clone, Debug, PartialEq, Eq)]
pub struct HeaderBlock {
    pub bbox: Option<HeaderBBox>,
    pub required_features: Vec<String>,
    pub optional_features: Vec<String>,
    pub writingprogram: Option<String>,
    pub source: Option<String>,
    pub osmosis_replication_timestamp: Option<i64>,
    pub osmosis_replication_sequence_number: Option<i64>,
    pub osmosis_replication_base_url: Option<String>,
}

pub struct HeaderMsg {
    pub bbox: Option<HeaderBBox>,
    pub required_features: Seq<Seq<char>>,
    pub optional_features: Seq<Seq<char>>,
    pub writingprogram: Option<Seq<char>>,
    pub source: Option<Seq<char>>,
    pub osmosis_replication_timestamp: Option<i64>,
    pub osmosis_replication_sequence_number: Option<i64>,
    pub osmosis_replication_base_url: Option<Seq<char>>,
}

/// The characters of a string that may be absent.
pub open spec fn opt_chars(s: Option<String>) -> Option<Seq<char>> {
    match s {
        Some(s) => Some(s@),
        None => None,
    }
}

impl View for HeaderBlock {
    type V = HeaderMsg;

    open spec fn view(&self) -> HeaderMsg {
        HeaderMsg {
            bbox: self.bbox,
            required_features: self.required_features.deep_view(),
            optional_features: self.optional_features.deep_view(),
            writingprogram: opt_chars(self.writingprogram),
            source: opt_chars(self.source),
            osmosis_replication_timestamp: self.osmosis_replication_timestamp,
            osmosis_replication_sequence_number: self.osmosis_replication_sequence_number,
            osmosis_replication_base_url: opt_chars(self.osmosis_replication_base_url),
        }
    }
}

/// The kind of the header block.
pub struct HeaderBlobMarker;

impl Block for HeaderBlobMarker {
    type Target = HeaderBlock;

    /// The header block that the decoder reads from the bytes, and an error
    /// where it reads none.
    open spec fn parses(bytes: Seq<u8>, r: Result<HeaderBlock, Error>) -> bool {
        match header_block_message(bytes) {
            Some(message) => r matches Ok(header) && header@ == message,
            None => r matches Err(e) && e.kind() == ErrorKind::Protobuf,
        }
    }

    fn parse(bytes: &[u8]) -> (r: Result<HeaderBlock, Error>) {
        match decode_header_block(bytes) {
            Ok(header) => Ok(header),
            Err(message) => Err(Error::ProtobufError(message)),
        }
    }
}

/// A blob that holds the header block of a file.
pub type OSMHeaderBlob = Blob<HeaderBlobMarker>;

} // verus!
