//! The door to the protobuf decoder: bytes go in, plain records come out.
//!
//! The decoder is `protobuf::Message::parse_from_bytes`, on the message types
//! that `osm_pbf_proto` generates from the PBF schema. What the functions
//! with `external_body` promise here is believed, not proved: each says that
//! what it hands out is what the decoder read from the bytes. What the
//! decoder reads from given bytes has a name and no definition. The rest of
//! the crate works on the records and is proved.
use crate::data::Offset;
use crate::error::Error;
use crate::header::{HeaderBBox, HeaderBlock, HeaderMsg};
use crate::pbf::{byte_views, node_views, relation_views, way_views, BlobMsg, BlockMsg, GroupMsg,
    PbfBlob, PbfBlobData, PbfDenseInfo, PbfDenseNodes, PbfInfo, PbfNode, PbfPrimitiveBlock,
    PbfPrimitiveGroup, PbfRelation, PbfWay};
use osm_pbf_proto::fileformat;
use osm_pbf_proto::osmformat;
use osm_pbf_proto::protobuf::Message;
use vstd::prelude::*;

verus! {

/// What the decoder reads from the bytes of a blob header: the name of the
/// type of the blob and the size of the blob. `None` where the bytes are no
/// blob header.
pub uninterp spec fn blob_header_message(bytes: Seq<u8>) -> Option<(Seq<char>, i32)>;

/// What the decoder reads from the bytes of a blob. `None` where the bytes
/// are no blob.
pub uninterp spec fn blob_message(bytes: Seq<u8>) -> Option<BlobMsg>;

/// What the decoder reads from the bytes of a header block. `None` where the
/// bytes are no header block.
pub uninterp spec fn header_block_message(bytes: Seq<u8>) -> Option<HeaderMsg>;

/// What the decoder reads from the bytes of a block of primitives, with the
/// defaults of the schema for granularity and offsets. `None` where the bytes
/// are no such block.
pub uninterp spec fn primitive_block_message(bytes: Seq<u8>) -> Option<BlockMsg>;

/// `parse_from_bytes` of `osm_pbf_proto::fileformat::BlobHeader`, and the
/// two fields of the message that this crate reads, by their getters `type_`
/// and `datasize`. The decoder fails on bytes that are no message and on a
/// message that lacks one of the two fields, which the schema requires.
#[verifier::external_body]
pub(crate) fn decode_blob_header(bytes: &[u8]) -> (r: Result<(String, i32), String>)
    ensures
        match r {
            Ok((name, datasize)) => blob_header_message(bytes@) == Some((name@, datasize)),
            Err(_) => blob_header_message(bytes@) is None,
        },
{
    let header = fileformat::BlobHeader::parse_from_bytes(bytes).map_err(|e| e.to_string())?;
    Ok((header.type_().to_string(), header.datasize()))
}

/// `parse_from_bytes` of `osm_pbf_proto::fileformat::Blob`, and the message
/// as a record: the size of the decoded payload as the field `raw_size`
/// holds it, and the payload by the variant of the field `data`. The payload
/// is copied where it is raw, zlib or lzma; the other variants are told
/// apart from these and from a message without data, and nothing else is
/// kept of them.
#[verifier::external_body]
pub(crate) fn decode_blob(bytes: &[u8]) -> (r: Result<PbfBlob, String>)
    ensures
        match r {
            Ok(blob) => blob_message(bytes@) == Some(blob@),
            Err(_) => blob_message(bytes@) is None,
        },
{
    let blob = fileformat::Blob::parse_from_bytes(bytes).map_err(|e| e.to_string())?;
    let data = match blob.data {
        None => PbfBlobData::Unset,
        Some(fileformat::blob::Data::Raw(d)) => PbfBlobData::Raw(d.to_vec()),
        Some(fileformat::blob::Data::ZlibData(d)) => PbfBlobData::ZlibData(d.to_vec()),
        Some(fileformat::blob::Data::LzmaData(d)) => PbfBlobData::LzmaData(d.to_vec()),
        Some(_) => PbfBlobData::Other,
    };
    Ok(PbfBlob { raw_size: blob.raw_size, data })
}

/// `parse_from_bytes` of `osm_pbf_proto::osmformat::HeaderBlock`, and the
/// message as a record, field by field; the edges of the bounding box by
/// their getters.
#[verifier::external_body]
pub(crate) fn decode_header_block(bytes: &[u8]) -> (r: Result<HeaderBlock, String>)
    ensures
        match r {
            Ok(header) => header_block_message(bytes@) == Some(header@),
            Err(_) => header_block_message(bytes@) is None,
        },
{
    let m = osmformat::HeaderBlock::parse_from_bytes(bytes).map_err(|e| e.to_string())?;
    let base_url = m.osmosis_replication_base_url.as_ref().map(ToString::to_string);
    Ok(HeaderBlock {
        bbox: m.bbox.as_ref().map(|b| HeaderBBox::new(b.left(), b.right(), b.top(), b.bottom())),
        required_features: m.required_features.iter().map(ToString::to_string).collect(),
        optional_features: m.optional_features.iter().map(ToString::to_string).collect(),
        writingprogram: m.writingprogram.as_ref().map(ToString::to_string),
        source: m.source.as_ref().map(ToString::to_string),
        osmosis_replication_timestamp: m.osmosis_replication_timestamp,
        osmosis_replication_sequence_number: m.osmosis_replication_sequence_number,
        osmosis_replication_base_url: base_url,
    })
}

/// A block of primitives as the decoder filled it: a value of
/// `osm_pbf_proto::osmformat::PrimitiveBlock`. The verifier does not look
/// inside; the functions below hand out its parts.
#[verifier::external_body]
pub struct DecodedBlock {
    message: osmformat::PrimitiveBlock,
}

/// What a decoded block holds, with the defaults of the schema for
/// granularity and offsets.
pub uninterp spec fn decoded_block_message(block: DecodedBlock) -> BlockMsg;

/// Group `g` of a decoded block.
pub open spec fn decoded_group(block: DecodedBlock, g: int) -> GroupMsg {
    decoded_block_message(block).primitivegroup[g]
}

/// `parse_from_bytes` of `osm_pbf_proto::osmformat::PrimitiveBlock`. What
/// the decoder reads from the bytes is what the block holds.
#[verifier::external_body]
fn decode_block(bytes: &[u8]) -> (r: Result<DecodedBlock, String>)
    ensures
        match r {
            Ok(block) => primitive_block_message(bytes@) == Some(decoded_block_message(block)),
            Err(_) => primitive_block_message(bytes@) is None,
        },
{
    let message = osmformat::PrimitiveBlock::parse_from_bytes(bytes).map_err(|e| e.to_string())?;
    Ok(DecodedBlock { message })
}

/// The entries of the field `stringtable.s` of a decoded block, each
/// copied.
#[verifier::external_body]
fn block_strings(block: &DecodedBlock) -> (table: Vec<Vec<u8>>)
    ensures
        byte_views(table@) == decoded_block_message(*block).stringtable,
{
    block.message.stringtable.s.iter().map(|s| s.to_vec()).collect()
}

/// The fields `lat_offset`, `lon_offset` and `granularity` of a decoded
/// block, by the getters of the message, which give the defaults of the
/// schema (0, 0 and 100) where a field is not set.
#[verifier::external_body]
fn block_offset(block: &DecodedBlock) -> (offset: Offset)
    ensures
        offset.lat == decoded_block_message(*block).lat_offset,
        offset.lon == decoded_block_message(*block).lon_offset,
        offset.granularity == decoded_block_message(*block).granularity,
{
    Offset {
        lat: block.message.lat_offset(),
        lon: block.message.lon_offset(),
        granularity: block.message.granularity(),
    }
}

/// The length of the field `primitivegroup` of a decoded block.
#[verifier::external_body]
fn block_group_count(block: &DecodedBlock) -> (n: usize)
    ensures
        n == decoded_block_message(*block).primitivegroup.len(),
{
    block.message.primitivegroup.len()
}

/// The field `nodes` of group `g` of a decoded block, each node as a record:
/// identity and raw coordinates by their getters, keys and values copied,
/// and of the metadata the version (by its getter, which gives -1 where it
/// is not set) and the visibility.
#[verifier::external_body]
fn block_nodes(block: &DecodedBlock, g: usize) -> (nodes: Vec<PbfNode>)
    requires
        g < decoded_block_message(*block).primitivegroup.len(),
    ensures
        node_views(nodes@) == decoded_group(*block, g as int).nodes,
{
    block.message.primitivegroup[g].nodes.iter().map(|n| PbfNode {
        id: n.id(),
        keys: n.keys.clone(),
        vals: n.vals.clone(),
        info: n.info.as_ref().map(|i| PbfInfo { version: i.version(), visible: i.visible }),
        lat: n.lat(),
        lon: n.lon(),
    }).collect()
}

/// The field `dense` of group `g` of a decoded block as a record, where the
/// group has it: the arrays of identities, coordinates and tags copied, and
/// of the metadata the arrays of versions and visibilities.
#[verifier::external_body]
fn block_dense(block: &DecodedBlock, g: usize) -> (dense: Option<PbfDenseNodes>)
    requires
        g < decoded_block_message(*block).primitivegroup.len(),
    ensures
        match dense {
            Some(dense) => decoded_group(*block, g as int).dense == Some(dense@),
            None => decoded_group(*block, g as int).dense is None,
        },
{
    block.message.primitivegroup[g].dense.as_ref().map(|d| PbfDenseNodes {
        id: d.id.clone(),
        denseinfo: d.denseinfo.as_ref().map(|i| PbfDenseInfo {
            version: i.version.clone(),
            visible: i.visible.clone(),
        }),
        lat: d.lat.clone(),
        lon: d.lon.clone(),
        keys_vals: d.keys_vals.clone(),
    })
}

/// The field `ways` of group `g` of a decoded block, each way as a record:
/// as for a node, and the deltas of the field `refs` copied.
#[verifier::external_body]
fn block_ways(block: &DecodedBlock, g: usize) -> (ways: Vec<PbfWay>)
    requires
        g < decoded_block_message(*block).primitivegroup.len(),
    ensures
        way_views(ways@) == decoded_group(*block, g as int).ways,
{
    block.message.primitivegroup[g].ways.iter().map(|w| PbfWay {
        id: w.id(),
        keys: w.keys.clone(),
        vals: w.vals.clone(),
        info: w.info.as_ref().map(|i| PbfInfo { version: i.version(), visible: i.visible }),
        refs: w.refs.clone(),
    }).collect()
}

/// The field `relations` of group `g` of a decoded block, each relation as a
/// record: as for a node, and the three member arrays copied. The kind of a
/// member is handed out as the number that stood in the message
/// (`EnumOrUnknown::value`), whether the schema knows it or not.
#[verifier::external_body]
fn block_relations(block: &DecodedBlock, g: usize) -> (relations: Vec<PbfRelation>)
    requires
        g < decoded_block_message(*block).primitivegroup.len(),
    ensures
        relation_views(relations@) == decoded_group(*block, g as int).relations,
{
    block.message.primitivegroup[g].relations.iter().map(|r| PbfRelation {
        id: r.id(),
        keys: r.keys.clone(),
        vals: r.vals.clone(),
        info: r.info.as_ref().map(|i| PbfInfo { version: i.version(), visible: i.visible }),
        roles_sid: r.roles_sid.clone(),
        memids: r.memids.clone(),
        types: r.types.iter().map(|t| t.value()).collect(),
    }).collect()
}

/// The identities of the field `changesets` of group `g` of a decoded
/// block, by their getter.
#[verifier::external_body]
fn block_changesets(block: &DecodedBlock, g: usize) -> (changesets: Vec<i64>)
    requires
        g < decoded_block_message(*block).primitivegroup.len(),
    ensures
        changesets@ == decoded_group(*block, g as int).changesets,
{
    block.message.primitivegroup[g].changesets.iter().map(|c| c.id()).collect()
}

/// The block of primitives that the bytes hold, as a record. Fails where the
/// decoder does.
pub fn decode_primitive_block(bytes: &[u8]) -> (r: Result<PbfPrimitiveBlock, Error>)
    ensures
        match r {
            Ok(block) => primitive_block_message(bytes@) == Some(block@),
            Err(e) => primitive_block_message(bytes@) is None && e matches Error::ProtobufError(_),
        },
{
    match decode_block(bytes) {
        Err(message) => Err(Error::ProtobufError(message)),
        Ok(decoded) => {
            let ghost msg = decoded_block_message(decoded);
            let count = block_group_count(&decoded);
            let mut groups: Vec<PbfPrimitiveGroup> = Vec::new();
            let mut g: usize = 0;
            while g < count
                invariant
                    g <= count,
                    count == msg.primitivegroup.len(),
                    msg == decoded_block_message(decoded),
                    groups@.len() == g,
                    forall|j: int| 0 <= j < g ==> (#[trigger] groups@[j])@ == msg.primitivegroup[j],
                decreases count - g,
            {
                let group = PbfPrimitiveGroup {
                    nodes: block_nodes(&decoded, g),
                    dense: block_dense(&decoded, g),
                    ways: block_ways(&decoded, g),
                    relations: block_relations(&decoded, g),
                    changesets: block_changesets(&decoded, g),
                };
                assert(group@ == msg.primitivegroup[g as int]);
                groups.push(group);
                g += 1;
            }
            let offset = block_offset(&decoded);
            let block = PbfPrimitiveBlock {
                stringtable: block_strings(&decoded),
                primitivegroup: groups,
                granularity: offset.granularity,
                lat_offset: offset.lat,
                lon_offset: offset.lon,
            };
            assert(block@.primitivegroup =~= msg.primitivegroup);
            Ok(block)
        },
    }
}

} // verus!
