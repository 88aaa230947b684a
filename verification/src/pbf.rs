//! The messages of the PBF schema, as plain records.
//!
//! Each record holds the fields of one decoded message that this crate reads,
//! and has a view that gives the same fields as mathematical sequences. The
//! walk over a block and the views of its primitives are stated over those
//! views.
use vstd::prelude::*;

verus! {

/// The metadata of one primitive. `version` is -1 where the message gave none.
#[derive(Clone, Copy, Debug, PartialEq, Eq)]
pub struct PbfInfo {
    pub version: i32,
    pub visible: Option<bool>,
}

/// The metadata of the nodes of a dense group, one entry per node.
#[derive(Clone, Debug, PartialEq, Eq)]
pub struct PbfDenseInfo {
    pub version: Vec<i32>,
    pub visible: Vec<bool>,
}

pub struct DenseInfoMsg {
    pub version: Seq<i32>,
    pub visible: Seq<bool>,
}

impl View for PbfDenseInfo {
    type V = DenseInfoMsg;

    open spec fn view(&self) -> DenseInfoMsg {
        DenseInfoMsg { version: self.version@, visible: self.visible@ }
    }
}

/// A node in the normal layout.
#[derive(Clone, Debug, PartialEq, Eq)]
pub struct PbfNode {
    pub id: i64,
    pub keys: Vec<u32>,
    pub vals: Vec<u32>,
    pub info: Option<PbfInfo>,
    pub lat: i64,
    pub lon: i64,
}

pub struct NodeMsg {
    pub id: i64,
    pub keys: Seq<u32>,
    pub vals: Seq<u32>,
    pub info: Option<PbfInfo>,
    pub lat: i64,
    pub lon: i64,
}

impl View for PbfNode {
    type V = NodeMsg;

    open spec fn view(&self) -> NodeMsg {
        NodeMsg {
            id: self.id,
            keys: self.keys@,
            vals: self.vals@,
            info: self.info,
            lat: self.lat,
            lon: self.lon,
        }
    }
}

/// The nodes of a group in the dense layout: identities and coordinates as
/// deltas from node to node, and the tags of all nodes in one array, the run
/// of each node closed by a zero.
#[derive(Clone, Debug, PartialEq, Eq)]
pub struct PbfDenseNodes {
    pub id: Vec<i64>,
    pub denseinfo: Option<PbfDenseInfo>,
    pub lat: Vec<i64>,
    pub lon: Vec<i64>,
    pub keys_vals: Vec<i32>,
}

pub struct DenseMsg {
    pub id: Seq<i64>,
    pub denseinfo: Option<DenseInfoMsg>,
    pub lat: Seq<i64>,
    pub lon: Seq<i64>,
    pub keys_vals: Seq<i32>,
}

impl View for PbfDenseNodes {
    type V = DenseMsg;

    open spec fn view(&self) -> DenseMsg {
        DenseMsg {
            id: self.id@,
            denseinfo: match self.denseinfo {
                Some(info) => Some(info@),
                None => None,
            },
            lat: self.lat@,
            lon: self.lon@,
            keys_vals: self.keys_vals@,
        }
    }
}

/// A way. `refs` holds the node identities as deltas.
#[derive(Clone, Debug, PartialEq, Eq)]
pub struct PbfWay {
    pub id: i64,
    pub keys: Vec<u32>,
    pub vals: Vec<u32>,
    pub info: Option<PbfInfo>,
    pub refs: Vec<i64>,
}

pub struct WayMsg {
    pub id: i64,
    pub keys: Seq<u32>,
    pub vals: Seq<u32>,
    pub info: Option<PbfInfo>,
    pub refs: Seq<i64>,
}

impl View for PbfWay {
    type V = WayMsg;

    open spec fn view(&self) -> WayMsg {
        WayMsg {
            id: self.id,
            keys: self.keys@,
            vals: self.vals@,
            info: self.info,
            refs: self.refs@,
        }
    }
}

/// A relation. The members stand in three parallel arrays: the string index
/// of the role, the identity as a delta, and the number of the member's kind
/// (0 a node, 1 a way, 2 a relation).
#[derive(Clone, Debug, PartialEq, Eq)]
pub struct PbfRelation {
    pub id: i64,
    pub keys: Vec<u32>,
    pub vals: Vec<u32>,
    pub info: Option<PbfInfo>,
    pub roles_sid: Vec<i32>,
    pub memids: Vec<i64>,
    pub types: Vec<i32>,
}

pub struct RelationMsg {
    pub id: i64,
    pub keys: Seq<u32>,
    pub vals: Seq<u32>,
    pub info: Option<PbfInfo>,
    pub roles_sid: Seq<i32>,
    pub memids: Seq<i64>,
    pub types: Seq<i32>,
}

impl View for PbfRelation {
    type V = RelationMsg;

    open spec fn view(&self) -> RelationMsg {
        RelationMsg {
            id: self.id,
            keys: self.keys@,
            vals: self.vals@,
            info: self.info,
            roles_sid: self.roles_sid@,
            memids: self.memids@,
            types: self.types@,
        }
    }
}

/// The views of the nodes, in order.
pub open spec fn node_views(nodes: Seq<PbfNode>) -> Seq<NodeMsg> {
    Seq::new(nodes.len(), |i: int| nodes[i]@)
}

/// The views of the ways, in order.
pub open spec fn way_views(ways: Seq<PbfWay>) -> Seq<WayMsg> {
    Seq::new(ways.len(), |i: int| ways[i]@)
}

/// The views of the relations, in order.
pub open spec fn relation_views(relations: Seq<PbfRelation>) -> Seq<RelationMsg> {
    Seq::new(relations.len(), |i: int| relations[i]@)
}

/// The bytes of the entries of a string table, in order.
pub open spec fn byte_views(table: Seq<Vec<u8>>) -> Seq<Seq<u8>> {
    Seq::new(table.len(), |i: int| table[i]@)
}

/// A group of primitives. Writers fill one of the five collections.
#[derive(Clone, Debug, PartialEq, Eq)]
pub struct PbfPrimitiveGroup {
    pub nodes: Vec<PbfNode>,
    pub dense: Option<PbfDenseNodes>,
    pub ways: Vec<PbfWay>,
    pub relations: Vec<PbfRelation>,
    /// The identities of the changesets.
    pub changesets: Vec<i64>,
}

pub struct GroupMsg {
    pub nodes: Seq<NodeMsg>,
    pub dense: Option<DenseMsg>,
    pub ways: Seq<WayMsg>,
    pub relations: Seq<RelationMsg>,
    pub changesets: Seq<i64>,
}

impl View for PbfPrimitiveGroup {
    type V = GroupMsg;

    open spec fn view(&self) -> GroupMsg {
        GroupMsg {
            nodes: node_views(self.nodes@),
            dense: match self.dense {
                Some(dense) => Some(dense@),
                None => None,
            },
            ways: way_views(self.ways@),
            relations: relation_views(self.relations@),
            changesets: self.changesets@,
        }
    }
}

/// The views of the groups of a block, in order.
pub open spec fn group_views(groups: Seq<PbfPrimitiveGroup>) -> Seq<GroupMsg> {
    Seq::new(groups.len(), |i: int| groups[i]@)
}

/// A block of primitives as it comes off the wire: the string table still as
/// bytes, and the defaults of the schema filled in for the fields that the
/// message left out.
#[derive(Clone, Debug, PartialEq, Eq)]
pub struct PbfPrimitiveBlock {
    pub stringtable: Vec<Vec<u8>>,
    pub primitivegroup: Vec<PbfPrimitiveGroup>,
    pub granularity: i32,
    pub lat_offset: i64,
    pub lon_offset: i64,
}

pub struct BlockMsg {
    pub stringtable: Seq<Seq<u8>>,
    pub primitivegroup: Seq<GroupMsg>,
    pub granularity: i32,
    pub lat_offset: i64,
    pub lon_offset: i64,
}

impl View for PbfPrimitiveBlock {
    type V = BlockMsg;

    open spec fn view(&self) -> BlockMsg {
        BlockMsg {
            stringtable: byte_views(self.stringtable@),
            primitivegroup: group_views(self.primitivegroup@),
            granularity: self.granularity,
            lat_offset: self.lat_offset,
            lon_offset: self.lon_offset,
        }
    }
}

/// The payload of a blob: raw bytes, bytes compressed by one of the codecs
/// that this crate reads, data in another encoding, or nothing.
#[derive(Clone, Debug, PartialEq, Eq)]
pub enum PbfBlobData {
    Unset,
    Raw(Vec<u8>),
    ZlibData(Vec<u8>),
    LzmaData(Vec<u8>),
    /// Data in another encoding.
    Other,
}

pub enum BlobDataMsg {
    Unset,
    Raw(Seq<u8>),
    ZlibData(Seq<u8>),
    LzmaData(Seq<u8>),
    Other,
}

impl View for PbfBlobData {
    type V = BlobDataMsg;

    open spec fn view(&self) -> BlobDataMsg {
        match self {
            PbfBlobData::Unset => BlobDataMsg::Unset,
            PbfBlobData::Raw(d) => BlobDataMsg::Raw(d@),
            PbfBlobData::ZlibData(d) => BlobDataMsg::ZlibData(d@),
            PbfBlobData::LzmaData(d) => BlobDataMsg::LzmaData(d@),
            PbfBlobData::Other => BlobDataMsg::Other,
        }
    }
}

/// A blob: its payload, and the size of the payload once decompressed, where
/// the writer gave it.
#[derive(Clone, Debug, PartialEq, Eq)]
pub struct PbfBlob {
    pub raw_size: Option<i32>,
    pub data: PbfBlobData,
}

pub struct BlobMsg {
    pub raw_size: Option<i32>,
    pub data: BlobDataMsg,
}

impl View for PbfBlob {
    type V = BlobMsg;

    open spec fn view(&self) -> BlobMsg {
        BlobMsg { raw_size: self.raw_size, data: self.data@ }
    }
}

} // verus!
