//! Nodes.
use crate::data::tags::{dense_tags, normal_tags, NodeTagFields, Tags};
use crate::data::{nano_degrees, DenseState, Meta, Offset};
use crate::pbf::{NodeMsg, PbfNode};
use vstd::prelude::*;

verus! {

#[derive(Copy, Clone, Debug, PartialEq, Eq, PartialOrd, Ord, Hash, Structural)]
pub struct NodeId(pub i64);

/// What a node says: its identity, its place in nanodegrees, its tags and
/// its metadata.
pub struct NodeModel {
    pub id: i64,
    pub nano_lat: i64,
    pub nano_lon: i64,
    pub tags: Seq<(Seq<char>, Seq<char>)>,
    pub meta: Meta,
}

/// The node that a message of the normal layout stands for, with the offset
/// and the strings of its block.
pub open spec fn node_model(node: NodeMsg, offset: Offset, strings: Seq<Seq<char>>) -> NodeModel {
    NodeModel {
        id: node.id,
        nano_lat: nano_degrees(offset.lat, node.lat, offset.granularity),
        nano_lon: nano_degrees(offset.lon, node.lon, offset.granularity),
        tags: normal_tags(node.keys, node.vals, strings),
        meta: Meta::of_info(node.info),
    }
}

/// A node of a block.
pub struct Node<'l> {
    pub id: NodeId,
    /// Latitude in nanodegrees
    pub nano_lat: i64,
    /// Longitude in nanodegrees
    pub nano_lon: i64,
    strings: &'l [String],
    tags: NodeTagFields<'l>,
    meta: Meta,
}

/// The version and the visibility of the primitive, read through it.
impl std::ops::Deref for Node<'_> {
    type Target = Meta;

    fn deref(&self) -> (meta: &Meta)
        ensures
            *meta == self@.meta,
    {
        &self.meta
    }
}

impl<'l> Node<'l> {
    pub closed spec fn view(&self) -> NodeModel {
        NodeModel {
            id: self.id.0,
            nano_lat: self.nano_lat,
            nano_lon: self.nano_lon,
            tags: self.tags.tags(self.strings.deep_view()),
            meta: self.meta,
        }
    }

    pub fn from_pbf(n: &'l PbfNode, offset: &Offset, strings: &'l [String]) -> (node: Self)
        ensures
            node@ == node_model(n@, *offset, strings.deep_view()),
    {
        Node {
            id: NodeId(n.id),
            strings,
            nano_lat: offset.nano_lat(n.lat),
            nano_lon: offset.nano_lon(n.lon),
            tags: NodeTagFields::Normal(n.keys.as_slice(), n.vals.as_slice()),
            meta: Meta::from_info(n.info.as_ref()),
        }
    }

    /// The node of a dense group that the sums in `d` stand for, with the run
    /// of its tags.
    pub fn from_pbf_dense(
        d: DenseState,
        version: u32,
        visible: bool,
        offset: &Offset,
        key_values: &'l [i32],
        strings: &'l [String],
    ) -> (node: Self)
        ensures
            node@ == (NodeModel {
                id: d.id,
                nano_lat: nano_degrees(offset.lat, d.lat, offset.granularity),
                nano_lon: nano_degrees(offset.lon, d.lon, offset.granularity),
                tags: dense_tags(key_values@, strings.deep_view()),
                meta: Meta { version, visible },
            }),
    {
        Node {
            id: NodeId(d.id),
            nano_lat: offset.nano_lat(d.lat),
            nano_lon: offset.nano_lon(d.lon),
            strings,
            tags: NodeTagFields::Dense(key_values),
            meta: Meta { version, visible },
        }
    }

    /// The identity of the node.
    pub fn id(&self) -> (id: NodeId)
        ensures
            id.0 == self@.id,
    {
        self.id
    }

    /// The latitude of the node in nanodegrees.
    pub fn nano_lat(&self) -> (nano_lat: i64)
        ensures
            nano_lat == self@.nano_lat,
    {
        self.nano_lat
    }

    /// The longitude of the node in nanodegrees.
    pub fn nano_lon(&self) -> (nano_lon: i64)
        ensures
            nano_lon == self@.nano_lon,
    {
        self.nano_lon
    }

    /// A cursor over the tags of the node, from the first.
    pub fn tags(&self) -> (tags: Tags<'l>)
        ensures
            tags.wf(),
            tags@ == self@.tags,
    {
        self.tags.iter_with_strings(self.strings)
    }
}

} // verus!
