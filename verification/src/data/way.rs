//! Ways and the node identities that they refer to.
use crate::data::node::NodeId;
use crate::data::tags::{normal_tags, TagFields, Tags};
use crate::data::{delta_sum, Meta};
use crate::pbf::{PbfWay, WayMsg};
use vstd::prelude::*;

verus! {

#[derive(Copy, Clone, Debug, PartialEq, Eq, PartialOrd, Ord, Hash, Structural)]
pub struct WayId(pub i64);

/// The identities that a run of deltas stands for: the `i`-th is the sum of
/// the deltas up to and including the `i`-th, counted from 0.
pub open spec fn absolute_ids(deltas: Seq<i64>) -> Seq<i64> {
    Seq::new(deltas.len(), |i: int| delta_sum(deltas, i + 1))
}

/// What a way says: its identity, the nodes that it runs through, its tags
/// and its metadata.
pub struct WayModel {
    pub id: i64,
    pub refs: Seq<i64>,
    pub tags: Seq<(Seq<char>, Seq<char>)>,
    pub meta: Meta,
}

/// The way that a message stands for, with the strings of its block.
pub open spec fn way_model(way: WayMsg, strings: Seq<Seq<char>>) -> WayModel {
    WayModel {
        id: way.id,
        refs: absolute_ids(way.refs),
        tags: normal_tags(way.keys, way.vals, strings),
        meta: Meta::of_info(way.info),
    }
}

/// A way of a block.
pub struct Way<'l> {
    pub id: WayId,
    strings: &'l [String],
    refs: &'l [i64],
    tags: TagFields<'l>,
    meta: Meta,
}

/// The version and the visibility of the primitive, read through it.
impl std::ops::Deref for Way<'_> {
    type Target = Meta;

    fn deref(&self) -> (meta: &Meta)
        ensures
            *meta == self@.meta,
    {
        &self.meta
    }
}

impl<'l> Way<'l> {
    pub closed spec fn view(&self) -> WayModel {
        WayModel {
            id: self.id.0,
            refs: absolute_ids(self.refs@),
            tags: normal_tags(self.tags.0@, self.tags.1@, self.strings.deep_view()),
            meta: self.meta,
        }
    }

    pub fn from_pbf(w: &'l PbfWay, strings: &'l [String]) -> (way: Self)
        ensures
            way@ == way_model(w@, strings.deep_view()),
    {
        Way {
            id: WayId(w.id),
            strings,
            refs: w.refs.as_slice(),
            tags: TagFields(w.keys.as_slice(), w.vals.as_slice()),
            meta: Meta::from_info(w.info.as_ref()),
        }
    }

    /// The identity of the way.
    pub fn id(&self) -> (id: WayId)
        ensures
            id.0 == self@.id,
    {
        self.id
    }

    /// A cursor over the nodes of the way, from the first.
    pub fn refs(&self) -> (refs: Refs<'l>)
        ensures
            refs.wf(),
            refs@ == self@.refs,
    {
        let refs = Refs { deltas: self.refs, pos: 0, current: 0 };
        assert(refs@ =~= self@.refs);
        refs
    }

    /// A cursor over the tags of the way, from the first.
    pub fn tags(&self) -> (tags: Tags<'l>)
        ensures
            tags.wf(),
            tags@ == self@.tags,
    {
        self.tags.iter_with_strings(self.strings)
    }
}

/// A cursor over the node identities of a way. It adds up the deltas as it
/// goes.
pub struct Refs<'l> {
    deltas: &'l [i64],
    pos: usize,
    current: i64,
}

impl<'l> Refs<'l> {
    /// The cursor stands inside its way, and holds the identity that it
    /// handed out last.
    pub closed spec fn wf(&self) -> bool {
        &&& self.pos <= self.deltas@.len()
        &&& self.current == delta_sum(self.deltas@, self.pos as int)
    }

    /// The identities still to come, in order.
    pub closed spec fn view(&self) -> Seq<i64> {
        absolute_ids(self.deltas@).skip(self.pos as int)
    }

    /// The next node of the way, or `None` after the last.
    pub fn next(&mut self) -> (item: Option<NodeId>)
        requires
            old(self).wf(),
        ensures
            final(self).wf(),
            match item {
                Some(id) => {
                    &&& old(self)@.len() > 0
                    &&& id.0 == old(self)@[0]
                    &&& final(self)@ == old(self)@.skip(1)
                },
                None => old(self)@.len() == 0 && final(self)@ == old(self)@,
            },
    {
        if self.pos < self.deltas.len() {
            let current = self.current.wrapping_add(self.deltas[self.pos]);
            self.current = current;
            self.pos = self.pos + 1;
            assert(final(self)@ =~= old(self)@.skip(1));
            Some(NodeId(current))
        } else {
            None
        }
    }

    /// The number of identities still to come, as a lower and an upper bound.
    pub fn size_hint(&self) -> (hint: (usize, Option<usize>))
        requires
            self.wf(),
        ensures
            hint.0 == self@.len(),
            hint.1 == Some(hint.0),
    {
        let left = self.deltas.len() - self.pos;
        (left, Some(left))
    }

    /// The number of identities still to come.
    pub fn count(self) -> (n: usize)
        requires
            self.wf(),
        ensures
            n == self@.len(),
    {
        self.deltas.len() - self.pos
    }
}

} // verus!
