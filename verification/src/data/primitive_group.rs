//! The groups of a block, for a walk group by group.
use crate::data::primitive::{all_primitives, group_primitives, PrimitiveModel, PrimitiveType,
    Primitives, DEFAULT};
use crate::data::PrimitiveBlock;
use crate::pbf::{GroupMsg, PbfPrimitiveGroup};
use vstd::prelude::*;
use vstd::slice::slice_subrange;

verus! {

/// One group of a block.
#[non_exhaustive]
pub struct PrimitiveGroup<'l> {
    block: &'l PrimitiveBlock,
    index: usize,
}

impl<'l> PrimitiveGroup<'l> {
    /// The group is one of its block.
    pub closed spec fn wf(&self) -> bool {
        self.index < self.block.primitive_groups@.len()
    }

    /// The block that the group belongs to.
    pub closed spec fn block(&self) -> PrimitiveBlock {
        *self.block
    }

    /// The position of the group in its block.
    pub closed spec fn index(&self) -> int {
        self.index as int
    }

    /// The message that the group holds.
    pub open spec fn view(&self) -> GroupMsg {
        self.block().primitive_groups@[self.index()]@
    }

    /// The record of the group.
    pub fn group(&self) -> (group: &'l PbfPrimitiveGroup)
        requires
            self.wf(),
        ensures
            group@ == self@,
    {
        &self.block.primitive_groups[self.index]
    }

    /// A cursor over the nodes, ways and relations of the group, from the
    /// first. `types` gives a cursor over other kinds.
    pub fn primitives(&self) -> (primitives: Primitives<'l>)
        requires
            self.wf(),
        ensures
            primitives.wf(),
            primitives.filter() == (PrimitiveType { bits: DEFAULT }),
            primitives.groups() == seq![self@],
            primitives.offset() == self.block().offset,
            primitives.strings() == self.block().string_views(),
            primitives.group_index() == 0,
            primitives.position() == 0,
            primitives@ == group_primitives(
                self@,
                PrimitiveType { bits: DEFAULT },
                self.block().offset,
                self.block().string_views(),
            ),
    {
        let len = self.block.primitive_groups.len();
        let groups = slice_subrange(
            self.block.primitive_groups.as_slice(),
            self.index,
            self.index + 1,
        );
        let primitives = Primitives::new(
            self.block.strings.as_slice(),
            groups,
            PrimitiveType::standard(),
            self.block.offset,
        );
        proof {
            lemma_single_group(
                self@,
                PrimitiveType { bits: DEFAULT },
                self.block().offset,
                self.block().string_views(),
            );
            assert(crate::pbf::group_views(groups@) =~= seq![self@]);
        }
        primitives
    }
}

/// A walk over one group finds the primitives of that group.
pub proof fn lemma_single_group(
    group: GroupMsg,
    filter: PrimitiveType,
    offset: crate::data::Offset,
    strings: Seq<Seq<char>>,
)
    ensures
        all_primitives(seq![group], filter, offset, strings) == group_primitives(
            group,
            filter,
            offset,
            strings,
        ),
{
    let groups = seq![group];
    let here = group_primitives(group, filter, offset, strings);
    assert(crate::data::primitive::primitives_from(groups, filter, offset, strings, 1, 0)
        =~= Seq::<PrimitiveModel>::empty());
    assert(here.skip(0) + Seq::<PrimitiveModel>::empty() =~= here);
}

/// A cursor over the groups of a block.
pub struct PrimitiveGroupsIter<'l> {
    block: &'l PrimitiveBlock,
    pos: usize,
}

impl PrimitiveBlock {
    /// A cursor over the groups of the block, from the first.
    pub fn iter(&self) -> (groups: PrimitiveGroupsIter<'_>)
        ensures
            groups.wf(),
            groups.block() == *self,
            groups.position() == 0,
    {
        self.primitive_groups()
    }

    /// A cursor over the groups of the block, from the first.
    pub fn primitive_groups(&self) -> (groups: PrimitiveGroupsIter<'_>)
        ensures
            groups.wf(),
            groups.block() == *self,
            groups.position() == 0,
    {
        PrimitiveGroupsIter { block: self, pos: 0 }
    }

    /// The group at `index`, or `None` where the block has no such group.
    pub fn get_primitive_group(&self, index: usize) -> (group: Option<PrimitiveGroup<'_>>)
        ensures
            match group {
                Some(group) => index < self.primitive_groups@.len() && group.wf() && group.block()
                    == *self && group.index() == index,
                None => index >= self.primitive_groups@.len(),
            },
    {
        if index < self.primitive_groups.len() {
            Some(PrimitiveGroup { block: self, index })
        } else {
            None
        }
    }

    /// The number of groups of the block.
    pub fn len(&self) -> (len: usize)
        ensures
            len == self.primitive_groups@.len(),
    {
        self.primitive_groups.len()
    }

    /// Whether the block has no group.
    pub fn is_empty(&self) -> (empty: bool)
        ensures
            empty == (self.primitive_groups@.len() == 0),
    {
        self.primitive_groups.len() == 0
    }
}

impl<'l> PrimitiveGroupsIter<'l> {
    /// The cursor stands at a group of its block, or after the last.
    pub closed spec fn wf(&self) -> bool {
        self.pos <= self.block.primitive_groups@.len()
    }

    /// The block that the cursor walks.
    pub closed spec fn block(&self) -> PrimitiveBlock {
        *self.block
    }

    /// The position of the group that the cursor hands out next.
    pub closed spec fn position(&self) -> int {
        self.pos as int
    }

    /// The number of groups still to come.
    pub open spec fn remaining(&self) -> int {
        self.block().primitive_groups@.len() - self.position()
    }

    /// The next group, or `None` after the last.
    pub fn next(&mut self) -> (item: Option<PrimitiveGroup<'l>>)
        requires
            old(self).wf(),
        ensures
            final(self).wf(),
            final(self).block() == old(self).block(),
            match item {
                Some(group) => {
                    &&& old(self).remaining() > 0
                    &&& group.wf()
                    &&& group.block() == old(self).block()
                    &&& group.index() == old(self).position()
                    &&& final(self).position() == old(self).position() + 1
                },
                None => {
                    &&& old(self).remaining() == 0
                    &&& final(self).position() == old(self).position()
                },
            },
    {
        let block = self.block;
        let len = block.primitive_groups.len();
        match block.get_primitive_group(self.pos) {
            Some(group) => {
                self.pos = self.pos + 1;
                Some(group)
            },
            None => None,
        }
    }

    /// The number of groups still to come, as a lower and an upper bound.
    pub fn size_hint(&self) -> (hint: (usize, Option<usize>))
        requires
            self.wf(),
        ensures
            hint.0 == self.remaining(),
            hint.1 == Some(hint.0),
    {
        let len = self.block.len() - self.pos;
        (len, Some(len))
    }

    /// The number of groups still to come.
    pub fn count(self) -> (n: usize)
        requires
            self.wf(),
        ensures
            n == self.remaining(),
    {
        self.block.len() - self.pos
    }

    /// The last group of the block, whatever the cursor has handed out, or
    /// `None` where the block has no group.
    pub fn last(self) -> (item: Option<PrimitiveGroup<'l>>)
        ensures
            match item {
                Some(group) => group.wf() && group.block() == self.block() && group.index()
                    == self.block().primitive_groups@.len() - 1,
                None => self.block().primitive_groups@.len() == 0,
            },
    {
        let block = self.block;
        let len = block.primitive_groups.len();
        if len > 0 {
            block.get_primitive_group(len - 1)
        } else {
            None
        }
    }

    /// Passes over `n` groups and hands out the one after them, or `None`
    /// where fewer than `n + 1` groups are still to come; the cursor then
    /// stands after the last.
    pub fn nth(&mut self, n: usize) -> (item: Option<PrimitiveGroup<'l>>)
        requires
            old(self).wf(),
        ensures
            final(self).wf(),
            final(self).block() == old(self).block(),
            match item {
                Some(group) => {
                    &&& n < old(self).remaining()
                    &&& group.wf()
                    &&& group.block() == old(self).block()
                    &&& group.index() == old(self).position() + n
                    &&& final(self).position() == old(self).position() + n + 1
                },
                None => n >= old(self).remaining() && final(self).remaining() == 0,
            },
    {
        let left = self.block.len() - self.pos;
        if n < left {
            self.pos = self.pos + n;
        } else {
            self.pos = self.block.len();
        }
        self.next()
    }
}

} // verus!
