//! The walk over the primitives of a block.
use crate::data::changeset::ChangeSet;
use crate::data::node::{node_model, Node, NodeModel};
use crate::data::relation::{relation_model, Relation, RelationModel};
use crate::data::tags::dense_tags;
use crate::data::way::{way_model, Way, WayModel};
use crate::data::{delta_sum, nano_degrees, version_from, version_of, DenseState, Meta, Offset,
    PrimitiveBlock};
use crate::pbf::{group_views, DenseInfoMsg, DenseMsg, GroupMsg, PbfDenseInfo, PbfDenseNodes,
    PbfPrimitiveGroup};
use vstd::prelude::*;
use vstd::slice::slice_subrange;

verus! {

/// The bit of the nodes in a `PrimitiveType`.
pub const NODE: u32 = 1;

/// The bit of the ways in a `PrimitiveType`.
pub const WAY: u32 = 2;

/// The bit of the relations in a `PrimitiveType`.
pub const RELATION: u32 = 4;

/// The bit of the changesets in a `PrimitiveType`.
pub const CHANGE_SET: u32 = 8;

/// The bits of nodes, ways and relations.
pub const DEFAULT: u32 = 7;

/// A set of kinds of primitive, as a mask of bits.
#[derive(Copy, Clone, Debug, PartialEq, Eq, Hash, Structural)]
pub struct PrimitiveType {
    pub bits: u32,
}

impl PrimitiveType {
    /// The set with the given mask.
    pub fn from_bits(bits: u32) -> (types: PrimitiveType)
        ensures
            types.bits == bits,
    {
        PrimitiveType { bits }
    }

    /// The nodes alone.
    pub fn node() -> (types: PrimitiveType)
        ensures
            types.bits == NODE,
            types.nodes() && !types.ways() && !types.relations() && !types.changesets(),
    {
        proof {
            lemma_kinds_of_bits();
        }
        PrimitiveType { bits: NODE }
    }

    /// The ways alone.
    pub fn way() -> (types: PrimitiveType)
        ensures
            types.bits == WAY,
            !types.nodes() && types.ways() && !types.relations() && !types.changesets(),
    {
        proof {
            lemma_kinds_of_bits();
        }
        PrimitiveType { bits: WAY }
    }

    /// The relations alone.
    pub fn relation() -> (types: PrimitiveType)
        ensures
            types.bits == RELATION,
            !types.nodes() && !types.ways() && types.relations() && !types.changesets(),
    {
        proof {
            lemma_kinds_of_bits();
        }
        PrimitiveType { bits: RELATION }
    }

    /// The changesets alone.
    pub fn change_set() -> (types: PrimitiveType)
        ensures
            types.bits == CHANGE_SET,
            !types.nodes() && !types.ways() && !types.relations() && types.changesets(),
    {
        proof {
            lemma_kinds_of_bits();
        }
        PrimitiveType { bits: CHANGE_SET }
    }

    /// Nodes, ways and relations: what a walk hands out unless told
    /// otherwise.
    pub fn standard() -> (types: PrimitiveType)
        ensures
            types.bits == DEFAULT,
            types.nodes() && types.ways() && types.relations() && !types.changesets(),
    {
        proof {
            lemma_kinds_of_bits();
        }
        PrimitiveType { bits: DEFAULT }
    }

    /// Every kind of `other` is a kind of this set.
    pub open spec fn includes(self, other: PrimitiveType) -> bool {
        self.bits & other.bits == other.bits
    }

    pub open spec fn nodes(self) -> bool {
        self.bits & NODE == NODE
    }

    pub open spec fn ways(self) -> bool {
        self.bits & WAY == WAY
    }

    pub open spec fn relations(self) -> bool {
        self.bits & RELATION == RELATION
    }

    pub open spec fn changesets(self) -> bool {
        self.bits & CHANGE_SET == CHANGE_SET
    }

    /// The mask of the kinds of this set.
    pub fn bits(&self) -> (bits: u32)
        ensures
            bits == self.bits,
    {
        self.bits
    }

    #[verifier::when_used_as_spec(includes)]
    pub fn contains(self, other: PrimitiveType) -> (r: bool)
        ensures
            r == self.includes(other),
    {
        self.bits & other.bits == other.bits
    }

    /// The kinds of this set together with those of `other`.
    pub fn union(self, other: PrimitiveType) -> (types: PrimitiveType)
        ensures
            types.bits == self.bits | other.bits,
            types.nodes() == (self.nodes() || other.nodes()),
            types.ways() == (self.ways() || other.ways()),
            types.relations() == (self.relations() || other.relations()),
            types.changesets() == (self.changesets() || other.changesets()),
    {
        let a = self.bits;
        let b = other.bits;
        assert(((a | b) & 1 == 1) == (a & 1 == 1 || b & 1 == 1)) by (bit_vector);
        assert(((a | b) & 2 == 2) == (a & 2 == 2 || b & 2 == 2)) by (bit_vector);
        assert(((a | b) & 4 == 4) == (a & 4 == 4 || b & 4 == 4)) by (bit_vector);
        assert(((a | b) & 8 == 8) == (a & 8 == 8 || b & 8 == 8)) by (bit_vector);
        PrimitiveType { bits: a | b }
    }
}

/// Which kinds the masks of the single kinds and of the standard set hold.
pub proof fn lemma_kinds_of_bits()
    ensures
        1u32 & 1 == 1 && 1u32 & 2 != 2 && 1u32 & 4 != 4 && 1u32 & 8 != 8,
        2u32 & 1 != 1 && 2u32 & 2 == 2 && 2u32 & 4 != 4 && 2u32 & 8 != 8,
        4u32 & 1 != 1 && 4u32 & 2 != 2 && 4u32 & 4 == 4 && 4u32 & 8 != 8,
        8u32 & 1 != 1 && 8u32 & 2 != 2 && 8u32 & 4 != 4 && 8u32 & 8 == 8,
        7u32 & 1 == 1 && 7u32 & 2 == 2 && 7u32 & 4 == 4 && 7u32 & 8 != 8,
{
    assert(1u32 & 1 == 1 && 1u32 & 2 != 2 && 1u32 & 4 != 4 && 1u32 & 8 != 8) by (bit_vector);
    assert(2u32 & 1 != 1 && 2u32 & 2 == 2 && 2u32 & 4 != 4 && 2u32 & 8 != 8) by (bit_vector);
    assert(4u32 & 1 != 1 && 4u32 & 2 != 2 && 4u32 & 4 == 4 && 4u32 & 8 != 8) by (bit_vector);
    assert(8u32 & 1 != 1 && 8u32 & 2 != 2 && 8u32 & 4 != 4 && 8u32 & 8 == 8) by (bit_vector);
    assert(7u32 & 1 == 1 && 7u32 & 2 == 2 && 7u32 & 4 == 4 && 7u32 & 8 != 8) by (bit_vector);
}

/// A primitive of a block.
#[non_exhaustive]
pub enum Primitive<'l> {
    Node(Node<'l>),
    Way(Way<'l>),
    Relation(Relation<'l>),
    ChangeSet(ChangeSet),
}

pub enum PrimitiveModel {
    Node(NodeModel),
    Way(WayModel),
    Relation(RelationModel),
    ChangeSet(i64),
}

impl<'l> Primitive<'l> {
    pub open spec fn view(&self) -> PrimitiveModel {
        match self {
            Primitive::Node(node) => PrimitiveModel::Node(node@),
            Primitive::Way(way) => PrimitiveModel::Way(way@),
            Primitive::Relation(relation) => PrimitiveModel::Relation(relation@),
            Primitive::ChangeSet(changeset) => PrimitiveModel::ChangeSet(changeset.id.0),
        }
    }
}

/// The number of nodes of a dense group: what the shortest of the three
/// arrays of identities, latitudes and longitudes holds.
pub open spec fn dense_len(dense: DenseMsg) -> int {
    let ids = dense.id.len();
    let lats = dense.lat.len();
    let lons = dense.lon.len();
    if ids <= lats && ids <= lons {
        ids as int
    } else if lats <= lons {
        lats as int
    } else {
        lons as int
    }
}

/// Where the run of tags that begins at `from` ends: at its closing zero, or
/// at the end of the array where no zero closes it. The run is read two
/// entries at a time, so a zero in the place of a value closes nothing.
pub open spec fn run_end(key_values: Seq<i32>, from: int) -> int
    decreases key_values.len() + 1 - from,
{
    if from < 0 || from >= key_values.len() {
        key_values.len() as int
    } else if key_values[from] == 0 {
        from
    } else {
        run_end(key_values, from + 2)
    }
}

/// Where the run after the one that begins at `from` begins: one past the
/// closing zero, or at the end of the array.
pub open spec fn next_run(key_values: Seq<i32>, from: int) -> int {
    let end = run_end(key_values, from);
    if end < key_values.len() {
        end + 1
    } else {
        key_values.len() as int
    }
}

/// Where the run of the tags of node `p` of a dense group begins.
pub open spec fn run_start(key_values: Seq<i32>, p: int) -> int
    decreases p,
{
    if p <= 0 {
        0
    } else {
        next_run(key_values, run_start(key_values, p - 1))
    }
}

/// The run of the tags of node `p` of a dense group, without its closing
/// zero.
pub open spec fn dense_run(key_values: Seq<i32>, p: int) -> Seq<i32> {
    let start = run_start(key_values, p);
    key_values.subrange(start, run_end(key_values, start))
}

/// The metadata of node `p` of a dense group: version 0 and visible where the
/// group says nothing of it.
pub open spec fn dense_meta(info: Option<DenseInfoMsg>, p: int) -> Meta {
    match info {
        Some(info) => Meta {
            version: if 0 <= p < info.version.len() {
                version_of(info.version[p])
            } else {
                0
            },
            visible: if 0 <= p < info.visible.len() {
                info.visible[p]
            } else {
                true
            },
        },
        None => Meta { version: 0, visible: true },
    }
}

/// Node `p` of a dense group: identity and raw coordinates are the sums of
/// the deltas up to and including `p`.
pub open spec fn dense_node(
    dense: DenseMsg,
    p: int,
    offset: Offset,
    strings: Seq<Seq<char>>,
) -> NodeModel {
    NodeModel {
        id: delta_sum(dense.id, p + 1),
        nano_lat: nano_degrees(offset.lat, delta_sum(dense.lat, p + 1), offset.granularity),
        nano_lon: nano_degrees(offset.lon, delta_sum(dense.lon, p + 1), offset.granularity),
        tags: dense_tags(dense_run(dense.keys_vals, p), strings),
        meta: dense_meta(dense.denseinfo, p),
    }
}

/// Which of the collections of a group a walk goes through.
pub enum GroupKind {
    Nodes,
    Dense,
    Ways,
    Relations,
    ChangeSets,
    Nothing,
}

/// The collection of the group that a walk with this filter goes through:
/// the first, in the order nodes, dense nodes, ways, relations, changesets,
/// that the filter asks for and that is not empty.
pub open spec fn group_kind(group: GroupMsg, filter: PrimitiveType) -> GroupKind {
    if filter.nodes() && group.nodes.len() > 0 {
        GroupKind::Nodes
    } else if filter.nodes() && group.dense is Some && dense_len(group.dense->0) > 0 {
        GroupKind::Dense
    } else if filter.ways() && group.ways.len() > 0 {
        GroupKind::Ways
    } else if filter.relations() && group.relations.len() > 0 {
        GroupKind::Relations
    } else if filter.changesets() && group.changesets.len() > 0 {
        GroupKind::ChangeSets
    } else {
        GroupKind::Nothing
    }
}

/// The number of primitives that a walk with this filter finds in the group.
pub open spec fn group_len(group: GroupMsg, filter: PrimitiveType) -> int {
    match group_kind(group, filter) {
        GroupKind::Nodes => group.nodes.len() as int,
        GroupKind::Dense => dense_len(group.dense->0),
        GroupKind::Ways => group.ways.len() as int,
        GroupKind::Relations => group.relations.len() as int,
        GroupKind::ChangeSets => group.changesets.len() as int,
        GroupKind::Nothing => 0,
    }
}

/// The primitive at position `p` of the group, for a walk with this filter.
pub open spec fn group_primitive(
    group: GroupMsg,
    filter: PrimitiveType,
    offset: Offset,
    strings: Seq<Seq<char>>,
    p: int,
) -> PrimitiveModel {
    match group_kind(group, filter) {
        GroupKind::Nodes => PrimitiveModel::Node(node_model(group.nodes[p], offset, strings)),
        GroupKind::Dense => PrimitiveModel::Node(dense_node(group.dense->0, p, offset, strings)),
        GroupKind::Ways => PrimitiveModel::Way(way_model(group.ways[p], strings)),
        GroupKind::Relations => PrimitiveModel::Relation(
            relation_model(group.relations[p], strings),
        ),
        _ => PrimitiveModel::ChangeSet(group.changesets[p]),
    }
}

/// The primitives that a walk with this filter finds in the group, in order.
pub open spec fn group_primitives(
    group: GroupMsg,
    filter: PrimitiveType,
    offset: Offset,
    strings: Seq<Seq<char>>,
) -> Seq<PrimitiveModel> {
    Seq::new(
        group_len(group, filter) as nat,
        |p: int| group_primitive(group, filter, offset, strings, p),
    )
}

/// The primitives that a walk with this filter finds from position `pos` of
/// group `group` on: the rest of that group, then all of each later group, in
/// the order of the groups.
pub open spec fn primitives_from(
    groups: Seq<GroupMsg>,
    filter: PrimitiveType,
    offset: Offset,
    strings: Seq<Seq<char>>,
    group: int,
    pos: int,
) -> Seq<PrimitiveModel>
    decreases groups.len() - group,
{
    if group < 0 || group >= groups.len() {
        Seq::empty()
    } else {
        group_primitives(groups[group], filter, offset, strings).skip(pos) + primitives_from(
            groups,
            filter,
            offset,
            strings,
            group + 1,
            0,
        )
    }
}

/// All the primitives that a walk with this filter finds in the groups.
pub open spec fn all_primitives(
    groups: Seq<GroupMsg>,
    filter: PrimitiveType,
    offset: Offset,
    strings: Seq<Seq<char>>,
) -> Seq<PrimitiveModel> {
    primitives_from(groups, filter, offset, strings, 0, 0)
}

/// The sums in `state` are those of a walk that has handed out the first `p`
/// nodes of the dense group.
pub open spec fn dense_state_at(dense: DenseMsg, p: int, state: DenseState) -> bool {
    &&& state.id == delta_sum(dense.id, p)
    &&& state.lat == delta_sum(dense.lat, p)
    &&& state.lon == delta_sum(dense.lon, p)
    &&& state.kv_pos == run_start(dense.keys_vals, p)
}

/// A run begins inside the array or at its end, and ends there too.
pub proof fn lemma_run_bounds(key_values: Seq<i32>, from: int)
    requires
        0 <= from <= key_values.len(),
    ensures
        from <= run_end(key_values, from) <= key_values.len(),
        from <= next_run(key_values, from) <= key_values.len(),
    decreases key_values.len() + 1 - from,
{
    if from < key_values.len() && key_values[from] != 0 {
        if from + 2 <= key_values.len() {
            lemma_run_bounds(key_values, from + 2);
        } else {
            assert(run_end(key_values, from + 2) == key_values.len());
        }
    }
}

/// The run of every node begins inside the array or at its end.
pub proof fn lemma_run_start_bounds(key_values: Seq<i32>, p: int)
    ensures
        0 <= run_start(key_values, p) <= key_values.len(),
    decreases p,
{
    if p > 0 {
        lemma_run_start_bounds(key_values, p - 1);
        lemma_run_bounds(key_values, run_start(key_values, p - 1));
    }
}

/// The number of nodes of a dense group.
fn dense_count(dense: &PbfDenseNodes) -> (n: usize)
    ensures
        n == dense_len(dense@),
{
    let ids = dense.id.len();
    let lats = dense.lat.len();
    let lons = dense.lon.len();
    if ids <= lats && ids <= lons {
        ids
    } else if lats <= lons {
        lats
    } else {
        lons
    }
}

/// The metadata of node `pos` of a dense group.
fn dense_meta_at(info: &Option<PbfDenseInfo>, pos: usize) -> (meta: Meta)
    ensures
        meta == dense_meta(
            match info {
                Some(info) => Some(info@),
                None => None,
            },
            pos as int,
        ),
{
    match info {
        Some(info) => Meta {
            version: if pos < info.version.len() {
                version_from(info.version[pos])
            } else {
                0
            },
            visible: if pos < info.visible.len() {
                info.visible[pos]
            } else {
                true
            },
        },
        None => Meta { version: 0, visible: true },
    }
}

/// Where the run that begins at `from` ends.
fn find_run_end(key_values: &[i32], from: usize) -> (end: usize)
    requires
        from <= key_values@.len(),
    ensures
        end == run_end(key_values@, from as int),
        from <= end <= key_values@.len(),
{
    let len = key_values.len();
    let mut end = from;
    while end < len && key_values[end] != 0
        invariant
            len == key_values@.len(),
            from <= end <= len,
            run_end(key_values@, end as int) == run_end(key_values@, from as int),
        decreases len - end,
    {
        if len - end >= 2 {
            end = end + 2;
        } else {
            assert(run_end(key_values@, end + 2) == len);
            end = len;
            assert(run_end(key_values@, end as int) == len);
        }
    }
    end
}

/// Node `pos` of a dense group, and the sums of the walk after it.
fn dense_node_at<'l>(
    dense: &'l PbfDenseNodes,
    pos: usize,
    state: DenseState,
    offset: &Offset,
    strings: &'l [String],
) -> (r: (Node<'l>, DenseState))
    requires
        pos < dense_len(dense@),
        dense_state_at(dense@, pos as int, state),
    ensures
        r.0@ == dense_node(dense@, pos as int, *offset, strings.deep_view()),
        dense_state_at(dense@, pos + 1, r.1),
{
    proof {
        lemma_run_start_bounds(dense@.keys_vals, pos as int);
    }
    let key_values = dense.keys_vals.as_slice();
    let kv_from = state.kv_pos;
    let kv_end = find_run_end(key_values, kv_from);
    let kv_next = if kv_end < key_values.len() {
        kv_end + 1
    } else {
        kv_end
    };
    let next = DenseState {
        id: state.id.wrapping_add(dense.id[pos]),
        lat: state.lat.wrapping_add(dense.lat[pos]),
        lon: state.lon.wrapping_add(dense.lon[pos]),
        kv_pos: kv_next,
    };
    let meta = dense_meta_at(&dense.denseinfo, pos);
    let run = slice_subrange(key_values, kv_from, kv_end);
    let node = Node::from_pbf_dense(next, meta.version, meta.visible, offset, run, strings);
    (node, next)
}

/// A cursor over the primitives of a block, or of one of its groups.
pub struct Primitives<'l> {
    strings: &'l [String],
    groups: &'l [PbfPrimitiveGroup],
    filter: PrimitiveType,
    group_pos: usize,
    prim_pos: usize,
    offset: Offset,
    dense_state: DenseState,
}

impl PrimitiveBlock {
    /// A cursor over the nodes, ways and relations of the block, from the
    /// first. `types` gives a cursor over other kinds.
    pub fn primitives(&self) -> (primitives: Primitives<'_>)
        ensures
            primitives.wf(),
            primitives.filter() == (PrimitiveType { bits: DEFAULT }),
            primitives.groups() == self.groups(),
            primitives.offset() == self.offset,
            primitives.strings() == self.string_views(),
            primitives.group_index() == 0,
            primitives.position() == 0,
            primitives@ == all_primitives(
                self.groups(),
                PrimitiveType { bits: DEFAULT },
                self.offset,
                self.string_views(),
            ),
    {
        Primitives::new(
            self.strings.as_slice(),
            self.primitive_groups.as_slice(),
            PrimitiveType::standard(),
            self.offset,
        )
    }
}

impl<'l> Primitives<'l> {
    /// A cursor over the primitives of the groups, from the first.
    pub fn new(
        strings: &'l [String],
        groups: &'l [PbfPrimitiveGroup],
        filter: PrimitiveType,
        offset: Offset,
    ) -> (primitives: Self)
        ensures
            primitives.wf(),
            primitives.filter() == filter,
            primitives.groups() == group_views(groups@),
            primitives.offset() == offset,
            primitives.strings() == strings.deep_view(),
            primitives.group_index() == 0,
            primitives.position() == 0,
    {
        Primitives {
            strings,
            groups,
            filter,
            group_pos: 0,
            prim_pos: 0,
            offset,
            dense_state: DenseState { id: 0, lat: 0, lon: 0, kv_pos: 0 },
        }
    }

    /// The kinds of primitive that the cursor hands out.
    pub closed spec fn filter(&self) -> PrimitiveType {
        self.filter
    }

    /// The groups that the cursor walks.
    pub closed spec fn groups(&self) -> Seq<GroupMsg> {
        group_views(self.groups@)
    }

    /// The offset and the granularity of the coordinates of the groups.
    pub closed spec fn offset(&self) -> Offset {
        self.offset
    }

    /// The string table of the groups.
    pub closed spec fn strings(&self) -> Seq<Seq<char>> {
        self.strings.deep_view()
    }

    /// The group that the cursor stands in, or the number of groups where it
    /// has left the last.
    pub closed spec fn group_index(&self) -> int {
        self.group_pos as int
    }

    /// The number of primitives of its group that the cursor has passed.
    pub closed spec fn position(&self) -> int {
        self.prim_pos as int
    }

    /// The cursor stands inside its groups, or after the last; inside a
    /// group, it stands at one of its primitives or after the last; inside a
    /// dense group, it holds the sums of the nodes that it has passed.
    pub closed spec fn wf(&self) -> bool {
        &&& self.group_pos <= self.groups@.len()
        &&& self.group_pos < self.groups@.len() ==> {
            let group = self.groups()[self.group_pos as int];
            &&& self.prim_pos <= group_len(group, self.filter)
            &&& group_kind(group, self.filter) is Dense ==> dense_state_at(
                group.dense->0,
                self.prim_pos as int,
                self.dense_state,
            )
        }
    }

    /// The primitives still to come, in order: the rest of the group that the
    /// cursor stands in, and the groups after it.
    pub open spec fn view(&self) -> Seq<PrimitiveModel> {
        primitives_from(
            self.groups(),
            self.filter(),
            self.offset(),
            self.strings(),
            self.group_index(),
            self.position(),
        )
    }

    /// A cursor over the kinds in `types`. It goes on at the start of the
    /// group that this cursor stands in: for a cursor that has handed out
    /// nothing yet, at the first primitive.
    pub fn types(self, types: PrimitiveType) -> (primitives: Self)
        requires
            self.wf(),
        ensures
            primitives.wf(),
            primitives.filter() == types,
            primitives.groups() == self.groups(),
            primitives.offset() == self.offset(),
            primitives.strings() == self.strings(),
            primitives.group_index() == self.group_index(),
            primitives.position() == 0,
    {
        Primitives {
            strings: self.strings,
            groups: self.groups,
            filter: types,
            group_pos: self.group_pos,
            prim_pos: 0,
            offset: self.offset,
            dense_state: DenseState { id: 0, lat: 0, lon: 0, kv_pos: 0 },
        }
    }

    /// The next primitive of a kind that the filter asks for, or `None` after
    /// the last.
    pub fn next(&mut self) -> (item: Option<Primitive<'l>>)
        requires
            old(self).wf(),
        ensures
            final(self).wf(),
            final(self).filter() == old(self).filter(),
            final(self).groups() == old(self).groups(),
            final(self).offset() == old(self).offset(),
            final(self).strings() == old(self).strings(),
            match item {
                Some(primitive) => {
                    &&& old(self)@.len() > 0
                    &&& primitive@ == old(self)@[0]
                    &&& final(self)@ == old(self)@.skip(1)
                },
                None => old(self)@.len() == 0 && final(self)@ == old(self)@,
            },
    {
        let groups = self.groups;
        let strings = self.strings;
        let filter = self.filter;
        let offset = self.offset;
        loop
            invariant
                self.wf(),
                self@ == old(self)@,
                self.groups == groups,
                self.strings == strings,
                self.filter == filter,
                self.offset == offset,
                old(self).groups == groups,
                old(self).strings == strings,
                old(self).filter == filter,
                old(self).offset == offset,
            decreases groups@.len() - self.group_pos,
        {
            if self.group_pos >= groups.len() {
                return None;
            }
            let group = &groups[self.group_pos];
            let pos = self.prim_pos;
            let ghost before = self@;
            let ghost msg = group@;
            assert(msg == self.groups()[self.group_pos as int]);
            let ghost here = group_primitives(msg, filter, offset, strings.deep_view());
            let ghost rest = primitives_from(
                self.groups(),
                filter,
                offset,
                strings.deep_view(),
                self.group_pos + 1,
                0,
            );
            assert(before == here.skip(pos as int) + rest);
            if filter.bits & NODE == NODE && group.nodes.len() > 0 {
                if pos < group.nodes.len() {
                    let node = Node::from_pbf(&group.nodes[pos], &offset, strings);
                    self.prim_pos = pos + 1;
                    assert(self@ =~= before.skip(1));
                    assert(before[0] == here[pos as int]);
                    return Some(Primitive::Node(node));
                }
            } else if filter.bits & NODE == NODE && group.dense.is_some()
                && dense_count(group.dense.as_ref().unwrap()) > 0 {
                let dense = group.dense.as_ref().unwrap();
                if pos < dense_count(dense) {
                    let (node, state) = dense_node_at(
                        dense,
                        pos,
                        self.dense_state,
                        &offset,
                        strings,
                    );
                    self.prim_pos = pos + 1;
                    self.dense_state = state;
                    assert(self@ =~= before.skip(1));
                    assert(before[0] == here[pos as int]);
                    return Some(Primitive::Node(node));
                }
            } else if filter.bits & WAY == WAY && group.ways.len() > 0 {
                if pos < group.ways.len() {
                    let way = Way::from_pbf(&group.ways[pos], strings);
                    self.prim_pos = pos + 1;
                    assert(self@ =~= before.skip(1));
                    assert(before[0] == here[pos as int]);
                    return Some(Primitive::Way(way));
                }
            } else if filter.bits & RELATION == RELATION && group.relations.len() > 0 {
                if pos < group.relations.len() {
                    let relation = Relation::from_pbf(&group.relations[pos], strings);
                    self.prim_pos = pos + 1;
                    assert(self@ =~= before.skip(1));
                    assert(before[0] == here[pos as int]);
                    return Some(Primitive::Relation(relation));
                }
            } else if filter.bits & CHANGE_SET == CHANGE_SET && group.changesets.len() > 0 {
                if pos < group.changesets.len() {
                    let changeset = ChangeSet::from_pbf(group.changesets[pos]);
                    self.prim_pos = pos + 1;
                    assert(self@ =~= before.skip(1));
                    assert(before[0] == here[pos as int]);
                    return Some(Primitive::ChangeSet(changeset));
                }
            }
            assert(pos == group_len(msg, filter));
            self.group_pos = self.group_pos + 1;
            self.prim_pos = 0;
            self.dense_state = DenseState { id: 0, lat: 0, lon: 0, kv_pos: 0 };
            assert(self@ =~= before);
        }
    }
}

} // verus!
