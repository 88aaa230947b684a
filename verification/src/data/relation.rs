//! Relations and their members.
use crate::data::node::NodeId;
use crate::data::tags::{normal_tags, string_at, StringTable, TagFields, Tags};
use crate::data::way::WayId;
use crate::data::{delta_sum, Meta};
use crate::pbf::{PbfRelation, RelationMsg};
use vstd::prelude::*;

verus! {

#[derive(Copy, Clone, Debug, PartialEq, Eq, PartialOrd, Ord, Hash, Structural)]
pub struct RelationId(pub i64);

/// A member of a relation: what it is, its identity, and its role.
pub enum Member<'l> {
    Node(NodeId, &'l str),
    Way(WayId, &'l str),
    Relation(RelationId, &'l str),
}

pub enum MemberModel {
    Node(i64, Seq<char>),
    Way(i64, Seq<char>),
    Relation(i64, Seq<char>),
}

impl<'l> Member<'l> {
    pub open spec fn view(&self) -> MemberModel {
        match self {
            Member::Node(id, role) => MemberModel::Node(id.0, role@),
            Member::Way(id, role) => MemberModel::Way(id.0, role@),
            Member::Relation(id, role) => MemberModel::Relation(id.0, role@),
        }
    }
}

/// The number of member entries of a relation: what the shortest of the
/// three parallel arrays holds.
pub open spec fn member_entries(relation: RelationMsg) -> int {
    let roles = relation.roles_sid.len();
    let ids = relation.memids.len();
    let kinds = relation.types.len();
    if roles <= ids && roles <= kinds {
        roles as int
    } else if ids <= kinds {
        ids as int
    } else {
        kinds as int
    }
}

/// The member that entry `i` stands for, or `None` where its kind is none of
/// node (0), way (1) and relation (2). Its identity is the sum of the deltas
/// of all entries up to and including `i`, those of unknown kind too.
pub open spec fn member_at(relation: RelationMsg, strings: Seq<Seq<char>>, i: int) -> Option<
    MemberModel,
> {
    let id = delta_sum(relation.memids, i + 1);
    let role = string_at(strings, relation.roles_sid[i] as int);
    let kind = relation.types[i];
    if kind == 0 {
        Some(MemberModel::Node(id, role))
    } else if kind == 1 {
        Some(MemberModel::Way(id, role))
    } else if kind == 2 {
        Some(MemberModel::Relation(id, role))
    } else {
        None
    }
}

/// The members that the entries from `from` on stand for, in order. An entry
/// of unknown kind gives no member.
pub open spec fn members_from(relation: RelationMsg, strings: Seq<Seq<char>>, from: int) -> Seq<
    MemberModel,
>
    decreases member_entries(relation) - from,
{
    if from < 0 || from >= member_entries(relation) {
        Seq::empty()
    } else {
        match member_at(relation, strings, from) {
            Some(member) => seq![member] + members_from(relation, strings, from + 1),
            None => members_from(relation, strings, from + 1),
        }
    }
}

/// An entry of a kind that is none of node, way and relation gives no
/// member; the entries after it give the members that they gave with it,
/// its delta counted in.
pub proof fn lemma_unknown_kind_skipped(relation: RelationMsg, strings: Seq<Seq<char>>, i: int)
    requires
        0 <= i < member_entries(relation),
        relation.types[i] < 0 || relation.types[i] > 2,
    ensures
        members_from(relation, strings, i) == members_from(relation, strings, i + 1),
{
}

/// An entry of a known kind gives a member: its identity is the sum of the
/// deltas of all entries up to it, and the members of the entries after it
/// follow.
pub proof fn lemma_known_kind_kept(relation: RelationMsg, strings: Seq<Seq<char>>, i: int)
    requires
        0 <= i < member_entries(relation),
        0 <= relation.types[i] <= 2,
    ensures
        member_at(relation, strings, i) is Some,
        members_from(relation, strings, i) == seq![member_at(relation, strings, i)->0]
            + members_from(relation, strings, i + 1),
{
}

/// What a relation says: its identity, its members, its tags and its
/// metadata.
pub struct RelationModel {
    pub id: i64,
    pub members: Seq<MemberModel>,
    pub tags: Seq<(Seq<char>, Seq<char>)>,
    pub meta: Meta,
}

/// The relation that a message stands for, with the strings of its block.
pub open spec fn relation_model(relation: RelationMsg, strings: Seq<Seq<char>>) -> RelationModel {
    RelationModel {
        id: relation.id,
        members: members_from(relation, strings, 0),
        tags: normal_tags(relation.keys, relation.vals, strings),
        meta: Meta::of_info(relation.info),
    }
}

/// A relation of a block.
pub struct Relation<'l> {
    pub id: RelationId,
    strings: &'l [String],
    roles_sid: &'l [i32],
    memids: &'l [i64],
    types: &'l [i32],
    tags: TagFields<'l>,
    meta: Meta,
}

/// The version and the visibility of the primitive, read through it.
impl std::ops::Deref for Relation<'_> {
    type Target = Meta;

    fn deref(&self) -> (meta: &Meta)
        ensures
            *meta == self@.meta,
    {
        &self.meta
    }
}

impl<'l> Relation<'l> {
    /// The message that this relation was made from, as far as it is kept.
    closed spec fn message(&self) -> RelationMsg {
        RelationMsg {
            id: self.id.0,
            keys: self.tags.0@,
            vals: self.tags.1@,
            info: None,
            roles_sid: self.roles_sid@,
            memids: self.memids@,
            types: self.types@,
        }
    }

    pub closed spec fn view(&self) -> RelationModel {
        RelationModel {
            id: self.id.0,
            members: members_from(self.message(), self.strings.deep_view(), 0),
            tags: normal_tags(self.tags.0@, self.tags.1@, self.strings.deep_view()),
            meta: self.meta,
        }
    }

    pub fn from_pbf(r: &'l PbfRelation, strings: &'l [String]) -> (relation: Self)
        ensures
            relation@ == relation_model(r@, strings.deep_view()),
    {
        let relation = Relation {
            id: RelationId(r.id),
            strings,
            roles_sid: r.roles_sid.as_slice(),
            memids: r.memids.as_slice(),
            types: r.types.as_slice(),
            tags: TagFields(r.keys.as_slice(), r.vals.as_slice()),
            meta: Meta::from_info(r.info.as_ref()),
        };
        proof {
            lemma_members_depend_on_arrays(relation.message(), r@, strings.deep_view(), 0);
        }
        relation
    }

    /// The identity of the relation.
    pub fn id(&self) -> (id: RelationId)
        ensures
            id.0 == self@.id,
    {
        self.id
    }

    /// A cursor over the members of the relation, from the first.
    pub fn members(&self) -> (members: MembersIter<'l>)
        ensures
            members.wf(),
            members@ == self@.members,
    {
        let members = MembersIter {
            strings: StringTable::new(self.strings),
            i: 0,
            current: 0,
            roles: self.roles_sid,
            member_ids: self.memids,
            member_types: self.types,
        };
        proof {
            lemma_members_depend_on_arrays(
                members.message(),
                self.message(),
                self.strings.deep_view(),
                0,
            );
        }
        members
    }

    /// A cursor over the tags of the relation, from the first.
    pub fn tags(&self) -> (tags: Tags<'l>)
        ensures
            tags.wf(),
            tags@ == self@.tags,
    {
        self.tags.iter_with_strings(self.strings)
    }
}

/// The members of a relation depend on its three member arrays alone.
proof fn lemma_members_depend_on_arrays(
    a: RelationMsg,
    b: RelationMsg,
    strings: Seq<Seq<char>>,
    from: int,
)
    requires
        a.roles_sid == b.roles_sid,
        a.memids == b.memids,
        a.types == b.types,
    ensures
        members_from(a, strings, from) == members_from(b, strings, from),
    decreases member_entries(a) - from,
{
    if 0 <= from < member_entries(a) {
        lemma_members_depend_on_arrays(a, b, strings, from + 1);
    }
}

/// A cursor over the members of a relation. It adds up the deltas of the
/// identities as it goes, and passes over entries of unknown kind.
pub struct MembersIter<'l> {
    strings: StringTable<'l>,
    i: usize,
    current: i64,
    roles: &'l [i32],
    member_ids: &'l [i64],
    member_types: &'l [i32],
}

impl<'l> MembersIter<'l> {
    closed spec fn message(&self) -> RelationMsg {
        RelationMsg {
            id: 0,
            keys: Seq::empty(),
            vals: Seq::empty(),
            info: None,
            roles_sid: self.roles@,
            memids: self.member_ids@,
            types: self.member_types@,
        }
    }

    /// The cursor stands inside its entries, and holds the sum of the deltas
    /// that it has passed.
    pub closed spec fn wf(&self) -> bool {
        &&& self.i <= member_entries(self.message())
        &&& self.current == delta_sum(self.member_ids@, self.i as int)
    }

    /// The members still to come, in order.
    pub closed spec fn view(&self) -> Seq<MemberModel> {
        members_from(self.message(), self.strings@, self.i as int)
    }

    /// The next member of known kind, or `None` when the entries are used up.
    pub fn next(&mut self) -> (item: Option<Member<'l>>)
        requires
            old(self).wf(),
        ensures
            final(self).wf(),
            match item {
                Some(member) => old(self)@.len() > 0 && member@ == old(self)@[0] && final(self)@
                    == old(self)@.skip(1),
                None => old(self)@.len() == 0 && final(self)@ == old(self)@,
            },
    {
        loop
            invariant
                self.wf(),
                self@ == old(self)@,
            decreases member_entries(self.message()) - self.i,
        {
            let pos = self.i;
            if pos >= self.roles.len() || pos >= self.member_ids.len() || pos
                >= self.member_types.len() {
                return None;
            }
            let member_id = self.current.wrapping_add(self.member_ids[pos]);
            let role = self.strings.get_signed(self.roles[pos]);
            let kind = self.member_types[pos];
            let ghost before = self@;
            self.current = member_id;
            self.i = pos + 1;
            if kind == 0 {
                assert(self@ =~= before.skip(1));
                return Some(Member::Node(NodeId(member_id), role));
            } else if kind == 1 {
                assert(self@ =~= before.skip(1));
                return Some(Member::Way(WayId(member_id), role));
            } else if kind == 2 {
                assert(self@ =~= before.skip(1));
                return Some(Member::Relation(RelationId(member_id), role));
            }
        }
    }
}

} // verus!
