//! Tags: the `(key, value)` pairs of a primitive, resolved through the string
//! table of its block.
use vstd::prelude::*;

verus! {

/// What a string table gives for an index: the entry at that position, and
/// the empty string for every index outside the table.
pub open spec fn string_at(strings: Seq<Seq<char>>, index: int) -> Seq<char> {
    if 0 <= index < strings.len() {
        strings[index]
    } else {
        Seq::empty()
    }
}

/// The tags of the normal layout: as many pairs as the shorter of the two
/// arrays has entries, the `i`-th made of the `i`-th key and the `i`-th value.
pub open spec fn normal_tags(keys: Seq<u32>, vals: Seq<u32>, strings: Seq<Seq<char>>) -> Seq<
    (Seq<char>, Seq<char>),
> {
    Seq::new(
        if keys.len() <= vals.len() {
            keys.len()
        } else {
            vals.len()
        },
        |i: int| (string_at(strings, keys[i] as int), string_at(strings, vals[i] as int)),
    )
}

/// The tags of the dense layout, for the run of one node: the entries taken
/// two by two, key first. A last entry without a partner gives no tag.
pub open spec fn dense_tags(key_values: Seq<i32>, strings: Seq<Seq<char>>) -> Seq<
    (Seq<char>, Seq<char>),
> {
    Seq::new(
        (key_values.len() / 2) as nat,
        |i: int|
            (
                string_at(strings, key_values[2 * i] as int),
                string_at(strings, key_values[2 * i + 1] as int),
            ),
    )
}

/// A read-only view of the string table of a block.
#[derive(Clone, Copy)]
pub struct StringTable<'l> {
    strings: &'l [String],
}

impl<'l> StringTable<'l> {
    /// The entries of the table, each as a sequence of characters.
    pub closed spec fn view(&self) -> Seq<Seq<char>> {
        self.strings.deep_view()
    }

    pub fn new(strings: &'l [String]) -> (table: Self)
        ensures
            table@ == strings.deep_view(),
    {
        StringTable { strings }
    }

    /// The string at `index`, or `""` where the table has no such entry.
    pub fn get(&self, index: usize) -> (s: &'l str)
        ensures
            s@ == string_at(self@, index as int),
    {
        if index < self.strings.len() {
            self.strings[index].as_str()
        } else {
            proof {
                reveal_strlit("");
            }
            ""
        }
    }

    /// As `get`, for the signed indices of the dense layout and of relation
    /// roles: a negative index is outside the table.
    pub fn get_signed(&self, index: i32) -> (s: &'l str)
        ensures
            s@ == string_at(self@, index as int),
    {
        if index < 0 {
            proof {
                reveal_strlit("");
            }
            ""
        } else {
            self.get(index as usize)
        }
    }
}

/// The two parallel arrays of the normal tag layout.
#[derive(Clone, Copy)]
pub struct TagFields<'l>(pub &'l [u32], pub &'l [u32]);

/// The tag layout of a node: normal, or the run of a dense node.
#[derive(Clone, Copy)]
pub enum NodeTagFields<'l> {
    Normal(&'l [u32], &'l [u32]),
    Dense(&'l [i32]),
}

impl<'l> NodeTagFields<'l> {
    /// The tags that this layout holds, resolved through `strings`.
    pub open spec fn tags(self, strings: Seq<Seq<char>>) -> Seq<(Seq<char>, Seq<char>)> {
        match self {
            NodeTagFields::Normal(keys, vals) => normal_tags(keys@, vals@, strings),
            NodeTagFields::Dense(key_values) => dense_tags(key_values@, strings),
        }
    }

    pub fn iter_with_strings(self, strings: &'l [String]) -> (tags: Tags<'l>)
        ensures
            tags.wf(),
            tags@ == self.tags(strings.deep_view()),
    {
        let tags = Tags { strings: StringTable::new(strings), fields: self, pos: 0 };
        assert(tags@ =~= self.tags(strings.deep_view()));
        tags
    }
}

impl<'l> TagFields<'l> {
    pub fn iter_with_strings(self, strings: &'l [String]) -> (tags: Tags<'l>)
        ensures
            tags.wf(),
            tags@ == normal_tags(self.0@, self.1@, strings.deep_view()),
    {
        NodeTagFields::Normal(self.0, self.1).iter_with_strings(strings)
    }
}

/// A cursor over the tags of one primitive.
pub struct Tags<'l> {
    strings: StringTable<'l>,
    fields: NodeTagFields<'l>,
    pos: usize,
}

impl<'l> Tags<'l> {
    /// All the tags of the primitive, whatever the cursor has handed out.
    pub closed spec fn all(&self) -> Seq<(Seq<char>, Seq<char>)> {
        self.fields.tags(self.strings@)
    }

    /// The cursor stands inside its tags, or at their end.
    pub closed spec fn wf(&self) -> bool {
        self.pos <= self.all().len()
    }

    /// The tags still to come, in order.
    pub closed spec fn view(&self) -> Seq<(Seq<char>, Seq<char>)> {
        self.all().skip(self.pos as int)
    }

    /// The next tag, or `None` when all have been handed out.
    pub fn next(&mut self) -> (item: Option<(&'l str, &'l str)>)
        requires
            old(self).wf(),
        ensures
            final(self).wf(),
            match item {
                Some((key, value)) => old(self)@.len() > 0 && (key@, value@) == old(self)@[0]
                    && final(self)@ == old(self)@.skip(1),
                None => old(self)@.len() == 0 && final(self)@ == old(self)@,
            },
    {
        let pos = self.pos;
        match self.fields {
            NodeTagFields::Normal(keys, vals) => {
                if pos < keys.len() && pos < vals.len() {
                    let key = self.strings.get(keys[pos] as usize);
                    let value = self.strings.get(vals[pos] as usize);
                    self.pos = pos + 1;
                    assert(final(self)@ =~= old(self)@.skip(1));
                    Some((key, value))
                } else {
                    None
                }
            },
            NodeTagFields::Dense(key_values) => {
                if pos < key_values.len() / 2 {
                    let key = self.strings.get_signed(key_values[2 * pos]);
                    let value = self.strings.get_signed(key_values[2 * pos + 1]);
                    self.pos = pos + 1;
                    assert(final(self)@ =~= old(self)@.skip(1));
                    Some((key, value))
                } else {
                    None
                }
            },
        }
    }

    /// The number of tags still to come, as a lower and an upper bound.
    pub fn size_hint(&self) -> (hint: (usize, Option<usize>))
        requires
            self.wf(),
        ensures
            hint.0 == self@.len(),
            hint.1 == Some(hint.0),
    {
        let total = match self.fields {
            NodeTagFields::Normal(keys, vals) => {
                if keys.len() <= vals.len() {
                    keys.len()
                } else {
                    vals.len()
                }
            },
            NodeTagFields::Dense(key_values) => key_values.len() / 2,
        };
        let left = total - self.pos;
        (left, Some(left))
    }
}

} // verus!
