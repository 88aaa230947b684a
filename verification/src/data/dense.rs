//! The dense layout holds what the normal layout holds: nodes that are
//! written densely come out as the nodes that were written.
use crate::data::node::node_model;
use crate::data::primitive::{all_primitives, dense_len, dense_node, dense_run, group_primitives,
    next_run, run_end, run_start, PrimitiveType};
use crate::data::tags::{dense_tags, normal_tags};
use crate::data::{delta_sum, Meta, Offset};
use crate::pbf::{DenseInfoMsg, DenseMsg, GroupMsg, NodeMsg};
use vstd::prelude::*;
use vstd::wrapping::i64_specs;

verus! {

/// The number of tags of a node in the normal layout.
pub open spec fn pair_count(node: NodeMsg) -> int {
    if node.keys.len() <= node.vals.len() {
        node.keys.len() as int
    } else {
        node.vals.len() as int
    }
}

/// The node can be written densely: the string indices of its tags fit in 31
/// bits, and no key has the index zero, which the dense layout reads as the
/// end of the run.
pub open spec fn fits_dense(node: NodeMsg) -> bool {
    &&& forall|j: int| 0 <= j < pair_count(node) ==> 0 < #[trigger] node.keys[j] <= i32::MAX
    &&& forall|j: int| 0 <= j < pair_count(node) ==> #[trigger] node.vals[j] <= i32::MAX
}

/// The run of a node in the dense layout: key and value of each tag in
/// turn, and a closing zero.
pub open spec fn node_run(node: NodeMsg) -> Seq<i32> {
    let pairs = pair_count(node);
    Seq::new(
        (2 * pairs + 1) as nat,
        |j: int|
            if j == 2 * pairs {
                0i32
            } else if j % 2 == 0 {
                node.keys[j / 2] as i32
            } else {
                node.vals[j / 2] as i32
            },
    )
}

/// The runs of the first `n` nodes, one after the other.
pub open spec fn dense_keys_vals(nodes: Seq<NodeMsg>, n: int) -> Seq<i32>
    decreases n,
{
    if n <= 0 {
        Seq::empty()
    } else {
        dense_keys_vals(nodes, n - 1) + node_run(nodes[n - 1])
    }
}

/// The step from the value before to `values[i]`, from zero for the first.
pub open spec fn delta_at(values: Seq<i64>, i: int) -> i64 {
    i64_specs::wrapping_sub(
        values[i],
        if i <= 0 {
            0i64
        } else {
            values[i - 1]
        },
    )
}

/// The dense group that holds the nodes.
pub open spec fn densify(nodes: Seq<NodeMsg>) -> DenseMsg {
    let n = nodes.len();
    DenseMsg {
        id: Seq::new(n, |i: int| delta_at(Seq::new(n, |k: int| nodes[k].id), i)),
        denseinfo: Some(
            DenseInfoMsg {
                version: Seq::new(
                    n,
                    |i: int|
                        match nodes[i].info {
                            Some(info) => info.version,
                            None => 0i32,
                        },
                ),
                visible: Seq::new(n, |i: int| Meta::of_info(nodes[i].info).visible),
            },
        ),
        lat: Seq::new(n, |i: int| delta_at(Seq::new(n, |k: int| nodes[k].lat), i)),
        lon: Seq::new(n, |i: int| delta_at(Seq::new(n, |k: int| nodes[k].lon), i)),
        keys_vals: dense_keys_vals(nodes, n as int),
    }
}

/// A group that holds the nodes in the normal layout, and nothing else.
pub open spec fn normal_group(nodes: Seq<NodeMsg>) -> GroupMsg {
    GroupMsg {
        nodes,
        dense: None,
        ways: Seq::empty(),
        relations: Seq::empty(),
        changesets: Seq::empty(),
    }
}

/// A group that holds the nodes in the dense layout, and nothing else.
pub open spec fn dense_group(nodes: Seq<NodeMsg>) -> GroupMsg {
    GroupMsg {
        nodes: Seq::empty(),
        dense: Some(densify(nodes)),
        ways: Seq::empty(),
        relations: Seq::empty(),
        changesets: Seq::empty(),
    }
}

/// The sums of the steps are the values.
proof fn lemma_sum_of_deltas(values: Seq<i64>, deltas: Seq<i64>, p: int)
    requires
        deltas.len() == values.len(),
        forall|i: int| 0 <= i < values.len() ==> #[trigger] deltas[i] == delta_at(values, i),
        0 <= p < values.len(),
    ensures
        delta_sum(deltas, p + 1) == values[p],
    decreases p,
{
    if p > 0 {
        lemma_sum_of_deltas(values, deltas, p - 1);
    } else {
        assert(delta_sum(deltas, 0) == 0);
    }
    assert(deltas[p] == delta_at(values, p));
    assert(delta_sum(deltas, p + 1) == i64_specs::wrapping_add(delta_sum(deltas, p), deltas[p]));
}

/// The run of node `p` stands in the runs of the first `n` nodes, after the
/// runs of the nodes before it.
proof fn lemma_run_in_full(nodes: Seq<NodeMsg>, n: int, p: int)
    requires
        0 <= p < n <= nodes.len(),
    ensures
        dense_keys_vals(nodes, p).len() + node_run(nodes[p]).len() <= dense_keys_vals(
            nodes,
            n,
        ).len(),
        dense_keys_vals(nodes, n).subrange(
            dense_keys_vals(nodes, p).len() as int,
            (dense_keys_vals(nodes, p).len() + node_run(nodes[p]).len()) as int,
        ) == node_run(nodes[p]),
    decreases n - p,
{
    let start = dense_keys_vals(nodes, p).len() as int;
    let run = node_run(nodes[p]);
    let end = start + run.len() as int;
    if n == p + 1 {
        assert(dense_keys_vals(nodes, n).subrange(start, end) =~= run);
    } else {
        lemma_run_in_full(nodes, n - 1, p);
        assert(dense_keys_vals(nodes, n).subrange(start, end) =~= dense_keys_vals(
            nodes,
            n - 1,
        ).subrange(start, end));
    }
}

/// Inside the run of a node that fits, the run ends at its closing zero.
proof fn lemma_run_end_in_run(key_values: Seq<i32>, base: int, node: NodeMsg, j: int)
    requires
        fits_dense(node),
        0 <= base,
        base + 2 * pair_count(node) + 1 <= key_values.len(),
        key_values.subrange(base, base + 2 * pair_count(node) + 1) == node_run(node),
        0 <= j <= pair_count(node),
    ensures
        run_end(key_values, base + 2 * j) == base + 2 * pair_count(node),
    decreases pair_count(node) - j,
{
    let pairs = pair_count(node);
    let run = key_values.subrange(base, base + 2 * pairs + 1);
    assert(key_values[base + 2 * j] == run[2 * j]);
    if j < pairs {
        assert(run[2 * j] == node.keys[j] as i32);
        lemma_run_end_in_run(key_values, base, node, j + 1);
    }
}

/// The run of node `p` begins where the runs of the nodes before it end.
proof fn lemma_run_start(nodes: Seq<NodeMsg>, p: int)
    requires
        forall|i: int| 0 <= i < nodes.len() ==> fits_dense(#[trigger] nodes[i]),
        0 <= p <= nodes.len(),
    ensures
        run_start(dense_keys_vals(nodes, nodes.len() as int), p) == dense_keys_vals(nodes, p).len(),
    decreases p,
{
    if p > 0 {
        let full = dense_keys_vals(nodes, nodes.len() as int);
        let start = dense_keys_vals(nodes, p - 1).len() as int;
        lemma_run_start(nodes, p - 1);
        lemma_run_in_full(nodes, nodes.len() as int, p - 1);
        lemma_run_end_in_run(full, start, nodes[p - 1], 0);
        assert(next_run(full, start) == start + 2 * pair_count(nodes[p - 1]) + 1);
    }
}

/// The tags of the dense run of a node are the tags of the node.
proof fn lemma_dense_tags(nodes: Seq<NodeMsg>, p: int, strings: Seq<Seq<char>>)
    requires
        forall|i: int| 0 <= i < nodes.len() ==> fits_dense(#[trigger] nodes[i]),
        0 <= p < nodes.len(),
    ensures
        dense_tags(dense_run(dense_keys_vals(nodes, nodes.len() as int), p), strings)
            == normal_tags(nodes[p].keys, nodes[p].vals, strings),
{
    let full = dense_keys_vals(nodes, nodes.len() as int);
    let node = nodes[p];
    let pairs = pair_count(node);
    let start = dense_keys_vals(nodes, p).len() as int;
    lemma_run_start(nodes, p);
    lemma_run_in_full(nodes, nodes.len() as int, p);
    lemma_run_end_in_run(full, start, node, 0);
    let run = dense_run(full, p);
    let whole = full.subrange(start, start + 2 * pairs + 1);
    assert(run =~= full.subrange(start, start + 2 * pairs));
    assert forall|j: int| 0 <= j < pairs implies run[2 * j] == node.keys[j] && run[2 * j + 1]
        == node.vals[j] by {
        assert(run[2 * j] == whole[2 * j]);
        assert(run[2 * j + 1] == whole[2 * j + 1]);
        assert((2 * j) / 2 == j && (2 * j + 1) / 2 == j);
        assert(0 < node.keys[j] <= i32::MAX);
        assert(node.vals[j] <= i32::MAX);
    }
    assert((2 * pairs) / 2 == pairs);
    assert(dense_tags(run, strings) =~= normal_tags(node.keys, node.vals, strings));
}

/// Nodes that fit the dense layout come out of it as they went in: node `p`
/// of the dense group equals node `p` of the normal layout in identity,
/// place, tags and metadata.
pub proof fn lemma_dense_node(
    nodes: Seq<NodeMsg>,
    p: int,
    offset: Offset,
    strings: Seq<Seq<char>>,
)
    requires
        forall|i: int| 0 <= i < nodes.len() ==> fits_dense(#[trigger] nodes[i]),
        0 <= p < nodes.len(),
    ensures
        dense_len(densify(nodes)) == nodes.len(),
        dense_node(densify(nodes), p, offset, strings) == node_model(nodes[p], offset, strings),
{
    let dense = densify(nodes);
    let n = nodes.len();
    lemma_sum_of_deltas(Seq::new(n, |k: int| nodes[k].id), dense.id, p);
    lemma_sum_of_deltas(Seq::new(n, |k: int| nodes[k].lat), dense.lat, p);
    lemma_sum_of_deltas(Seq::new(n, |k: int| nodes[k].lon), dense.lon, p);
    lemma_dense_tags(nodes, p, strings);
}

/// A walk that asks for nodes finds the same in a group that holds nodes in
/// the dense layout as in one that holds them in the normal layout, in the
/// same order.
pub proof fn lemma_dense_equivalence(
    nodes: Seq<NodeMsg>,
    filter: PrimitiveType,
    offset: Offset,
    strings: Seq<Seq<char>>,
)
    requires
        forall|i: int| 0 <= i < nodes.len() ==> fits_dense(#[trigger] nodes[i]),
        filter.nodes(),
    ensures
        group_primitives(dense_group(nodes), filter, offset, strings) == group_primitives(
            normal_group(nodes),
            filter,
            offset,
            strings,
        ),
        all_primitives(seq![dense_group(nodes)], filter, offset, strings) == all_primitives(
            seq![normal_group(nodes)],
            filter,
            offset,
            strings,
        ),
{
    let dense = group_primitives(dense_group(nodes), filter, offset, strings);
    let normal = group_primitives(normal_group(nodes), filter, offset, strings);
    if nodes.len() > 0 {
        lemma_dense_node(nodes, 0, offset, strings);
    }
    assert(dense_len(densify(nodes)) == nodes.len());
    assert forall|p: int| 0 <= p < nodes.len() implies dense[p] == normal[p] by {
        lemma_dense_node(nodes, p, offset, strings);
    }
    assert(dense =~= normal);
    crate::data::primitive_group::lemma_single_group(dense_group(nodes), filter, offset, strings);
    crate::data::primitive_group::lemma_single_group(normal_group(nodes), filter, offset, strings);
}

} // verus!
