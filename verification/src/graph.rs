//! Extracted operation graphs and their topological order.

use std::collections::HashMap;

use itertools::Itertools;
use petgraph::algo::toposort;
use petgraph::graph::{DiGraph, NodeIndex};
use vstd::prelude::*;
use vstd::relations::total_ordering;
use vstd::seq_lib::lemma_sorted_unique;

use crate::dtype::DType;

verus! {

/// A node of an extracted graph.
pub enum GraphNode<K> {
    /// A tensor that the host provides under the number `hlir`.
    Input { hlir: usize, dtype: DType },
    /// A tensor that the host reads back under the number `hlir`.
    Output { hlir: usize },
    /// An operation of the backend's dialect.
    Op(K),
    /// An operation that was not lowered to the backend's dialect.
    Unlowered,
}

/// A data dependency: `target` reads what `source` produces. The numbers of the
/// edges into one node give the order of its arguments.
#[derive(Clone, Copy, PartialEq, Eq, Structural, Debug)]
pub struct GraphEdge {
    pub id: usize,
    pub source: usize,
    pub target: usize,
}

/// An extracted graph. Nodes are named by their position in `nodes`.
pub struct LlirGraph<K> {
    pub nodes: Vec<GraphNode<K>>,
    pub edges: Vec<GraphEdge>,
}

/// The edges as pairs of source and target.
pub open spec fn arrows(edges: Seq<GraphEdge>) -> Seq<(usize, usize)> {
    edges.map_values(|edge: GraphEdge| (edge.source, edge.target))
}

/// Whether `order` names each of `count` nodes once and every arrow leads
/// forward in it.
pub open spec fn is_topological(
    count: nat,
    arrows: Seq<(usize, usize)>,
    order: Seq<usize>,
) -> bool {
    &&& order.len() == count
    &&& order.no_duplicates()
    &&& forall|i: int| 0 <= i < order.len() ==> #[trigger] order[i] < count
    &&& forall|k: int, i: int, j: int|
        #![trigger arrows[k], order[i], order[j]]
        0 <= k < arrows.len() && 0 <= i < order.len() && 0 <= j < order.len() && order[i]
            == arrows[k].0 && order[j] == arrows[k].1 ==> i < j
}

/// Whether `walk` follows the arrows from its first node back to it.
pub open spec fn is_cycle(arrows: Seq<(usize, usize)>, walk: Seq<usize>) -> bool {
    &&& walk.len() >= 2
    &&& walk[0] == walk.last()
    &&& forall|i: int| 0 <= i < walk.len() - 1 ==> #[trigger] follows_arrow(arrows, walk, i)
}

/// Whether the step of `walk` after position `i` follows an arrow.
pub open spec fn follows_arrow(arrows: Seq<(usize, usize)>, walk: Seq<usize>, i: int) -> bool {
    arrows.contains((walk[i], walk[i + 1]))
}

/// What `petgraph::algo::toposort` returns for the graph with `count` nodes and
/// these arrows, added in this order.
pub uninterp spec fn toposort_result(
    count: nat,
    arrows: Seq<(usize, usize)>,
) -> Option<Seq<usize>>;

/// `petgraph::algo::toposort` on the graph with `count` nodes and these arrows:
/// a topological order, or nothing where the graph has a cycle. Which of
/// several orders comes out depends on the arguments alone and has a name.
#[verifier::external_body]
pub(crate) fn petgraph_toposort(count: usize, arrows: &Vec<(usize, usize)>) -> (r: Option<Vec<usize>>)
    requires
        forall|k: int|
            0 <= k < arrows@.len() ==> #[trigger] arrows@[k].0 < count && arrows@[k].1 < count,
    ensures
        match r {
            Some(order) => toposort_result(count as nat, arrows@) == Some(order@)
                && is_topological(count as nat, arrows@, order@),
            None => toposort_result(count as nat, arrows@) is None && exists|walk: Seq<usize>|
                is_cycle(arrows@, walk),
        },
{
    let mut graph: DiGraph<(), (), usize> = DiGraph::default();
    for _ in 0..count {
        graph.add_node(());
    }
    for &(source, target) in arrows {
        graph.add_edge(NodeIndex::new(source), NodeIndex::new(target), ());
    }
    let order = toposort(&graph, None).ok()?;
    Some(order.into_iter().map(|node| node.index()).collect())
}

/// The pairs whose first component is `key`, in their order.
pub open spec fn with_key(pairs: Seq<(usize, usize)>, key: usize) -> Seq<(usize, usize)> {
    pairs.filter(|pair: (usize, usize)| pair.0 == key)
}

/// `Itertools::sorted_by_key` on pairs, by their first component: the same
/// pairs in ascending order, those with equal keys in the order they had.
#[verifier::external_body]
pub(crate) fn sorted_by_first(pairs: Vec<(usize, usize)>) -> (r: Vec<(usize, usize)>)
    ensures
        r@.to_multiset() == pairs@.to_multiset(),
        forall|i: int, j: int| 0 <= i < j < r@.len() ==> (#[trigger] r@[i]).0 <= (#[trigger] r@[j]).0,
        forall|key: usize| #[trigger] with_key(r@, key) == with_key(pairs@, key),
{
    pairs.into_iter().sorted_by_key(|pair| pair.0).collect()
}

/// Pairs ordered by their first component, then by their second.
pub open spec fn pair_order() -> spec_fn((usize, usize), (usize, usize)) -> bool {
    |a: (usize, usize), b: (usize, usize)| a.0 < b.0 || (a.0 == b.0 && a.1 <= b.1)
}

/// The edges into `node` as pairs of number and source.
pub open spec fn incoming(edges: Seq<GraphEdge>, node: usize) -> Seq<(usize, usize)> {
    edges.filter(|edge: GraphEdge| edge.target == node).map_values(
        |edge: GraphEdge| (edge.id, edge.source),
    )
}

/// The nodes that `node` reads, in the order of the numbers of its edges.
pub open spec fn sources(edges: Seq<GraphEdge>, node: usize) -> Seq<usize> {
    incoming(edges, node).sort_by(pair_order()).map_values(|pair: (usize, usize)| pair.1)
}

impl<K> LlirGraph<K> {
    /// Every edge joins two nodes of the graph, and no two edges share a number.
    pub open spec fn wf(self) -> bool {
        &&& forall|k: int|
            0 <= k < self.edges@.len() ==> (#[trigger] self.edges@[k]).source < self.nodes@.len()
                && self.edges@[k].target < self.nodes@.len()
        &&& forall|i: int, j: int|
            0 <= i < j < self.edges@.len() ==> (#[trigger] self.edges@[i]).id != (
            #[trigger] self.edges@[j]).id
    }

    /// The nodes that `node` reads, first argument first.
    pub open spec fn sources(self, node: usize) -> Seq<usize> {
        sources(self.edges@, node)
    }

    /// The order in which the graph is compiled and run.
    pub open spec fn order(self) -> Option<Seq<usize>> {
        toposort_result(self.nodes@.len(), arrows(self.edges@))
    }

    /// Whether `order` is a topological order of this graph.
    pub open spec fn ordered_by(self, order: Seq<usize>) -> bool {
        is_topological(self.nodes@.len(), arrows(self.edges@), order)
    }

    /// The host number of each input node.
    pub open spec fn hlir_inputs(self) -> Map<usize, usize> {
        Map::new(
            |node: usize| node < self.nodes@.len() && self.nodes@[node as int] is Input,
            |node: usize| self.nodes@[node as int]->Input_hlir,
        )
    }

    /// What each host output reads, after the first `count` nodes of `order`:
    /// the first argument of the output node, and where two output nodes carry
    /// one number, that of the later.
    pub open spec fn outputs_before(self, order: Seq<usize>, count: nat) -> Map<usize, usize>
        decreases count,
    {
        if count == 0 {
            Map::empty()
        } else {
            let before = self.outputs_before(order, (count - 1) as nat);
            let node = order[count - 1];
            match self.nodes@[node as int] {
                GraphNode::Output { hlir } => if self.sources(node).len() > 0 {
                    before.insert(hlir, self.sources(node)[0])
                } else {
                    before
                },
                _ => before,
            }
        }
    }

    /// What each host output reads.
    pub open spec fn outputs(self, order: Seq<usize>) -> Map<usize, usize> {
        self.outputs_before(order, order.len())
    }

    /// The type of the first input node, from `start` on, that stands for the
    /// host tensor `id`.
    pub open spec fn input_dtype_from(self, id: usize, start: nat) -> Option<DType>
        decreases self.nodes@.len() - start,
    {
        if start >= self.nodes@.len() {
            None
        } else {
            match self.nodes@[start as int] {
                GraphNode::Input { hlir, dtype } => if hlir == id {
                    Some(dtype)
                } else {
                    self.input_dtype_from(id, start + 1)
                },
                _ => self.input_dtype_from(id, start + 1),
            }
        }
    }

    /// The type under which the graph reads the host tensor `id`, if it does.
    pub fn input_dtype(&self, id: usize) -> (r: Option<DType>)
        ensures
            r == self.input_dtype_from(id, 0),
    {
        for i in 0..self.nodes.len()
            invariant
                self.input_dtype_from(id, 0) == self.input_dtype_from(id, i as nat),
        {
            if let GraphNode::Input { hlir, dtype } = &self.nodes[i] {
                if *hlir == id {
                    return Some(*dtype);
                }
            }
        }
        None
    }

    /// The host number of each input node.
    pub fn collect_inputs(&self) -> (r: HashMap<usize, usize>)
        ensures
            r@ == self.hlir_inputs(),
    {
        broadcast use vstd::std_specs::hash::group_hash_axioms;

        let mut inputs: HashMap<usize, usize> = HashMap::new();
        for i in 0..self.nodes.len()
            invariant
                inputs@ == self.hlir_inputs().restrict(
                    Set::new(|node: usize| node < i),
                ),
        {
            broadcast use vstd::std_specs::hash::group_hash_axioms;

            if let GraphNode::Input { hlir, .. } = &self.nodes[i] {
                inputs.insert(i, *hlir);
            }
        }
        inputs
    }

    /// What each host output reads.
    pub fn collect_outputs(&self, order: &Vec<usize>) -> (r: HashMap<usize, usize>)
        requires
            self.wf(),
            self.ordered_by(order@),
        ensures
            r@ == self.outputs(order@),
    {
        broadcast use vstd::std_specs::hash::group_hash_axioms;

        let mut outputs: HashMap<usize, usize> = HashMap::new();
        for i in 0..order.len()
            invariant
                self.wf(),
                self.ordered_by(order@),
                outputs@ == self.outputs_before(order@, i as nat),
        {
            broadcast use vstd::std_specs::hash::group_hash_axioms;

            let node = order[i];
            if let GraphNode::Output { hlir } = &self.nodes[node] {
                let sources = self.input_nodes(node);
                if sources.len() > 0 {
                    outputs.insert(*hlir, sources[0]);
                }
            }
        }
        outputs
    }

    /// A topological order of the graph, or nothing if it has a cycle.
    pub fn topological_order(&self) -> (r: Option<Vec<usize>>)
        requires
            self.wf(),
        ensures
            match r {
                Some(order) => self.order() == Some(order@) && self.ordered_by(order@),
                None => self.order() is None && exists|walk: Seq<usize>|
                    is_cycle(arrows(self.edges@), walk),
            },
    {
        let mut pairs: Vec<(usize, usize)> = Vec::new();
        for i in 0..self.edges.len()
            invariant
                pairs@ == arrows(self.edges@).take(i as int),
        {
            let edge = self.edges[i];
            pairs.push((edge.source, edge.target));
        }
        proof {
            assert(pairs@ == arrows(self.edges@));
        }
        petgraph_toposort(self.nodes.len(), &pairs)
    }

    /// The nodes that `node` reads, first argument first.
    pub fn input_nodes(&self, node: usize) -> (r: Vec<usize>)
        requires
            self.wf(),
        ensures
            r@ == self.sources(node),
    {
        let mut pairs: Vec<(usize, usize)> = Vec::new();
        for i in 0..self.edges.len()
            invariant
                pairs@ == incoming(self.edges@.take(i as int), node),
        {
            proof {
                lemma_incoming_step(self.edges@, i as int, node);
            }
            let edge = self.edges[i];
            if edge.target == node {
                pairs.push((edge.id, edge.source));
            }
        }
        proof {
            assert(self.edges@.take(self.edges@.len() as int) == self.edges@);
        }
        let sorted = sorted_by_first(pairs);
        proof {
            lemma_sorted_incoming(self.edges@, node, sorted@);
        }
        let mut nodes: Vec<usize> = Vec::new();
        for i in 0..sorted.len()
            invariant
                nodes@ == sorted@.take(i as int).map_values(|pair: (usize, usize)| pair.1),
        {
            proof {
                assert(sorted@.take(i + 1) == sorted@.take(i as int).push(sorted@[i as int]));
            }
            nodes.push(sorted[i].1);
        }
        proof {
            assert(sorted@.take(sorted@.len() as int) == sorted@);
        }
        nodes
    }
}

proof fn lemma_incoming_step(edges: Seq<GraphEdge>, i: int, node: usize)
    requires
        0 <= i < edges.len(),
    ensures
        edges[i].target == node ==> incoming(edges.take(i + 1), node) == incoming(
            edges.take(i),
            node,
        ).push((edges[i].id, edges[i].source)),
        edges[i].target != node ==> incoming(edges.take(i + 1), node) == incoming(
            edges.take(i),
            node,
        ),
{
    reveal(Seq::filter);
    assert(edges.take(i + 1).drop_last() == edges.take(i));
}

/// An incoming pair belongs to an edge into the node.
proof fn lemma_incoming_has_edge(edges: Seq<GraphEdge>, node: usize, k: int)
    requires
        0 <= k < incoming(edges, node).len(),
    ensures
        exists|e: int|
            0 <= e < edges.len() && (#[trigger] edges[e]).target == node && incoming(edges, node)[k] == (
                edges[e].id,
                edges[e].source,
            ),
    decreases edges.len(),
{
    reveal(Seq::filter);
    let last = edges.len() - 1;
    let shorter = edges.drop_last();
    assert(edges.take(last + 1) == edges && edges.take(last) == shorter);
    lemma_incoming_step(edges, last, node);
    if k < incoming(shorter, node).len() {
        lemma_incoming_has_edge(shorter, node, k);
        let e = choose|e: int|
            0 <= e < shorter.len() && (#[trigger] shorter[e]).target == node && incoming(
                shorter,
                node,
            )[k] == (shorter[e].id, shorter[e].source);
        assert(edges[e] == shorter[e]);
    } else {
        assert(edges[last].target == node);
    }
}

proof fn lemma_pair_order_total()
    ensures
        total_ordering(pair_order()),
{
}

/// Sorting the incoming pairs by their numbers alone gives their order.
proof fn lemma_sorted_incoming(edges: Seq<GraphEdge>, node: usize, sorted: Seq<(usize, usize)>)
    requires
        forall|i: int, j: int|
            0 <= i < j < edges.len() ==> (#[trigger] edges[i]).id != (#[trigger] edges[j]).id,
        sorted.to_multiset() == incoming(edges, node).to_multiset(),
        forall|i: int, j: int|
            0 <= i < j < sorted.len() ==> (#[trigger] sorted[i]).0 <= (#[trigger] sorted[j]).0,
    ensures
        sorted == incoming(edges, node).sort_by(pair_order()),
{
    broadcast use vstd::seq_lib::group_to_multiset_ensures;

    let pairs = incoming(edges, node);
    lemma_pair_order_total();
    pairs.lemma_sort_by_ensures(pair_order());
    assert forall|i: int, j: int| 0 <= i < j < sorted.len() implies #[trigger] pair_order()(
        sorted[i],
        sorted[j],
    ) by {
        assert(sorted.to_multiset().count(sorted[i]) > 0);
        assert(sorted.to_multiset().count(sorted[j]) > 0);
        assert(pairs.contains(sorted[i]) && pairs.contains(sorted[j]));
        let a = pairs.index_of(sorted[i]);
        let b = pairs.index_of(sorted[j]);
        lemma_incoming_has_edge(edges, node, a);
        lemma_incoming_has_edge(edges, node, b);
    }
    lemma_sorted_unique(sorted, pairs.sort_by(pair_order()), pair_order());
}

/// The arguments of a node come in the order of the numbers of its edges:
/// however the edges into it are put in ascending order, their sources are its
/// arguments.
pub proof fn law_arguments_follow_edge_numbers<K>(
    graph: LlirGraph<K>,
    node: usize,
    pairs: Seq<(usize, usize)>,
)
    requires
        graph.wf(),
        pairs.to_multiset() == incoming(graph.edges@, node).to_multiset(),
        forall|i: int, j: int|
            0 <= i < j < pairs.len() ==> (#[trigger] pairs[i]).0 <= (#[trigger] pairs[j]).0,
    ensures
        graph.sources(node) == pairs.map_values(|pair: (usize, usize)| pair.1),
{
    lemma_sorted_incoming(graph.edges@, node, pairs);
}

/// A node read by `node` is the source of an edge into it.
pub proof fn lemma_source_has_edge<K>(graph: LlirGraph<K>, node: usize, k: int)
    requires
        0 <= k < graph.sources(node).len(),
    ensures
        exists|e: int|
            0 <= e < graph.edges@.len() && (#[trigger] graph.edges@[e]).target == node
                && graph.edges@[e].source == graph.sources(node)[k],
{
    broadcast use vstd::seq_lib::group_to_multiset_ensures;

    let pairs = incoming(graph.edges@, node);
    let sorted = pairs.sort_by(pair_order());
    lemma_pair_order_total();
    pairs.lemma_sort_by_ensures(pair_order());
    assert(sorted.contains(sorted[k]));
    assert(pairs.contains(sorted[k]));
    lemma_incoming_has_edge(graph.edges@, node, pairs.index_of(sorted[k]));
}

/// What an operation reads comes earlier in every topological order.
pub proof fn law_arguments_come_first<K>(graph: LlirGraph<K>, order: Seq<usize>, at: int, k: int)
    requires
        graph.wf(),
        graph.ordered_by(order),
        0 <= at < order.len(),
        0 <= k < graph.sources(order[at]).len(),
    ensures
        exists|i: int| 0 <= i < at && #[trigger] order[i] == graph.sources(order[at])[k],
{
    lemma_source_has_edge(graph, order[at], k);
    let e = choose|e: int|
        0 <= e < graph.edges@.len() && (#[trigger] graph.edges@[e]).target == order[at]
            && graph.edges@[e].source == graph.sources(order[at])[k];
    let source = graph.edges@[e].source;
    lemma_order_names_every_node(graph.nodes@.len(), order, source);
    let i = choose|i: int| 0 <= i < order.len() && #[trigger] order[i] == source;
    assert(arrows(graph.edges@)[e] == (source, order[at]));
}

/// An order without repetition that is as long as there are nodes names every
/// node.
pub proof fn lemma_order_names_every_node(count: nat, order: Seq<usize>, node: usize)
    requires
        order.len() == count,
        order.no_duplicates(),
        forall|i: int| 0 <= i < order.len() ==> #[trigger] order[i] < count,
        node < count,
    ensures
        exists|i: int| 0 <= i < order.len() && #[trigger] order[i] == node,
{
    let positions = order.map_values(|n: usize| n as int);
    let all = vstd::set_lib::set_int_range(0, count as int);
    vstd::set_lib::lemma_int_range(0, count as int);
    assert(positions.no_duplicates()) by {
        assert forall|i: int, j: int|
            0 <= i < positions.len() && 0 <= j < positions.len() && i != j implies positions[i]
            != positions[j] by {
            assert(order[i] != order[j]);
        }
    }
    positions.unique_seq_to_set();
    assert(positions.to_set().subset_of(all)) by {
        assert forall|x: int| positions.to_set().contains(x) implies all.contains(x) by {
            let i = choose|i: int| 0 <= i < positions.len() && positions[i] == x;
            assert(order[i] < count);
        }
    }
    vstd::set_lib::lemma_subset_equality(positions.to_set(), all);
    assert(all.contains(node as int));
    assert(positions.contains(node as int));
    let i = choose|i: int| 0 <= i < positions.len() && positions[i] == node as int;
    assert(order[i] == node);
}

/// A graph with a cycle has no topological order.
pub proof fn law_cycle_has_no_order(
    count: nat,
    arrows: Seq<(usize, usize)>,
    walk: Seq<usize>,
    order: Seq<usize>,
)
    requires
        is_cycle(arrows, walk),
        forall|k: int|
            0 <= k < arrows.len() ==> #[trigger] arrows[k].0 < count && arrows[k].1 < count,
    ensures
        !is_topological(count, arrows, order),
{
    if is_topological(count, arrows, order) {
        let start = lemma_walk_leads_forward(count, arrows, walk, order, 0);
        let end = lemma_walk_leads_forward(count, arrows, walk, order, walk.len() - 1);
        assert(start < end) by {
            lemma_walk_is_strict(count, arrows, walk, order, walk.len() - 1);
        }
        assert(order[start] == order[end]);
    }
}

/// The position of a walk's node in an order.
#[verifier::spinoff_prover]
proof fn lemma_walk_leads_forward(
    count: nat,
    arrows: Seq<(usize, usize)>,
    walk: Seq<usize>,
    order: Seq<usize>,
    at: int,
) -> (i: int)
    requires
        is_cycle(arrows, walk),
        is_topological(count, arrows, order),
        forall|k: int|
            0 <= k < arrows.len() ==> #[trigger] arrows[k].0 < count && arrows[k].1 < count,
        0 <= at < walk.len(),
    ensures
        i == order.index_of(walk[at]),
        0 <= i < order.len(),
        order[i] == walk[at],
{
    let step = if at < walk.len() - 1 { at } else { at - 1 };
    assert(follows_arrow(arrows, walk, step));
    let arrow = (walk[step], walk[step + 1]);
    assert(arrows.contains(arrow));
    let k = arrows.index_of(arrow);
    assert(0 <= k < arrows.len() && arrows[k] == arrow);
    assert(arrows[k].0 < count);
    assert(arrow.0 < count && arrow.1 < count);
    assert(walk[at] == arrow.0 || walk[at] == arrow.1);
    lemma_order_names_every_node(count, order, walk[at]);
    assert(order.contains(walk[at]));
    order.index_of(walk[at])
}

#[verifier::spinoff_prover]
proof fn lemma_walk_is_strict(
    count: nat,
    arrows: Seq<(usize, usize)>,
    walk: Seq<usize>,
    order: Seq<usize>,
    at: int,
)
    requires
        is_cycle(arrows, walk),
        is_topological(count, arrows, order),
        forall|k: int|
            0 <= k < arrows.len() ==> #[trigger] arrows[k].0 < count && arrows[k].1 < count,
        1 <= at < walk.len(),
    ensures
        order.index_of(walk[0]) < order.index_of(walk[at]),
    decreases at,
{
    if at > 1 {
        lemma_walk_is_strict(count, arrows, walk, order, at - 1);
    }
    let i = lemma_walk_leads_forward(count, arrows, walk, order, at - 1);
    let j = lemma_walk_leads_forward(count, arrows, walk, order, at);
    assert(follows_arrow(arrows, walk, at - 1));
    let arrow = (walk[at - 1], walk[at]);
    assert(arrows.contains(arrow));
    let k = arrows.index_of(arrow);
    assert(0 <= k < arrows.len() && arrows[k] == arrow);
    assert(arrows[k] == (order[i], order[j]));
}

} // verus!
