//! What running a compiled graph computes.
//!
//! Tensors are values of any type, and an operation is any function from the
//! tensors that it reads to the one that it gives. A graph then determines the
//! tensor of every node, and the laws say that running its steps leaves that
//! tensor in the node's buffer, where the outputs are read.

use std::collections::HashMap;

use vstd::prelude::*;

use crate::buckets::{bound_or_zero, bucket_admits, dim_admits, DimFit};
use crate::dtype::DType;
use crate::graph::{lemma_order_names_every_node, GraphNode, LlirGraph};
use crate::program::{
    allocations_for, buffers_after, choose_bucket, chosen_bucket, compile_all, compile_bucket,
    compiles_to, dtypes_of, find_output, first_missing, home, input_dtype, input_dtype_in, law_every_operation_is_one_step,
    law_steps_read_what_is_there, lemma_none_untyped, lemma_op_positions, lemma_typed_nodes,
    op_positions, step_inputs, step_views, BucketLlir, BufferRef, CompiledBucket,
    ExecuteError, ExecutionStep, GraphOp, LoadError, OutputError, Readback,
};

verus! {

/// Whether `tensor` gives every node of a graph its tensor: an input has the
/// host's, and an operation has what it makes of the tensors of the nodes that it
/// reads, first argument first.
pub open spec fn gives<K, T>(
    graph: LlirGraph<K>,
    host: spec_fn(usize) -> T,
    apply: spec_fn(K, Seq<T>) -> T,
    tensor: spec_fn(usize) -> T,
) -> bool {
    forall|node: usize|
        node < graph.nodes@.len() ==> match graph.nodes@[node as int] {
            GraphNode::Input { hlir, .. } => #[trigger] tensor(node) == host(hlir),
            GraphNode::Op(op) => tensor(node) == apply(
                op,
                graph.sources(node).map_values(|source: usize| tensor(source)),
            ),
            _ => true,
        }
}

/// The buffers after the first `count` steps of a compiled graph were run: each
/// reads the buffers of its arguments and writes its own.
pub open spec fn after_steps<K, T>(
    bucket: CompiledBucket<K>,
    apply: spec_fn(K, Seq<T>) -> T,
    memory: spec_fn(BufferRef) -> T,
    count: nat,
) -> spec_fn(BufferRef) -> T
    decreases count,
{
    if count == 0 {
        memory
    } else {
        let before = after_steps(bucket, apply, memory, (count - 1) as nat);
        let step = bucket.steps@[count - 1];
        let result = apply(
            bucket.op(count - 1),
            step.input_nodes@.map_values(|node: usize| before(home(bucket, node))),
        );
        |buffer: BufferRef|
            if buffer == BufferRef::Intermediate(step.node) {
                result
            } else {
                before(buffer)
            }
    }
}

/// Running a compiled graph computes the graph: with the host's tensors uploaded,
/// the buffer of every step holds, once the step was run, the tensor of the
/// step's node, and the uploaded tensors are as they were.
pub proof fn law_running_computes_the_graph<K: GraphOp, T>(
    llir: BucketLlir<K>,
    device: K::Device,
    bucket: CompiledBucket<K>,
    host: spec_fn(usize) -> T,
    apply: spec_fn(K, Seq<T>) -> T,
    tensor: spec_fn(usize) -> T,
    memory: spec_fn(BufferRef) -> T,
    count: nat,
)
    requires
        llir.graph.wf(),
        call_ensures(compile_bucket::<K>, (llir, &device), Ok(bucket)),
        gives(llir.graph, host, apply, tensor),
        forall|hlir: usize| #[trigger] memory(BufferRef::Input(hlir)) == host(hlir),
        count <= bucket.steps@.len(),
    ensures
        forall|j: int|
            0 <= j < count ==> after_steps(bucket, apply, memory, count)(
                BufferRef::Intermediate((#[trigger] bucket.steps@[j]).node),
            ) == tensor(bucket.steps@[j].node),
        forall|hlir: usize| #[trigger]
            after_steps(bucket, apply, memory, count)(BufferRef::Input(hlir)) == host(hlir),
    decreases count,
{
    if count > 0 {
        law_running_computes_the_graph(
            llir,
            device,
            bucket,
            host,
            apply,
            tensor,
            memory,
            (count - 1) as nat,
        );
        let graph = llir.graph;
        let order = graph.order()->Some_0;
        let steps = graph.steps_before(order, order.len());
        let before = after_steps(bucket, apply, memory, (count - 1) as nat);
        let now = after_steps(bucket, apply, memory, count);
        let i = count - 1;
        assert(step_views(bucket.steps@) == steps);
        assert(step_views(bucket.steps@)[i] == bucket.steps@[i]@);
        lemma_op_positions(graph, order, order.len());
        let at = op_positions(graph, order, order.len())[i];
        assert(steps[i] == graph.step_at(order, at));
        let node = bucket.steps@[i].node;
        let nodes = bucket.steps@[i].input_nodes@;
        assert(node == order[at] && nodes == graph.sources(node));
        let got = nodes.map_values(|source: usize| before(home(bucket, source)));
        let want = nodes.map_values(|source: usize| tensor(source));
        assert(got =~= want) by {
            assert forall|k: int| 0 <= k < nodes.len() implies before(home(bucket, nodes[k]))
                == #[trigger] tensor(nodes[k]) by {
                assert(steps[i].input_nodes == nodes);
                law_steps_read_what_is_there(graph, order, device, i, k);
                if graph.hlir_inputs().contains_key(nodes[k]) {
                    let hlir = graph.nodes@[nodes[k] as int]->Input_hlir;
                    assert(before(BufferRef::Input(hlir)) == host(hlir));
                } else {
                    let j = choose|j: int| 0 <= j < i && (#[trigger] steps[j]).node == nodes[k];
                    assert(step_views(bucket.steps@)[j] == bucket.steps@[j]@);
                    assert(bucket.steps@[j].node == nodes[k]);
                }
            }
        }
        assert(order[at] < graph.nodes@.len());
        assert(tensor(node) == apply(bucket.op(i), want));
        assert(now(BufferRef::Intermediate(node)) == tensor(node));
        assert forall|j: int| 0 <= j < count implies now(
            BufferRef::Intermediate((#[trigger] bucket.steps@[j]).node),
        ) == tensor(bucket.steps@[j].node) by {
            if j < i {
                assert(step_views(bucket.steps@)[j] == bucket.steps@[j]@);
                law_every_operation_is_one_step(graph, order, node);
                assert(steps[j].node != steps[i].node);
            }
        }
        assert forall|hlir: usize| #[trigger] now(BufferRef::Input(hlir)) == host(hlir) by {
            assert(before(BufferRef::Input(hlir)) == host(hlir));
        }
    }
}

/// Whether a node is an output of a graph with the given number.
pub open spec fn is_output<K>(graph: LlirGraph<K>, node: usize, id: usize) -> bool {
    &&& node < graph.nodes@.len()
    &&& graph.nodes@[node as int] matches GraphNode::Output { hlir } && hlir == id
}

/// What is read for an output after a run is the tensor of the node that the
/// output reads, and as many bytes as that tensor's buffer has.
pub proof fn law_outputs_are_the_graphs<K: GraphOp, T>(
    llir: BucketLlir<K>,
    device: K::Device,
    compiled: CompiledBucket<K>,
    bucket: CompiledBucket<K>,
    buckets: Vec<CompiledBucket<K>>,
    active: usize,
    inputs: HashMap<usize, usize>,
    host: spec_fn(usize) -> T,
    apply: spec_fn(K, Seq<T>) -> T,
    tensor: spec_fn(usize) -> T,
    memory: spec_fn(BufferRef) -> T,
    output: usize,
    id: usize,
    readback: Readback,
)
    requires
        llir.graph.wf(),
        call_ensures(compile_bucket::<K>, (llir, &device), Ok(compiled)),
        bucket.llir_to_hlir == compiled.llir_to_hlir,
        bucket.output_data == compiled.output_data,
        bucket.node_dtypes == compiled.node_dtypes,
        gives(llir.graph, host, apply, tensor),
        forall|hlir: usize| #[trigger] memory(BufferRef::Input(hlir)) == host(hlir),
        is_output(llir.graph, output, id),
        llir.graph.sources(output).len() > 0,
        forall|other: usize| #[trigger] is_output(llir.graph, other, id) ==> other == output,
        active < buckets@.len(),
        buckets@[active as int] == bucket,
        call_ensures(find_output::<K>, (&inputs, &buckets, active, id), Ok(readback)),
    ensures
        after_steps(compiled, apply, memory, compiled.steps@.len())(readback.source) == tensor(
            llir.graph.sources(output)[0],
        ),
        readback.source matches BufferRef::Input(hlir) ==> readback.bytes == inputs@[hlir],
        readback.source matches BufferRef::Intermediate(node) ==> readback.bytes
            == bucket.buffers@[node],
{
    let graph = llir.graph;
    let order = graph.order()->Some_0;
    law_running_computes_the_graph(
        llir,
        device,
        compiled,
        host,
        apply,
        tensor,
        memory,
        compiled.steps@.len(),
    );
    lemma_output_source(graph, order, output, id, order.len());
    lemma_order_names_every_node(graph.nodes@.len(), order, output);
    let source = graph.sources(output)[0];
    assert(bucket.output_data@[id] == source);
    let now = after_steps(compiled, apply, memory, compiled.steps@.len());
    if graph.hlir_inputs().contains_key(source) {
        let hlir = graph.nodes@[source as int]->Input_hlir;
        assert(now(BufferRef::Input(hlir)) == host(hlir));
        assert(tensor(source) == host(hlir));
    } else {
        let steps = graph.steps_before(order, order.len());
        lemma_typed_nodes(graph, order, order.len(), source);
        law_every_operation_is_one_step(graph, order, source);
        let j = choose|j: int| 0 <= j < steps.len() && (#[trigger] steps[j]).node == source;
        assert(step_views(compiled.steps@)[j] == compiled.steps@[j]@);
        assert(compiled.steps@[j].node == source);
    }
}

/// An output whose number no other output has reads its first argument.
proof fn lemma_output_source<K>(
    graph: LlirGraph<K>,
    order: Seq<usize>,
    output: usize,
    id: usize,
    count: nat,
)
    requires
        graph.ordered_by(order),
        count <= order.len(),
        is_output(graph, output, id),
        graph.sources(output).len() > 0,
        forall|other: usize| #[trigger] is_output(graph, other, id) ==> other == output,
    ensures
        graph.outputs_before(order, count).contains_key(id) <==> order.take(
            count as int,
        ).contains(output),
        order.take(count as int).contains(output) ==> graph.outputs_before(order, count)[id]
            == graph.sources(output)[0],
        count == order.len() ==> order.take(count as int).contains(output),
    decreases count,
{
    if count > 0 {
        lemma_output_source(graph, order, output, id, (count - 1) as nat);
        let node = order[count - 1];
        let longer = order.take(count as int);
        let shorter = order.take(count - 1);
        assert(longer == shorter.push(node));
        assert(is_output(graph, node, id) ==> node == output);
        assert(node < graph.nodes@.len());
        if shorter.contains(output) {
            let k = shorter.index_of(output);
            assert(longer[k] == output);
        }
        if node == output {
            assert(longer[count - 1] == output);
        }
        if longer.contains(output) && node != output {
            let k = longer.index_of(output);
            assert(shorter[k] == output);
        }
    }
    if count == order.len() {
        lemma_order_names_every_node(graph.nodes@.len(), order, output);
        let k = choose|k: int| 0 <= k < order.len() && #[trigger] order[k] == output;
        assert(order.take(count as int)[k] == output);
    }
}

/// The types of a compiled graph agree with one another: an input has the type
/// that its node declares, a result has the type that its operation gives for the
/// types of the arguments, and each step carries exactly those types.
pub proof fn law_types_follow_the_graph<K: GraphOp>(
    llir: BucketLlir<K>,
    device: K::Device,
    bucket: CompiledBucket<K>,
    node: usize,
)
    requires
        llir.graph.wf(),
        call_ensures(compile_bucket::<K>, (llir, &device), Ok(bucket)),
        node < llir.graph.nodes@.len(),
    ensures
        match llir.graph.nodes@[node as int] {
            GraphNode::Input { dtype, .. } => bucket.node_dtypes@.contains_key(node)
                && bucket.node_dtypes@[node] == dtype,
            GraphNode::Op(op) => {
                let arguments = llir.graph.sources(node).map_values(
                    |source: usize| bucket.node_dtypes@[source],
                );
                &&& bucket.node_dtypes@.contains_key(node)
                &&& bucket.node_dtypes@[node] == op.result_dtype(arguments)
                &&& forall|i: int|
                    0 <= i < bucket.steps@.len() && (#[trigger] bucket.steps@[i]).node == node
                        ==> bucket.steps@[i].input_dtypes@ == arguments
                        && bucket.steps@[i].output_dtype == bucket.node_dtypes@[node]
            },
            GraphNode::Output { .. } => !bucket.node_dtypes@.contains_key(node),
            GraphNode::Unlowered => false,
        },
{
    let graph = llir.graph;
    let order = graph.order()->Some_0;
    lemma_order_names_every_node(graph.nodes@.len(), order, node);
    let at = choose|at: int| 0 <= at < order.len() && #[trigger] order[at] == node;
    lemma_typed_nodes(graph, order, order.len(), node);
    assert(graph.fault_at(order, at, device) is None);
    if graph.nodes@[node as int] is Input || graph.nodes@[node as int] is Op {
        assert(graph.dtypes_before(order, (at + 1) as nat).contains_key(node));
        lemma_types_stay(graph, order, (at + 1) as nat, order.len(), node);
    }
    if graph.nodes@[node as int] is Op {
        let before = graph.dtypes_before(order, at as nat);
        let sources = graph.sources(node);
        let arguments = sources.map_values(|source: usize| bucket.node_dtypes@[source]);
        lemma_none_untyped(before, sources);
        assert(dtypes_of(before, sources) =~= arguments) by {
            assert forall|k: int| 0 <= k < sources.len() implies before[#[trigger] sources[k]]
                == bucket.node_dtypes@[sources[k]] by {
                lemma_types_stay(graph, order, at as nat, order.len(), sources[k]);
            }
        }
        let steps = graph.steps_before(order, order.len());
        lemma_op_positions(graph, order, order.len());
        assert forall|i: int| 0 <= i < bucket.steps@.len() && (
        #[trigger] bucket.steps@[i]).node == node implies bucket.steps@[i].input_dtypes@
            == arguments && bucket.steps@[i].output_dtype == bucket.node_dtypes@[node] by {
            assert(step_views(bucket.steps@)[i] == bucket.steps@[i]@);
            let place = op_positions(graph, order, order.len())[i];
            assert(steps[i] == graph.step_at(order, place));
            assert(order[place] == order[at]);
            assert(place == at);
        }
    }
}

/// A type, once found, stays: no node is met twice.
proof fn lemma_types_stay<K: GraphOp>(
    graph: LlirGraph<K>,
    order: Seq<usize>,
    from: nat,
    to: nat,
    node: usize,
)
    requires
        graph.ordered_by(order),
        from <= to <= order.len(),
        graph.dtypes_before(order, from).contains_key(node),
    ensures
        graph.dtypes_before(order, to).contains_key(node),
        graph.dtypes_before(order, to)[node] == graph.dtypes_before(order, from)[node],
    decreases to - from,
{
    if from < to {
        lemma_types_stay(graph, order, from, (to - 1) as nat, node);
        lemma_typed_nodes(graph, order, from, node);
        let at = choose|at: int| 0 <= at < from && #[trigger] order[at] == node;
        assert(order[to - 1] != order[at]);
    }
}

/// The range of a dimension that a graph was compiled for: the first, where none is
/// named.
pub open spec fn range_of<K>(bucket: CompiledBucket<K>, dim: u64) -> int {
    if bucket.bucket_indices@.contains_key(dim) {
        bucket.bucket_indices@[dim] as int
    } else {
        0
    }
}

/// Whether the range of every dimension that a graph was compiled for, where there
/// is that range, holds the dimension's value.
pub open spec fn holds_values<K>(fits: Seq<DimFit>, bucket: CompiledBucket<K>) -> bool {
    forall|d: int|
        0 <= d < fits.len() && range_of(bucket, (#[trigger] fits[d]).dim) < fits[d].fits@.len()
            ==> fits[d].fits@[range_of(bucket, fits[d].dim)]
}

/// Of several compiled graphs, the one that is chosen was compiled for a range of
/// every dimension that holds the dimension's value; one is chosen wherever there is
/// such a graph, and it is the first. A single graph is chosen whatever the values.
pub proof fn law_chosen_graph_fits<K>(
    buckets: Vec<CompiledBucket<K>>,
    fits: Vec<DimFit>,
    r: Option<usize>,
)
    requires
        buckets@.len() > 0,
        call_ensures(choose_bucket::<K>, (&buckets, &fits), r),
    ensures
        r matches Some(chosen) ==> chosen < buckets@.len() && (buckets@.len() > 1 ==> holds_values(
            fits@,
            buckets@[chosen as int],
        )),
        forall|i: int|
            0 <= i < buckets@.len() && holds_values(fits@, #[trigger] buckets@[i]) ==> (
            r matches Some(chosen) && chosen <= i),
        buckets@.len() == 1 ==> r == Some(0usize),
{
    lemma_chosen_fits(buckets@, fits@, r);
}

/// Whoever is chosen by the ranges holds the values, and is the first to do so.
pub(crate) proof fn lemma_chosen_fits<K>(
    buckets: Seq<CompiledBucket<K>>,
    fits: Seq<DimFit>,
    r: Option<usize>,
)
    requires
        buckets.len() > 0,
        chosen_bucket(buckets, fits, r),
    ensures
        r matches Some(chosen) ==> chosen < buckets.len() && (buckets.len() > 1 ==> holds_values(
            fits,
            buckets[chosen as int],
        )),
        forall|i: int|
            0 <= i < buckets.len() && holds_values(fits, #[trigger] buckets[i]) ==> (
            r matches Some(chosen) && chosen <= i),
        buckets.len() == 1 ==> r == Some(0usize),
{
    assert forall|i: int| 0 <= i < buckets.len() implies holds_values(fits, #[trigger] buckets[i])
        == bucket_admits(fits, buckets[i].bucket_indices@) by {
        let bucket = buckets[i];
        let indices = bucket.bucket_indices@;
        if holds_values(fits, bucket) {
            assert forall|d: int| 0 <= d < fits.len() implies #[trigger] dim_admits(
                fits[d],
                indices,
            ) by {
                assert(range_of(bucket, fits[d].dim) == bound_or_zero(indices, fits[d].dim));
            }
        }
        if bucket_admits(fits, indices) {
            assert forall|d: int| 0 <= d < fits.len() && range_of(bucket, (#[trigger] fits[d]).dim)
                < fits[d].fits@.len() implies fits[d].fits@[range_of(bucket, fits[d].dim)] by {
                assert(dim_admits(fits[d], indices));
            }
        }
    }
    if let Some(chosen) = r {
        assert(chosen < buckets.len());
        assert(holds_values(fits, buckets[chosen as int]) == bucket_admits(
            fits,
            buckets[chosen as int].bucket_indices@,
        ));
    }
}

/// Loading compiles every graph that is given, in the order in which they are given
/// and for the ranges that they were extracted for, and allocates nothing yet.
pub proof fn law_loaded_graphs_are_those_given<K: GraphOp>(
    llirs: Vec<BucketLlir<K>>,
    device: K::Device,
    r: Result<Vec<CompiledBucket<K>>, LoadError<K::Fault>>,
    i: int,
)
    requires
        0 <= i < llirs@.len(),
        call_ensures(compile_all::<K>, (llirs, &device), r),
    ensures
        r matches Ok(buckets) ==> {
            &&& buckets@.len() == llirs@.len()
            &&& buckets@[i].graph == llirs@[i].graph
            &&& buckets@[i].bucket_indices == llirs@[i].indices
            &&& buckets@[i].buffers@ == Map::<usize, usize>::empty()
            &&& forall|node: usize| #[trigger]
                buckets@[i].llir_to_hlir@.contains_key(node) <==> node < llirs@[i].graph.nodes@.len()
                    && llirs@[i].graph.nodes@[node as int] is Input
            &&& forall|node: usize| #[trigger]
                buckets@[i].llir_to_hlir@.contains_key(node) ==> buckets@[i].llir_to_hlir@[node]
                    == llirs@[i].graph.nodes@[node as int]->Input_hlir
        },
        r matches Err(LoadError::NoBuckets) ==> false,
{
    if let Ok(buckets) = r {
        assert(compiles_to(llirs@[i], device, Ok(buckets@[i])));
    }
}

/// Allocating gives every step a buffer with room for its result, and at least
/// one byte: one of the right size that was there is kept, any other is made, and
/// the buffers of other nodes stay as they are.
pub proof fn law_results_have_room<K>(bucket: CompiledBucket<K>, bytes: Seq<usize>, i: int)
    requires
        bucket.wf(),
        bytes.len() == bucket.steps@.len(),
        0 <= i < bucket.steps@.len(),
    ensures
        ({
            let steps = bucket.steps@;
            let before = bucket.buffers@;
            let after = buffers_after(before, steps, bytes, steps.len());
            let made = allocations_for(before, steps, bytes, steps.len());
            let node = steps[i].node;
            let kept = before.contains_key(node) && before[node] == bytes[i];
            &&& after.contains_key(node) && after[node] == bytes[i]
            &&& kept ==> forall|a: int| 0 <= a < made.len() ==> (#[trigger] made[a]).node != node
            &&& !kept ==> exists|a: int|
                0 <= a < made.len() && (#[trigger] made[a]).node == node && (bytes[i] > 0
                    ==> made[a].allocation == bytes[i]) && (bytes[i] == 0 ==> made[a].allocation
                    == 1) && made[a].replaces == before.contains_key(node)
            &&& forall|other: usize|
                (forall|j: int| 0 <= j < steps.len() ==> (#[trigger] steps[j]).node != other)
                    ==> (#[trigger] after.contains_key(other) == before.contains_key(other)
                    && after[other] == before[other])
        }),
{
    let steps = bucket.steps@;
    let node = steps[i].node;
    lemma_room(bucket, bytes, steps.len(), i);
    let after = buffers_after(bucket.buffers@, steps, bytes, steps.len());
    assert forall|other: usize|
        (forall|j: int| 0 <= j < steps.len() ==> (#[trigger] steps[j]).node != other) implies (
    #[trigger] after.contains_key(other) == bucket.buffers@.contains_key(other) && after[other]
        == bucket.buffers@[other]) by {
        lemma_others_keep_their_buffers(bucket.buffers@, steps, bytes, steps.len(), other);
    }
}

proof fn lemma_others_keep_their_buffers(
    buffers: Map<usize, usize>,
    steps: Seq<ExecutionStep>,
    bytes: Seq<usize>,
    count: nat,
    other: usize,
)
    requires
        count <= steps.len(),
        forall|j: int| 0 <= j < count ==> (#[trigger] steps[j]).node != other,
    ensures
        buffers_after(buffers, steps, bytes, count).contains_key(other) == buffers.contains_key(
            other,
        ),
        buffers_after(buffers, steps, bytes, count)[other] == buffers[other],
    decreases count,
{
    if count > 0 {
        lemma_others_keep_their_buffers(buffers, steps, bytes, (count - 1) as nat, other);
        assert(steps[count - 1].node != other);
        let before = buffers_after(buffers, steps, bytes, (count - 1) as nat);
        let node = steps[count - 1].node;
        assert(before.insert(node, bytes[count - 1]).contains_key(other) == before.contains_key(
            other,
        ));
        if !before.contains_key(other) {
            lemma_unset_stays_unset(before, node, bytes[count - 1], other);
        }
    }
}

/// A key without a value keeps what the map gives for it when another is set.
proof fn lemma_unset_stays_unset(map: Map<usize, usize>, set: usize, value: usize, other: usize)
    requires
        set != other,
    ensures
        map.insert(set, value)[other] == map[other],
{
}

proof fn lemma_room<K>(bucket: CompiledBucket<K>, bytes: Seq<usize>, count: nat, i: int)
    requires
        bucket.wf(),
        bytes.len() == bucket.steps@.len(),
        count <= bucket.steps@.len(),
        0 <= i < bucket.steps@.len(),
    ensures
        ({
            let steps = bucket.steps@;
            let before = bucket.buffers@;
            let after = buffers_after(before, steps, bytes, count);
            let made = allocations_for(before, steps, bytes, count);
            let node = steps[i].node;
            let kept = before.contains_key(node) && before[node] == bytes[i];
            &&& i < count ==> after.contains_key(node) && after[node] == bytes[i]
            &&& i >= count ==> after.contains_key(node) == before.contains_key(node)
                && after[node] == before[node]
            &&& kept || i >= count ==> forall|a: int|
                0 <= a < made.len() ==> (#[trigger] made[a]).node != node
            &&& !kept && i < count ==> exists|a: int|
                0 <= a < made.len() && (#[trigger] made[a]).node == node && (bytes[i] > 0
                    ==> made[a].allocation == bytes[i]) && (bytes[i] == 0 ==> made[a].allocation
                    == 1) && made[a].replaces == before.contains_key(node)
        }),
    decreases count,
{
    if count > 0 {
        lemma_room(bucket, bytes, (count - 1) as nat, i);
        let steps = bucket.steps@;
        let before = bucket.buffers@;
        let node = steps[i].node;
        let earlier = allocations_for(before, steps, bytes, (count - 1) as nat);
        let made = allocations_for(before, steps, bytes, count);
        assert(steps[count - 1].node == node <==> i == count - 1);
        if i < count - 1 && !(before.contains_key(node) && before[node] == bytes[i]) {
            let a = choose|a: int|
                0 <= a < earlier.len() && (#[trigger] earlier[a]).node == node && (bytes[i] > 0
                    ==> earlier[a].allocation == bytes[i]) && (bytes[i] == 0
                    ==> earlier[a].allocation == 1) && earlier[a].replaces == before.contains_key(
                    node,
                );
            assert(made[a] == earlier[a]);
        }
        if i == count - 1 && !(before.contains_key(node) && before[node] == bytes[i]) {
            assert(made[made.len() - 1].node == node);
        }
    }
}

/// The type of a host tensor is one that an input node of a graph declares for
/// it, and there is none exactly where no graph reads the tensor.
pub proof fn law_host_types_are_declared<K>(buckets: Vec<CompiledBucket<K>>, id: usize, r: Option<DType>)
    requires
        call_ensures(input_dtype::<K>, (&buckets, id), r),
    ensures
        r matches Some(dtype) ==> exists|i: int, node: int|
            0 <= i < buckets@.len() && 0 <= node < buckets@[i].graph.nodes@.len()
                && #[trigger] declares(buckets@[i], node, id, dtype),
        r is None ==> forall|i: int, node: int, dtype: DType|
            0 <= i < buckets@.len() && 0 <= node < buckets@[i].graph.nodes@.len()
                ==> !#[trigger] declares(buckets@[i], node, id, dtype),
{
    lemma_types_in_graphs(buckets@, id, 0);
}

/// Whether a node of a compiled graph is an input for host tensor `id` with this
/// type.
pub open spec fn declares<K>(bucket: CompiledBucket<K>, node: int, id: usize, dtype: DType) -> bool {
    bucket.graph.nodes@[node] matches GraphNode::Input { hlir, dtype: declared } && hlir == id
        && declared == dtype
}

/// Whether some graph reads host tensor `id`, as elements of this type.
pub open spec fn is_declared<K>(buckets: Seq<CompiledBucket<K>>, id: usize, dtype: DType) -> bool {
    exists|i: int, node: int|
        0 <= i < buckets.len() && 0 <= node < buckets[i].graph.nodes@.len()
            && #[trigger] declares(buckets[i], node, id, dtype)
}

/// Whether some graph reads host tensor `id`.
pub open spec fn is_read<K>(buckets: Seq<CompiledBucket<K>>, id: usize) -> bool {
    exists|dtype: DType| is_declared(buckets, id, dtype)
}

/// The tensors that are listed with the type found for them are those that were set
/// and that a graph reads.
pub(crate) proof fn lemma_pending_is_read<K, D>(
    data: Map<usize, D>,
    buckets: Seq<CompiledBucket<K>>,
    pending: Seq<(usize, DType)>,
    id: usize,
)
    requires
        forall|other: usize, dtype: DType| #[trigger]
            pending.contains((other, dtype)) <==> data.contains_key(other) && input_dtype_in(
                buckets,
                other,
                0,
            ) == Some(dtype),
    ensures
        (exists|k: int| 0 <= k < pending.len() && (#[trigger] pending[k]).0 == id)
            <==> data.contains_key(id) && is_read(buckets, id),
        forall|k: int|
            0 <= k < pending.len() ==> is_declared(
                buckets,
                (#[trigger] pending[k]).0,
                pending[k].1,
            ),
{
    assert forall|k: int| 0 <= k < pending.len() implies is_declared(
        buckets,
        (#[trigger] pending[k]).0,
        pending[k].1,
    ) && data.contains_key(pending[k].0) by {
        assert(pending.contains((pending[k].0, pending[k].1)));
        lemma_types_in_graphs(buckets, pending[k].0, 0);
    }
    lemma_types_in_graphs(buckets, id, 0);
    if data.contains_key(id) && is_read(buckets, id) {
        let dtype = input_dtype_in(buckets, id, 0)->Some_0;
        assert(pending.contains((id, dtype)));
        let k = pending.index_of((id, dtype));
        assert(pending[k].0 == id);
    }
}

proof fn lemma_types_in_graphs<K>(buckets: Seq<CompiledBucket<K>>, id: usize, start: nat)
    requires
        start <= buckets.len(),
    ensures
        input_dtype_in(buckets, id, start) matches Some(dtype) ==> exists|i: int, node: int|
            start <= i < buckets.len() && 0 <= node < buckets[i].graph.nodes@.len()
                && #[trigger] declares(buckets[i], node, id, dtype),
        input_dtype_in(buckets, id, start) is None ==> forall|i: int, node: int, dtype: DType|
            start <= i < buckets.len() && 0 <= node < buckets[i].graph.nodes@.len()
                ==> !#[trigger] declares(buckets[i], node, id, dtype),
    decreases buckets.len() - start,
{
    if start < buckets.len() {
        lemma_types_in_graphs(buckets, id, start + 1);
        lemma_types_in_graph(buckets[start as int], id, 0);
    }
}

proof fn lemma_types_in_graph<K>(bucket: CompiledBucket<K>, id: usize, start: nat)
    requires
        start <= bucket.graph.nodes@.len(),
    ensures
        bucket.graph.input_dtype_from(id, start) matches Some(dtype) ==> exists|node: int|
            start <= node < bucket.graph.nodes@.len() && #[trigger] declares(
                bucket,
                node,
                id,
                dtype,
            ),
        bucket.graph.input_dtype_from(id, start) is None ==> forall|node: int, dtype: DType|
            start <= node < bucket.graph.nodes@.len() ==> !#[trigger] declares(
                bucket,
                node,
                id,
                dtype,
            ),
    decreases bucket.graph.nodes@.len() - start,
{
    if start < bucket.graph.nodes@.len() {
        lemma_types_in_graph(bucket, id, start + 1);
        if let Some(dtype) = bucket.graph.input_dtype_from(id, start) {
            assert(declares(bucket, start as int, id, dtype) || bucket.graph.input_dtype_from(
                id,
                start + 1,
            ) == Some(dtype));
        }
    }
}

/// What a refused run or read names is what is missing: the number of a host
/// tensor that was not uploaded, or a node whose result has no buffer. Nothing is
/// refused where every node that is read has its buffer.
pub proof fn law_what_is_missing_is_named<K>(
    inputs: HashMap<usize, usize>,
    bucket: CompiledBucket<K>,
    nodes: Vec<usize>,
    r: Result<Vec<BufferRef>, ExecuteError>,
)
    requires
        call_ensures(step_inputs::<K>, (&inputs, &bucket, &nodes), r),
    ensures
        match r {
            Ok(found) => {
                &&& found@.len() == nodes@.len()
                &&& forall|k: int|
                    0 <= k < nodes@.len() ==> #[trigger] found@[k] == home(bucket, nodes@[k])
                        && is_there(inputs@, bucket, found@[k])
            },
            Err(ExecuteError::InputNotSet(hlir)) => !inputs@.contains_key(hlir) && exists|k: int|
                0 <= k < nodes@.len() && home(bucket, #[trigger] nodes@[k]) == BufferRef::Input(
                    hlir,
                ),
            Err(ExecuteError::MissingIntermediate(node)) => !bucket.buffers@.contains_key(node)
                && !bucket.llir_to_hlir@.contains_key(node) && nodes@.contains(node),
            Err(_) => false,
        },
{
    lemma_missing(inputs@, bucket, nodes@);
}

/// Whether a buffer exists.
pub open spec fn is_there<K>(
    inputs: Map<usize, usize>,
    bucket: CompiledBucket<K>,
    buffer: BufferRef,
) -> bool {
    match buffer {
        BufferRef::Input(hlir) => inputs.contains_key(hlir),
        BufferRef::Intermediate(node) => bucket.buffers@.contains_key(node),
    }
}

proof fn lemma_missing<K>(
    inputs: Map<usize, usize>,
    bucket: CompiledBucket<K>,
    nodes: Seq<usize>,
)
    ensures
        match first_missing(inputs, bucket, nodes) {
            None => forall|k: int|
                0 <= k < nodes.len() ==> is_there(inputs, bucket, home(bucket, #[trigger] nodes[k])),
            Some(ExecuteError::InputNotSet(hlir)) => !inputs.contains_key(hlir) && exists|k: int|
                0 <= k < nodes.len() && home(bucket, #[trigger] nodes[k]) == BufferRef::Input(hlir),
            Some(ExecuteError::MissingIntermediate(node)) => !bucket.buffers@.contains_key(node)
                && !bucket.llir_to_hlir@.contains_key(node) && nodes.contains(node),
            Some(_) => false,
        },
    decreases nodes.len(),
{
    if nodes.len() > 0 {
        let rest = nodes.skip(1);
        lemma_missing(inputs, bucket, rest);
        assert(nodes.contains(nodes[0]));
        match first_missing(inputs, bucket, nodes) {
            None => {
                assert forall|k: int| 0 <= k < nodes.len() implies is_there(
                    inputs,
                    bucket,
                    home(bucket, #[trigger] nodes[k]),
                ) by {
                    if k > 0 {
                        assert(rest[k - 1] == nodes[k]);
                    }
                }
            },
            Some(ExecuteError::InputNotSet(hlir)) => {
                if home(bucket, nodes[0]) != BufferRef::Input(hlir) {
                    let k = choose|k: int|
                        0 <= k < rest.len() && home(bucket, #[trigger] rest[k])
                            == BufferRef::Input(hlir);
                    assert(nodes[k + 1] == rest[k]);
                }
            },
            Some(ExecuteError::MissingIntermediate(node)) => {
                if rest.contains(node) {
                    let k = rest.index_of(node);
                    assert(nodes[k + 1] == rest[k]);
                }
            },
            _ => {},
        }
    }
}

/// An output is read wherever the active graph has it, its type is known and its
/// buffer exists; what a refusal names is missing.
pub proof fn law_readable_outputs_are_read<K>(
    inputs: HashMap<usize, usize>,
    buckets: Vec<CompiledBucket<K>>,
    active: usize,
    id: usize,
    r: Result<Readback, OutputError>,
)
    requires
        call_ensures(find_output::<K>, (&inputs, &buckets, active, id), r),
    ensures
        r is Ok <==> active < buckets@.len() && buckets@[active as int].output_data@.contains_key(
            id,
        ) && ({
            let bucket = buckets@[active as int];
            let node = bucket.output_data@[id];
            bucket.node_dtypes@.contains_key(node) && is_there(inputs@, bucket, home(bucket, node))
        }),
        match r {
            Ok(readback) => {
                let bucket = buckets@[active as int];
                let node = bucket.output_data@[id];
                &&& readback.source == home(bucket, node)
                &&& readback.dtype == bucket.node_dtypes@[node]
            },
            Err(OutputError::NotCompiled) => active >= buckets@.len(),
            Err(OutputError::NoOutput(named)) => named == id && !buckets@[active as int].output_data@.contains_key(
                id,
            ),
            Err(OutputError::NoDType(named)) => named == id,
            Err(OutputError::InputNotSet(hlir)) => !inputs@.contains_key(hlir),
            Err(OutputError::NotAllocated(node)) => !buckets@[active as int].buffers@.contains_key(
                node,
            ),
            Err(_) => false,
        },
{
}

} // verus!
