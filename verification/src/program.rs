//! Compiled graphs: the steps of a graph, their element types and the sizes of
//! their buffers.

use std::collections::HashMap;

use vstd::prelude::*;

use crate::buckets::{admits, bucket_admits, DimFit};
use crate::dtype::DType;
use crate::graph::{arrows, is_cycle, lemma_order_names_every_node, GraphNode, LlirGraph};
use crate::maps::{keys_of, lookup};

verus! {

/// An operation of a backend's dialect, as far as compiling a graph looks at
/// it.
pub trait GraphOp: Sized {
    /// What can be wrong with an operation.
    type Fault;

    /// What is known of the device.
    type Device;

    /// Whether the parts of operations are compared as they are in contracts.
    spec fn lawful() -> bool;

    /// The type of the result, for operands of these types.
    spec fn result_dtype(&self, inputs: Seq<DType>) -> DType;

    /// What is wrong with the operation at `node` for this number of operands.
    spec fn operand_fault(&self, node: usize, count: nat) -> Option<Self::Fault>;

    /// What is wrong with the operation at `node` for operands of these types.
    spec fn type_fault(
        &self,
        node: usize,
        device: Self::Device,
        inputs: Seq<DType>,
    ) -> Option<Self::Fault>;

    /// The type of the result, for operands of these types.
    fn infer_dtype(&self, inputs: &Vec<DType>) -> (r: DType)
        ensures
            r == self.result_dtype(inputs@),
    ;

    /// What is wrong with the operation at `node` for this number of operands.
    fn check_operands(&self, node: usize, count: usize) -> (r: Option<Self::Fault>)
        requires
            Self::lawful(),
        ensures
            r == self.operand_fault(node, count as nat),
    ;

    /// What is wrong with the operation at `node` for operands of these types.
    fn check_types(&self, node: usize, device: &Self::Device, inputs: &Vec<DType>) -> (r: Option<
        Self::Fault,
    >)
        ensures
            r == self.type_fault(node, *device, inputs@),
    ;
}

/// Why a graph cannot be compiled.
#[derive(Clone, Copy, PartialEq, Eq, Structural, Debug)]
pub enum CompileError<F> {
    /// The graph has a cycle.
    Cycle,
    /// The node was not lowered to the backend's dialect.
    Unlowered(usize),
    /// An operation reads this node, which has no element type.
    MissingDType(usize),
    /// Something is wrong with an operation.
    Op(F),
}

/// An operation that is run, what it reads and the element types involved.
pub struct ExecutionStep {
    pub node: usize,
    pub input_nodes: Vec<usize>,
    pub input_dtypes: Vec<DType>,
    pub output_dtype: DType,
}

/// An execution step, as a value.
#[verifier::ext_equal]
pub struct StepView {
    pub node: usize,
    pub input_nodes: Seq<usize>,
    pub input_dtypes: Seq<DType>,
    pub output_dtype: DType,
}

impl View for ExecutionStep {
    type V = StepView;

    open spec fn view(&self) -> StepView {
        StepView {
            node: self.node,
            input_nodes: self.input_nodes@,
            input_dtypes: self.input_dtypes@,
            output_dtype: self.output_dtype,
        }
    }
}

/// The steps, as values.
pub open spec fn step_views(steps: Seq<ExecutionStep>) -> Seq<StepView> {
    steps.map_values(|step: ExecutionStep| step@)
}

/// A compiled graph and the sizes of its buffers.
pub struct CompiledBucket<K> {
    /// Which range of each dynamic dimension the graph was extracted for.
    pub bucket_indices: HashMap<u64, usize>,
    pub graph: LlirGraph<K>,
    /// The host number of each input node.
    pub llir_to_hlir: HashMap<usize, usize>,
    pub node_dtypes: HashMap<usize, DType>,
    /// The node that each host output reads.
    pub output_data: HashMap<usize, usize>,
    pub steps: Vec<ExecutionStep>,
    /// The logical size in bytes of each allocated result.
    pub buffers: HashMap<usize, usize>,
}

/// A graph to be compiled, and the ranges that it was extracted for.
pub struct BucketLlir<K> {
    pub indices: HashMap<u64, usize>,
    pub graph: LlirGraph<K>,
}

/// The types of these nodes.
pub open spec fn dtypes_of(dtypes: Map<usize, DType>, nodes: Seq<usize>) -> Seq<DType> {
    nodes.map_values(|node: usize| dtypes[node])
}

/// The first of these nodes without a type.
pub open spec fn first_untyped(dtypes: Map<usize, DType>, nodes: Seq<usize>) -> Option<usize>
    decreases nodes.len(),
{
    if nodes.len() == 0 {
        None
    } else if !dtypes.contains_key(nodes[0]) {
        Some(nodes[0])
    } else {
        first_untyped(dtypes, nodes.skip(1))
    }
}

fn input_types(dtypes: &HashMap<usize, DType>, nodes: &Vec<usize>) -> (r: Result<
    Vec<DType>,
    usize,
>)
    ensures
        match r {
            Ok(found) => first_untyped(dtypes@, nodes@) is None && found@ == dtypes_of(
                dtypes@,
                nodes@,
            ),
            Err(node) => first_untyped(dtypes@, nodes@) == Some(node),
        },
{
    broadcast use vstd::std_specs::hash::group_hash_axioms;

    let mut found: Vec<DType> = Vec::new();
    proof {
        assert(nodes@.skip(0) == nodes@);
    }
    for i in 0..nodes.len()
        invariant
            first_untyped(dtypes@, nodes@) == first_untyped(dtypes@, nodes@.skip(i as int)),
            found@ == dtypes_of(dtypes@, nodes@.take(i as int)),
    {
        broadcast use vstd::std_specs::hash::group_hash_axioms;

        proof {
            assert(nodes@.skip(i as int).skip(1) == nodes@.skip(i + 1));
            assert(nodes@.take(i + 1) == nodes@.take(i as int).push(nodes@[i as int]));
        }
        let node = nodes[i];
        match dtypes.get(&node) {
            Some(dtype) => found.push(*dtype),
            None => return Err(node),
        }
    }
    proof {
        assert(nodes@.take(nodes@.len() as int) == nodes@);
    }
    Ok(found)
}

/// A buffer of the runtime.
#[derive(Clone, Copy, PartialEq, Eq, Structural, Debug)]
pub enum BufferRef {
    /// That of the host tensor with this number.
    Input(usize),
    /// That of the result of this node.
    Intermediate(usize),
}

/// Why an output cannot be copied or read.
#[derive(Clone, Copy, PartialEq, Eq, Structural, Debug)]
pub enum OutputError {
    /// No graph was loaded.
    NotCompiled,
    /// The graph has no output with this number.
    NoOutput(usize),
    /// The output with this number has no element type.
    NoDType(usize),
    /// The host tensor with this number was not uploaded.
    InputNotSet(usize),
    /// The result of this node was not allocated.
    NotAllocated(usize),
    /// The two buffers differ in size.
    SizeChanged { source: usize, destination: usize },
}

/// The buffer that holds what a node of a compiled graph stands for.
pub open spec fn buffer_of<K>(bucket: CompiledBucket<K>, node: usize) -> BufferRef {
    if bucket.llir_to_hlir@.contains_key(node) {
        BufferRef::Input(bucket.llir_to_hlir@[node])
    } else {
        BufferRef::Intermediate(node)
    }
}

/// The logical size of a buffer, if it exists.
pub open spec fn buffer_size<K>(
    inputs: Map<usize, usize>,
    bucket: CompiledBucket<K>,
    buffer: BufferRef,
) -> Option<usize> {
    match buffer {
        BufferRef::Input(hlir) => if inputs.contains_key(hlir) {
            Some(inputs[hlir])
        } else {
            None
        },
        BufferRef::Intermediate(node) => if bucket.buffers@.contains_key(node) {
            Some(bucket.buffers@[node])
        } else {
            None
        },
    }
}

/// What is wrong where a buffer that an output needs does not exist.
pub open spec fn missing_buffer(buffer: BufferRef) -> OutputError {
    match buffer {
        BufferRef::Input(hlir) => OutputError::InputNotSet(hlir),
        BufferRef::Intermediate(node) => OutputError::NotAllocated(node),
    }
}

/// The type of the host tensor `id` in the first graph, from `start` on, that
/// reads it.
pub open spec fn input_dtype_in<K>(
    buckets: Seq<CompiledBucket<K>>,
    id: usize,
    start: nat,
) -> Option<DType>
    decreases buckets.len() - start,
{
    if start >= buckets.len() {
        None
    } else {
        match buckets[start as int].graph.input_dtype_from(id, 0) {
            Some(dtype) => Some(dtype),
            None => input_dtype_in(buckets, id, start + 1),
        }
    }
}

impl<K> CompiledBucket<K> {
    /// Every step is an operation of the graph, and no operation is two steps.
    pub open spec fn wf(self) -> bool {
        &&& self.graph.wf()
        &&& forall|i: int|
            0 <= i < self.steps@.len() ==> (#[trigger] self.steps@[i]).node
                < self.graph.nodes@.len() && self.graph.nodes@[self.steps@[i].node as int] is Op
        &&& forall|i: int, j: int|
            0 <= i < j < self.steps@.len() ==> (#[trigger] self.steps@[i]).node != (
            #[trigger] self.steps@[j]).node
    }

    /// The operation of a step.
    pub open spec fn op(self, step: int) -> K {
        self.graph.nodes@[self.steps@[step].node as int]->Op_0
    }
}

/// Why a step cannot be run.
#[derive(Clone, Copy, PartialEq, Eq, Structural, Debug)]
pub enum ExecuteError {
    /// No graph was loaded.
    NotCompiled,
    /// The host tensor with this number was not uploaded.
    InputNotSet(usize),
    /// The result of this node was not allocated, and a step reads it.
    MissingIntermediate(usize),
    /// The result of this node was not allocated, and its step writes it.
    MissingOutput(usize),
    /// The step for this node reads more arguments than it has.
    MissingArgument(usize),
}

/// What is wrong with the first of these nodes that has no buffer.
pub open spec fn first_missing<K>(
    inputs: Map<usize, usize>,
    bucket: CompiledBucket<K>,
    nodes: Seq<usize>,
) -> Option<ExecuteError>
    decreases nodes.len(),
{
    if nodes.len() == 0 {
        None
    } else {
        let buffer = buffer_of(bucket, nodes[0]);
        if buffer_size(inputs, bucket, buffer) is None {
            Some(
                match buffer {
                    BufferRef::Input(hlir) => ExecuteError::InputNotSet(hlir),
                    BufferRef::Intermediate(node) => ExecuteError::MissingIntermediate(node),
                },
            )
        } else {
            first_missing(inputs, bucket, nodes.skip(1))
        }
    }
}

/// The buffers of these nodes.
pub open spec fn buffers_of<K>(bucket: CompiledBucket<K>, nodes: Seq<usize>) -> Seq<BufferRef> {
    nodes.map_values(|node: usize| buffer_of(bucket, node))
}

/// Nothing is missing where every node has a buffer.
pub proof fn lemma_nothing_missing<K>(
    inputs: Map<usize, usize>,
    bucket: CompiledBucket<K>,
    nodes: Seq<usize>,
)
    requires
        forall|k: int|
            0 <= k < nodes.len() ==> buffer_size(
                inputs,
                bucket,
                buffer_of(bucket, #[trigger] nodes[k]),
            ) is Some,
    ensures
        first_missing(inputs, bucket, nodes) is None,
    decreases nodes.len(),
{
    if nodes.len() > 0 {
        assert(buffer_size(inputs, bucket, buffer_of(bucket, nodes[0])) is Some);
        assert forall|k: int| 0 <= k < nodes.skip(1).len() implies buffer_size(
            inputs,
            bucket,
            buffer_of(bucket, #[trigger] nodes.skip(1)[k]),
        ) is Some by {
            assert(nodes.skip(1)[k] == nodes[k + 1]);
        }
        lemma_nothing_missing(inputs, bucket, nodes.skip(1));
    }
}

impl<K: GraphOp> LlirGraph<K> {
    /// The types of the first `count` nodes of `order`. Output nodes have none.
    pub open spec fn dtypes_before(self, order: Seq<usize>, count: nat) -> Map<usize, DType>
        decreases count,
    {
        if count == 0 {
            Map::empty()
        } else {
            let before = self.dtypes_before(order, (count - 1) as nat);
            let node = order[count - 1];
            match self.nodes@[node as int] {
                GraphNode::Input { dtype, .. } => before.insert(node, dtype),
                GraphNode::Op(op) => before.insert(
                    node,
                    op.result_dtype(dtypes_of(before, self.sources(node))),
                ),
                _ => before,
            }
        }
    }

    /// The types that the node at position `at` reads.
    pub open spec fn input_dtypes_at(self, order: Seq<usize>, at: int) -> Seq<DType> {
        dtypes_of(self.dtypes_before(order, at as nat), self.sources(order[at]))
    }

    /// The step for the operation at position `at`.
    pub open spec fn step_at(self, order: Seq<usize>, at: int) -> StepView {
        let inputs = self.input_dtypes_at(order, at);
        StepView {
            node: order[at],
            input_nodes: self.sources(order[at]),
            input_dtypes: inputs,
            output_dtype: self.nodes@[order[at] as int]->Op_0.result_dtype(inputs),
        }
    }

    /// The steps for the operations among the first `count` nodes of `order`.
    pub open spec fn steps_before(self, order: Seq<usize>, count: nat) -> Seq<StepView>
        decreases count,
    {
        if count == 0 {
            Seq::empty()
        } else {
            let before = self.steps_before(order, (count - 1) as nat);
            if self.nodes@[order[count - 1] as int] is Op {
                before.push(self.step_at(order, count - 1))
            } else {
                before
            }
        }
    }

    /// What is wrong with the node at position `at`, if anything.
    pub open spec fn fault_at(
        self,
        order: Seq<usize>,
        at: int,
        device: K::Device,
    ) -> Option<CompileError<K::Fault>> {
        match self.nodes@[order[at] as int] {
            GraphNode::Unlowered => Some(CompileError::Unlowered(order[at])),
            GraphNode::Op(op) => {
                let nodes = self.sources(order[at]);
                let inputs = self.input_dtypes_at(order, at);
                match op.operand_fault(order[at], nodes.len()) {
                    Some(fault) => Some(CompileError::Op(fault)),
                    None => match first_untyped(self.dtypes_before(order, at as nat), nodes) {
                        Some(node) => Some(CompileError::MissingDType(node)),
                        None => match op.type_fault(order[at], device, inputs) {
                            Some(fault) => Some(CompileError::Op(fault)),
                            None => None,
                        },
                    },
                }
            },
            _ => None,
        }
    }

    /// Whether nothing is wrong with the first `count` nodes of `order`.
    pub open spec fn sound_before(
        self,
        order: Seq<usize>,
        count: int,
        device: K::Device,
    ) -> bool {
        forall|at: int| 0 <= at < count ==> #[trigger] self.fault_at(order, at, device) is None
    }

    /// Whether `bucket` is this graph compiled in this order, with nothing
    /// allocated.
    pub open spec fn compiled_in(
        self,
        order: Seq<usize>,
        indices: HashMap<u64, usize>,
        bucket: CompiledBucket<K>,
    ) -> bool {
        &&& bucket.bucket_indices == indices
        &&& bucket.graph == self
        &&& bucket.llir_to_hlir@ == self.hlir_inputs()
        &&& bucket.node_dtypes@ == self.dtypes_before(order, order.len())
        &&& bucket.output_data@ == self.outputs(order)
        &&& step_views(bucket.steps@) == self.steps_before(order, order.len())
        &&& bucket.buffers@ == Map::<usize, usize>::empty()
    }

    /// Whether compiling the graph in this order gives `r`: the compiled graph,
    /// or what is wrong with the first node that something is wrong with.
    pub open spec fn compile_gives(
        self,
        order: Seq<usize>,
        indices: HashMap<u64, usize>,
        device: K::Device,
        r: Result<CompiledBucket<K>, CompileError<K::Fault>>,
    ) -> bool {
        match r {
            Ok(bucket) => {
                &&& self.sound_before(order, order.len() as int, device)
                &&& self.compiled_in(order, indices, bucket)
            },
            Err(error) => exists|at: int|
                0 <= at < order.len() && self.sound_before(order, at, device)
                    && #[trigger] self.fault_at(order, at, device) == Some(error),
        }
    }
}

/// Compiles a graph in the given order of its nodes.
pub fn compile_in_order<K: GraphOp>(
    llir: BucketLlir<K>,
    order: &Vec<usize>,
    device: &K::Device,
) -> (r: Result<CompiledBucket<K>, CompileError<K::Fault>>)
    requires
        K::lawful(),
        llir.graph.wf(),
        llir.graph.ordered_by(order@),
    ensures
        llir.graph.compile_gives(order@, llir.indices, *device, r),
{
    broadcast use vstd::std_specs::hash::group_hash_axioms;

    let mut node_dtypes: HashMap<usize, DType> = HashMap::new();
    let mut steps: Vec<ExecutionStep> = Vec::new();
    for i in 0..order.len()
        invariant
            K::lawful(),
            llir.graph.wf(),
            llir.graph.ordered_by(order@),
            llir.graph.sound_before(order@, i as int, *device),
            node_dtypes@ == llir.graph.dtypes_before(order@, i as nat),
            step_views(steps@) == llir.graph.steps_before(order@, i as nat),
    {
        broadcast use vstd::std_specs::hash::group_hash_axioms;

        let node = order[i];
        proof {
            assert(order@[i as int] == node);
        }
        match &llir.graph.nodes[node] {
            GraphNode::Input { dtype, .. } => {
                node_dtypes.insert(node, *dtype);
            },
            GraphNode::Output { .. } => {},
            GraphNode::Unlowered => {
                proof {
                    assert(llir.graph.fault_at(order@, i as int, *device) == Some(
                        CompileError::<K::Fault>::Unlowered(node),
                    ));
                }
                return Err(CompileError::Unlowered(node));
            },
            GraphNode::Op(op) => {
                let input_nodes = llir.graph.input_nodes(node);
                if let Some(fault) = op.check_operands(node, input_nodes.len()) {
                    proof {
                        assert(llir.graph.fault_at(order@, i as int, *device) == Some(
                            CompileError::Op(fault),
                        ));
                    }
                    return Err(CompileError::Op(fault));
                }
                let input_dtypes = match input_types(&node_dtypes, &input_nodes) {
                    Ok(found) => found,
                    Err(missing) => {
                        proof {
                            assert(llir.graph.fault_at(order@, i as int, *device) == Some(
                                CompileError::<K::Fault>::MissingDType(missing),
                            ));
                        }
                        return Err(CompileError::MissingDType(missing));
                    },
                };
                if let Some(fault) = op.check_types(node, device, &input_dtypes) {
                    proof {
                        assert(llir.graph.fault_at(order@, i as int, *device) == Some(
                            CompileError::Op(fault),
                        ));
                    }
                    return Err(CompileError::Op(fault));
                }
                let output_dtype = op.infer_dtype(&input_dtypes);
                node_dtypes.insert(node, output_dtype);
                steps.push(ExecutionStep { node, input_nodes, input_dtypes, output_dtype });
            },
        }
    }
    let llir_to_hlir = llir.graph.collect_inputs();
    let output_data = llir.graph.collect_outputs(order);
    Ok(
        CompiledBucket {
            bucket_indices: llir.indices,
            graph: llir.graph,
            llir_to_hlir,
            node_dtypes,
            output_data,
            steps,
            buffers: HashMap::new(),
        },
    )
}

/// Whether compiling a graph gives `r`.
pub open spec fn compiles_to<K: GraphOp>(
    llir: BucketLlir<K>,
    device: K::Device,
    r: Result<CompiledBucket<K>, CompileError<K::Fault>>,
) -> bool {
    match llir.graph.order() {
        None => r == Err::<CompiledBucket<K>, CompileError<K::Fault>>(CompileError::Cycle) && exists|
            walk: Seq<usize>,
        | is_cycle(arrows(llir.graph.edges@), walk),
        Some(order) => llir.graph.ordered_by(order) && llir.graph.compile_gives(
            order,
            llir.indices,
            device,
            r,
        ),
    }
}

/// Compiles a graph in topological order.
pub fn compile_bucket<K: GraphOp>(llir: BucketLlir<K>, device: &K::Device) -> (r: Result<
    CompiledBucket<K>,
    CompileError<K::Fault>,
>)
    requires
        K::lawful(),
        llir.graph.wf(),
    ensures
        compiles_to(llir, *device, r),
{
    match llir.graph.topological_order() {
        Some(order) => compile_in_order(llir, &order, device),
        None => Err(CompileError::Cycle),
    }
}

/// The positions of the operations among the first `count` nodes of `order`.
pub open spec fn op_positions<K: GraphOp>(
    graph: LlirGraph<K>,
    order: Seq<usize>,
    count: nat,
) -> Seq<int>
    decreases count,
{
    if count == 0 {
        Seq::empty()
    } else {
        let before = op_positions(graph, order, (count - 1) as nat);
        if graph.nodes@[order[count - 1] as int] is Op {
            before.push(count - 1)
        } else {
            before
        }
    }
}

/// The positions of the operations are those of the steps, in order.
pub proof fn lemma_op_positions<K: GraphOp>(
    graph: LlirGraph<K>,
    order: Seq<usize>,
    count: nat,
)
    requires
        count <= order.len(),
    ensures
        op_positions(graph, order, count).len() == graph.steps_before(order, count).len(),
        forall|i: int|
            0 <= i < op_positions(graph, order, count).len() ==> {
                let at = #[trigger] op_positions(graph, order, count)[i];
                &&& 0 <= at < count
                &&& graph.nodes@[order[at] as int] is Op
                &&& graph.steps_before(order, count)[i] == graph.step_at(order, at)
            },
        forall|i: int, j: int|
            0 <= i < j < op_positions(graph, order, count).len() ==> #[trigger] op_positions(
                graph,
                order,
                count,
            )[i] < #[trigger] op_positions(graph, order, count)[j],
        forall|at: int|
            0 <= at < count && graph.nodes@[order[at] as int] is Op
                ==> #[trigger] op_positions(graph, order, count).contains(at),
    decreases count,
{
    if count > 0 {
        let shorter = (count - 1) as nat;
        lemma_op_positions(graph, order, shorter);
        let before = op_positions(graph, order, shorter);
        let after = op_positions(graph, order, count);
        assert forall|at: int|
            0 <= at < count && graph.nodes@[order[at] as int] is Op implies #[trigger] after.contains(
            at,
        ) by {
            if at < count - 1 {
                assert(before.contains(at));
                assert(after[before.index_of(at)] == at);
            } else {
                assert(after[after.len() - 1] == at);
            }
        }
    }
}

pub(crate) proof fn lemma_typed_nodes<K: GraphOp>(
    graph: LlirGraph<K>,
    order: Seq<usize>,
    count: nat,
    node: usize,
)
    requires
        count <= order.len(),
    ensures
        graph.dtypes_before(order, count).contains_key(node) <==> exists|at: int|
            0 <= at < count && #[trigger] order[at] == node && (graph.nodes@[node as int] is Input
                || graph.nodes@[node as int] is Op),
    decreases count,
{
    if count > 0 {
        lemma_typed_nodes(graph, order, (count - 1) as nat, node);
        let last = order[count - 1];
        if graph.dtypes_before(order, count).contains_key(node) {
            if last == node && (graph.nodes@[node as int] is Input || graph.nodes@[node as int] is Op) {
                assert(order[count - 1] == node);
            }
        }
    }
}

pub(crate) proof fn lemma_none_untyped(dtypes: Map<usize, DType>, nodes: Seq<usize>)
    requires
        first_untyped(dtypes, nodes) is None,
    ensures
        forall|i: int| 0 <= i < nodes.len() ==> dtypes.contains_key(#[trigger] nodes[i]),
    decreases nodes.len(),
{
    if nodes.len() > 0 {
        lemma_none_untyped(dtypes, nodes.skip(1));
        assert forall|i: int| 0 <= i < nodes.len() implies dtypes.contains_key(#[trigger] nodes[i]) by {
            if i > 0 {
                assert(nodes.skip(1)[i - 1] == nodes[i]);
            }
        }
    }
}

/// Compiling makes exactly one step of every operation.
pub proof fn law_every_operation_is_one_step<K: GraphOp>(
    graph: LlirGraph<K>,
    order: Seq<usize>,
    node: usize,
)
    requires
        graph.ordered_by(order),
        node < graph.nodes@.len(),
    ensures
        graph.nodes@[node as int] is Op <==> exists|i: int|
            0 <= i < graph.steps_before(order, order.len()).len() && (
            #[trigger] graph.steps_before(order, order.len())[i]).node == node,
        forall|i: int, j: int|
            0 <= i < j < graph.steps_before(order, order.len()).len() ==> (
            #[trigger] graph.steps_before(order, order.len())[i]).node != (
            #[trigger] graph.steps_before(order, order.len())[j]).node,
{
    let count = order.len();
    let positions = op_positions(graph, order, count);
    let steps = graph.steps_before(order, count);
    lemma_op_positions(graph, order, count);
    lemma_order_names_every_node(graph.nodes@.len(), order, node);
    if graph.nodes@[node as int] is Op {
        let at = choose|at: int| 0 <= at < order.len() && #[trigger] order[at] == node;
        assert(positions.contains(at));
        let i = positions.index_of(at);
        assert(positions[i] == at);
        assert(steps[i].node == node);
    }
    assert forall|i: int| 0 <= i < steps.len() && (#[trigger] steps[i]).node == node implies graph.nodes@[node as int] is Op by {
        assert(steps[i] == graph.step_at(order, positions[i]));
    }
    assert forall|i: int, j: int| 0 <= i < j < steps.len() implies (#[trigger] steps[i]).node != (
    #[trigger] steps[j]).node by {
        assert(positions[i] < positions[j]);
        assert(steps[i] == graph.step_at(order, positions[i]));
        assert(steps[j] == graph.step_at(order, positions[j]));
        assert(order[positions[i]] != order[positions[j]]);
    }
}

/// What a step reads is an input of the graph or the result of an earlier step.
pub proof fn law_steps_read_what_is_there<K: GraphOp>(
    graph: LlirGraph<K>,
    order: Seq<usize>,
    device: K::Device,
    i: int,
    k: int,
)
    requires
        graph.wf(),
        graph.ordered_by(order),
        graph.sound_before(order, order.len() as int, device),
        0 <= i < graph.steps_before(order, order.len()).len(),
        0 <= k < graph.steps_before(order, order.len())[i].input_nodes.len(),
    ensures
        graph.hlir_inputs().contains_key(graph.steps_before(order, order.len())[i].input_nodes[k])
            || exists|j: int|
            0 <= j < i && (#[trigger] graph.steps_before(order, order.len())[j]).node
                == graph.steps_before(order, order.len())[i].input_nodes[k],
{
    let count = order.len();
    let positions = op_positions(graph, order, count);
    let steps = graph.steps_before(order, count);
    lemma_op_positions(graph, order, count);
    let at = positions[i];
    assert(steps[i] == graph.step_at(order, at));
    let sources = graph.sources(order[at]);
    let node = sources[k];
    assert(graph.fault_at(order, at, device) is None);
    lemma_none_untyped(graph.dtypes_before(order, at as nat), sources);
    lemma_typed_nodes(graph, order, at as nat, node);
    let from = choose|from: int| 0 <= from < at && #[trigger] order[from] == node;
    assert(order[from] < graph.nodes@.len());
    if graph.nodes@[node as int] is Op {
        assert(positions.contains(from));
        let j = positions.index_of(from);
        assert(positions[j] == from);
        if j >= i {
            assert(positions[i] <= positions[j]) by {
                if i < j {
                    assert(positions[i] < positions[j]);
                }
            }
        }
        assert(steps[j].node == node);
    }
}

/// Why graphs cannot be loaded.
#[derive(Clone, Copy, PartialEq, Eq, Structural, Debug)]
pub enum LoadError<F> {
    /// There is no graph.
    NoBuckets,
    /// A graph cannot be compiled.
    Compile(CompileError<F>),
}

/// A compiled graph is well formed.
pub proof fn lemma_compiled_is_wf<K: GraphOp>(
    llir: BucketLlir<K>,
    device: K::Device,
    bucket: CompiledBucket<K>,
)
    requires
        llir.graph.wf(),
        compiles_to(llir, device, Ok(bucket)),
    ensures
        bucket.wf(),
{
    let order = llir.graph.order()->Some_0;
    let steps = llir.graph.steps_before(order, order.len());
    assert(step_views(bucket.steps@) == steps);
    lemma_op_positions(llir.graph, order, order.len());
    assert forall|i: int| 0 <= i < bucket.steps@.len() implies (#[trigger] bucket.steps@[i]).node
        < bucket.graph.nodes@.len() && bucket.graph.nodes@[bucket.steps@[i].node as int] is Op by {
        let at = op_positions(llir.graph, order, order.len())[i];
        assert(step_views(bucket.steps@)[i] == bucket.steps@[i]@);
        assert(steps[i] == llir.graph.step_at(order, at));
        assert(order[at] < llir.graph.nodes@.len());
    }
    assert forall|i: int, j: int| 0 <= i < j < bucket.steps@.len() implies (
    #[trigger] bucket.steps@[i]).node != (#[trigger] bucket.steps@[j]).node by {
        assert(step_views(bucket.steps@)[i] == bucket.steps@[i]@);
        assert(step_views(bucket.steps@)[j] == bucket.steps@[j]@);
        let node = bucket.steps@[i].node;
        law_every_operation_is_one_step(llir.graph, order, node);
        assert(steps[i].node != steps[j].node);
    }
}

/// Whether loading graphs gives `r`: all of them compiled, or what is wrong
/// with the first that cannot be.
pub open spec fn loads_to<K: GraphOp>(
    llirs: Seq<BucketLlir<K>>,
    device: K::Device,
    r: Result<Seq<CompiledBucket<K>>, LoadError<K::Fault>>,
) -> bool {
    match r {
        Ok(buckets) => {
            &&& llirs.len() > 0
            &&& buckets.len() == llirs.len()
            &&& forall|i: int|
                0 <= i < buckets.len() ==> compiles_to(
                    llirs[i],
                    device,
                    Ok(#[trigger] buckets[i]),
                )
        },
        Err(LoadError::NoBuckets) => llirs.len() == 0,
        Err(LoadError::Compile(error)) => exists|i: int, earlier: Seq<CompiledBucket<K>>|
            0 <= i < llirs.len() && #[trigger] all_compile(llirs.take(i), device, earlier)
                && compiles_to(llirs[i], device, Err(error)),
    }
}

/// Whether each graph compiles to the bucket at its position.
pub open spec fn all_compile<K: GraphOp>(
    llirs: Seq<BucketLlir<K>>,
    device: K::Device,
    buckets: Seq<CompiledBucket<K>>,
) -> bool {
    &&& buckets.len() == llirs.len()
    &&& forall|i: int|
        0 <= i < buckets.len() ==> compiles_to(llirs[i], device, Ok(#[trigger] buckets[i]))
}

/// Compiles graphs, as far as all of them can be.
pub fn compile_all<K: GraphOp>(bucket_llirs: Vec<BucketLlir<K>>, device: &K::Device) -> (r: Result<
    Vec<CompiledBucket<K>>,
    LoadError<K::Fault>,
>)
    requires
        K::lawful(),
        forall|i: int| 0 <= i < bucket_llirs@.len() ==> (#[trigger] bucket_llirs@[i]).graph.wf(),
    ensures
        loads_to(
            bucket_llirs@,
            *device,
            match r {
                Ok(buckets) => Ok(buckets@),
                Err(error) => Err(error),
            },
        ),
        r matches Ok(buckets) ==> forall|i: int|
            0 <= i < buckets@.len() ==> (#[trigger] buckets@[i]).wf(),
{
    if bucket_llirs.len() == 0 {
        return Err(LoadError::NoBuckets);
    }
    let ghost llirs = bucket_llirs@;
    let mut remaining = bucket_llirs;
    let mut buckets: Vec<CompiledBucket<K>> = Vec::new();
    while remaining.len() > 0
        invariant
            K::lawful(),
            llirs == bucket_llirs@,
            buckets@.len() <= llirs.len(),
            remaining@ == llirs.skip(buckets@.len() as int),
            forall|i: int| 0 <= i < llirs.len() ==> (#[trigger] llirs[i]).graph.wf(),
            all_compile(llirs.take(buckets@.len() as int), *device, buckets@),
            forall|i: int| 0 <= i < buckets@.len() ==> (#[trigger] buckets@[i]).wf(),
        decreases remaining.len(),
    {
        let ghost at = buckets@.len() as int;
        let ghost before = buckets@;
        let llir = remaining.remove(0);
        proof {
            assert(llir == llirs[at]);
        }
        match compile_bucket(llir, device) {
            Ok(bucket) => {
                proof {
                    lemma_compiled_is_wf(llirs[at], *device, bucket);
                }
                buckets.push(bucket);
                proof {
                    assert(remaining@ == llirs.skip(at + 1));
                    assert forall|i: int| 0 <= i < buckets@.len() implies compiles_to(
                        llirs.take(at + 1)[i],
                        *device,
                        Ok(#[trigger] buckets@[i]),
                    ) by {
                        if i < at {
                            assert(buckets@[i] == before[i]);
                            assert(llirs.take(at)[i] == llirs.take(at + 1)[i]);
                        }
                    }
                }
            },
            Err(error) => {
                proof {
                    assert(all_compile(llirs.take(at), *device, buckets@));
                }
                return Err(LoadError::Compile(error));
            },
        }
    }
    proof {
        assert(llirs.take(buckets@.len() as int) == llirs);
    }
    Ok(buckets)
}

/// The type of the host tensor `id` in the first graph that reads it.
pub fn input_dtype<K>(buckets: &Vec<CompiledBucket<K>>, id: usize) -> (r: Option<DType>)
    ensures
        r == input_dtype_in(buckets@, id, 0),
{
    for i in 0..buckets.len()
        invariant
            input_dtype_in(buckets@, id, 0) == input_dtype_in(buckets@, id, i as nat),
    {
        if let Some(dtype) = buckets[i].graph.input_dtype(id) {
            return Some(dtype);
        }
    }
    None
}

/// The host tensors, with their types, that were set and that a graph reads.
pub fn pending_inputs<K, D>(
    input_data: &HashMap<usize, D>,
    buckets: &Vec<CompiledBucket<K>>,
) -> (r: Vec<(usize, DType)>)
    ensures
        r@.no_duplicates(),
        forall|id: usize, dtype: DType| #[trigger]
            r@.contains((id, dtype)) <==> input_data@.contains_key(id) && input_dtype_in(
                buckets@,
                id,
                0,
            ) == Some(dtype),
{
    let ids = keys_of(input_data);
    let mut pending: Vec<(usize, DType)> = Vec::new();
    for i in 0..ids.len()
        invariant
            ids@.no_duplicates(),
            pending@.no_duplicates(),
            forall|id: usize, dtype: DType| #[trigger]
                pending@.contains((id, dtype)) <==> ids@.take(i as int).contains(id)
                    && input_dtype_in(buckets@, id, 0) == Some(dtype),
    {
        let ghost before = pending@;
        proof {
            assert(ids@.take(i + 1) == ids@.take(i as int).push(ids@[i as int]));
            assert(!ids@.take(i as int).contains(ids@[i as int]));
            assert forall|id: usize| #[trigger] ids@.take(i + 1).contains(id) <==> ids@.take(
                i as int,
            ).contains(id) || id == ids@[i as int] by {
                if id == ids@[i as int] {
                    assert(ids@.take(i + 1)[i as int] == id);
                }
                if ids@.take(i as int).contains(id) {
                    let k = ids@.take(i as int).index_of(id);
                    assert(ids@.take(i + 1)[k] == id);
                }
            }
        }
        let id = ids[i];
        if let Some(dtype) = input_dtype(buckets, id) {
            pending.push((id, dtype));
            proof {
                assert(pending@.last() == (id, dtype));
                assert(!before.contains((id, dtype)));
                assert forall|a: int, b: int| 0 <= a < b < pending@.len() implies pending@[a]
                    != pending@[b] by {
                    assert(pending@[a] == before[a]);
                }
                assert forall|other: usize, kind: DType| #[trigger]
                    pending@.contains((other, kind)) <==> before.contains((other, kind)) || (
                    other,
                    kind,
                ) == (id, dtype) by {
                    if before.contains((other, kind)) {
                        let k = before.index_of((other, kind));
                        assert(pending@[k] == (other, kind));
                    }
                }
            }
        }
    }
    proof {
        assert(ids@.take(ids@.len() as int) == ids@);
        assert forall|id: usize| #[trigger] ids@.contains(id) == input_data@.contains_key(id) by {
            assert(ids@.to_set().contains(id) == input_data@.dom().contains(id));
        }
    }
    pending
}

/// The first of several graphs that was extracted for the current values of the
/// dynamic dimensions; the only one, or none, counts as the first.
pub open spec fn chosen_bucket<K>(
    buckets: Seq<CompiledBucket<K>>,
    fits: Seq<DimFit>,
    r: Option<usize>,
) -> bool {
    if buckets.len() <= 1 {
        r == Some(0usize)
    } else {
        match r {
            Some(chosen) => {
                &&& chosen < buckets.len()
                &&& bucket_admits(fits, buckets[chosen as int].bucket_indices@)
                &&& forall|i: int|
                    0 <= i < chosen ==> !bucket_admits(
                        fits,
                        (#[trigger] buckets[i]).bucket_indices@,
                    )
            },
            None => forall|i: int|
                0 <= i < buckets.len() ==> !bucket_admits(
                    fits,
                    (#[trigger] buckets[i]).bucket_indices@,
                ),
        }
    }
}

/// The first of several graphs that was extracted for the current values of the
/// dynamic dimensions.
pub fn choose_bucket<K>(buckets: &Vec<CompiledBucket<K>>, fits: &Vec<DimFit>) -> (r: Option<usize>)
    ensures
        chosen_bucket(buckets@, fits@, r),
{
    if buckets.len() <= 1 {
        return Some(0);
    }
    for i in 0..buckets.len()
        invariant
            buckets@.len() > 1,
            forall|j: int|
                0 <= j < i ==> !bucket_admits(fits@, (#[trigger] buckets@[j]).bucket_indices@),
    {
        if admits(fits, &buckets[i].bucket_indices) {
            return Some(i);
        }
    }
    None
}

/// The buffers that a step reads.
pub fn step_inputs<K>(
    input_buffers: &HashMap<usize, usize>,
    bucket: &CompiledBucket<K>,
    nodes: &Vec<usize>,
) -> (r: Result<Vec<BufferRef>, ExecuteError>)
    ensures
        match r {
            Ok(inputs) => first_missing(input_buffers@, *bucket, nodes@) is None && inputs@
                == buffers_of(*bucket, nodes@),
            Err(error) => first_missing(input_buffers@, *bucket, nodes@) == Some(error),
        },
{
    let mut inputs: Vec<BufferRef> = Vec::new();
    proof {
        assert(nodes@.skip(0) == nodes@);
    }
    for i in 0..nodes.len()
        invariant
            first_missing(input_buffers@, *bucket, nodes@) == first_missing(
                input_buffers@,
                *bucket,
                nodes@.skip(i as int),
            ),
            inputs@ == buffers_of(*bucket, nodes@.take(i as int)),
    {
        proof {
            assert(nodes@.skip(i as int).skip(1) == nodes@.skip(i + 1));
            assert(nodes@.take(i + 1) == nodes@.take(i as int).push(nodes@[i as int]));
        }
        let node = nodes[i];
        match lookup(&bucket.llir_to_hlir, node) {
            Some(hlir_id) => match lookup(input_buffers, hlir_id) {
                Some(_) => inputs.push(BufferRef::Input(hlir_id)),
                None => return Err(ExecuteError::InputNotSet(hlir_id)),
            },
            None => match lookup(&bucket.buffers, node) {
                Some(_) => inputs.push(BufferRef::Intermediate(node)),
                None => return Err(ExecuteError::MissingIntermediate(node)),
            },
        }
    }
    proof {
        assert(nodes@.take(nodes@.len() as int) == nodes@);
    }
    Ok(inputs)
}

/// A buffer to allocate for the result of a node.
#[derive(Clone, Copy, PartialEq, Eq, Structural, Debug)]
pub struct Allocation {
    pub node: usize,
    /// The size of the buffer.
    pub allocation: usize,
    /// Whether it takes the place of a buffer of another size.
    pub replaces: bool,
}

/// The size of the allocation for a logical size.
pub open spec fn allocation_for(logical_bytes: usize) -> usize {
    if logical_bytes == 0 {
        1
    } else {
        logical_bytes
    }
}

/// The size of the allocation for a logical size.
pub fn allocation_bytes(logical_bytes: usize) -> (r: usize)
    ensures
        r == allocation_for(logical_bytes),
{
    if logical_bytes == 0 {
        1
    } else {
        logical_bytes
    }
}

/// The buffers after the results of the first `count` steps, with these bytes,
/// were allocated.
pub open spec fn buffers_after(
    buffers: Map<usize, usize>,
    steps: Seq<ExecutionStep>,
    bytes: Seq<usize>,
    count: nat,
) -> Map<usize, usize>
    decreases count,
{
    if count == 0 {
        buffers
    } else {
        buffers_after(buffers, steps, bytes, (count - 1) as nat).insert(
            steps[count - 1].node,
            bytes[count - 1],
        )
    }
}

/// The allocations for the results of the first `count` steps: those without a
/// buffer of the right size.
pub open spec fn allocations_for(
    buffers: Map<usize, usize>,
    steps: Seq<ExecutionStep>,
    bytes: Seq<usize>,
    count: nat,
) -> Seq<Allocation>
    decreases count,
{
    if count == 0 {
        Seq::empty()
    } else {
        let earlier = allocations_for(buffers, steps, bytes, (count - 1) as nat);
        let known = buffers_after(buffers, steps, bytes, (count - 1) as nat);
        let node = steps[count - 1].node;
        if known.contains_key(node) && known[node] == bytes[count - 1] {
            earlier
        } else {
            earlier.push(
                Allocation {
                    node,
                    allocation: allocation_for(bytes[count - 1]),
                    replaces: known.contains_key(node),
                },
            )
        }
    }
}

/// Allocates the results of steps with these bytes. A result that already has
/// a buffer of the right size keeps it.
pub fn allocate_results(
    buffers: &mut HashMap<usize, usize>,
    steps: &Vec<ExecutionStep>,
    bytes: &Vec<usize>,
) -> (r: Vec<Allocation>)
    requires
        bytes@.len() == steps@.len(),
    ensures
        r@ == allocations_for(old(buffers)@, steps@, bytes@, steps@.len()),
        final(buffers)@ == buffers_after(old(buffers)@, steps@, bytes@, steps@.len()),
{
    let mut allocations: Vec<Allocation> = Vec::new();
    for i in 0..steps.len()
        invariant
            bytes@.len() == steps@.len(),
            buffers@ == buffers_after(old(buffers)@, steps@, bytes@, i as nat),
            allocations@ == allocations_for(old(buffers)@, steps@, bytes@, i as nat),
    {
        broadcast use vstd::std_specs::hash::group_hash_axioms;

        let node = steps[i].node;
        let logical_bytes = bytes[i];
        let known = lookup(buffers, node);
        if known != Some(logical_bytes) {
            buffers.insert(node, logical_bytes);
            allocations.push(
                Allocation {
                    node,
                    allocation: allocation_bytes(logical_bytes),
                    replaces: known.is_some(),
                },
            );
        } else {
            proof {
                assert(buffers@.insert(node, logical_bytes) =~= buffers@);
            }
        }
    }
    allocations
}

proof fn lemma_buffers_after(
    buffers: Map<usize, usize>,
    steps: Seq<ExecutionStep>,
    bytes: Seq<usize>,
    count: nat,
)
    requires
        count <= steps.len(),
        forall|i: int, j: int|
            0 <= i < j < steps.len() ==> (#[trigger] steps[i]).node != (#[trigger] steps[j]).node,
    ensures
        forall|i: int|
            0 <= i < count ==> buffers_after(buffers, steps, bytes, count).contains_key(
                (#[trigger] steps[i]).node,
            ) && buffers_after(buffers, steps, bytes, count)[steps[i].node] == bytes[i],
    decreases count,
{
    if count > 0 {
        lemma_buffers_after(buffers, steps, bytes, (count - 1) as nat);
    }
}

proof fn lemma_nothing_to_allocate(
    buffers: Map<usize, usize>,
    steps: Seq<ExecutionStep>,
    bytes: Seq<usize>,
    count: nat,
)
    requires
        count <= steps.len(),
        forall|i: int|
            0 <= i < steps.len() ==> buffers.contains_key((#[trigger] steps[i]).node)
                && buffers[steps[i].node] == bytes[i],
    ensures
        buffers_after(buffers, steps, bytes, count) == buffers,
        allocations_for(buffers, steps, bytes, count) == Seq::<Allocation>::empty(),
    decreases count,
{
    if count > 0 {
        lemma_nothing_to_allocate(buffers, steps, bytes, (count - 1) as nat);
        let step = steps[count - 1];
        assert(buffers.insert(step.node, bytes[count - 1]) =~= buffers);
    }
}

/// Results that were allocated are not allocated again for the same sizes.
pub proof fn law_allocation_is_stable<K>(bucket: CompiledBucket<K>, bytes: Seq<usize>)
    requires
        bucket.wf(),
        bytes.len() == bucket.steps@.len(),
    ensures
        ({
            let steps = bucket.steps@;
            let allocated = buffers_after(bucket.buffers@, steps, bytes, steps.len());
            &&& allocations_for(allocated, steps, bytes, steps.len()) == Seq::<Allocation>::empty()
            &&& buffers_after(allocated, steps, bytes, steps.len()) == allocated
        }),
{
    let steps = bucket.steps@;
    lemma_buffers_after(bucket.buffers@, steps, bytes, steps.len());
    lemma_nothing_to_allocate(
        buffers_after(bucket.buffers@, steps, bytes, steps.len()),
        steps,
        bytes,
        steps.len(),
    );
}

/// What is read for an output.
#[derive(Clone, Copy, PartialEq, Eq, Structural, Debug)]
pub struct Readback {
    pub source: BufferRef,
    pub bytes: usize,
    pub dtype: DType,
}

/// Where the output `id` of the active graph is read from, how many bytes it
/// has and their type.
pub open spec fn readback_of<K>(
    inputs: Map<usize, usize>,
    buckets: Seq<CompiledBucket<K>>,
    active: usize,
    id: usize,
) -> Result<Readback, OutputError> {
    let bucket = buckets[active as int];
    let node = bucket.output_data@[id];
    let source = buffer_of(bucket, node);
    if active >= buckets.len() {
        Err(OutputError::NotCompiled)
    } else if !bucket.output_data@.contains_key(id) {
        Err(OutputError::NoOutput(id))
    } else if !bucket.node_dtypes@.contains_key(node) {
        Err(OutputError::NoDType(id))
    } else {
        match buffer_size(inputs, bucket, source) {
            None => Err(missing_buffer(source)),
            Some(bytes) => Ok(Readback { source, bytes, dtype: bucket.node_dtypes@[node] }),
        }
    }
}

/// Where the output `id` of the active graph is read from, how many bytes it
/// has and their type.
pub fn find_output<K>(
    input_buffers: &HashMap<usize, usize>,
    buckets: &Vec<CompiledBucket<K>>,
    active: usize,
    id: usize,
) -> (r: Result<Readback, OutputError>)
    ensures
        r == readback_of(input_buffers@, buckets@, active, id),
{
    if active >= buckets.len() {
        return Err(OutputError::NotCompiled);
    }
    let bucket = &buckets[active];
    let data_node = match lookup(&bucket.output_data, id) {
        Some(node) => node,
        None => return Err(OutputError::NoOutput(id)),
    };
    let dtype = match lookup(&bucket.node_dtypes, data_node) {
        Some(dtype) => dtype,
        None => return Err(OutputError::NoDType(id)),
    };
    match lookup(&bucket.llir_to_hlir, data_node) {
        Some(hlir_id) => match lookup(input_buffers, hlir_id) {
            Some(bytes) => Ok(Readback { source: BufferRef::Input(hlir_id), bytes, dtype }),
            None => Err(OutputError::InputNotSet(hlir_id)),
        },
        None => match lookup(&bucket.buffers, data_node) {
            Some(bytes) => Ok(Readback { source: BufferRef::Intermediate(data_node), bytes, dtype }),
            None => Err(OutputError::NotAllocated(data_node)),
        },
    }
}

/// The buffer that holds what a node of a compiled graph gives.
pub open spec fn home<K>(bucket: CompiledBucket<K>, node: usize) -> BufferRef {
    if bucket.llir_to_hlir@.contains_key(node) {
        BufferRef::Input(bucket.llir_to_hlir@[node])
    } else {
        BufferRef::Intermediate(node)
    }
}

} // verus!
