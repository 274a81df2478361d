//! What compiling a graph looks at in an OpenCL operation.

use vstd::prelude::*;

use crate::dtype::DType;
use crate::graph::LlirGraph;
use crate::opencl::dialect::{storable, KernelError};
use crate::opencl::kernel::{
    first_unsupported, law_kernel_exists_iff_types_are_stored, OpenClKernelOp,
};
use crate::program::{lemma_op_positions, op_positions, GraphOp};

verus! {

/// What can be wrong with an OpenCL operation.
#[derive(Clone, Copy, PartialEq, Eq, Structural, Debug)]
pub enum OpenClFault {
    /// It needs half precision, which the device lacks.
    NoHalfPrecision,
    /// No kernel can be written for it.
    Kernel(KernelError),
}

/// What is known of an OpenCL device.
#[derive(Clone, Copy, PartialEq, Eq, Structural, Debug)]
pub struct OpenClFeatures {
    pub supports_fp16: bool,
}

fn contains_half(dtypes: &Vec<DType>) -> (r: bool)
    ensures
        r == dtypes@.contains(DType::F16),
{
    for i in 0..dtypes.len()
        invariant
            forall|j: int| 0 <= j < i ==> dtypes@[j] != DType::F16,
    {
        if dtypes[i] == DType::F16 {
            return true;
        }
    }
    false
}

impl<E> GraphOp for OpenClKernelOp<E> {
    type Fault = OpenClFault;

    type Device = OpenClFeatures;

    open spec fn lawful() -> bool {
        true
    }

    open spec fn result_dtype(&self, inputs: Seq<DType>) -> DType {
        self.output_dtype(inputs)
    }

    open spec fn operand_fault(&self, node: usize, count: nat) -> Option<OpenClFault> {
        None
    }

    open spec fn type_fault(
        &self,
        node: usize,
        device: OpenClFeatures,
        inputs: Seq<DType>,
    ) -> Option<OpenClFault> {
        let output = self.output_dtype(inputs);
        if !device.supports_fp16 && (inputs.contains(DType::F16) || output is F16) {
            Some(OpenClFault::NoHalfPrecision)
        } else {
            match self.kernel_error(inputs, output) {
                Some(error) => Some(OpenClFault::Kernel(error)),
                None => None,
            }
        }
    }

    fn infer_dtype(&self, inputs: &Vec<DType>) -> DType {
        self.infer_output_dtype(inputs)
    }

    fn check_operands(&self, node: usize, count: usize) -> Option<OpenClFault> {
        None
    }

    fn check_types(&self, node: usize, device: &OpenClFeatures, inputs: &Vec<DType>) -> Option<
        OpenClFault,
    > {
        let output = self.infer_output_dtype(inputs);
        if !device.supports_fp16 && (contains_half(inputs) || output == DType::F16) {
            return Some(OpenClFault::NoHalfPrecision);
        }
        match self.check(inputs, output) {
            Some(error) => Some(OpenClFault::Kernel(error)),
            None => None,
        }
    }
}

/// Every result of a compiled graph has a type that the backend stores, and is
/// of half precision only where the device supports that.
pub proof fn law_results_are_stored<E>(
    graph: LlirGraph<OpenClKernelOp<E>>,
    order: Seq<usize>,
    device: OpenClFeatures,
    i: int,
)
    requires
        graph.sound_before(order, order.len() as int, device),
        0 <= i < graph.steps_before(order, order.len()).len(),
    ensures
        storable(graph.steps_before(order, order.len())[i].output_dtype),
        !device.supports_fp16 ==> !(graph.steps_before(order, order.len())[i].output_dtype is F16),
{
    let count = order.len();
    lemma_op_positions(graph, order, count);
    let at = op_positions(graph, order, count)[i];
    let step = graph.step_at(order, at);
    assert(graph.steps_before(order, count)[i] == step);
    assert(graph.fault_at(order, at, device) is None);
    let op = graph.nodes@[order[at] as int]->Op_0;
    law_kernel_exists_iff_types_are_stored(op, step.input_dtypes, step.output_dtype);
    let dtypes = op.buffer_dtypes(step.input_dtypes, step.output_dtype);
    if dtypes.len() > 0 {
        assert(dtypes[dtypes.len() - 1] == step.output_dtype);
    }
}

/// Every step of a graph that compiles has a program for the types that
/// compilation found.
pub proof fn law_every_step_has_a_program<E>(
    graph: LlirGraph<OpenClKernelOp<E>>,
    order: Seq<usize>,
    device: OpenClFeatures,
    i: int,
)
    requires
        graph.sound_before(order, order.len() as int, device),
        0 <= i < graph.steps_before(order, order.len()).len(),
    ensures
        ({
            let step = graph.steps_before(order, order.len())[i];
            let op = graph.nodes@[step.node as int]->Op_0;
            op.kernel_error(step.input_dtypes, step.output_dtype) is None
        }),
{
    let count = order.len();
    lemma_op_positions(graph, order, count);
    let at = op_positions(graph, order, count)[i];
    assert(graph.steps_before(order, count)[i] == graph.step_at(order, at));
    assert(graph.fault_at(order, at, device) is None);
}

/// The types of the operands whose elements an operation computes with: all of
/// them, but for the indexes.
pub open spec fn computed_with<E>(op: OpenClKernelOp<E>, inputs: Seq<DType>) -> Seq<DType> {
    match op {
        OpenClKernelOp::Gather(_) => seq![inputs[1]],
        OpenClKernelOp::Scatter(_) => seq![inputs[0], inputs[2]],
        _ => inputs,
    }
}

/// The number of operands of an operation.
pub open spec fn operand_count<E>(op: OpenClKernelOp<E>) -> nat {
    match op {
        OpenClKernelOp::Constant(_) | OpenClKernelOp::Iota(_) => 0,
        OpenClKernelOp::Binary(_) | OpenClKernelOp::LessThan(_) => 2,
        OpenClKernelOp::Matmul(_) | OpenClKernelOp::Gather(_) => 2,
        OpenClKernelOp::Scatter(_) => 3,
        _ => 1,
    }
}

/// An operation is refused exactly where it meets half precision on a device that
/// lacks it, computes with or gives elements of a type that kernels do not store,
/// or reduces truth values; the refusal says which.
pub proof fn law_refusals_have_a_reason<E>(
    op: OpenClKernelOp<E>,
    node: usize,
    device: OpenClFeatures,
    inputs: Seq<DType>,
)
    requires
        inputs.len() == operand_count(op),
    ensures
        ({
            let result = op.result_dtype(inputs);
            let half = inputs.contains(DType::F16) || result == DType::F16;
            let reduces = op is SumReduce || op is MaxReduce;
            let odd = |dtype: DType| dtype == DType::I8 || dtype == DType::Other;
            let unstored = odd(result) || exists|i: int|
                0 <= i < computed_with(op, inputs).len() && odd(
                    #[trigger] computed_with(op, inputs)[i],
                );
            match op.type_fault(node, device, inputs) {
                None => !(half && !device.supports_fp16) && !unstored && !(reduces && inputs[0]
                    == DType::Bool),
                Some(OpenClFault::NoHalfPrecision) => half && !device.supports_fp16,
                Some(OpenClFault::Kernel(KernelError::BoolSum)) => op is SumReduce && inputs[0]
                    == DType::Bool,
                Some(OpenClFault::Kernel(KernelError::BoolMax)) => op is MaxReduce && inputs[0]
                    == DType::Bool,
                Some(OpenClFault::Kernel(KernelError::UnsupportedDType(dtype))) => odd(dtype)
                    && unstored,
            }
        }),
{
    let result = op.result_dtype(inputs);
    let dtypes = op.buffer_dtypes(inputs, result);
    let computed = computed_with(op, inputs);
    law_kernel_exists_iff_types_are_stored(op, inputs, result);
    lemma_unsupported_is_there(dtypes);
    if op.kernel_error(inputs, result) is None {
        assert forall|i: int| 0 <= i < computed.len() implies storable(#[trigger] computed[i]) by {
            assert(dtypes[i] == computed[i]);
        }
        if dtypes.len() > 0 {
            assert(dtypes[dtypes.len() - 1] == result);
        }
    }
    if let Some(KernelError::UnsupportedDType(dtype)) = op.kernel_error(inputs, result) {
        let k = dtypes.index_of(dtype);
        assert(dtypes[k] == dtype);
        if k < computed.len() {
            assert(computed[k] == dtypes[k]);
        }
    }
}

proof fn lemma_unsupported_is_there(dtypes: Seq<DType>)
    ensures
        match first_unsupported(dtypes) {
            None => true,
            Some(KernelError::UnsupportedDType(dtype)) => !storable(dtype) && dtypes.contains(dtype),
            Some(_) => false,
        },
    decreases dtypes.len(),
{
    if dtypes.len() > 0 {
        let rest = dtypes.skip(1);
        lemma_unsupported_is_there(rest);
        assert(dtypes.contains(dtypes[0]));
        if let Some(KernelError::UnsupportedDType(dtype)) = first_unsupported(rest) {
            let k = rest.index_of(dtype);
            assert(dtypes[k + 1] == rest[k]);
        }
    }
}

} // verus!
