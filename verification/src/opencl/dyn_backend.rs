//! Whether the OpenCL backend accepts a frontend graph.

use vstd::prelude::*;
use vstd::string::StringExecFns;

use crate::dtype::DType;
use crate::frontend::FrontendNode;
use crate::opencl::dialect::storable;

verus! {

/// Why the backend does not accept a node, if so.
pub open spec fn node_error(node: FrontendNode) -> Option<Seq<char>> {
    match node {
        FrontendNode::Input { label, dtype, dtype_name } => if storable(dtype) {
            None
        } else {
            Some(
                "OpenCL backend does not support "@ + dtype_name@ + " input `"@ + label@
                    + "`; supported dtypes are F32, F16, Int, and Bool"@,
            )
        },
        FrontendNode::Cast { dtype, dtype_name } => if storable(dtype) {
            None
        } else {
            Some(
                "OpenCL backend does not support casts to "@ + dtype_name@
                    + "; supported dtypes are F32, F16, Int, and Bool"@,
            )
        },
        FrontendNode::ConstantF64 => Some(
            "OpenCL backend does not support F64 scalar constants; use F32 constants instead"@,
        ),
        FrontendNode::Other => None,
    }
}

/// Whether the backend accepts the first `count` nodes.
pub open spec fn accepted_before(nodes: Seq<FrontendNode>, count: int) -> bool {
    forall|i: int| 0 <= i < count ==> node_error(#[trigger] nodes[i]) is None
}

/// Whether `message` is what is wrong with the first node that the backend does
/// not accept.
pub open spec fn is_first_error(nodes: Seq<FrontendNode>, message: Seq<char>) -> bool {
    exists|i: int|
        0 <= i < nodes.len() && accepted_before(nodes, i) && node_error(#[trigger] nodes[i])
            == Some(message)
}

fn supported(dtype: DType) -> (r: bool)
    ensures
        r == storable(dtype),
{
    matches!(dtype, DType::F32 | DType::F16 | DType::Int | DType::Bool)
}

fn check_node(node: &FrontendNode) -> (r: Result<(), String>)
    ensures
        match r {
            Ok(_) => node_error(*node) is None,
            Err(message) => node_error(*node) == Some(message@),
        },
{
    match node {
        FrontendNode::Input { label, dtype, dtype_name } => {
            if supported(*dtype) {
                return Ok(());
            }
            let mut message = "OpenCL backend does not support ".to_owned();
            message.append(dtype_name.as_str());
            message.append(" input `");
            message.append(label.as_str());
            message.append("`; supported dtypes are F32, F16, Int, and Bool");
            Err(message)
        },
        FrontendNode::Cast { dtype, dtype_name } => {
            if supported(*dtype) {
                return Ok(());
            }
            let mut message = "OpenCL backend does not support casts to ".to_owned();
            message.append(dtype_name.as_str());
            message.append("; supported dtypes are F32, F16, Int, and Bool");
            Err(message)
        },
        FrontendNode::ConstantF64 => Err(
            "OpenCL backend does not support F64 scalar constants; use F32 constants instead".to_owned(),
        ),
        FrontendNode::Other => Ok(()),
    }
}

/// Whether the backend accepts all nodes.
pub fn validate_graph(nodes: &Vec<FrontendNode>) -> (r: Result<(), String>)
    ensures
        match r {
            Ok(_) => accepted_before(nodes@, nodes@.len() as int),
            Err(message) => is_first_error(nodes@, message@),
        },
{
    for i in 0..nodes.len()
        invariant
            accepted_before(nodes@, i as int),
    {
        check_node(&nodes[i])?;
    }
    Ok(())
}

/// The logical index of the device to run a graph on: the one asked for, or the
/// first. Neither device pointers nor unsupported nodes are accepted.
pub fn opencl_factory(
    device_pointers: usize,
    nodes: &Vec<FrontendNode>,
    device_index: Option<usize>,
) -> (r: Result<usize, String>)
    ensures
        match r {
            Ok(index) => {
                &&& device_pointers == 0
                &&& accepted_before(nodes@, nodes@.len() as int)
                &&& index == (match device_index {
                    Some(asked) => asked,
                    None => 0,
                })
            },
            Err(message) => if device_pointers > 0 {
                message@ == "OpenCL backend accepts host tensors only; CUDA device pointers were provided"@
            } else {
                is_first_error(nodes@, message@)
            },
        },
{
    if device_pointers > 0 {
        return Err(
            "OpenCL backend accepts host tensors only; CUDA device pointers were provided".to_owned(),
        );
    }
    validate_graph(nodes)?;
    Ok(
        match device_index {
            Some(asked) => asked,
            None => 0,
        },
    )
}

/// Exactly the graphs are accepted that hold no F64 constant and whose inputs and
/// casts are of the four types that kernels store, and only with host tensors; the
/// device is then the one asked for, or the first.
pub proof fn law_supported_graphs_are_accepted(
    device_pointers: usize,
    nodes: Vec<FrontendNode>,
    device_index: Option<usize>,
    r: Result<usize, String>,
)
    requires
        call_ensures(opencl_factory, (device_pointers, &nodes, device_index), r),
    ensures
        r is Ok <==> device_pointers == 0 && !nodes@.contains(FrontendNode::ConstantF64)
            && forall|i: int|
            0 <= i < nodes@.len() ==> match #[trigger] nodes@[i] {
                FrontendNode::Input { dtype, .. } => is_supported(dtype),
                FrontendNode::Cast { dtype, .. } => is_supported(dtype),
                _ => true,
            },
        r matches Ok(index) ==> match device_index {
            Some(asked) => index == asked,
            None => index == 0,
        },
{
    let good = |i: int|
        match nodes@[i] {
            FrontendNode::Input { dtype, .. } => is_supported(dtype),
            FrontendNode::Cast { dtype, .. } => is_supported(dtype),
            FrontendNode::ConstantF64 => false,
            FrontendNode::Other => true,
        };
    assert forall|i: int| 0 <= i < nodes@.len() implies (node_error(#[trigger] nodes@[i]) is None
        <==> good(i)) by {
        lemma_storable(nodes@[i]);
    }
    if nodes@.contains(FrontendNode::ConstantF64) {
        let k = nodes@.index_of(FrontendNode::ConstantF64);
        assert(!good(k));
    }
    if accepted_before(nodes@, nodes@.len() as int) {
        assert forall|i: int| 0 <= i < nodes@.len() implies match #[trigger] nodes@[i] {
            FrontendNode::Input { dtype, .. } => is_supported(dtype),
            FrontendNode::Cast { dtype, .. } => is_supported(dtype),
            _ => true,
        } by {
            assert(good(i));
        }
    }
    if let Err(message) = r {
        if device_pointers == 0 {
            let k = choose|k: int|
                0 <= k < nodes@.len() && accepted_before(nodes@, k) && node_error(
                    #[trigger] nodes@[k],
                ) == Some(message@);
            assert(!good(k));
            assert(nodes@[k] is ConstantF64 ==> nodes@.contains(FrontendNode::ConstantF64));
        }
    }
}

/// The types that the messages to the user list.
pub open spec fn is_supported(dtype: DType) -> bool {
    dtype == DType::F32 || dtype == DType::F16 || dtype == DType::Int || dtype == DType::Bool
}

proof fn lemma_storable(node: FrontendNode)
    ensures
        node_error(node) is None <==> match node {
            FrontendNode::Input { dtype, .. } => is_supported(dtype),
            FrontendNode::Cast { dtype, .. } => is_supported(dtype),
            FrontendNode::ConstantF64 => false,
            FrontendNode::Other => true,
        },
{
}

} // verus!
