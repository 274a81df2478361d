//! Whether the Hexagon backend accepts a frontend graph.

use vstd::prelude::*;
use vstd::string::StringExecFns;

use crate::dtype::DType;
use crate::frontend::FrontendNode;

verus! {

/// Why the backend does not accept a node, if so. Elementwise operations read
/// F32 inputs and the projection reads I8 inputs; the message names the former
/// only.
pub open spec fn node_error(node: FrontendNode) -> Option<Seq<char>> {
    match node {
        FrontendNode::Input { label, dtype, dtype_name } => if dtype is F32 || dtype is I8 {
            None
        } else {
            Some(
                "Hexagon v73 backend only supports F32 inputs; `"@ + label@ + "` is "@
                    + dtype_name@,
            )
        },
        FrontendNode::ConstantF64 => Some(
            "Hexagon backend does not support F64 scalar constants; use tensor F32 inputs"@,
        ),
        _ => None,
    }
}

/// Whether the backend accepts the first `count` nodes.
pub open spec fn accepted_before(nodes: Seq<FrontendNode>, count: int) -> bool {
    forall|i: int| 0 <= i < count ==> node_error(#[trigger] nodes[i]) is None
}

/// Whether `message` is what is wrong with the first node that the backend does
/// not accept.
pub open spec fn is_first_error(nodes: Seq<FrontendNode>, message: Seq<char>) -> bool {
    exists|i: int|
        0 <= i < nodes.len() && accepted_before(nodes, i) && node_error(#[trigger] nodes[i])
            == Some(message)
}

fn check_node(node: &FrontendNode) -> (r: Result<(), String>)
    ensures
        match r {
            Ok(_) => node_error(*node) is None,
            Err(message) => node_error(*node) == Some(message@),
        },
{
    match node {
        FrontendNode::Input { label, dtype, dtype_name } => {
            if *dtype == DType::F32 || *dtype == DType::I8 {
                return Ok(());
            }
            let mut message = "Hexagon v73 backend only supports F32 inputs; `".to_owned();
            message.append(label.as_str());
            message.append("` is ");
            message.append(dtype_name.as_str());
            Err(message)
        },
        FrontendNode::ConstantF64 => Err(
            "Hexagon backend does not support F64 scalar constants; use tensor F32 inputs".to_owned(),
        ),
        _ => Ok(()),
    }
}

/// Whether the backend accepts all nodes.
pub fn validate_graph(nodes: &Vec<FrontendNode>) -> (r: Result<(), String>)
    ensures
        match r {
            Ok(_) => accepted_before(nodes@, nodes@.len() as int),
            Err(message) => is_first_error(nodes@, message@),
        },
{
    for i in 0..nodes.len()
        invariant
            accepted_before(nodes@, i as int),
    {
        check_node(&nodes[i])?;
    }
    Ok(())
}

/// Whether the backend accepts a graph: neither device pointers nor unsupported
/// nodes.
pub fn hexagon_factory(device_pointers: usize, nodes: &Vec<FrontendNode>) -> (r: Result<
    (),
    String,
>)
    ensures
        match r {
            Ok(_) => device_pointers == 0 && accepted_before(nodes@, nodes@.len() as int),
            Err(message) => if device_pointers > 0 {
                message@ == "Hexagon backend accepts host tensors only; external device pointers are unsupported"@
            } else {
                is_first_error(nodes@, message@)
            },
        },
{
    if device_pointers > 0 {
        return Err(
            "Hexagon backend accepts host tensors only; external device pointers are unsupported".to_owned(),
        );
    }
    validate_graph(nodes)
}

/// Exactly the graphs are accepted that hold no F64 constant and all of whose
/// inputs are F32 or I8, and only with host tensors. Casts are no matter here.
pub proof fn law_supported_graphs_are_accepted(
    device_pointers: usize,
    nodes: Vec<FrontendNode>,
    r: Result<(), String>,
)
    requires
        call_ensures(hexagon_factory, (device_pointers, &nodes), r),
    ensures
        r is Ok <==> device_pointers == 0 && !nodes@.contains(FrontendNode::ConstantF64)
            && forall|i: int|
            0 <= i < nodes@.len() ==> match #[trigger] nodes@[i] {
                FrontendNode::Input { dtype, .. } => dtype == DType::F32 || dtype == DType::I8,
                _ => true,
            },
{
    if nodes@.contains(FrontendNode::ConstantF64) {
        let k = nodes@.index_of(FrontendNode::ConstantF64);
        assert(node_error(nodes@[k]) is Some);
    }
    if accepted_before(nodes@, nodes@.len() as int) {
        assert forall|i: int| 0 <= i < nodes@.len() implies match #[trigger] nodes@[i] {
            FrontendNode::Input { dtype, .. } => dtype == DType::F32 || dtype == DType::I8,
            _ => true,
        } by {
            assert(node_error(nodes@[i]) is None);
        }
    }
    if let Err(message) = r {
        if device_pointers == 0 {
            let k = choose|k: int|
                0 <= k < nodes@.len() && accepted_before(nodes@, k) && node_error(
                    #[trigger] nodes@[k],
                ) == Some(message@);
            assert(nodes@[k] is ConstantF64 ==> nodes@.contains(FrontendNode::ConstantF64));
        }
    }
}

} // verus!
