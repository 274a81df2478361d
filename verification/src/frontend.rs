//! Nodes of a frontend graph, as far as a backend decides whether it accepts
//! the graph.

use vstd::prelude::*;

use crate::dtype::DType;

verus! {

/// A node of a frontend graph.
pub enum FrontendNode {
    /// A tensor that the host provides. `dtype_name` is the name of its type.
    Input { label: String, dtype: DType, dtype_name: String },
    /// A conversion. `dtype_name` is the name of the type converted to.
    Cast { dtype: DType, dtype_name: String },
    /// A double-precision constant.
    ConstantF64,
    /// Anything else.
    Other,
}

} // verus!
