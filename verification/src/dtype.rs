//! Element types of tensors.

use vstd::prelude::*;

verus! {

/// The element type of a tensor, as far as the backends tell types apart.
#[derive(Clone, Copy, PartialEq, Eq, Structural, Debug)]
pub enum DType {
    /// 32-bit floating point.
    F32,
    /// 16-bit floating point.
    F16,
    /// 32-bit signed integers.
    Int,
    /// Truth values, one byte each.
    Bool,
    /// 8-bit signed integers.
    I8,
    /// A type that neither backend stores.
    Other,
}

impl DType {
    /// The number of bytes that one stored element takes; none for a type that
    /// is not stored.
    pub open spec fn width(self) -> nat {
        match self {
            DType::F32 => 4,
            DType::F16 => 2,
            DType::Int => 4,
            DType::Bool => 1,
            DType::I8 => 1,
            DType::Other => 0,
        }
    }

    /// The number of bytes that one stored element takes; none for a type that
    /// is not stored.
    pub fn element_bytes(self) -> (r: usize)
        ensures
            r == self.width(),
    {
        match self {
            DType::F32 => 4,
            DType::F16 => 2,
            DType::Int => 4,
            DType::Bool => 1,
            DType::I8 => 1,
            DType::Other => 0,
        }
    }
}

} // verus!
