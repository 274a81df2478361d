//! Dynamic dimensions and the buckets that their values select.
//!
//! A symbolic dimension is named by a number. A program may be compiled once
//! for each of several ranges of a dimension; a bucket says for each dimension
//! which of its ranges the program was compiled for.

use std::collections::HashMap;

use vstd::prelude::*;

verus! {

/// For each range of one dynamic dimension, whether it holds the dimension's
/// current value.
pub struct DimFit {
    pub dim: u64,
    pub fits: Vec<bool>,
}

/// What a dimension is bound to, or zero.
pub open spec fn bound_or_zero(bindings: Map<u64, usize>, dim: u64) -> usize {
    if bindings.contains_key(dim) {
        bindings[dim]
    } else {
        0
    }
}

/// Whether the range that a bucket was compiled for holds the current value of
/// one dimension. A range that does not exist rules nothing out.
pub open spec fn dim_admits(fit: DimFit, indices: Map<u64, usize>) -> bool {
    let index = bound_or_zero(indices, fit.dim);
    index < fit.fits@.len() ==> fit.fits@[index as int]
}

/// Whether a bucket was compiled for the current values of all dimensions.
pub open spec fn bucket_admits(fits: Seq<DimFit>, indices: Map<u64, usize>) -> bool {
    forall|d: int| 0 <= d < fits.len() ==> #[trigger] dim_admits(fits[d], indices)
}

/// What a dimension is bound to, or zero.
pub fn bound_value(bindings: &HashMap<u64, usize>, dim: u64) -> (r: usize)
    ensures
        r == bound_or_zero(bindings@, dim),
{
    broadcast use vstd::std_specs::hash::group_hash_axioms;

    match bindings.get(&dim) {
        Some(value) => *value,
        None => 0,
    }
}

/// Whether a bucket was compiled for the current values of all dimensions.
pub fn admits(fits: &Vec<DimFit>, indices: &HashMap<u64, usize>) -> (r: bool)
    ensures
        r == bucket_admits(fits@, indices@),
{
    for d in 0..fits.len()
        invariant
            forall|e: int| 0 <= e < d ==> #[trigger] dim_admits(fits@[e], indices@),
    {
        let fit = &fits[d];
        let index = bound_value(indices, fit.dim);
        if index < fit.fits.len() && !fit.fits[index] {
            proof {
                assert(!dim_admits(fits@[d as int], indices@));
            }
            return false;
        }
    }
    true
}

} // verus!
