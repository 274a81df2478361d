//! The slots of dynamic dimensions in the buffer that kernels read them from.

use std::collections::HashMap;

use vstd::prelude::*;
use vstd::string::StringExecFns;

use crate::text::{decimal_text, law_decimal_reads_back, push_decimal, read_decimal};

verus! {

/// The dynamic dimensions that kernels read, in the order of their slots.
pub struct DynDims {
    order: Vec<u64>,
}

/// A dimension that kernels read but that has no value.
#[derive(Clone, Copy, PartialEq, Eq, Structural, Debug)]
pub struct UnboundDim {
    pub dim: u64,
    pub slot: usize,
}

/// The dimensions after `symbol` has been given a slot.
pub open spec fn with_slot(order: Seq<u64>, symbol: u64) -> Seq<u64> {
    if order.contains(symbol) {
        order
    } else {
        order.push(symbol)
    }
}

/// The slot of a dimension that has one.
pub open spec fn slot_of(order: Seq<u64>, symbol: u64) -> int {
    order.index_of(symbol)
}

/// What a kernel writes for a dimension with this slot.
pub open spec fn slot_text(slot: int) -> Seq<char> {
    "dyn["@ + decimal_text(slot as nat) + "]"@
}

/// A value as the 32-bit integer that kernels read.
pub open spec fn dim_value(value: usize) -> i32 {
    let word = value as int % 0x1_0000_0000;
    (if word < 0x8000_0000 {
        word
    } else {
        word - 0x1_0000_0000
    }) as i32
}

fn to_dim_value(value: usize) -> (r: i32)
    ensures
        r == dim_value(value),
{
    let wide = value as u64;
    let word = wide as u32;
    proof {
        assert(word == wide % 0x1_0000_0000) by (bit_vector)
            requires
                word == wide as u32,
        ;
        assert(word < 0x8000_0000 ==> word as i32 == word) by (bit_vector);
        assert(word >= 0x8000_0000 ==> word as i32 == word - 0x1_0000_0000) by (bit_vector);
    }
    word as i32
}

impl View for DynDims {
    type V = Seq<u64>;

    closed spec fn view(&self) -> Seq<u64> {
        self.order@
    }
}

impl DynDims {
    /// No dimension has two slots.
    pub open spec fn wf(self) -> bool {
        self@.no_duplicates()
    }

    /// No dimensions.
    pub fn new() -> (r: Self)
        ensures
            r.wf(),
            r@ == Seq::<u64>::empty(),
    {
        DynDims { order: Vec::new() }
    }

    /// Forgets all dimensions.
    pub fn clear_dyn_dims_order(&mut self)
        ensures
            final(self).wf(),
            final(self)@ == Seq::<u64>::empty(),
    {
        self.order.clear();
    }

    /// The dimensions in the order of their slots.
    pub fn dyn_dims_order(&self) -> (r: Vec<u64>)
        ensures
            r@ == self@,
    {
        let mut order: Vec<u64> = Vec::new();
        for i in 0..self.order.len()
            invariant
                order@ == self.order@.take(i as int),
        {
            order.push(self.order[i]);
        }
        order
    }

    /// The slot of a dimension: the one it has, or the next.
    pub fn dyn_slot(&mut self, symbol: u64) -> (r: usize)
        requires
            old(self).wf(),
        ensures
            final(self).wf(),
            final(self)@ == with_slot(old(self)@, symbol),
            r == slot_of(final(self)@, symbol),
            r < final(self)@.len(),
            final(self)@[r as int] == symbol,
    {
        for i in 0..self.order.len()
            invariant
                self.wf(),
                *self == *old(self),
                forall|j: int| 0 <= j < i ==> self.order@[j] != symbol,
        {
            if self.order[i] == symbol {
                return i;
            }
        }
        let slot = self.order.len();
        self.order.push(symbol);
        proof {
            assert(self@[slot as int] == symbol);
            assert(self@.contains(symbol));
        }
        slot
    }

    /// What a kernel writes for a dimension.
    pub fn symbol_text(&mut self, symbol: u64) -> (r: String)
        requires
            old(self).wf(),
        ensures
            final(self).wf(),
            final(self)@ == with_slot(old(self)@, symbol),
            r@ == slot_text(slot_of(final(self)@, symbol)),
    {
        let slot = self.dyn_slot(symbol);
        let mut text = "dyn[".to_owned();
        push_decimal(&mut text, slot as u64);
        text.append("]");
        text
    }

    /// The number of values that the buffer holds: one for each dimension, but
    /// at least one.
    pub fn buffer_len(&self) -> (r: usize)
        ensures
            r == (if self@.len() == 0 { 1 } else { self@.len() }),
    {
        if self.order.len() == 0 {
            1
        } else {
            self.order.len()
        }
    }

    /// The values of the dimensions in the order of their slots, and a single
    /// zero where there is no dimension. Every dimension must have a value.
    pub fn values(&self, dyn_map: &HashMap<u64, usize>) -> (r: Result<Vec<i32>, UnboundDim>)
        ensures
            match r {
                Ok(values) => {
                    &&& forall|i: int|
                        0 <= i < self@.len() ==> dyn_map@.contains_key(#[trigger] self@[i])
                    &&& values@ == (if self@.len() == 0 {
                        seq![0i32]
                    } else {
                        Seq::new(self@.len(), |i: int| dim_value(dyn_map@[self@[i]]))
                    })
                },
                Err(unbound) => {
                    &&& unbound.slot < self@.len()
                    &&& unbound.dim == self@[unbound.slot as int]
                    &&& !dyn_map@.contains_key(unbound.dim)
                    &&& forall|i: int|
                        0 <= i < unbound.slot ==> dyn_map@.contains_key(#[trigger] self@[i])
                },
            },
    {
        broadcast use vstd::std_specs::hash::group_hash_axioms;

        let mut values: Vec<i32> = Vec::new();
        for slot in 0..self.order.len()
            invariant
                forall|i: int|
                    0 <= i < slot ==> dyn_map@.contains_key(#[trigger] self.order@[i]),
                values@ == Seq::new(slot as nat, |i: int| dim_value(dyn_map@[self.order@[i]])),
        {
            broadcast use vstd::std_specs::hash::group_hash_axioms;

            let dim = self.order[slot];
            match dyn_map.get(&dim) {
                Some(value) => values.push(to_dim_value(*value)),
                None => return Err(UnboundDim { dim, slot }),
            }
        }
        if values.len() == 0 {
            values.push(0);
        }
        Ok(values)
    }
}

/// A slot, once given, is never taken back or moved by later dimensions.
pub proof fn law_slots_are_stable(order: Seq<u64>, symbol: u64, later: u64)
    requires
        order.no_duplicates(),
        order.contains(symbol),
    ensures
        with_slot(order, later).contains(symbol),
        slot_of(with_slot(order, later), symbol) == slot_of(order, symbol),
        with_slot(order, later).no_duplicates(),
{
    let i = order.index_of(symbol);
    let longer = with_slot(order, later);
    assert(longer[i] == symbol);
    assert(longer.no_duplicates());
}

/// Two dimensions never share a slot.
pub proof fn law_slots_are_distinct(order: Seq<u64>, a: u64, b: u64)
    requires
        order.contains(a),
        order.contains(b),
        a != b,
    ensures
        slot_of(order, a) != slot_of(order, b),
{
}

/// Kernels read the value of the dimension that they mean: where the values are
/// given, the slot that stands in a kernel for a dimension holds the value that
/// the dimension is bound to, for every value that 32 bits hold; values are given
/// unless a dimension is unbound.
pub proof fn law_slot_holds_the_value(
    dims: DynDims,
    dyn_map: HashMap<u64, usize>,
    symbol: u64,
    r: Result<Vec<i32>, UnboundDim>,
)
    requires
        dims@.contains(symbol),
        call_ensures(DynDims::values, (&dims, &dyn_map), r),
    ensures
        match r {
            Ok(values) => {
                let slot = slot_of(dims@, symbol);
                &&& 0 <= slot < values@.len()
                &&& dyn_map@.contains_key(symbol)
                &&& dyn_map@[symbol] < 0x8000_0000 ==> values@[slot] == dyn_map@[symbol]
            },
            Err(unbound) => !dyn_map@.contains_key(unbound.dim) && dims@.contains(unbound.dim),
        },
        dyn_map@.dom() == dims@.to_set() ==> r is Ok,
{
    let slot = slot_of(dims@, symbol);
    assert(dims@[slot] == symbol);
    if let Err(unbound) = r {
        assert(dims@.to_set().contains(unbound.dim));
    }
}

/// The text that stands in a kernel for a dimension names an element of the buffer
/// that holds that dimension, and the dimensions before it keep their elements.
pub proof fn law_symbol_names_its_slot(dims: &mut DynDims, symbol: u64, text: String, k: int)
    requires
        old(dims).wf(),
        call_ensures(DynDims::symbol_text, (dims, symbol), text),
    ensures
        ({
            let slot = read_decimal(text@.subrange(4, text@.len() - 1));
            &&& text@.len() > 5
            &&& text@.take(4) == "dyn["@
            &&& text@.last() == ']'
            &&& 0 <= slot < final(dims)@.len()
            &&& final(dims)@[slot] == symbol
            &&& 0 <= k < old(dims)@.len() ==> final(dims)@[k] == old(dims)@[k]
            &&& old(dims)@.contains(symbol) ==> final(dims)@ == old(dims)@
            &&& !old(dims)@.contains(symbol) ==> final(dims)@.len() == old(dims)@.len() + 1
        }),
{
    let order = final(dims)@;
    if !old(dims)@.contains(symbol) {
        assert(order[old(dims)@.len() as int] == symbol);
    }
    assert(order.contains(symbol));
    let slot = slot_of(order, symbol);
    let digits = decimal_text(slot as nat);
    reveal_strlit("dyn[");
    reveal_strlit("]");
    law_decimal_reads_back(slot as nat);
    assert(digits.len() > 0);
    assert(text@.take(4) =~= "dyn["@);
    assert(text@.subrange(4, text@.len() - 1) =~= digits);
}

} // verus!
