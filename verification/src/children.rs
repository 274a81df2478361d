//! The values of an operation's fields, as they are read from an extracted
//! graph.

use vstd::prelude::*;

use crate::dtype::DType;
use crate::rules::FieldKind;

verus! {

/// The value of a field.
pub enum Child<E> {
    List(Vec<E>),
    Expr(E),
    /// A node of the graph.
    Operand(usize),
    DType(DType),
    /// A single-precision number, given by its bits.
    Float(u32),
    Int(i64),
}

impl<E> Child<E> {
    /// What kind of value it is.
    pub open spec fn kind(self) -> FieldKind {
        match self {
            Child::List(_) => FieldKind::ExprList,
            Child::Expr(_) => FieldKind::Expr,
            Child::Operand(_) => FieldKind::Operand,
            Child::DType(_) => FieldKind::DType,
            Child::Float(_) => FieldKind::Float,
            Child::Int(_) => FieldKind::Int,
        }
    }

    /// What kind of value it is.
    pub fn field_kind(&self) -> (r: FieldKind)
        ensures
            r == self.kind(),
    {
        match self {
            Child::List(_) => FieldKind::ExprList,
            Child::Expr(_) => FieldKind::Expr,
            Child::Operand(_) => FieldKind::Operand,
            Child::DType(_) => FieldKind::DType,
            Child::Float(_) => FieldKind::Float,
            Child::Int(_) => FieldKind::Int,
        }
    }
}

/// What kinds of values they are.
pub open spec fn child_kinds<E>(children: Seq<Child<E>>) -> Seq<FieldKind> {
    children.map_values(|child: Child<E>| child.kind())
}

/// Takes the first value, a list of expressions.
pub(crate) fn take_list<E>(children: &mut Vec<Child<E>>) -> (r: Vec<E>)
    requires
        old(children)@.len() > 0,
        old(children)@[0] is List,
    ensures
        final(children)@ == old(children)@.skip(1),
        Child::<E>::List(r) == old(children)@[0],
{
    let ghost before = children@;
    let first = children.remove(0);
    proof {
        assert(children@ == before.skip(1));
    }
    match first {
        Child::List(value) => value,
        _ => vstd::pervasive::unreached(),
    }
}

/// Takes the first value, an expression.
pub(crate) fn take_expr<E>(children: &mut Vec<Child<E>>) -> (r: E)
    requires
        old(children)@.len() > 0,
        old(children)@[0] is Expr,
    ensures
        final(children)@ == old(children)@.skip(1),
        Child::<E>::Expr(r) == old(children)@[0],
{
    let ghost before = children@;
    let first = children.remove(0);
    proof {
        assert(children@ == before.skip(1));
    }
    match first {
        Child::Expr(value) => value,
        _ => vstd::pervasive::unreached(),
    }
}

/// Takes the first value, an operand.
pub(crate) fn take_operand<E>(children: &mut Vec<Child<E>>) -> (r: usize)
    requires
        old(children)@.len() > 0,
        old(children)@[0] is Operand,
    ensures
        final(children)@ == old(children)@.skip(1),
        Child::<E>::Operand(r) == old(children)@[0],
{
    let ghost before = children@;
    let first = children.remove(0);
    proof {
        assert(children@ == before.skip(1));
    }
    match first {
        Child::Operand(value) => value,
        _ => vstd::pervasive::unreached(),
    }
}

/// Takes the first value, an element type.
pub(crate) fn take_dtype<E>(children: &mut Vec<Child<E>>) -> (r: DType)
    requires
        old(children)@.len() > 0,
        old(children)@[0] is DType,
    ensures
        final(children)@ == old(children)@.skip(1),
        Child::<E>::DType(r) == old(children)@[0],
{
    let ghost before = children@;
    let first = children.remove(0);
    proof {
        assert(children@ == before.skip(1));
    }
    match first {
        Child::DType(value) => value,
        _ => vstd::pervasive::unreached(),
    }
}

/// Takes the first value, a floating-point number.
pub(crate) fn take_float<E>(children: &mut Vec<Child<E>>) -> (r: u32)
    requires
        old(children)@.len() > 0,
        old(children)@[0] is Float,
    ensures
        final(children)@ == old(children)@.skip(1),
        Child::<E>::Float(r) == old(children)@[0],
{
    let ghost before = children@;
    let first = children.remove(0);
    proof {
        assert(children@ == before.skip(1));
    }
    match first {
        Child::Float(value) => value,
        _ => vstd::pervasive::unreached(),
    }
}

/// Takes the first value, an integer.
pub(crate) fn take_int<E>(children: &mut Vec<Child<E>>) -> (r: i64)
    requires
        old(children)@.len() > 0,
        old(children)@[0] is Int,
    ensures
        final(children)@ == old(children)@.skip(1),
        Child::<E>::Int(r) == old(children)@[0],
{
    let ghost before = children@;
    let first = children.remove(0);
    proof {
        assert(children@ == before.skip(1));
    }
    match first {
        Child::Int(value) => value,
        _ => vstd::pervasive::unreached(),
    }
}

/// Whether the values are of these kinds.
pub(crate) fn kinds_match<E>(children: &Vec<Child<E>>, kinds: &Vec<FieldKind>) -> (r: bool)
    ensures
        r == (child_kinds(children@) == kinds@),
{
    if children.len() != kinds.len() {
        proof {
            assert(child_kinds(children@).len() != kinds@.len());
        }
        return false;
    }
    for i in 0..children.len()
        invariant
            children@.len() == kinds@.len(),
            forall|j: int| 0 <= j < i ==> (#[trigger] children@[j]).kind() == kinds@[j],
    {
        if children[i].field_kind() != kinds[i] {
            proof {
                assert(child_kinds(children@)[i as int] != kinds@[i as int]);
            }
            return false;
        }
    }
    proof {
        assert(child_kinds(children@) =~= kinds@);
    }
    true
}

/// The kind of each value.
pub(crate) proof fn lemma_kinds<E>(children: Seq<Child<E>>, kinds: Seq<FieldKind>)
    requires
        child_kinds(children) == kinds,
    ensures
        children.len() == kinds.len(),
        forall|i: int| 0 <= i < kinds.len() ==> (#[trigger] children[i]).kind() == kinds[i],
{
    assert forall|i: int| 0 <= i < kinds.len() implies (#[trigger] children[i]).kind() == kinds[i] by {
        assert(child_kinds(children)[i] == children[i].kind());
    }
}

} // verus!
