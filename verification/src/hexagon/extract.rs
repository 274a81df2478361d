//! Building Hexagon operations from the values of their fields.

use vstd::prelude::*;

use crate::children::{child_kinds, kinds_match, lemma_kinds, take_expr, take_int, take_list, Child};
use crate::hexagon::kernel::{BinaryOp, HexagonBinary, HexagonMatmulI8, MatmulVariant};
use crate::hexagon::rewrite::matmul_i8_sort_view;
use crate::rules::{sort_kinds, FieldKind, SortView};

verus! {

/// What the fields of an elementwise operation hold.
pub open spec fn binary_kinds() -> Seq<FieldKind> {
    seq![FieldKind::ExprList, FieldKind::ExprList, FieldKind::ExprList, FieldKind::ExprList]
}

/// An elementwise operation with the given values of its fields.
pub fn extract_binary<E>(function: BinaryOp, children: Vec<Child<E>>) -> (r: Option<
    HexagonBinary<E>,
>)
    ensures
        r is Some <==> child_kinds(children@) == binary_kinds(),
        r matches Some(op) ==> {
            &&& op.function == function
            &&& op.shape == children@[0]->List_0
            &&& op.a_strides == children@[1]->List_0
            &&& op.b_strides == children@[2]->List_0
            &&& op.output_strides == children@[3]->List_0
        },
{
    let kinds = vec![
        FieldKind::ExprList,
        FieldKind::ExprList,
        FieldKind::ExprList,
        FieldKind::ExprList,
    ];
    proof {
        assert(kinds@ == binary_kinds());
    }
    if !kinds_match(&children, &kinds) {
        return None;
    }
    proof {
        lemma_kinds(children@, binary_kinds());
    }
    let mut rest = children;
    let shape = take_list(&mut rest);
    let a_strides = take_list(&mut rest);
    let b_strides = take_list(&mut rest);
    let output_strides = take_list(&mut rest);
    Some(HexagonBinary { function, shape, a_strides, b_strides, output_strides })
}

/// Why a matrix product cannot be built.
#[derive(Clone, Copy, PartialEq, Eq, Structural, Debug)]
pub enum MatmulFieldError {
    /// The values are not those of its fields.
    Fields,
    /// No schedule has this number.
    Variant(i64),
}

/// What the fields of a matrix product hold.
pub open spec fn matmul_i8_kinds() -> Seq<FieldKind> {
    seq![FieldKind::Expr, FieldKind::Expr, FieldKind::Expr, FieldKind::Int]
}

/// A matrix product with the given values of its fields.
pub fn extract_matmul_i8<E>(children: Vec<Child<E>>) -> (r: Result<
    HexagonMatmulI8<E>,
    MatmulFieldError,
>)
    ensures
        match r {
            Ok(op) => {
                &&& child_kinds(children@) == matmul_i8_kinds()
                &&& op.m == children@[0]->Expr_0
                &&& op.n == children@[1]->Expr_0
                &&& op.k == children@[2]->Expr_0
                &&& op.variant.code() == children@[3]->Int_0
            },
            Err(MatmulFieldError::Fields) => child_kinds(children@) != matmul_i8_kinds(),
            Err(MatmulFieldError::Variant(value)) => {
                &&& child_kinds(children@) == matmul_i8_kinds()
                &&& value == children@[3]->Int_0
                &&& value != MatmulVariant::Scalar.code()
                &&& value != MatmulVariant::Hvx.code()
            },
        },
{
    let kinds = vec![FieldKind::Expr, FieldKind::Expr, FieldKind::Expr, FieldKind::Int];
    proof {
        assert(kinds@ == matmul_i8_kinds());
    }
    if !kinds_match(&children, &kinds) {
        return Err(MatmulFieldError::Fields);
    }
    proof {
        lemma_kinds(children@, matmul_i8_kinds());
    }
    let mut rest = children;
    let m = take_expr(&mut rest);
    let n = take_expr(&mut rest);
    let k = take_expr(&mut rest);
    let value = take_int(&mut rest);
    match MatmulVariant::from_i64(value) {
        Some(variant) => Ok(HexagonMatmulI8 { m, n, k, variant }),
        None => Err(MatmulFieldError::Variant(value)),
    }
}

/// The operations are built from the fields that the rules give them, and the
/// schedule that a rule names is the one that is built.
pub proof fn law_fields_are_those_of_the_rules(a: MatmulVariant, b: MatmulVariant)
    ensures
        forall|name: &'static str| #[trigger] sort_kinds(SortView::Binary(name)) == binary_kinds(),
        sort_kinds(matmul_i8_sort_view()) == matmul_i8_kinds(),
        a.code() == b.code() ==> a == b,
{
}

} // verus!
