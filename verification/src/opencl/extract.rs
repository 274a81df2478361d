//! Building OpenCL operations from the values of their fields.
//!
//! The operands that are no fields stand beside them and are passed on as they
//! are.

use vstd::prelude::*;

use crate::children::{
    child_kinds, kinds_match, lemma_kinds, take_dtype, take_expr, take_float, take_list,
    take_operand, Child,
};
use crate::opencl::kernel::{
    BinaryFunction, OpenClBinary, OpenClCast, OpenClConstant, OpenClGather, OpenClIota,
    OpenClLessThan, OpenClMatmul, OpenClMaxReduce, OpenClScatter, OpenClSumReduce, OpenClUnary,
    UnaryFunction,
};
use crate::opencl::rewrite::{
    cast_sort_view, constant_sort_view, gather_sort_view, iota_sort_view, matmul_sort_view,
    scatter_sort_view,
};
use crate::rules::{sort_kinds, FieldKind, SortView};

verus! {

/// What the fields of an operation of one argument hold.
pub open spec fn unary_kinds() -> Seq<FieldKind> {
    seq![
        FieldKind::ExprList,
        FieldKind::ExprList,
        FieldKind::ExprList,
    ]
}

/// An operation of one argument with the given values of its fields.
pub fn extract_unary<E>(
    function: UnaryFunction,
    children: Vec<Child<E>>,
) -> (r: Option<OpenClUnary<E>>)
    ensures
        r is Some <==> child_kinds(children@) == unary_kinds(),
        r matches Some(op) ==> {
            &&& op.function == function
            &&& op.shape == children@[0]->List_0
            &&& op.input_strides == children@[1]->List_0
            &&& op.output_strides == children@[2]->List_0
        },
{
    let kinds = vec![
        FieldKind::ExprList,
        FieldKind::ExprList,
        FieldKind::ExprList,
    ];
    proof {
        assert(kinds@ == unary_kinds());
    }
    if !kinds_match(&children, &kinds) {
        return None;
    }
    proof {
        lemma_kinds(children@, unary_kinds());
    }
    let mut rest = children;
    let shape = take_list(&mut rest);
    let input_strides = take_list(&mut rest);
    let output_strides = take_list(&mut rest);
    Some(OpenClUnary { function, shape, input_strides, output_strides })
}

/// What the fields of an operation of two arguments hold.
pub open spec fn binary_kinds() -> Seq<FieldKind> {
    seq![
        FieldKind::ExprList,
        FieldKind::ExprList,
        FieldKind::ExprList,
        FieldKind::ExprList,
    ]
}

/// An operation of two arguments with the given values of its fields.
pub fn extract_binary<E>(
    function: BinaryFunction,
    children: Vec<Child<E>>,
) -> (r: Option<OpenClBinary<E>>)
    ensures
        r is Some <==> child_kinds(children@) == binary_kinds(),
        r matches Some(op) ==> {
            &&& op.function == function
            &&& op.shape == children@[0]->List_0
            &&& op.a_strides == children@[1]->List_0
            &&& op.b_strides == children@[2]->List_0
            &&& op.output_strides == children@[3]->List_0
        },
{
    let kinds = vec![
        FieldKind::ExprList,
        FieldKind::ExprList,
        FieldKind::ExprList,
        FieldKind::ExprList,
    ];
    proof {
        assert(kinds@ == binary_kinds());
    }
    if !kinds_match(&children, &kinds) {
        return None;
    }
    proof {
        lemma_kinds(children@, binary_kinds());
    }
    let mut rest = children;
    let shape = take_list(&mut rest);
    let a_strides = take_list(&mut rest);
    let b_strides = take_list(&mut rest);
    let output_strides = take_list(&mut rest);
    Some(OpenClBinary { function, shape, a_strides, b_strides, output_strides })
}

/// What the fields of a comparison hold.
pub open spec fn less_than_kinds() -> Seq<FieldKind> {
    seq![
        FieldKind::ExprList,
        FieldKind::ExprList,
        FieldKind::ExprList,
        FieldKind::ExprList,
    ]
}

/// A comparison with the given values of its fields.
pub fn extract_less_than<E>(
    children: Vec<Child<E>>,
) -> (r: Option<OpenClLessThan<E>>)
    ensures
        r is Some <==> child_kinds(children@) == less_than_kinds(),
        r matches Some(op) ==> {
            &&& op.shape == children@[0]->List_0
            &&& op.a_strides == children@[1]->List_0
            &&& op.b_strides == children@[2]->List_0
            &&& op.output_strides == children@[3]->List_0
        },
{
    let kinds = vec![
        FieldKind::ExprList,
        FieldKind::ExprList,
        FieldKind::ExprList,
        FieldKind::ExprList,
    ];
    proof {
        assert(kinds@ == less_than_kinds());
    }
    if !kinds_match(&children, &kinds) {
        return None;
    }
    proof {
        lemma_kinds(children@, less_than_kinds());
    }
    let mut rest = children;
    let shape = take_list(&mut rest);
    let a_strides = take_list(&mut rest);
    let b_strides = take_list(&mut rest);
    let output_strides = take_list(&mut rest);
    Some(OpenClLessThan { shape, a_strides, b_strides, output_strides })
}

/// What the fields of a sum hold.
pub open spec fn sum_reduce_kinds() -> Seq<FieldKind> {
    seq![
        FieldKind::ExprList,
        FieldKind::Expr,
        FieldKind::ExprList,
        FieldKind::Expr,
        FieldKind::ExprList,
    ]
}

/// A sum with the given values of its fields.
pub fn extract_sum_reduce<E>(
    children: Vec<Child<E>>,
) -> (r: Option<OpenClSumReduce<E>>)
    ensures
        r is Some <==> child_kinds(children@) == sum_reduce_kinds(),
        r matches Some(op) ==> {
            &&& op.out_shape == children@[0]->List_0
            &&& op.iters == children@[1]->Expr_0
            &&& op.input_strides == children@[2]->List_0
            &&& op.iter_stride == children@[3]->Expr_0
            &&& op.output_strides == children@[4]->List_0
        },
{
    let kinds = vec![
        FieldKind::ExprList,
        FieldKind::Expr,
        FieldKind::ExprList,
        FieldKind::Expr,
        FieldKind::ExprList,
    ];
    proof {
        assert(kinds@ == sum_reduce_kinds());
    }
    if !kinds_match(&children, &kinds) {
        return None;
    }
    proof {
        lemma_kinds(children@, sum_reduce_kinds());
    }
    let mut rest = children;
    let out_shape = take_list(&mut rest);
    let iters = take_expr(&mut rest);
    let input_strides = take_list(&mut rest);
    let iter_stride = take_expr(&mut rest);
    let output_strides = take_list(&mut rest);
    Some(OpenClSumReduce { out_shape, iters, input_strides, iter_stride, output_strides })
}

/// What the fields of a maximum hold.
pub open spec fn max_reduce_kinds() -> Seq<FieldKind> {
    seq![
        FieldKind::ExprList,
        FieldKind::Expr,
        FieldKind::ExprList,
        FieldKind::Expr,
        FieldKind::ExprList,
    ]
}

/// A maximum with the given values of its fields.
pub fn extract_max_reduce<E>(
    children: Vec<Child<E>>,
) -> (r: Option<OpenClMaxReduce<E>>)
    ensures
        r is Some <==> child_kinds(children@) == max_reduce_kinds(),
        r matches Some(op) ==> {
            &&& op.out_shape == children@[0]->List_0
            &&& op.iters == children@[1]->Expr_0
            &&& op.input_strides == children@[2]->List_0
            &&& op.iter_stride == children@[3]->Expr_0
            &&& op.output_strides == children@[4]->List_0
        },
{
    let kinds = vec![
        FieldKind::ExprList,
        FieldKind::Expr,
        FieldKind::ExprList,
        FieldKind::Expr,
        FieldKind::ExprList,
    ];
    proof {
        assert(kinds@ == max_reduce_kinds());
    }
    if !kinds_match(&children, &kinds) {
        return None;
    }
    proof {
        lemma_kinds(children@, max_reduce_kinds());
    }
    let mut rest = children;
    let out_shape = take_list(&mut rest);
    let iters = take_expr(&mut rest);
    let input_strides = take_list(&mut rest);
    let iter_stride = take_expr(&mut rest);
    let output_strides = take_list(&mut rest);
    Some(OpenClMaxReduce { out_shape, iters, input_strides, iter_stride, output_strides })
}

/// What the fields of a fused matrix product hold.
pub open spec fn matmul_kinds() -> Seq<FieldKind> {
    seq![
        FieldKind::ExprList,
        FieldKind::ExprList,
        FieldKind::Expr,
        FieldKind::Operand,
        FieldKind::ExprList,
        FieldKind::Operand,
        FieldKind::ExprList,
        FieldKind::ExprList,
        FieldKind::Expr,
        FieldKind::ExprList,
    ]
}

/// A fused matrix product with the given values of its fields, and its operands.
pub fn extract_matmul<E>(
    children: Vec<Child<E>>,
) -> (r: Option<(OpenClMatmul<E>, Vec<usize>)>)
    ensures
        r is Some <==> child_kinds(children@) == matmul_kinds(),
        r matches Some((op, operands)) ==> {
            &&& op.out_shape == children@[0]->List_0
            &&& op.mul_shape == children@[1]->List_0
            &&& op.k == children@[2]->Expr_0
            &&& op.lhs_strides == children@[4]->List_0
            &&& op.rhs_strides == children@[6]->List_0
            &&& op.sum_input_strides == children@[7]->List_0
            &&& op.sum_iter_stride == children@[8]->Expr_0
            &&& op.out_strides == children@[9]->List_0
            &&& operands@ == seq![children@[3]->Operand_0, children@[5]->Operand_0]
        },
{
    let kinds = vec![
        FieldKind::ExprList,
        FieldKind::ExprList,
        FieldKind::Expr,
        FieldKind::Operand,
        FieldKind::ExprList,
        FieldKind::Operand,
        FieldKind::ExprList,
        FieldKind::ExprList,
        FieldKind::Expr,
        FieldKind::ExprList,
    ];
    proof {
        assert(kinds@ == matmul_kinds());
    }
    if !kinds_match(&children, &kinds) {
        return None;
    }
    proof {
        lemma_kinds(children@, matmul_kinds());
    }
    let mut rest = children;
    let out_shape = take_list(&mut rest);
    let mul_shape = take_list(&mut rest);
    let k = take_expr(&mut rest);
    let lhs = take_operand(&mut rest);
    let lhs_strides = take_list(&mut rest);
    let rhs = take_operand(&mut rest);
    let rhs_strides = take_list(&mut rest);
    let sum_input_strides = take_list(&mut rest);
    let sum_iter_stride = take_expr(&mut rest);
    let out_strides = take_list(&mut rest);
    let operands = vec![lhs, rhs];
    Some((OpenClMatmul { out_shape, mul_shape, k, lhs_strides, rhs_strides, sum_input_strides, sum_iter_stride, out_strides }, operands))
}

/// What the fields of a constant hold.
pub open spec fn constant_kinds() -> Seq<FieldKind> {
    seq![
        FieldKind::Float,
    ]
}

/// A constant with the given values of its fields.
pub fn extract_constant<E>(
    children: Vec<Child<E>>,
) -> (r: Option<OpenClConstant>)
    ensures
        r is Some <==> child_kinds(children@) == constant_kinds(),
        r matches Some(op) ==> {
            &&& op.bits == children@[0]->Float_0
        },
{
    let kinds = vec![
        FieldKind::Float,
    ];
    proof {
        assert(kinds@ == constant_kinds());
    }
    if !kinds_match(&children, &kinds) {
        return None;
    }
    proof {
        lemma_kinds(children@, constant_kinds());
    }
    let mut rest = children;
    let bits = take_float(&mut rest);
    Some(OpenClConstant { bits })
}

/// What the fields of a function of the element number hold.
pub open spec fn iota_kinds() -> Seq<FieldKind> {
    seq![
        FieldKind::Expr,
        FieldKind::Expr,
    ]
}

/// A function of the element number with the given values of its fields.
pub fn extract_iota<E>(
    children: Vec<Child<E>>,
) -> (r: Option<OpenClIota<E>>)
    ensures
        r is Some <==> child_kinds(children@) == iota_kinds(),
        r matches Some(op) ==> {
            &&& op.expression == children@[0]->Expr_0
            &&& op.range == children@[1]->Expr_0
        },
{
    let kinds = vec![
        FieldKind::Expr,
        FieldKind::Expr,
    ];
    proof {
        assert(kinds@ == iota_kinds());
    }
    if !kinds_match(&children, &kinds) {
        return None;
    }
    proof {
        lemma_kinds(children@, iota_kinds());
    }
    let mut rest = children;
    let expression = take_expr(&mut rest);
    let range = take_expr(&mut rest);
    Some(OpenClIota { expression, range })
}

/// What the fields of reads by index hold.
pub open spec fn gather_kinds() -> Seq<FieldKind> {
    seq![
        FieldKind::ExprList,
        FieldKind::Operand,
        FieldKind::ExprList,
        FieldKind::Operand,
        FieldKind::ExprList,
        FieldKind::ExprList,
        FieldKind::ExprList,
    ]
}

/// Reads by index with the given values of its fields, and its operands.
pub fn extract_gather<E>(
    children: Vec<Child<E>>,
) -> (r: Option<(OpenClGather<E>, Vec<usize>)>)
    ensures
        r is Some <==> child_kinds(children@) == gather_kinds(),
        r matches Some((op, operands)) ==> {
            &&& op.out_shape == children@[0]->List_0
            &&& op.index_strides == children@[2]->List_0
            &&& op.data_shape == children@[4]->List_0
            &&& op.data_strides == children@[5]->List_0
            &&& op.out_strides == children@[6]->List_0
            &&& operands@ == seq![children@[1]->Operand_0, children@[3]->Operand_0]
        },
{
    let kinds = vec![
        FieldKind::ExprList,
        FieldKind::Operand,
        FieldKind::ExprList,
        FieldKind::Operand,
        FieldKind::ExprList,
        FieldKind::ExprList,
        FieldKind::ExprList,
    ];
    proof {
        assert(kinds@ == gather_kinds());
    }
    if !kinds_match(&children, &kinds) {
        return None;
    }
    proof {
        lemma_kinds(children@, gather_kinds());
    }
    let mut rest = children;
    let out_shape = take_list(&mut rest);
    let indexes = take_operand(&mut rest);
    let index_strides = take_list(&mut rest);
    let data = take_operand(&mut rest);
    let data_shape = take_list(&mut rest);
    let data_strides = take_list(&mut rest);
    let out_strides = take_list(&mut rest);
    let operands = vec![indexes, data];
    Some((OpenClGather { out_shape, index_strides, data_shape, data_strides, out_strides }, operands))
}

/// What the fields of writes by index hold.
pub open spec fn scatter_kinds() -> Seq<FieldKind> {
    seq![
        FieldKind::ExprList,
        FieldKind::ExprList,
        FieldKind::Operand,
        FieldKind::Operand,
        FieldKind::ExprList,
        FieldKind::ExprList,
        FieldKind::Operand,
        FieldKind::ExprList,
        FieldKind::ExprList,
    ]
}

/// Writes by index with the given values of its fields, and its operands.
pub fn extract_scatter<E>(
    children: Vec<Child<E>>,
) -> (r: Option<(OpenClScatter<E>, Vec<usize>)>)
    ensures
        r is Some <==> child_kinds(children@) == scatter_kinds(),
        r matches Some((op, operands)) ==> {
            &&& op.dest_shape == children@[0]->List_0
            &&& op.dest_strides == children@[1]->List_0
            &&& op.index_shape == children@[4]->List_0
            &&& op.index_strides == children@[5]->List_0
            &&& op.src_strides == children@[7]->List_0
            &&& op.out_strides == children@[8]->List_0
            &&& operands@ == seq![children@[2]->Operand_0, children@[3]->Operand_0, children@[6]->Operand_0]
        },
{
    let kinds = vec![
        FieldKind::ExprList,
        FieldKind::ExprList,
        FieldKind::Operand,
        FieldKind::Operand,
        FieldKind::ExprList,
        FieldKind::ExprList,
        FieldKind::Operand,
        FieldKind::ExprList,
        FieldKind::ExprList,
    ];
    proof {
        assert(kinds@ == scatter_kinds());
    }
    if !kinds_match(&children, &kinds) {
        return None;
    }
    proof {
        lemma_kinds(children@, scatter_kinds());
    }
    let mut rest = children;
    let dest_shape = take_list(&mut rest);
    let dest_strides = take_list(&mut rest);
    let dest = take_operand(&mut rest);
    let indexes = take_operand(&mut rest);
    let index_shape = take_list(&mut rest);
    let index_strides = take_list(&mut rest);
    let src = take_operand(&mut rest);
    let src_strides = take_list(&mut rest);
    let out_strides = take_list(&mut rest);
    let operands = vec![dest, indexes, src];
    Some((OpenClScatter { dest_shape, dest_strides, index_shape, index_strides, src_strides, out_strides }, operands))
}

/// What the fields of a conversion hold.
pub open spec fn cast_kinds() -> Seq<FieldKind> {
    seq![
        FieldKind::Operand,
        FieldKind::Expr,
        FieldKind::DType,
    ]
}

/// A conversion with the given values of its fields, and its operands.
pub fn extract_cast<E>(
    children: Vec<Child<E>>,
) -> (r: Option<(OpenClCast<E>, Vec<usize>)>)
    ensures
        r is Some <==> child_kinds(children@) == cast_kinds(),
        r matches Some((op, operands)) ==> {
            &&& op.size == children@[1]->Expr_0
            &&& op.target_dtype == children@[2]->DType_0
            &&& operands@ == seq![children@[0]->Operand_0]
        },
{
    let kinds = vec![
        FieldKind::Operand,
        FieldKind::Expr,
        FieldKind::DType,
    ];
    proof {
        assert(kinds@ == cast_kinds());
    }
    if !kinds_match(&children, &kinds) {
        return None;
    }
    proof {
        lemma_kinds(children@, cast_kinds());
    }
    let mut rest = children;
    let inp = take_operand(&mut rest);
    let size = take_expr(&mut rest);
    let target_dtype = take_dtype(&mut rest);
    let operands = vec![inp];
    Some((OpenClCast { size, target_dtype }, operands))
}

/// The operations are built from the fields that the rules give them.
pub proof fn law_fields_are_those_of_the_rules()
    ensures
        forall|name: &'static str| #[trigger] sort_kinds(SortView::Unary(name)) == unary_kinds(),
        forall|name: &'static str| #[trigger] sort_kinds(SortView::Binary(name)) == binary_kinds(),
        less_than_kinds() == binary_kinds(),
        forall|name: &'static str| #[trigger]
            sort_kinds(SortView::Reduce(name)) == sum_reduce_kinds(),
        max_reduce_kinds() == sum_reduce_kinds(),
        sort_kinds(matmul_sort_view()) == matmul_kinds(),
        sort_kinds(constant_sort_view()) == constant_kinds(),
        sort_kinds(iota_sort_view()) == iota_kinds(),
        sort_kinds(gather_sort_view()) == gather_kinds(),
        sort_kinds(scatter_sort_view()) == scatter_kinds(),
        sort_kinds(cast_sort_view()) == cast_kinds(),
{
}

} // verus!
