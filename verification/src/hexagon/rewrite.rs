//! The rules that lower primitive operations to the Hexagon dialect.

use vstd::prelude::*;

use crate::dtype::DType;
use crate::hexagon::kernel::MatmulVariant;
use crate::rules::{
    dtype_of, dtype_of_term, field, field_term, inputs1, inputs2, lemma_position_of_three,
    lemma_position_of_two, list2, list3, list_of_three, list_of_two, one_input, op, op_term,
    position_of, product, product_term, rule_views, sort_views, two_inputs, value_of, FieldKind, HlirOp, Rule,
    RuleView, SortClass, SortDef, SortView, Term,
};

verus! {

pub const HEXAGON_ADD: &'static str = "HexagonAdd";

pub const HEXAGON_MUL: &'static str = "HexagonMul";

pub const HEXAGON_MATMUL_I8: &'static str = "HexagonMatmulI8";

/// The rule that lowers a primitive of two single-precision arguments.
pub open spec fn f32_binary_rule(hlir: HlirOp, hexagon: &'static str) -> RuleView {
    RuleView::Rewrite {
        left: Term::Matched(hlir),
        right: op_term(Term::FromMatched(hexagon), Term::MatchedInputs),
        subsumes: true,
        dtype: Term::DType(DType::F32),
        facts: seq![
            (dtype_of_term(Term::Matching("inp_a")), Term::DType(DType::F32)),
            (dtype_of_term(Term::Matching("inp_b")), Term::DType(DType::F32)),
        ],
        ruleset: "kernel_lower",
        name: None,
    }
}

/// The rule that lowers a primitive of two single-precision arguments.
pub fn f32_binary_rewrite(hlir: HlirOp, hexagon: &'static str) -> (r: Rule)
    ensures
        r@ == f32_binary_rule(hlir, hexagon),
{
    let facts = vec![
        (dtype_of(Term::Matching("inp_a")), Term::DType(DType::F32)),
        (dtype_of(Term::Matching("inp_b")), Term::DType(DType::F32)),
    ];
    proof {
        assert(facts@ == f32_binary_rule(hlir, hexagon)->Rewrite_facts);
    }
    Rule::Rewrite {
        left: Term::Matched(hlir),
        right: op(Term::FromMatched(hexagon), Term::MatchedInputs),
        subsumes: true,
        dtype: Term::DType(DType::F32),
        facts,
        ruleset: "kernel_lower",
        name: None,
    }
}

pub const I8_M: &'static str = "?hexagon_i8_m";

pub const I8_N: &'static str = "?hexagon_i8_n";

pub const I8_K: &'static str = "?hexagon_i8_k";

pub const I8_LHS: &'static str = "?hexagon_i8_lhs";

pub const I8_RHS: &'static str = "?hexagon_i8_rhs";

pub const I8_LHS_CAST_SIZE: &'static str = "?hexagon_i8_lhs_cast_size";

pub const I8_RHS_CAST_SIZE: &'static str = "?hexagon_i8_rhs_cast_size";

/// The stride of a row of `k` elements.
pub open spec fn row_of_k() -> Term {
    product_term(Term::Unit, Term::Var(I8_K))
}

/// The stride of a plane of `k` times `n` elements.
pub open spec fn plane() -> Term {
    product_term(row_of_k(), Term::Var(I8_N))
}

/// The strides with which the product reads the left operand.
pub open spec fn lhs_strides() -> Term {
    list_of_three(row_of_k(), Term::Num(0), Term::Unit)
}

/// The strides with which the product reads the right operand.
pub open spec fn rhs_strides() -> Term {
    list_of_three(Term::Num(0), row_of_k(), Term::Unit)
}

/// The strides with which the product is written.
pub open spec fn product_strides() -> Term {
    list_of_three(plane(), row_of_k(), Term::Unit)
}

/// The strides with which the sum finds the start of what it adds up.
pub open spec fn sum_strides() -> Term {
    list_of_two(plane(), row_of_k())
}

/// The strides with which the sum is written.
pub open spec fn output_strides() -> Term {
    list_of_two(product_term(Term::Unit, Term::Var(I8_N)), Term::Unit)
}

/// A cast to 32-bit integers.
pub open spec fn int_cast(size: &'static str, operand: &'static str) -> Term {
    op_term(
        Term::Primitive {
            op: HlirOp::Cast,
            fields: Box::new(
                field_term(
                    "size",
                    Term::Var(size),
                    field_term("dtype", Term::DType(DType::Int), Term::FieldNil),
                ),
            ),
        },
        one_input(Term::Var(operand)),
    )
}

/// The product of the two cast operands, broadcast to `[m, n, k]`.
pub open spec fn broadcast_product() -> Term {
    op_term(
        Term::Primitive {
            op: HlirOp::Mul,
            fields: Box::new(
                field_term(
                    "shape",
                    list_of_three(Term::Var(I8_M), Term::Var(I8_N), Term::Var(I8_K)),
                    field_term(
                        "a_strides",
                        lhs_strides(),
                        field_term(
                            "b_strides",
                            rhs_strides(),
                            field_term("out_strides", product_strides(), Term::FieldNil),
                        ),
                    ),
                ),
            ),
        },
        two_inputs(int_cast(I8_LHS_CAST_SIZE, I8_LHS), int_cast(I8_RHS_CAST_SIZE, I8_RHS)),
    )
}

/// The sum over `k` of the product.
pub open spec fn contraction() -> Term {
    op_term(
        Term::Primitive {
            op: HlirOp::SumReduce,
            fields: Box::new(
                field_term(
                    "shape",
                    list_of_two(Term::Var(I8_M), Term::Var(I8_N)),
                    field_term(
                        "iters",
                        Term::Var(I8_K),
                        field_term(
                            "strides",
                            sum_strides(),
                            field_term(
                                "iter_stride",
                                Term::Unit,
                                field_term("out_strides", output_strides(), Term::FieldNil),
                            ),
                        ),
                    ),
                ),
            ),
        },
        one_input(broadcast_product()),
    )
}

/// The matrix product on the device under one of its schedules.
pub open spec fn matmul_i8(variant: MatmulVariant) -> Term {
    op_term(
        Term::Dialect {
            name: HEXAGON_MATMUL_I8,
            fields: Box::new(
                field_term(
                    "m",
                    Term::Var(I8_M),
                    field_term(
                        "n",
                        Term::Var(I8_N),
                        field_term(
                            "k",
                            Term::Var(I8_K),
                            field_term("variant", Term::Int(variant.code() as i64), Term::FieldNil),
                        ),
                    ),
                ),
            ),
        },
        two_inputs(Term::Var(I8_LHS), Term::Var(I8_RHS)),
    )
}

/// The rule that lowers the contraction to one of the schedules.
pub open spec fn matmul_i8_rule(variant: MatmulVariant) -> RuleView {
    RuleView::Rewrite {
        left: contraction(),
        right: matmul_i8(variant),
        subsumes: false,
        dtype: Term::DType(DType::Int),
        facts: seq![
            (dtype_of_term(contraction()), Term::DType(DType::Int)),
            (dtype_of_term(Term::Var(I8_LHS)), Term::DType(DType::I8)),
            (dtype_of_term(Term::Var(I8_RHS)), Term::DType(DType::I8)),
        ],
        ruleset: "kernel_lower",
        name: Some(
            match variant {
                MatmulVariant::Scalar => "hexagon-i8-matmul-scalar",
                MatmulVariant::Hvx => "hexagon-i8-matmul-hvx",
            },
        ),
    }
}

fn write_int_cast(size: &'static str, operand: &'static str) -> (r: Term)
    ensures
        r == int_cast(size, operand),
{
    op(
        Term::Primitive {
            op: HlirOp::Cast,
            fields: Box::new(
                field(
                    "size",
                    Term::Var(size),
                    field("dtype", Term::DType(DType::Int), Term::FieldNil),
                ),
            ),
        },
        inputs1(Term::Var(operand)),
    )
}

fn write_contraction() -> (r: Term)
    ensures
        r == contraction(),
{
    let k_stride = product(Term::Unit, Term::Var(I8_K));
    let plane_stride = product(k_stride.copy(), Term::Var(I8_N));
    let lhs = list3(k_stride.copy(), Term::Num(0), Term::Unit);
    let rhs = list3(Term::Num(0), k_stride.copy(), Term::Unit);
    // The extracted kernel consumes row-major contiguous buffers. The row-major
    // strides of the [m, n, k] product start from the reserved unit stride;
    // reducing k leaves the first two as the input strides of the sum.
    let product_out = list3(plane_stride.copy(), k_stride.copy(), Term::Unit);
    let mul_op = op(
        Term::Primitive {
            op: HlirOp::Mul,
            fields: Box::new(
                field(
                    "shape",
                    list3(Term::Var(I8_M), Term::Var(I8_N), Term::Var(I8_K)),
                    field(
                        "a_strides",
                        lhs,
                        field(
                            "b_strides",
                            rhs,
                            field("out_strides", product_out, Term::FieldNil),
                        ),
                    ),
                ),
            ),
        },
        inputs2(
            write_int_cast(I8_LHS_CAST_SIZE, I8_LHS),
            write_int_cast(I8_RHS_CAST_SIZE, I8_RHS),
        ),
    );
    let out = list2(product(Term::Unit, Term::Var(I8_N)), Term::Unit);
    op(
        Term::Primitive {
            op: HlirOp::SumReduce,
            fields: Box::new(
                field(
                    "shape",
                    list2(Term::Var(I8_M), Term::Var(I8_N)),
                    field(
                        "iters",
                        Term::Var(I8_K),
                        field(
                            "strides",
                            list2(plane_stride, k_stride),
                            field(
                                "iter_stride",
                                Term::Unit,
                                field("out_strides", out, Term::FieldNil),
                            ),
                        ),
                    ),
                ),
            ),
        },
        inputs1(mul_op),
    )
}

fn write_matmul_i8(variant: MatmulVariant) -> (r: Term)
    ensures
        r == matmul_i8(variant),
{
    op(
        Term::Dialect {
            name: HEXAGON_MATMUL_I8,
            fields: Box::new(
                field(
                    "m",
                    Term::Var(I8_M),
                    field(
                        "n",
                        Term::Var(I8_N),
                        field(
                            "k",
                            Term::Var(I8_K),
                            field("variant", Term::Int(variant.to_i64()), Term::FieldNil),
                        ),
                    ),
                ),
            ),
        },
        inputs2(Term::Var(I8_LHS), Term::Var(I8_RHS)),
    )
}

/// The rules that match the canonical 2D contraction for I8 storage with
/// explicit I32 input casts:
///
/// ```text
/// Sum(Mul(Cast(Int, A[I8]), Cast(Int, B[I8])))
/// ```
///
/// The physical right operand is `[n, k]`, which is the ordinary row-major
/// weight layout for a logical `A[m, k] x B[k, n]`. No transpose buffer is
/// created.
pub fn matmul_i8_rewrites() -> (r: Vec<Rule>)
    ensures
        rule_views(r@) == seq![
            matmul_i8_rule(MatmulVariant::Scalar),
            matmul_i8_rule(MatmulVariant::Hvx),
        ],
{
    let scalar = matmul_i8_rewrite(MatmulVariant::Scalar);
    let hvx = matmul_i8_rewrite(MatmulVariant::Hvx);
    vec![scalar, hvx]
}

fn matmul_i8_rewrite(variant: MatmulVariant) -> (r: Rule)
    ensures
        r@ == matmul_i8_rule(variant),
{
    let sum_op = write_contraction();
    let facts = vec![
        (dtype_of(sum_op.copy()), Term::DType(DType::Int)),
        (dtype_of(Term::Var(I8_LHS)), Term::DType(DType::I8)),
        (dtype_of(Term::Var(I8_RHS)), Term::DType(DType::I8)),
    ];
    proof {
        assert(facts@ == matmul_i8_rule(variant)->Rewrite_facts);
    }
    Rule::Rewrite {
        left: sum_op,
        right: write_matmul_i8(variant),
        subsumes: false,
        dtype: Term::DType(DType::Int),
        facts,
        ruleset: "kernel_lower",
        name: Some(
            match variant {
                MatmulVariant::Scalar => "hexagon-i8-matmul-scalar",
                MatmulVariant::Hvx => "hexagon-i8-matmul-hvx",
            },
        ),
    }
}

/// All rules of the dialect.
pub fn hexagon_rewrites() -> (r: Vec<Rule>)
    ensures
        rule_views(r@) == seq![
            f32_binary_rule(HlirOp::Add, HEXAGON_ADD),
            f32_binary_rule(HlirOp::Mul, HEXAGON_MUL),
            matmul_i8_rule(MatmulVariant::Scalar),
            matmul_i8_rule(MatmulVariant::Hvx),
        ],
{
    vec![
        f32_binary_rewrite(HlirOp::Add, HEXAGON_ADD),
        f32_binary_rewrite(HlirOp::Mul, HEXAGON_MUL),
        matmul_i8_rewrite(MatmulVariant::Scalar),
        matmul_i8_rewrite(MatmulVariant::Hvx),
    ]
}

/// The fields of the matrix product.
pub open spec fn matmul_i8_sort_view() -> SortView {
    SortView::Fields {
        class: SortClass::OpKind,
        name: HEXAGON_MATMUL_I8,
        fields: seq![
            ("m", FieldKind::Expr),
            ("n", FieldKind::Expr),
            ("k", FieldKind::Expr),
            ("variant", FieldKind::Int),
        ],
    }
}

/// The fields of the matrix product.
pub fn matmul_i8_sort() -> (r: SortDef)
    ensures
        r@ == matmul_i8_sort_view(),
{
    let fields = vec![
        ("m", FieldKind::Expr),
        ("n", FieldKind::Expr),
        ("k", FieldKind::Expr),
        ("variant", FieldKind::Int),
    ];
    proof {
        assert(fields@ == matmul_i8_sort_view()->Fields_fields);
    }
    SortDef::Fields { class: SortClass::OpKind, name: HEXAGON_MATMUL_I8, fields }
}

/// The operations of the dialect.
pub fn hexagon_sorts() -> (r: Vec<SortDef>)
    ensures
        sort_views(r@) == seq![
            SortView::Binary(HEXAGON_ADD),
            SortView::Binary(HEXAGON_MUL),
            matmul_i8_sort_view(),
        ],
{
    vec![SortDef::Binary(HEXAGON_ADD), SortDef::Binary(HEXAGON_MUL), matmul_i8_sort()]
}

/// Both schedules are offered for the same operations under the same
/// conditions; only the schedule and the rule's name differ.
pub proof fn law_schedules_are_equivalent_choices(a: MatmulVariant, b: MatmulVariant)
    ensures
        matmul_i8_rule(a)->left == matmul_i8_rule(b)->left,
        matmul_i8_rule(a)->Rewrite_facts == matmul_i8_rule(b)->Rewrite_facts,
        matmul_i8_rule(a)->Rewrite_dtype == matmul_i8_rule(b)->Rewrite_dtype,
        !matmul_i8_rule(a)->subsumes,
        a != b ==> matmul_i8_rule(a)->right != matmul_i8_rule(b)->right,
{
    if a != b {
        let x = matmul_i8(a);
        let y = matmul_i8(b);
        assert(x->Op_kind != y->Op_kind) by {
            let fx = *(*x->Op_kind)->Dialect_fields;
            let fy = *(*y->Op_kind)->Dialect_fields;
            assert(*(*(*(*fx->rest)->rest)->rest)->Field_value != *(*(*(*fy->rest)->rest)->rest)->Field_value);
        }
    }
}

/// The matched operation is the product of row-major matrices with the right
/// one stored as `[n, k]`: at `(i, j, l)` it multiplies the elements `i * k + l`
/// and `j * k + l`, and it adds up over `l` into the element `i * n + j`.
pub proof fn law_contraction_is_row_major(
    assignment: spec_fn(&'static str) -> int,
    i: int,
    j: int,
    l: int,
)
    ensures
        ({
            let n = assignment(I8_N);
            let k = assignment(I8_K);
            &&& position_of(lhs_strides(), assignment, seq![i, j, l]) == i * k + l
            &&& position_of(rhs_strides(), assignment, seq![i, j, l]) == j * k + l
            &&& position_of(product_strides(), assignment, seq![i, j, l]) == (i * k * n) + j * k + l
            &&& position_of(sum_strides(), assignment, seq![i, j]) + value_of(
                Term::Unit,
                assignment,
                l,
            ) == position_of(product_strides(), assignment, seq![i, j, l])
            &&& position_of(output_strides(), assignment, seq![i, j]) == i * n + j
        }),
{
    reveal_with_fuel(value_of, 4);
    lemma_position_of_three(row_of_k(), Term::Num(0), Term::Unit, assignment, i, j, l);
    lemma_position_of_three(Term::Num(0), row_of_k(), Term::Unit, assignment, i, j, l);
    lemma_position_of_three(plane(), row_of_k(), Term::Unit, assignment, i, j, l);
    lemma_position_of_two(plane(), row_of_k(), assignment, i, j);
    lemma_position_of_two(
        product_term(Term::Unit, Term::Var(I8_N)),
        Term::Unit,
        assignment,
        i,
        j,
    );
}

} // verus!
